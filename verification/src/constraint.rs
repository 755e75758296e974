//! Constraints and the keys under which a table registers them.

use crate::configuration::{holds_at, lemma_mapping_at, text_of, Setting};
use crate::table::{Metadata, MetadataModel};
use vstd::prelude::*;

verus! {

/// A named predicate that every row it is aimed at satisfies.
#[derive(Debug, PartialEq, Eq)]
pub struct Constraint {
    /// The name of the constraint, or what it is aimed at.
    pub name: String,
    /// The predicate, as text.
    pub expr: String,
}

/// What a [`Constraint`] stands for.
pub struct ConstraintModel {
    pub name: Seq<char>,
    pub expr: Seq<char>,
}

impl View for Constraint {
    type V = ConstraintModel;

    open spec fn view(&self) -> ConstraintModel {
        ConstraintModel { name: self.name@, expr: self.expr@ }
    }
}

impl DeepView for Constraint {
    type V = ConstraintModel;

    open spec fn deep_view(&self) -> ConstraintModel {
        self@
    }
}

impl Constraint {
    /// The constraint `expr` under `name`.
    pub fn new(name: &str, expr: &str) -> (constraint: Self)
        ensures
            constraint@ == (ConstraintModel { name: name@, expr: expr@ }),
    {
        Constraint { name: name.to_owned(), expr: expr.to_owned() }
    }
}

/// The aim of a constraint that is checked on whole rows: every row, not
/// one column.
pub open spec fn every_row() -> Seq<char> {
    "*"@
}

/// The constraint by which `expr` is checked on every row of a table.
pub open spec fn row_check(expr: Seq<char>) -> ConstraintModel {
    ConstraintModel { name: every_row(), expr }
}

/// What the key of every registered constraint begins with.
pub open spec fn key_prefix() -> Seq<char> {
    "constraint."@
}

/// The key under which a table registers the constraint `name`.
pub open spec fn key_of(name: Seq<char>) -> Seq<char> {
    key_prefix() + name
}

/// The predicate that `metadata` registers under `name`, if any.
pub open spec fn registered(metadata: MetadataModel, name: Seq<char>) -> Option<Seq<char>> {
    if metadata.configuration.contains_key(key_of(name)) {
        metadata.configuration[key_of(name)]
    } else {
        None
    }
}

/// The key under which a table registers the constraint `name`.
pub fn constraint_key(name: &str) -> (key: String)
    ensures
        key@ == key_of(name@),
{
    let mut key = String::from_str("constraint.");
    key.append(name);
    key
}

/// The name of the constraint that is registered under `key`, where `key`
/// is the key of a constraint.
pub open spec fn name_of(key: Seq<char>) -> Option<Seq<char>> {
    if key_prefix().is_prefix_of(key) {
        Some(key.skip(key_prefix().len() as int))
    } else {
        None
    }
}

/// A key belongs to the name that it was made of, and to no other.
pub proof fn lemma_key_names(name: Seq<char>, key: Seq<char>)
    ensures
        name_of(key_of(name)) == Some(name),
        name_of(key) == Some(name) <==> key == key_of(name),
{
    assert(key_of(name).subrange(0, key_prefix().len() as int) =~= key_prefix());
    assert(key_of(name).skip(key_prefix().len() as int) =~= name);
    if name_of(key) == Some(name) {
        assert(key =~= key_of(name));
    }
}

/// The name of the constraint that is registered under `key`; `None` for
/// a key of another kind.
pub fn constraint_name(key: &str) -> (name: Option<String>)
    ensures
        text_of(name) == name_of(key@),
{
    let prefix = "constraint.";
    let width = prefix.unicode_len();
    let length = key.unicode_len();
    if length < width {
        return None;
    }
    let mut i: usize = 0;
    while i < width
        invariant
            i <= width,
            width == prefix@.len(),
            prefix@ == key_prefix(),
            width <= key@.len(),
            forall|j: int| 0 <= j < i ==> key@[j] == prefix@[j],
        decreases width - i,
    {
        if key.get_char(i) != prefix.get_char(i) {
            assert(key@.subrange(0, width as int)[i as int] != prefix@[i as int]);
            return None;
        }
        i += 1;
    }
    assert(key@.subrange(0, width as int) =~= prefix@);
    let rest = key.substring_char(width, length);
    assert(key@.subrange(width as int, length as int) =~= key@.skip(width as int));
    Some(rest.to_owned())
}

/// Whether the constraint at `k` of `list` was taken from the setting at
/// `source[k]`.
pub open spec fn taken_from(
    settings: Seq<Setting>,
    list: Seq<Constraint>,
    source: Seq<int>,
    k: int,
) -> bool {
    &&& 0 <= source[k] < settings.len()
    &&& settings[source[k]].key@ == key_of(list[k].name@)
    &&& text_of(settings[source[k]].value) == Some(list[k].expr@)
}

/// Whether the setting at `j` registers a constraint.
pub open spec fn registers(settings: Seq<Setting>, j: int) -> bool {
    name_of(settings[j].key@) is Some && settings[j].value is Some
}

impl Metadata {
    /// The predicate registered under `name`, if any.
    pub fn constraint(&self, name: &str) -> (expr: Option<String>)
        ensures
            text_of(expr) == registered(self@, name@),
    {
        let key = constraint_key(name);
        match self.configuration.get(key.as_str()) {
            Some(Some(text)) => Some(text.clone()),
            _ => None,
        }
    }

    /// The constraints that the table registers, which are those that a
    /// writer of the table has to enforce: each of them once, and no
    /// other.
    pub fn constraints(&self) -> (list: Vec<Constraint>)
        ensures
            forall|k: int|
                0 <= k < list.len() ==> registered(self@, #[trigger] list[k].name@) == Some(
                    list[k].expr@,
                ),
            forall|name: Seq<char>| #[trigger]
                registered(self@, name) is Some ==> exists|k: int|
                    0 <= k < list.len() && #[trigger] list[k].name@ == name,
            forall|a: int, b: int|
                0 <= a < b < list.len() ==> #[trigger] list[a].name@ != #[trigger] list[b].name@,
    {
        let settings = self.configuration.settings();
        let mut list: Vec<Constraint> = Vec::new();
        let ghost mut source: Seq<int> = Seq::empty();
        let mut i: usize = 0;
        while i < settings.len()
            invariant
                i <= settings.len(),
                list.len() == source.len(),
                forall|k: int| 0 <= k < list.len() ==> #[trigger] taken_from(
                    settings@,
                    list@,
                    source,
                    k,
                ),
                forall|k: int| 0 <= k < source.len() ==> #[trigger] source[k] < i,
                forall|a: int, b: int|
                    0 <= a < b < source.len() ==> #[trigger] source[a] < #[trigger] source[b],
                forall|j: int|
                    0 <= j < i && #[trigger] registers(settings@, j) ==> exists|k: int|
                        0 <= k < source.len() && #[trigger] source[k] == j,
            decreases settings.len() - i,
        {
            let setting = &settings[i];
            let name = constraint_name(setting.key.as_str());
            let ghost before = list@;
            let ghost earlier = source;
            match (name, &setting.value) {
                (Some(name), Some(expr)) => {
                    proof {
                        lemma_key_names(name@, setting.key@);
                        source = source.push(i as int);
                    }
                    list.push(Constraint { name, expr: expr.clone() });
                    proof {
                        assert forall|k: int| 0 <= k < list.len() implies #[trigger] taken_from(
                            settings@,
                            list@,
                            source,
                            k,
                        ) by {
                            if k < before.len() {
                                assert(taken_from(settings@, before, earlier, k));
                            }
                        }
                        assert forall|a: int, b: int| 0 <= a < b < source.len() implies #[trigger]
                            source[a] < #[trigger] source[b] by {
                            if b < earlier.len() {
                                assert(earlier[a] < earlier[b]);
                            } else {
                                assert(earlier[a] < i);
                            }
                        }
                        assert forall|j: int|
                            0 <= j < i + 1 && #[trigger] registers(settings@, j) implies exists|
                            k: int,
                        |
                            0 <= k < source.len() && #[trigger] source[k] == j by {
                            if j < i {
                                let k = choose|k: int|
                                    0 <= k < earlier.len() && #[trigger] earlier[k] == j;
                                assert(source[k] == j);
                            } else {
                                assert(source[source.len() - 1] == j);
                            }
                        }
                    }
                },
                _ => {
                    assert(!registers(settings@, i as int));
                },
            }
            i += 1;
        }
        proof {
            let held = settings@;
            assert forall|k: int| 0 <= k < list.len() implies registered(
                self@,
                #[trigger] list[k].name@,
            ) == Some(list[k].expr@) by {
                assert(taken_from(held, list@, source, k));
                lemma_mapping_at(held, key_of(list[k].name@), source[k]);
            }
            assert forall|name: Seq<char>| #[trigger]
                registered(self@, name) is Some implies exists|k: int|
                0 <= k < list.len() && #[trigger] list[k].name@ == name by {
                let key = key_of(name);
                let j = choose|j: int| holds_at(held, key, j);
                lemma_mapping_at(held, key, j);
                lemma_key_names(name, key);
                assert(registers(held, j));
                let k = choose|k: int| 0 <= k < source.len() && #[trigger] source[k] == j;
                assert(taken_from(held, list@, source, k));
                lemma_key_names(name, key_of(list[k].name@));
                lemma_key_names(list[k].name@, key_of(list[k].name@));
                assert(list[k].name@ == name);
            }
            assert forall|a: int, b: int| 0 <= a < b < list.len() implies #[trigger] list[a].name@
                != #[trigger] list[b].name@ by {
                assert(taken_from(held, list@, source, a));
                assert(taken_from(held, list@, source, b));
                assert(source[a] < source[b]);
                assert(held[source[a]].key@ != held[source[b]].key@);
            }
        }
        list
    }
}

} // verus!
