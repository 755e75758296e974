//! The settings of a table: texts stored under distinct keys.

use vstd::prelude::*;

verus! {

/// One setting: a key and the text stored under it, if any.
#[derive(Debug, PartialEq, Eq)]
pub struct Setting {
    pub key: String,
    pub value: Option<String>,
}

/// The characters of an optional text.
pub open spec fn text_of(value: Option<String>) -> Option<Seq<char>> {
    match value {
        Some(text) => Some(text@),
        None => None,
    }
}

/// Whether `settings` holds `key` at position `i`.
pub open spec fn holds_at(settings: Seq<Setting>, key: Seq<char>, i: int) -> bool {
    0 <= i < settings.len() && settings[i].key@ == key
}

/// Whether no two settings share a key.
pub open spec fn keys_unique(settings: Seq<Setting>) -> bool {
    forall|i: int, j: int|
        0 <= i < j < settings.len() ==> #[trigger] settings[i].key@ != #[trigger] settings[j].key@
}

/// The mapping that a list of settings with distinct keys stands for.
pub open spec fn mapping_of(settings: Seq<Setting>) -> Map<Seq<char>, Option<Seq<char>>> {
    Map::new(
        |key: Seq<char>| exists|i: int| holds_at(settings, key, i),
        |key: Seq<char>| text_of(settings[choose|i: int| holds_at(settings, key, i)].value),
    )
}

/// A key that `settings` holds at `i` is mapped to the value stored at `i`.
pub proof fn lemma_mapping_at(settings: Seq<Setting>, key: Seq<char>, i: int)
    requires
        keys_unique(settings),
        holds_at(settings, key, i),
    ensures
        mapping_of(settings).contains_key(key),
        mapping_of(settings)[key] == text_of(settings[i].value),
{
    let j = choose|j: int| holds_at(settings, key, j);
    assert(holds_at(settings, key, j));
    if i < j {
        assert(settings[i].key@ != settings[j].key@);
    } else if j < i {
        assert(settings[j].key@ != settings[i].key@);
    }
}

/// Appending a setting under a key that is not yet held adds one entry to
/// the mapping.
pub proof fn lemma_mapping_push(settings: Seq<Setting>, setting: Setting)
    requires
        keys_unique(settings),
        forall|i: int| !holds_at(settings, setting.key@, i),
    ensures
        keys_unique(settings.push(setting)),
        mapping_of(settings.push(setting)) == mapping_of(settings).insert(
            setting.key@,
            text_of(setting.value),
        ),
{
    let longer = settings.push(setting);
    let last = settings.len() as int;
    assert forall|i: int, j: int| 0 <= i < j < longer.len() implies #[trigger] longer[i].key@
        != #[trigger] longer[j].key@ by {
        if j == last {
            assert(!holds_at(settings, setting.key@, i));
        } else {
            assert(settings[i].key@ != settings[j].key@);
        }
    }
    let expected = mapping_of(settings).insert(setting.key@, text_of(setting.value));
    assert forall|key: Seq<char>| mapping_of(longer).contains_key(key) implies #[trigger]
        expected.contains_key(key) by {
        let i = choose|i: int| holds_at(longer, key, i);
        if i != last {
            assert(holds_at(settings, key, i));
        }
    }
    assert forall|key: Seq<char>| #[trigger] expected.contains_key(key) implies mapping_of(
        longer,
    ).contains_key(key) && mapping_of(longer)[key] == expected[key] by {
        if key == setting.key@ {
            assert(holds_at(longer, key, last));
            lemma_mapping_at(longer, key, last);
        } else {
            let i = choose|i: int| holds_at(settings, key, i);
            assert(holds_at(longer, key, i));
            lemma_mapping_at(longer, key, i);
            lemma_mapping_at(settings, key, i);
        }
    }
    assert(mapping_of(longer) =~= expected);
}

/// Replacing the setting at the position that holds its key replaces one
/// entry of the mapping.
pub proof fn lemma_mapping_update(settings: Seq<Setting>, i: int, setting: Setting)
    requires
        keys_unique(settings),
        holds_at(settings, setting.key@, i),
    ensures
        keys_unique(settings.update(i, setting)),
        mapping_of(settings.update(i, setting)) == mapping_of(settings).insert(
            setting.key@,
            text_of(setting.value),
        ),
{
    let changed = settings.update(i, setting);
    assert forall|a: int, b: int| 0 <= a < b < changed.len() implies #[trigger] changed[a].key@
        != #[trigger] changed[b].key@ by {
        assert(settings[a].key@ != settings[b].key@);
    }
    let expected = mapping_of(settings).insert(setting.key@, text_of(setting.value));
    assert forall|key: Seq<char>| mapping_of(changed).contains_key(key) implies #[trigger]
        expected.contains_key(key) by {
        let j = choose|j: int| holds_at(changed, key, j);
        assert(holds_at(settings, key, j));
    }
    assert forall|key: Seq<char>| #[trigger] expected.contains_key(key) implies mapping_of(
        changed,
    ).contains_key(key) && mapping_of(changed)[key] == expected[key] by {
        if key == setting.key@ {
            assert(holds_at(changed, key, i));
            lemma_mapping_at(changed, key, i);
        } else {
            let j = choose|j: int| holds_at(settings, key, j);
            assert(holds_at(changed, key, j));
            lemma_mapping_at(changed, key, j);
            lemma_mapping_at(settings, key, j);
        }
    }
    assert(mapping_of(changed) =~= expected);
}

/// The settings of a table. No key occurs twice; the order in which the
/// settings were made does not matter.
#[derive(Debug)]
pub struct Configuration {
    settings: Vec<Setting>,
}

impl View for Configuration {
    type V = Map<Seq<char>, Option<Seq<char>>>;

    closed spec fn view(&self) -> Self::V {
        mapping_of(self.settings@)
    }
}

impl Configuration {
    #[verifier::type_invariant]
    spec fn distinct_keys(&self) -> bool {
        keys_unique(self.settings@)
    }

    /// A configuration without settings.
    pub fn new() -> (empty: Self)
        ensures
            empty@ == Map::<Seq<char>, Option<Seq<char>>>::empty(),
    {
        let empty = Configuration { settings: Vec::new() };
        assert(empty@ =~= Map::<Seq<char>, Option<Seq<char>>>::empty());
        empty
    }

    /// Where `key` is held, if anywhere.
    fn position(&self, key: &String) -> (found: Option<usize>)
        ensures
            match found {
                Some(i) => holds_at(self.settings@, key@, i as int),
                None => forall|i: int| !holds_at(self.settings@, key@, i),
            },
    {
        let mut i: usize = 0;
        while i < self.settings.len()
            invariant
                i <= self.settings.len(),
                forall|j: int| 0 <= j < i ==> !holds_at(self.settings@, key@, j),
            decreases self.settings.len() - i,
        {
            if self.settings[i].key == *key {
                return Some(i);
            }
            i += 1;
        }
        None
    }

    /// Whether a setting is stored under `key`.
    pub fn contains_key(&self, key: &str) -> (held: bool)
        ensures
            held == self@.contains_key(key@),
    {
        proof {
            use_type_invariant(self);
        }
        let owned = key.to_owned();
        match self.position(&owned) {
            Some(i) => {
                proof {
                    lemma_mapping_at(self.settings@, key@, i as int);
                }
                true
            },
            None => false,
        }
    }

    /// The value stored under `key`: `None` where the key is not held,
    /// `Some(None)` where it is held without a text.
    pub fn get(&self, key: &str) -> (value: Option<&Option<String>>)
        ensures
            match value {
                Some(stored) => self@.contains_key(key@) && self@[key@] == text_of(*stored),
                None => !self@.contains_key(key@),
            },
    {
        proof {
            use_type_invariant(self);
        }
        let owned = key.to_owned();
        match self.position(&owned) {
            Some(i) => {
                proof {
                    lemma_mapping_at(self.settings@, key@, i as int);
                }
                Some(&self.settings[i].value)
            },
            None => None,
        }
    }

    /// Stores `value` under `key`, in place of what was stored there.
    pub fn insert(&mut self, key: String, value: Option<String>)
        ensures
            final(self)@ == old(self)@.insert(key@, text_of(value)),
    {
        proof {
            use_type_invariant(&*self);
        }
        let found = self.position(&key);
        let setting = Setting { key, value };
        let mut taken = Configuration::new();
        core::mem::swap(self, &mut taken);
        let mut settings = taken.settings;
        match found {
            Some(i) => {
                proof {
                    lemma_mapping_update(settings@, i as int, setting);
                }
                settings.set(i, setting);
            },
            None => {
                proof {
                    lemma_mapping_push(settings@, setting);
                }
                settings.push(setting);
            },
        }
        *self = Configuration { settings };
    }

    /// The settings of both configurations. Where both hold a key, the
    /// value of `other` stands.
    pub fn merged(&self, other: &Configuration) -> (both: Configuration)
        ensures
            both@ == self@.union_prefer_right(other@),
    {
        proof {
            use_type_invariant(other);
        }
        let mut both = self.clone();
        let mut i: usize = 0;
        assert(mapping_of(other.settings@.take(0)) =~= Map::<
            Seq<char>,
            Option<Seq<char>>,
        >::empty());
        assert(both@ =~= self@.union_prefer_right(mapping_of(other.settings@.take(0))));
        while i < other.settings.len()
            invariant
                i <= other.settings.len(),
                keys_unique(other.settings@),
                both@ == self@.union_prefer_right(mapping_of(other.settings@.take(i as int))),
            decreases other.settings.len() - i,
        {
            let setting = &other.settings[i];
            let value = match &setting.value {
                Some(text) => Some(text.clone()),
                None => None,
            };
            let key = setting.key.clone();
            proof {
                let seen = other.settings@.take(i as int);
                assert(keys_unique(seen));
                assert forall|j: int| !holds_at(seen, setting.key@, j) by {
                    if 0 <= j < i {
                        assert(other.settings@[j].key@ != other.settings@[i as int].key@);
                    }
                }
                lemma_mapping_push(seen, *setting);
                assert(seen.push(*setting) =~= other.settings@.take(i + 1));
                assert(self@.union_prefer_right(mapping_of(seen)).insert(key@, text_of(value))
                    =~= self@.union_prefer_right(
                    mapping_of(seen).insert(setting.key@, text_of(setting.value)),
                ));
            }
            both.insert(key, value);
            i += 1;
        }
        assert(other.settings@.take(i as int) =~= other.settings@);
        both
    }

    /// The settings, each key once, in no particular order.
    pub fn settings(&self) -> (listed: &Vec<Setting>)
        ensures
            keys_unique(listed@),
            self@ == mapping_of(listed@),
    {
        proof {
            use_type_invariant(self);
        }
        &self.settings
    }
}

impl Clone for Configuration {
    fn clone(&self) -> (copy: Self)
        ensures
            copy@ == self@,
    {
        proof {
            use_type_invariant(self);
        }
        let mut settings: Vec<Setting> = Vec::new();
        let mut i: usize = 0;
        while i < self.settings.len()
            invariant
                i <= self.settings.len(),
                settings.len() == i,
                forall|j: int|
                    0 <= j < i ==> settings[j].key@ == self.settings[j].key@ && text_of(
                        settings[j].value,
                    ) == text_of(self.settings[j].value),
            decreases self.settings.len() - i,
        {
            let setting = &self.settings[i];
            let value = match &setting.value {
                Some(text) => Some(text.clone()),
                None => None,
            };
            settings.push(Setting { key: setting.key.clone(), value });
            i += 1;
        }
        proof {
            lemma_same_mapping(self.settings@, settings@);
        }
        Configuration { settings }
    }
}

/// Lists that agree key by key and text by text stand for one mapping.
pub proof fn lemma_same_mapping(left: Seq<Setting>, right: Seq<Setting>)
    requires
        keys_unique(left),
        left.len() == right.len(),
        forall|i: int|
            0 <= i < left.len() ==> right[i].key@ == left[i].key@ && text_of(right[i].value)
                == text_of(left[i].value),
    ensures
        keys_unique(right),
        mapping_of(right) == mapping_of(left),
{
    assert forall|i: int, j: int| 0 <= i < j < right.len() implies #[trigger] right[i].key@
        != #[trigger] right[j].key@ by {
        assert(left[i].key@ != left[j].key@);
    }
    assert forall|key: Seq<char>| mapping_of(left).contains_key(key) implies #[trigger] mapping_of(
        right,
    ).contains_key(key) && mapping_of(right)[key] == mapping_of(left)[key] by {
        let i = choose|i: int| holds_at(left, key, i);
        assert(holds_at(right, key, i));
        lemma_mapping_at(left, key, i);
        lemma_mapping_at(right, key, i);
    }
    assert forall|key: Seq<char>| mapping_of(right).contains_key(key) implies #[trigger] mapping_of(
        left,
    ).contains_key(key) by {
        let i = choose|i: int| holds_at(right, key, i);
        assert(holds_at(left, key, i));
    }
    assert(mapping_of(right) =~= mapping_of(left));
}

} // verus!
