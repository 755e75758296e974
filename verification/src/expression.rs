//! The two forms in which a predicate is handed to the operation.

use datafusion::logical_expr::Expr;
use vstd::prelude::*;
use vstd::string::to_string_from_display_ensures;

verus! {

/// `datafusion::logical_expr::Expr`, a parsed expression of the query
/// engine. The type is declared so that the library can carry such a value
/// and ask for its text; nothing is known of what is inside.
#[verifier::external_type_specification]
#[verifier::external_body]
pub struct ExExpr(datafusion::logical_expr::Expr);

/// A predicate over the rows of a table.
pub enum Expression {
    /// An expression that the query engine has parsed.
    DataFusion(Expr),
    /// An expression as text.
    String(String),
}

impl Expression {
    /// Whether `text` is the expression written out: the text itself, or
    /// what the query engine displays for a parsed expression.
    pub open spec fn written_as(self, text: Seq<char>) -> bool {
        match self {
            Expression::DataFusion(parsed) => exists|shown: String|
                shown@ == text && #[trigger] to_string_from_display_ensures::<Expr>(
                    &parsed,
                    shown,
                ),
            Expression::String(given) => text == given@,
        }
    }

    /// The expression as text. For a parsed expression this is what its
    /// `Display` writes, and no more is known of it than that.
    pub fn into_text(self) -> (text: String)
        ensures
            self.written_as(text@),
    {
        match self {
            Expression::DataFusion(parsed) => parsed.to_string(),
            Expression::String(given) => given,
        }
    }
}

} // verus!
