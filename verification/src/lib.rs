//! Adding a check constraint to a versioned table.
//!
//! A constraint is a named predicate that every row of the table satisfies.
//! It may be registered only once every row that the table already holds
//! has been checked against it, and the registration is a single commit to
//! the table's log: new metadata and a raised protocol, written together.
//!
//! The library holds the decisions of that operation and proves what they
//! guarantee. Reading rows, evaluating a predicate on them and appending to
//! the log are the caller's part: the caller performs what a [`Directive`]
//! asks for and reports the outcome as an [`Event`].
//!
//! [`Directive`]: operation::Directive
//! [`Event`]: operation::Event

pub mod builder;
mod clock;
pub mod commit;
pub mod configuration;
pub mod constraint;
pub mod error;
pub mod expression;
pub mod laws;
pub mod merge;
pub mod operation;
pub mod planner;
pub mod table;
pub mod validator;
