//! Value types and text codecs for bookkeeping records: identities, display
//! identifiers, calendar days, money amounts, typed relations between records
//! and requirement checks.

pub mod common;
pub mod date;
pub mod entity;
pub mod expense;
pub mod invoice;
pub mod misc;
pub mod money;
pub mod project;
pub mod record;
pub mod relation;
pub mod text;
pub mod transaction;

pub use common::{Ident, ID};
pub use date::Date;
pub use entity::{Customer, Employee, Entity};
pub use expense::Expense;
pub use money::{Currency, Money};
pub use record::{Check, CheckResult, Record, RecordType, Requirement};
pub use relation::Relation;
