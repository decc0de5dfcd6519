//! Invoices: the bills that the company sends to its customers.

use vstd::prelude::*;
use crate::common::Ident;
use crate::common::IdentView;
use crate::common::ID;
use crate::record::Record;
use crate::record::RecordType;

verus! {

/// An invoice of the company.
#[derive(Debug, Clone)]
pub struct Invoice {
    id: ID,
    ident: Ident,
}

impl Invoice {
    /// The invoice with the given identity and identifier.
    pub fn new(id: ID, ident: Ident) -> (r: Self)
        ensures
            r.identity() == id,
            r.identifier() == ident@,
    {
        Invoice { id, ident }
    }
}

impl Record for Invoice {
    open spec fn kind_of() -> RecordType {
        RecordType::Invoice
    }

    closed spec fn identity(&self) -> ID {
        self.id
    }

    closed spec fn identifier(&self) -> IdentView {
        self.ident@
    }

    fn kind() -> (r: RecordType) {
        RecordType::Invoice
    }

    fn id(&self) -> (r: ID) {
        self.id
    }

    fn ident(&self) -> (r: Ident) {
        self.ident.clone()
    }

    fn set_ident(&mut self, ident: Ident) {
        self.ident = ident;
    }

    fn record_type(&self) -> (r: RecordType) {
        RecordType::Invoice
    }
}

} // verus!
