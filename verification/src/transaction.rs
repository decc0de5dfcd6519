//! Transactions: the movements on the bank accounts of the company.

use vstd::prelude::*;
use crate::common::Ident;
use crate::common::IdentView;
use crate::common::ID;
use crate::record::Record;
use crate::record::RecordType;

verus! {

/// A bank transaction.
#[derive(Debug, Clone)]
pub struct Transaction {
    id: ID,
    ident: Ident,
}

impl Transaction {
    /// The transaction with the given identity and identifier.
    pub fn new(id: ID, ident: Ident) -> (r: Self)
        ensures
            r.identity() == id,
            r.identifier() == ident@,
    {
        Transaction { id, ident }
    }
}

impl Record for Transaction {
    open spec fn kind_of() -> RecordType {
        RecordType::Transaction
    }

    closed spec fn identity(&self) -> ID {
        self.id
    }

    closed spec fn identifier(&self) -> IdentView {
        self.ident@
    }

    fn kind() -> (r: RecordType) {
        RecordType::Transaction
    }

    fn id(&self) -> (r: ID) {
        self.id
    }

    fn ident(&self) -> (r: Ident) {
        self.ident.clone()
    }

    fn set_ident(&mut self, ident: Ident) {
        self.ident = ident;
    }

    fn record_type(&self) -> (r: RecordType) {
        RecordType::Transaction
    }
}

} // verus!
