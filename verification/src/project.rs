//! Projects: the undertakings that expenses and invoices belong to.

use vstd::prelude::*;
use crate::common::Ident;
use crate::common::IdentView;
use crate::common::ID;
use crate::record::Record;
use crate::record::RecordType;

verus! {

/// A project of the company.
#[derive(Debug, Clone)]
pub struct Project {
    id: ID,
    ident: Ident,
}

impl Project {
    /// The project with the given identity and identifier.
    pub fn new(id: ID, ident: Ident) -> (r: Self)
        ensures
            r.identity() == id,
            r.identifier() == ident@,
    {
        Project { id, ident }
    }
}

impl Record for Project {
    open spec fn kind_of() -> RecordType {
        RecordType::Project
    }

    closed spec fn identity(&self) -> ID {
        self.id
    }

    closed spec fn identifier(&self) -> IdentView {
        self.ident@
    }

    fn kind() -> (r: RecordType) {
        RecordType::Project
    }

    fn id(&self) -> (r: ID) {
        self.id
    }

    fn ident(&self) -> (r: Ident) {
        self.ident.clone()
    }

    fn set_ident(&mut self, ident: Ident) {
        self.ident = ident;
    }

    fn record_type(&self) -> (r: RecordType) {
        RecordType::Project
    }
}

} // verus!
