//! Miscellaneous records: what has to be kept and is none of the other kinds.

use vstd::prelude::*;
use crate::common::Ident;
use crate::common::IdentView;
use crate::common::ID;
use crate::record::Record;
use crate::record::RecordType;

verus! {

/// A record of no other kind.
#[derive(Debug, Clone)]
pub struct Misc {
    id: ID,
    ident: Ident,
}

impl Misc {
    /// The record with the given identity and identifier.
    pub fn new(id: ID, ident: Ident) -> (r: Self)
        ensures
            r.identity() == id,
            r.identifier() == ident@,
    {
        Misc { id, ident }
    }
}

impl Record for Misc {
    open spec fn kind_of() -> RecordType {
        RecordType::Misc
    }

    closed spec fn identity(&self) -> ID {
        self.id
    }

    closed spec fn identifier(&self) -> IdentView {
        self.ident@
    }

    fn kind() -> (r: RecordType) {
        RecordType::Misc
    }

    fn id(&self) -> (r: ID) {
        self.id
    }

    fn ident(&self) -> (r: Ident) {
        self.ident.clone()
    }

    fn set_ident(&mut self, ident: Ident) {
        self.ident = ident;
    }

    fn record_type(&self) -> (r: RecordType) {
        RecordType::Misc
    }
}

} // verus!
