//! Relations: typed references from one record to another. A relation is
//! persisted as the identity of its target and nothing else; the target
//! itself is looked up on request.

use vstd::prelude::*;
use vstd::string::StringExecFns;
use crate::common::has_id_layout;
use crate::common::id_text;
use crate::common::id_value;
use crate::common::lemma_id_round_trip;
use crate::common::ID;
use crate::record::Record;
use crate::record::RecordType;

verus! {

/// A text that was offered as a relation and is no identity.
#[derive(Debug, Clone, PartialEq, Eq)]
pub struct MalformedRelation {
    pub text: String,
}

/// The message for a text that is no relation.
pub open spec fn malformed_relation_text(text: Seq<char>) -> Seq<char> {
    "given input \""@ + text + "\" couldn't be parsed as a UUID for a relation"@
}

impl MalformedRelation {
    /// The message that tells the user what was wrong.
    pub fn to_string(&self) -> (r: String)
        ensures
            r@ == malformed_relation_text(self.text@),
    {
        let mut s: String = String::from_str("given input \"");
        s.append(self.text.as_str());
        s.append("\" couldn't be parsed as a UUID for a relation");
        s
    }
}

/// The message for a relation whose target was not found.
pub open spec fn unresolved_relation_text(id: nat) -> Seq<char> {
    "no record with the id "@ + id_text(id) + " was found for a relation"@
}

impl UnresolvedRelation {
    /// The message that tells the user which record is missing.
    pub fn to_string(&self) -> (r: String)
        ensures
            r@ == unresolved_relation_text(self.id@),
    {
        let id: String = self.id.to_string();
        let mut s: String = String::from_str("no record with the id ");
        s.append(id.as_str());
        s.append(" was found for a relation");
        s
    }
}

/// The identity of a relation whose target was not found.
#[derive(Debug, Clone, Copy, PartialEq, Eq, Structural, Hash)]
pub struct UnresolvedRelation {
    pub id: ID,
}

/// The text that shows a relation to the user: with the kind of the target
/// where the target is known, else as a relation to some record.
pub open spec fn relation_text(id: nat, kind: Option<RecordType>) -> Seq<char> {
    match kind {
        Some(k) => "relation to "@ + id_text(id) + " "@ + k.name(),
        None => "relation to record "@ + id_text(id),
    }
}

/// What a lookup of the target of a relation to `id` gives: the target
/// where one was found, else the error that names `id`.
pub open spec fn resolution<T>(id: ID, found: Option<T>) -> Result<T, UnresolvedRelation> {
    match found {
        Some(value) => Ok(value),
        None => Err(UnresolvedRelation { id }),
    }
}

/// A reference to a record of type `T`. It stands for the identity of its
/// target; the target itself may be held beside it once it is known.
#[derive(Debug, Clone, PartialEq)]
pub struct Relation<T: Record> {
    id: ID,
    value: Option<T>,
}

impl<T: Record> View for Relation<T> {
    type V = ID;

    closed spec fn view(&self) -> ID {
        self.id
    }
}

impl<T: Record> Relation<T> {
    /// The target, where the relation holds it.
    pub closed spec fn cached(&self) -> Option<T> {
        self.value
    }

    /// The text in which the relation is persisted: the canonical text of
    /// the identity of its target.
    pub open spec fn persisted(&self) -> Seq<char> {
        id_text(self@@)
    }

    /// The relation to the record with identity `id`, whose target is not
    /// known yet.
    pub fn new(id: ID) -> (r: Self)
        ensures
            r@ == id,
            r.cached() is None,
    {
        Relation { id, value: None }
    }

    /// The relation to the record with identity `id`, whose target is
    /// known to be `value`.
    pub fn from_value(id: ID, value: T) -> (r: Self)
        ensures
            r@ == id,
            r.cached() == Some(value),
    {
        Relation { id, value: Some(value) }
    }

    /// The identity of the target.
    pub fn id(&self) -> (r: ID)
        ensures
            r == self@,
    {
        self.id
    }

    /// The target, where the relation holds it.
    pub fn value(&self) -> (r: &Option<T>)
        ensures
            *r == self.cached(),
    {
        &self.value
    }

    /// The kind of record that the relation points to.
    pub fn kind() -> (r: RecordType)
        ensures
            r == T::kind_of(),
    {
        T::kind()
    }

    /// The text in which the relation is persisted. The target is never
    /// part of it.
    pub fn serialize(&self) -> (r: String)
        ensures
            r@ == self.persisted(),
    {
        self.id.to_string()
    }

    /// Reads a relation from the text in which it was persisted. The
    /// target of the result is not known. A text that is no identity is
    /// handed back in the error.
    pub fn deserialize(text: &str) -> (r: Result<Self, MalformedRelation>)
        ensures
            match r {
                Ok(relation) => has_id_layout(text@) && relation@@ == id_value(text@)
                    && relation.cached() is None,
                Err(e) => !has_id_layout(text@) && e.text@ == text@,
            },
    {
        match ID::from(text) {
            Ok(id) => Ok(Relation::new(id)),
            Err(e) => Err(MalformedRelation { text: e.text }),
        }
    }

    /// What a lookup that gave `found` means for this relation: the target,
    /// or the error that names the identity that was not found.
    pub fn resolved_with(&self, found: Option<T>) -> (r: Result<T, UnresolvedRelation>)
        ensures
            r == resolution(self@, found),
    {
        match found {
            Some(value) => Ok(value),
            None => Err(UnresolvedRelation { id: self.id }),
        }
    }

    /// Looks the target up through `lookup`. Where `lookup` finds nothing,
    /// the result is the error that names the identity, never a value.
    pub fn resolve<F: Fn(ID) -> Option<T>>(&self, lookup: F) -> (r: Result<T, UnresolvedRelation>)
        requires
            call_requires(lookup, (self@,)),
        ensures
            exists|found: Option<T>|
                call_ensures(lookup, (self@,), found) && r == resolution(self@, found),
    {
        let found: Option<T> = lookup(self.id);
        self.resolved_with(found)
    }

    /// Looks the target up in a store of records of every kind: `store` is
    /// asked for the record of the kind of the target with the identity of
    /// the target. Where it finds nothing, the result is the error that
    /// names the identity, never a value.
    pub fn resolve_in<F: Fn(RecordType, ID) -> Option<T>>(&self, store: F) -> (r: Result<
        T,
        UnresolvedRelation,
    >)
        requires
            call_requires(store, (T::kind_of(), self@)),
        ensures
            exists|found: Option<T>|
                call_ensures(store, (T::kind_of(), self@), found) && r == resolution(
                    self@,
                    found,
                ),
    {
        let found: Option<T> = store(T::kind(), self.id);
        self.resolved_with(found)
    }

    /// The text that shows the relation to the user.
    pub fn to_string(&self) -> (r: String)
        ensures
            r@ == relation_text(
                self@@,
                if self.cached() is Some {
                    Some(T::kind_of())
                } else {
                    None
                },
            ),
    {
        let id: String = self.id.to_string();
        match &self.value {
            Some(target) => {
                let kind: String = target.record_type().to_string();
                let mut s: String = String::from_str("relation to ");
                s.append(id.as_str());
                s.append(" ");
                s.append(kind.as_str());
                s
            },
            None => {
                let mut s: String = String::from_str("relation to record ");
                s.append(id.as_str());
                s
            },
        }
    }
}

/// Persisting a relation and reading it back gives a relation that is
/// persisted as the same text, whether or not the first one held its
/// target: the persisted text is an identity, and the identity that it
/// writes has that text.
pub proof fn lemma_relation_round_trip<T: Record>(relation: Relation<T>)
    ensures
        has_id_layout(relation.persisted()),
        id_text(id_value(relation.persisted())) == relation.persisted(),
        relation.persisted() == id_text(relation@@),
{
    lemma_id_round_trip(relation@);
}

} // verus!
