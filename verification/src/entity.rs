//! Entities: the people and companies that the business deals with, as
//! customers or as employees.

use vstd::prelude::*;
use crate::common::sequence_text;
use crate::common::is_random_id;
use crate::common::Ident;
use crate::common::IdentView;
use crate::common::ID;
use crate::record::Record;
use crate::record::RecordType;

verus! {

/// The role of an entity: customer or employee.
pub trait EntityType {
    /// The kind of record that an entity in this role is.
    spec fn kind_of() -> RecordType;

    /// The kind of record that an entity in this role is.
    fn kind() -> (r: RecordType)
        ensures
            r == Self::kind_of(),
    ;

    /// The kind of record that an entity in this role is.
    fn record_type(&self) -> (r: RecordType)
        ensures
            r == Self::kind_of(),
    ;
}

/// A third party that buys from the company.
#[derive(Debug, Clone)]
pub struct Customer {}

impl EntityType for Customer {
    open spec fn kind_of() -> RecordType {
        RecordType::Customer
    }

    fn kind() -> (r: RecordType) {
        RecordType::Customer
    }

    fn record_type(&self) -> (r: RecordType) {
        RecordType::Customer
    }
}

/// Somebody who works for the company.
#[derive(Debug, Clone)]
pub struct Employee {}

impl EntityType for Employee {
    open spec fn kind_of() -> RecordType {
        RecordType::Employee
    }

    fn kind() -> (r: RecordType) {
        RecordType::Employee
    }

    fn record_type(&self) -> (r: RecordType) {
        RecordType::Employee
    }
}

/// What an `Entity` stands for.
pub struct EntityView {
    pub id: ID,
    pub ident: IdentView,
    pub name: Seq<char>,
    pub street: Seq<char>,
    pub postal_code: Seq<char>,
    pub place: Seq<char>,
}

/// A person or a company that has to do with the business, in the role
/// `T`.
#[derive(Debug, Clone)]
pub struct Entity<'a, T> where T: EntityType {
    id: ID,
    ident: Ident,
    name: &'a str,
    street: &'a str,
    postal_code: &'a str,
    place: &'a str,
    etype: T,
}

impl<'a, T> View for Entity<'a, T> where T: EntityType {
    type V = EntityView;

    closed spec fn view(&self) -> EntityView {
        EntityView {
            id: self.id,
            ident: self.ident@,
            name: self.name@,
            street: self.street@,
            postal_code: self.postal_code@,
            place: self.place@,
        }
    }
}

impl<'a, T> Entity<'a, T> where T: EntityType {
    /// The entity with the given identity, identifier, name and address.
    pub fn new(
        id: ID,
        ident: Ident,
        name: &'a str,
        street: &'a str,
        postal_code: &'a str,
        place: &'a str,
        etype: T,
    ) -> (r: Self)
        ensures
            r@ == (EntityView {
                id,
                ident: ident@,
                name: name@,
                street: street@,
                postal_code: postal_code@,
                place: place@,
            }),
    {
        Entity { id, ident, name, street, postal_code, place, etype }
    }

    /// The name; for a person, first and last name.
    pub fn name(&self) -> (r: &'a str)
        ensures
            r@ == self@.name,
    {
        self.name
    }

    /// Street and number, with any delivery instructions.
    pub fn street(&self) -> (r: &'a str)
        ensures
            r@ == self@.street,
    {
        self.street
    }

    /// The postal code of the address.
    pub fn postal_code(&self) -> (r: &'a str)
        ensures
            r@ == self@.postal_code,
    {
        self.postal_code
    }

    /// The place of the address.
    pub fn place(&self) -> (r: &'a str)
        ensures
            r@ == self@.place,
    {
        self.place
    }
}

impl<'a> Default for Entity<'a, Customer> {
    /// A sample customer with a fresh identity.
    fn default() -> (r: Self)
        ensures
            is_random_id(r@.id@ as u128),
            r@.ident == (IdentView {
                record: RecordType::Customer,
                text: sequence_text(RecordType::Customer, 1),
            }),
            r@.name == "Acme Oceanic"@,
            r@.street == "Billowed Bag Street 5"@,
            r@.postal_code == "1123"@,
            r@.place == "Atlantis"@,
    {
        Entity {
            id: ID::new(),
            ident: Ident::from_n(RecordType::Customer, 1),
            name: "Acme Oceanic",
            street: "Billowed Bag Street 5",
            postal_code: "1123",
            place: "Atlantis",
            etype: Customer {  },
        }
    }
}

impl<'a> Default for Entity<'a, Employee> {
    /// A sample employee with a fresh identity.
    fn default() -> (r: Self)
        ensures
            is_random_id(r@.id@ as u128),
            r@.ident == (IdentView {
                record: RecordType::Employee,
                text: sequence_text(RecordType::Employee, 1),
            }),
            r@.name == "Birdy Bimpf"@,
            r@.street == "Society Street 47"@,
            r@.postal_code == "2003"@,
            r@.place == "District A"@,
    {
        Entity {
            id: ID::new(),
            ident: Ident::from_n(RecordType::Employee, 1),
            name: "Birdy Bimpf",
            street: "Society Street 47",
            postal_code: "2003",
            place: "District A",
            etype: Employee {  },
        }
    }
}

impl<'a, T> Record for Entity<'a, T> where T: EntityType {
    open spec fn kind_of() -> RecordType {
        T::kind_of()
    }

    closed spec fn identity(&self) -> ID {
        self.id
    }

    closed spec fn identifier(&self) -> IdentView {
        self.ident@
    }

    fn kind() -> (r: RecordType) {
        T::kind()
    }

    fn id(&self) -> (r: ID) {
        self.id
    }

    fn ident(&self) -> (r: Ident) {
        self.ident.clone()
    }

    fn set_ident(&mut self, ident: Ident)
        ensures
            final(self)@ == (EntityView { ident: ident@, ..old(self)@ }),
    {
        self.ident = ident;
    }

    fn record_type(&self) -> (r: RecordType) {
        self.etype.record_type()
    }
}

impl<'a, T> Entity<'a, T> where T: EntityType {
    /// What the record capability reports is what the entity stands for.
    pub proof fn lemma_record_view(&self)
        ensures
            self.identity() == self@.id,
            self.identifier() == self@.ident,
    {
    }
}

} // verus!
