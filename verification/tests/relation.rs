use acc_schema::common::ID;
use acc_schema::relation::{MalformedRelation, UnresolvedRelation};
use acc_schema::{Customer, Employee, Entity, Expense, Ident, Record, RecordType, Relation};

fn customer(id: ID) -> Entity<'static, Customer> {
    Entity::new(
        id,
        Ident::from_n(RecordType::Customer, 7),
        "Acme Oceanic",
        "Billowed Bag Street 5",
        "1123",
        "Atlantis",
        Customer {},
    )
}

#[test]
fn test_relation_serialize() {
    let relation = Relation::<Entity<Customer>>::new(ID::new());
    let expected = format!("---\n{}", relation.id().to_string());
    let serialized = format!("---\n{}", relation.serialize());
    assert_eq!(expected, serialized);
}

#[test]
fn test_relation_deserialize() {
    let expected = Relation::<Entity<Customer>>::new(ID::new());
    let input = format!("---\n{}", expected.id().to_string());
    let document = input.strip_prefix("---\n").unwrap();
    assert_eq!(
        expected.id(),
        Relation::<Entity<Customer>>::deserialize(document)
            .unwrap()
            .id()
    );
}

#[test]
fn relation_is_persisted_as_the_identity_only() {
    let id = ID::from_u128(0x936d_a01f_9abd_4d9d_80c7_02af_85c8_22a8);
    let unresolved = Relation::<Entity<Customer>>::new(id);
    let resolved = Relation::from_value(id, customer(id));
    assert_eq!("936da01f-9abd-4d9d-80c7-02af85c822a8", unresolved.serialize());
    assert_eq!("936da01f-9abd-4d9d-80c7-02af85c822a8", resolved.serialize());
    assert!(unresolved.value().is_none());
    assert!(resolved.value().is_some());
}

#[test]
fn relation_read_back_is_unresolved_with_the_same_text() {
    let id = ID::new();
    for relation in [
        Relation::<Entity<Customer>>::new(id),
        Relation::from_value(id, customer(id)),
    ] {
        let text = relation.serialize();
        let back = Relation::<Entity<Customer>>::deserialize(&text).unwrap();
        assert_eq!(id.to_string(), back.serialize());
        assert_eq!(id, back.id());
        assert!(back.value().is_none());
    }
}

#[test]
fn relation_deserialize_refuses_what_is_no_identity() {
    for text in ["", "c-7", "936da01f9abd4d9d80c702af85c822a8", "936da01f-9abd-4d9d-80c7-02af85c822ax"] {
        let read = Relation::<Entity<Customer>>::deserialize(text);
        assert_eq!(
            Some(MalformedRelation {
                text: text.to_string()
            }),
            read.err()
        );
    }
}

#[test]
fn relation_resolve_fails_where_nothing_is_found() {
    let id = ID::new();
    let relation = Relation::<Entity<Customer>>::new(id);
    let result = relation.resolve(|_| None);
    assert_eq!(Some(UnresolvedRelation { id }), result.err());
    let cached = Relation::from_value(id, customer(id));
    let result = cached.resolve(|_| None);
    assert_eq!(Some(UnresolvedRelation { id }), result.err());
}

#[test]
fn relation_resolve_hands_the_identity_to_the_lookup() {
    let id = ID::new();
    let other = ID::new();
    let relation = Relation::<Entity<Customer>>::new(id);
    let found = relation
        .resolve(|asked| if asked == id { Some(customer(asked)) } else { None })
        .unwrap();
    assert_eq!(id, found.id());
    assert_eq!("c-7", found.ident().to_string());
    let missing = Relation::<Entity<Customer>>::new(other);
    let result = missing.resolve(|asked| if asked == id { Some(customer(asked)) } else { None });
    assert_eq!(Some(UnresolvedRelation { id: other }), result.err());
}

#[test]
fn relation_resolved_with_goes_by_what_was_found() {
    let id = ID::new();
    let relation = Relation::<Entity<Customer>>::new(id);
    assert_eq!(id, relation.resolved_with(Some(customer(id))).unwrap().id());
    assert_eq!(
        Some(UnresolvedRelation { id }),
        relation.resolved_with(None).err()
    );
}

#[test]
fn relation_kind_is_the_kind_of_the_target() {
    assert_eq!(RecordType::Customer, Relation::<Entity<Customer>>::kind());
    assert_eq!(RecordType::Employee, Relation::<Entity<Employee>>::kind());
    assert_eq!(RecordType::Expense, Relation::<Expense>::kind());
}

#[test]
fn relation_to_string_names_the_target_where_it_is_known() {
    let id = ID::from_u128(0x936d_a01f_9abd_4d9d_80c7_02af_85c8_22a8);
    assert_eq!(
        "relation to record 936da01f-9abd-4d9d-80c7-02af85c822a8",
        Relation::<Entity<Customer>>::new(id).to_string()
    );
    assert_eq!(
        "relation to 936da01f-9abd-4d9d-80c7-02af85c822a8 Customer",
        Relation::from_value(id, customer(id)).to_string()
    );
}

#[test]
fn relation_errors_say_what_was_wrong() {
    let malformed = Relation::<Entity<Customer>>::deserialize("c-7").err().unwrap();
    assert_eq!(
        "given input \"c-7\" couldn't be parsed as a UUID for a relation",
        malformed.to_string()
    );
    let id = ID::from_u128(0x936d_a01f_9abd_4d9d_80c7_02af_85c8_22a8);
    let unresolved = Relation::<Entity<Customer>>::new(id)
        .resolved_with(None)
        .err()
        .unwrap();
    assert_eq!(
        "no record with the id 936da01f-9abd-4d9d-80c7-02af85c822a8 was found for a relation",
        unresolved.to_string()
    );
}

#[test]
fn relation_resolve_in_asks_for_the_kind_of_the_target() {
    let id = ID::new();
    let relation = Relation::<Entity<Customer>>::new(id);
    let found = relation
        .resolve_in(|kind, asked| {
            if kind == RecordType::Customer && asked == id {
                Some(customer(asked))
            } else {
                None
            }
        })
        .unwrap();
    assert_eq!(id, found.id());
    let result = relation.resolve_in(|kind, asked| {
        if kind == RecordType::Employee {
            Some(customer(asked))
        } else {
            None
        }
    });
    assert_eq!(Some(UnresolvedRelation { id }), result.err());
}
