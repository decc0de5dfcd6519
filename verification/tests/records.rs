use acc_schema::common::ID;
use acc_schema::expense::{ExpenseCategory, PaymentMethod};
use acc_schema::entity::EntityType;
use acc_schema::invoice::Invoice;
use acc_schema::misc::Misc;
use acc_schema::project::Project;
use acc_schema::transaction::Transaction;
use acc_schema::{
    Currency, Customer, Date, Employee, Entity, Expense, Ident, Money, Record, RecordType,
    Relation,
};

fn is_version_4(id: ID) -> bool {
    (id.as_u128() >> 76) & 0xf == 4 && (id.as_u128() >> 62) & 0x3 == 2
}

#[test]
fn customer_default_is_the_sample_customer() {
    let entity: Entity<Customer> = Entity::default();
    assert!(is_version_4(entity.id()));
    assert_eq!("c-1", entity.ident().to_string());
    assert_eq!(RecordType::Customer, entity.ident().record());
    assert_eq!("Acme Oceanic", entity.name());
    assert_eq!("Billowed Bag Street 5", entity.street());
    assert_eq!("1123", entity.postal_code());
    assert_eq!("Atlantis", entity.place());
    assert_eq!(RecordType::Customer, entity.record_type());
}

#[test]
fn employee_default_is_the_sample_employee() {
    let entity: Entity<Employee> = Entity::default();
    assert!(is_version_4(entity.id()));
    assert_eq!("y-1", entity.ident().to_string());
    assert_eq!("Birdy Bimpf", entity.name());
    assert_eq!("Society Street 47", entity.street());
    assert_eq!("2003", entity.postal_code());
    assert_eq!("District A", entity.place());
    assert_eq!(RecordType::Employee, entity.record_type());
}

#[test]
fn entity_roles_name_their_kind() {
    assert_eq!(RecordType::Customer, Customer {}.record_type());
    assert_eq!(RecordType::Employee, Employee {}.record_type());
    assert_eq!(RecordType::Customer, Customer::kind());
    assert_eq!(RecordType::Employee, Employee::kind());
    assert_eq!(RecordType::Customer, Entity::<Customer>::kind());
    assert_eq!(RecordType::Employee, Entity::<Employee>::kind());
}

#[test]
fn expense_category_default_is_the_sample_category() {
    let category = ExpenseCategory::default();
    assert!(is_version_4(category.id()));
    assert_eq!("ec-1", category.ident().to_string());
    assert_eq!("Costs of Materials", category.name());
    assert_eq!(
        "4 Aufwand:40 Materialaufwand:400 Materialaufwand",
        category.account()
    );
    assert_eq!(RecordType::ExpenseCategory, category.record_type());
    assert_eq!(
        "Expense Category Costs of Materials (ec-1)",
        category.to_string()
    );
}

#[test]
fn expense_default_is_the_sample_expense() {
    let expense = Expense::default();
    assert!(is_version_4(expense.id()));
    assert_eq!("e-1", expense.ident().to_string());
    assert_eq!("HAL 9000", expense.name());
    assert_eq!(Money::default(), expense.amount());
    assert_eq!("/path/to/attachement.pdf", expense.path());
    assert_eq!(Date::default(), expense.date_of_accrual());
    assert!(!expense.billable());
    assert!(expense.obliged_customer().is_none());
    assert!(!expense.advanced_by_third_party());
    assert!(expense.advanced_third_party().is_none());
    assert!(expense.date_of_settlement().is_none());
    assert!(expense.settlement_transaction().is_none());
    assert!(expense.expense_category().is_none());
    assert_eq!(PaymentMethod::BankTransfer, expense.payment_method());
    assert!(!expense.internal());
    assert!(expense.project().is_none());
    assert_eq!(RecordType::Expense, expense.record_type());
}

#[test]
fn expense_to_string_shows_name_identifier_and_amount() {
    let expense = Expense::new(
        ID::new(),
        Ident::from_n(RecordType::Expense, 23),
        "Train ticket",
        Money::new(4250, Currency::find("USD").unwrap()),
        "/receipts/ticket.pdf".to_string(),
        Date::from(2020, 10, 2).unwrap(),
    );
    assert_eq!("Expense Train ticket (e-23) for $42.50", expense.to_string());
}

#[test]
fn expense_display_with_takes_the_text_of_the_amount() {
    let expense = Expense::default();
    assert_eq!(
        "Expense HAL 9000 (e-1) for nothing",
        expense.display_with("nothing")
    );
    assert_eq!("Expense HAL 9000 (e-1) for Fr0.00", expense.to_string());
}

#[test]
fn expense_holds_relations_to_other_records() {
    let customer: Entity<Customer> = Entity::default();
    let project = Project::new(ID::new(), Ident::from_n(RecordType::Project, 4));
    let mut expense = Expense::default();
    expense.set_billable(true);
    expense.set_obliged_customer(Some(Relation::new(customer.id())));
    expense.set_project(Some(Relation::from_value(project.id(), project.clone())));
    assert!(expense.billable());
    assert_eq!(
        customer.id().to_string(),
        expense.obliged_customer().as_ref().unwrap().serialize()
    );
    assert_eq!(
        project.id(),
        expense.project().as_ref().unwrap().id()
    );
    assert!(expense.project().as_ref().unwrap().value().is_some());
    assert_eq!("HAL 9000", expense.name());
    assert!(expense.advanced_third_party().is_none());
}

#[test]
fn expense_setters_change_one_attribute() {
    let employee: Entity<Employee> = Entity::default();
    let category = ExpenseCategory::default();
    let transaction = Transaction::new(ID::new(), Ident::from_n(RecordType::Transaction, 8));
    let mut expense = Expense::default();
    let id = expense.id();
    expense.set_advanced_by_third_party(true);
    expense.set_advanced_third_party(Some(Relation::new(employee.id())));
    expense.set_date_of_settlement(Date::from(2020, 11, 30));
    expense.set_settlement_transaction(Some(Relation::new(transaction.id())));
    expense.set_expense_category(Some(Relation::new(category.id())));
    expense.set_payment_method(PaymentMethod::Cash);
    expense.set_internal(true);
    assert!(expense.advanced_by_third_party());
    assert_eq!(
        employee.id(),
        expense.advanced_third_party().as_ref().unwrap().id()
    );
    assert_eq!(Date::from(2020, 11, 30), expense.date_of_settlement());
    assert_eq!(
        transaction.id(),
        expense.settlement_transaction().as_ref().unwrap().id()
    );
    assert_eq!(
        category.id(),
        expense.expense_category().as_ref().unwrap().id()
    );
    assert_eq!(PaymentMethod::Cash, expense.payment_method());
    assert!(expense.internal());
    assert!(!expense.billable());
    assert!(expense.obliged_customer().is_none());
    assert!(expense.project().is_none());
    assert_eq!(id, expense.id());
    assert_eq!("e-1", expense.ident().to_string());
    assert_eq!(Money::default(), expense.amount());
    assert_eq!(Date::default(), expense.date_of_accrual());
}

#[test]
fn payment_method_names() {
    assert_eq!("Cash", PaymentMethod::Cash.to_string());
    assert_eq!("Credit", PaymentMethod::Credit.to_string());
    assert_eq!("Debit", PaymentMethod::Debit.to_string());
    assert_eq!("Bank Transfer", PaymentMethod::BankTransfer.to_string());
    assert_eq!(PaymentMethod::BankTransfer, PaymentMethod::default());
}

#[test]
fn set_ident_changes_the_identifier_and_nothing_else() {
    let mut entity: Entity<Customer> = Entity::default();
    let id = entity.id();
    entity.set_ident(Ident::from_year_n(
        RecordType::Customer,
        Date::from(2021, 3, 4).unwrap(),
        12,
    ));
    assert_eq!("c-21-12", entity.ident().to_string());
    assert_eq!(id, entity.id());
    assert_eq!("Acme Oceanic", entity.name());

    let mut expense = Expense::default();
    let id = expense.id();
    expense.set_ident(Ident::from(RecordType::Expense, "hotel"));
    assert_eq!("hotel", expense.ident().to_string());
    assert_eq!(id, expense.id());
    assert_eq!("HAL 9000", expense.name());

    let mut category = ExpenseCategory::default();
    let id = category.id();
    category.set_ident(Ident::from_n(RecordType::ExpenseCategory, 9));
    assert_eq!("ec-9", category.ident().to_string());
    assert_eq!(id, category.id());
}

#[test]
fn plain_records_keep_identity_and_identifier() {
    let id = ID::new();
    let mut invoice = Invoice::new(id, Ident::from_n(RecordType::Invoice, 1));
    assert_eq!(id, invoice.id());
    assert_eq!(id, invoice.id());
    assert_eq!("i-1", invoice.ident().to_string());
    assert_eq!(RecordType::Invoice, invoice.record_type());
    assert_eq!(RecordType::Invoice, Invoice::kind());
    invoice.set_ident(Ident::from_n(RecordType::Invoice, 2));
    assert_eq!("i-2", invoice.ident().to_string());
    assert_eq!(id, invoice.id());

    let mut project = Project::new(id, Ident::from_n(RecordType::Project, 1));
    assert_eq!(RecordType::Project, project.record_type());
    assert_eq!(RecordType::Project, Project::kind());
    project.set_ident(Ident::from(RecordType::Project, "p-x"));
    assert_eq!("p-x", project.ident().to_string());
    assert_eq!(id, project.id());

    let mut misc = Misc::new(id, Ident::from_n(RecordType::Misc, 1));
    assert_eq!(RecordType::Misc, misc.record_type());
    assert_eq!(RecordType::Misc, Misc::kind());
    assert_eq!("m-1", misc.ident().to_string());
    misc.set_ident(Ident::from_n(RecordType::Misc, 6));
    assert_eq!("m-6", misc.ident().to_string());
    assert_eq!(id, misc.id());

    let mut transaction = Transaction::new(id, Ident::from_n(RecordType::Transaction, 1));
    assert_eq!(RecordType::Transaction, transaction.record_type());
    assert_eq!(RecordType::Transaction, Transaction::kind());
    assert_eq!("t-1", transaction.ident().to_string());
    transaction.set_ident(Ident::from_n(RecordType::Transaction, 3));
    assert_eq!("t-3", transaction.ident().to_string());
    assert_eq!(id, transaction.id());
}

#[test]
fn records_of_different_shapes_offer_the_same_capability() {
    fn label<R: Record>(record: &R) -> String {
        format!("{} {}", record.record_type().to_string(), record.ident().to_string())
    }
    let customer: Entity<Customer> = Entity::default();
    assert_eq!("Customer c-1", label(&customer));
    assert_eq!("Expense e-1", label(&Expense::default()));
    assert_eq!("Expense Category ec-1", label(&ExpenseCategory::default()));
    assert_eq!(
        "Project p-5",
        label(&Project::new(ID::new(), Ident::from_n(RecordType::Project, 5)))
    );
}
