//! Expenses: payments that the company or a third party made to keep the
//! business going, with their categories and ways of payment.

use vstd::prelude::*;
use vstd::string::StringExecFns;
use crate::common::is_random_id;
use crate::common::sequence_text;
use crate::common::Ident;
use crate::common::IdentView;
use crate::common::ID;
use crate::date::CivilDay;
use crate::date::Date;
use crate::entity::Customer;
use crate::entity::Employee;
use crate::entity::Entity;
use crate::money::display_text;
use crate::money::local_money_text;
use crate::money::CurrencyView;
use crate::money::Money;
use crate::money::MoneyView;
use crate::project::Project;
use crate::record::Record;
use crate::record::RecordType;
use crate::relation::Relation;
use crate::transaction::Transaction;

verus! {

/// What an `ExpenseCategory` stands for.
pub struct ExpenseCategoryView {
    pub id: ID,
    pub ident: IdentView,
    pub name: Seq<char>,
    pub account: Seq<char>,
}

/// A category of expenses. It names the account of the ledger to which
/// the expenses of the category are booked.
#[derive(Debug, Clone)]
pub struct ExpenseCategory<'a> {
    id: ID,
    ident: Ident,
    name: &'a str,
    account: &'a str,
}

impl<'a> View for ExpenseCategory<'a> {
    type V = ExpenseCategoryView;

    closed spec fn view(&self) -> ExpenseCategoryView {
        ExpenseCategoryView {
            id: self.id,
            ident: self.ident@,
            name: self.name@,
            account: self.account@,
        }
    }
}

/// The text that shows a category of expenses to the user.
pub open spec fn category_text(name: Seq<char>, ident: Seq<char>) -> Seq<char> {
    "Expense Category "@ + name + " ("@ + ident + ")"@
}

impl<'a> ExpenseCategory<'a> {
    /// The category with the given identity, identifier, name and account.
    pub fn new(id: ID, ident: Ident, name: &'a str, account: &'a str) -> (r: Self)
        ensures
            r@ == (ExpenseCategoryView { id, ident: ident@, name: name@, account: account@ }),
    {
        ExpenseCategory { id, ident, name, account }
    }

    /// What the category is for, in a few words.
    pub fn name(&self) -> (r: &'a str)
        ensures
            r@ == self@.name,
    {
        self.name
    }

    /// The path of the account in the ledger, its parts joined by colons.
    pub fn account(&self) -> (r: &'a str)
        ensures
            r@ == self@.account,
    {
        self.account
    }

    /// What the record capability reports is what the category stands
    /// for.
    pub proof fn lemma_record_view(&self)
        ensures
            self.identity() == self@.id,
            self.identifier() == self@.ident,
    {
    }

    /// The text that shows the category to the user.
    pub fn to_string(&self) -> (r: String)
        ensures
            r@ == category_text(self@.name, self@.ident.text),
    {
        let ident: String = self.ident.to_string();
        let mut s: String = String::from_str("Expense Category ");
        s.append(self.name);
        s.append(" (");
        s.append(ident.as_str());
        s.append(")");
        s
    }
}

impl<'a> Default for ExpenseCategory<'a> {
    /// A sample category with a fresh identity.
    fn default() -> (r: Self)
        ensures
            is_random_id(r@.id@ as u128),
            r@.ident == (IdentView {
                record: RecordType::ExpenseCategory,
                text: sequence_text(RecordType::ExpenseCategory, 1),
            }),
            r@.name == "Costs of Materials"@,
            r@.account == "4 Aufwand:40 Materialaufwand:400 Materialaufwand"@,
    {
        ExpenseCategory {
            id: ID::new(),
            ident: Ident::from_n(RecordType::ExpenseCategory, 1),
            name: "Costs of Materials",
            account: "4 Aufwand:40 Materialaufwand:400 Materialaufwand",
        }
    }
}

impl<'a> Record for ExpenseCategory<'a> {
    open spec fn kind_of() -> RecordType {
        RecordType::ExpenseCategory
    }

    closed spec fn identity(&self) -> ID {
        self.id
    }

    closed spec fn identifier(&self) -> IdentView {
        self.ident@
    }

    fn kind() -> (r: RecordType) {
        RecordType::ExpenseCategory
    }

    fn id(&self) -> (r: ID) {
        self.id
    }

    fn ident(&self) -> (r: Ident) {
        self.ident.clone()
    }

    fn set_ident(&mut self, ident: Ident)
        ensures
            final(self)@ == (ExpenseCategoryView { ident: ident@, ..old(self)@ }),
    {
        self.ident = ident;
    }

    fn record_type(&self) -> (r: RecordType) {
        RecordType::ExpenseCategory
    }
}

/// The way in which an expense was paid.
#[derive(Debug, Clone, Copy, PartialEq, Eq, Structural, Hash)]
pub enum PaymentMethod {
    /// Paid in cash.
    Cash,
    /// Paid with a credit card.
    Credit,
    /// Paid with a debit card, so that the amount left the bank account at
    /// once.
    Debit,
    /// Paid by bank transfer.
    BankTransfer,
}

impl PaymentMethod {
    /// The name shown to the user for this way of payment.
    pub open spec fn name(self) -> Seq<char> {
        match self {
            PaymentMethod::Cash => "Cash"@,
            PaymentMethod::Credit => "Credit"@,
            PaymentMethod::Debit => "Debit"@,
            PaymentMethod::BankTransfer => "Bank Transfer"@,
        }
    }

    /// The name as text.
    pub fn to_string(&self) -> (r: String)
        ensures
            r@ == self.name(),
    {
        String::from_str(
            match self {
                PaymentMethod::Cash => "Cash",
                PaymentMethod::Credit => "Credit",
                PaymentMethod::Debit => "Debit",
                PaymentMethod::BankTransfer => "Bank Transfer",
            },
        )
    }
}

impl Default for PaymentMethod {
    /// Payment by bank transfer.
    fn default() -> (r: Self)
        ensures
            r == PaymentMethod::BankTransfer,
    {
        PaymentMethod::BankTransfer
    }
}

/// The day that an optional date stands for.
pub open spec fn day_of(date: Option<Date>) -> Option<CivilDay> {
    match date {
        Some(day) => Some(day@),
        None => None,
    }
}

/// What an `Expense` stands for. A relation stands for itself: for the
/// identity of its target, as which it is persisted, and for the target
/// where it holds one.
pub struct ExpenseView<'a> {
    pub id: ID,
    pub ident: IdentView,
    pub name: Seq<char>,
    pub amount: MoneyView,
    pub path: Seq<char>,
    pub date_of_accrual: CivilDay,
    pub billable: bool,
    pub obliged_customer: Option<Relation<Entity<'a, Customer>>>,
    pub advanced_by_third_party: bool,
    pub advanced_third_party: Option<Relation<Entity<'a, Employee>>>,
    pub date_of_settlement: Option<CivilDay>,
    pub settlement_transaction: Option<Relation<Transaction>>,
    pub expense_category: Option<Relation<ExpenseCategory<'a>>>,
    pub payment_method: PaymentMethod,
    pub internal: bool,
    pub project: Option<Relation<Project>>,
}

/// A payment that the company or a third party made to keep the business
/// going.
#[derive(Debug, Clone)]
pub struct Expense<'a> {
    id: ID,
    ident: Ident,
    name: &'a str,
    amount: Money,
    path: String,
    date_of_accrual: Date,
    billable: bool,
    obliged_customer: Option<Relation<Entity<'a, Customer>>>,
    advanced_by_third_party: bool,
    advanced_third_party: Option<Relation<Entity<'a, Employee>>>,
    date_of_settlement: Option<Date>,
    settlement_transaction: Option<Relation<Transaction>>,
    expense_category: Option<Relation<ExpenseCategory<'a>>>,
    payment_method: PaymentMethod,
    internal: bool,
    project: Option<Relation<Project>>,
}

impl<'a> View for Expense<'a> {
    type V = ExpenseView<'a>;

    closed spec fn view(&self) -> ExpenseView<'a> {
        ExpenseView {
            id: self.id,
            ident: self.ident@,
            name: self.name@,
            amount: self.amount@,
            path: self.path@,
            date_of_accrual: self.date_of_accrual@,
            billable: self.billable,
            obliged_customer: self.obliged_customer,
            advanced_by_third_party: self.advanced_by_third_party,
            advanced_third_party: self.advanced_third_party,
            date_of_settlement: day_of(self.date_of_settlement),
            settlement_transaction: self.settlement_transaction,
            expense_category: self.expense_category,
            payment_method: self.payment_method,
            internal: self.internal,
            project: self.project,
        }
    }
}

/// The text that shows an expense to the user.
pub open spec fn expense_text(name: Seq<char>, ident: Seq<char>, amount: Seq<char>) -> Seq<char> {
    "Expense "@ + name + " ("@ + ident + ") for "@ + amount
}

impl<'a> Expense<'a> {
    /// The expense with the given identity, identifier, name, amount,
    /// place of the receipt and day of accrual. It is not billable, was
    /// not advanced, is not settled, has no category and no project, was
    /// paid by bank transfer and is not internal.
    pub fn new(
        id: ID,
        ident: Ident,
        name: &'a str,
        amount: Money,
        path: String,
        date_of_accrual: Date,
    ) -> (r: Self)
        ensures
            r@ == (ExpenseView {
                id,
                ident: ident@,
                name: name@,
                amount: amount@,
                path: path@,
                date_of_accrual: date_of_accrual@,
                billable: false,
                obliged_customer: None,
                advanced_by_third_party: false,
                advanced_third_party: None,
                date_of_settlement: None,
                settlement_transaction: None,
                expense_category: None,
                payment_method: PaymentMethod::BankTransfer,
                internal: false,
                project: None,
            }),
    {
        Expense {
            id,
            ident,
            name,
            amount,
            path,
            date_of_accrual,
            billable: false,
            obliged_customer: None,
            advanced_by_third_party: false,
            advanced_third_party: None,
            date_of_settlement: None,
            settlement_transaction: None,
            expense_category: None,
            payment_method: PaymentMethod::default(),
            internal: false,
            project: None,
        }
    }

    /// What the record capability reports is what the expense stands for.
    pub proof fn lemma_record_view(&self)
        ensures
            self.identity() == self@.id,
            self.identifier() == self@.ident,
    {
    }

    /// What the expense was for.
    pub fn name(&self) -> (r: &'a str)
        ensures
            r@ == self@.name,
    {
        self.name
    }

    /// The amount paid.
    pub fn amount(&self) -> (r: Money)
        ensures
            r@ == self@.amount,
    {
        self.amount
    }

    /// Where the receipt or the invoice for the expense is kept.
    pub fn path(&self) -> (r: &String)
        ensures
            r@ == self@.path,
    {
        &self.path
    }

    /// The day on which the obligation arose.
    pub fn date_of_accrual(&self) -> (r: Date)
        ensures
            r@ == self@.date_of_accrual,
    {
        self.date_of_accrual
    }

    /// Whether the expense is to be charged on to a third party.
    pub fn billable(&self) -> (r: bool)
        ensures
            r == self@.billable,
    {
        self.billable
    }

    /// The customer who has to pay for the expense, if any.
    pub fn obliged_customer(&self) -> (r: &Option<Relation<Entity<'a, Customer>>>)
        ensures
            *r == self@.obliged_customer,
    {
        &self.obliged_customer
    }

    /// Whether a third party advanced the payment and is to be paid back.
    pub fn advanced_by_third_party(&self) -> (r: bool)
        ensures
            r == self@.advanced_by_third_party,
    {
        self.advanced_by_third_party
    }

    /// The third party that advanced the payment, if any.
    pub fn advanced_third_party(&self) -> (r: &Option<Relation<Entity<'a, Employee>>>)
        ensures
            *r == self@.advanced_third_party,
    {
        &self.advanced_third_party
    }

    /// The day on which the expense was settled, if it is.
    pub fn date_of_settlement(&self) -> (r: Option<Date>)
        ensures
            day_of(r) == self@.date_of_settlement,
    {
        self.date_of_settlement
    }

    /// The bank transaction that settled the expense, if there is one.
    pub fn settlement_transaction(&self) -> (r: &Option<Relation<Transaction>>)
        ensures
            *r == self@.settlement_transaction,
    {
        &self.settlement_transaction
    }

    /// The category of the expense, if it has one.
    pub fn expense_category(&self) -> (r: &Option<Relation<ExpenseCategory<'a>>>)
        ensures
            *r == self@.expense_category,
    {
        &self.expense_category
    }

    /// The way in which the expense was paid.
    pub fn payment_method(&self) -> (r: PaymentMethod)
        ensures
            r == self@.payment_method,
    {
        self.payment_method
    }

    /// Whether the expense served the company itself only.
    pub fn internal(&self) -> (r: bool)
        ensures
            r == self@.internal,
    {
        self.internal
    }

    /// The project for which the expense was paid, if any.
    pub fn project(&self) -> (r: &Option<Relation<Project>>)
        ensures
            *r == self@.project,
    {
        &self.project
    }

    /// Sets whether the expense is to be charged on to a third party. Nothing else changes.
    pub fn set_billable(&mut self, billable: bool)
        ensures
            final(self)@ == (ExpenseView { billable: billable, ..old(self)@ }),
    {
        self.billable = billable;
    }

    /// Sets the customer who has to pay for the expense, if any. Nothing else changes.
    pub fn set_obliged_customer(&mut self, obliged_customer: Option<Relation<Entity<'a, Customer>>>)
        ensures
            final(self)@ == (ExpenseView { obliged_customer, ..old(self)@ }),
    {
        self.obliged_customer = obliged_customer;
    }

    /// Sets whether a third party advanced the payment and is to be paid back. Nothing else changes.
    pub fn set_advanced_by_third_party(&mut self, advanced_by_third_party: bool)
        ensures
            final(self)@ == (ExpenseView { advanced_by_third_party: advanced_by_third_party, ..old(self)@ }),
    {
        self.advanced_by_third_party = advanced_by_third_party;
    }

    /// Sets the third party that advanced the payment, if any. Nothing else changes.
    pub fn set_advanced_third_party(&mut self, advanced_third_party: Option<Relation<Entity<'a, Employee>>>)
        ensures
            final(self)@ == (ExpenseView { advanced_third_party, ..old(self)@ }),
    {
        self.advanced_third_party = advanced_third_party;
    }

    /// Sets the day on which the expense was settled, if it is. Nothing else changes.
    pub fn set_date_of_settlement(&mut self, date_of_settlement: Option<Date>)
        ensures
            final(self)@ == (ExpenseView { date_of_settlement: day_of(date_of_settlement), ..old(self)@ }),
    {
        self.date_of_settlement = date_of_settlement;
    }

    /// Sets the bank transaction that settled the expense, if there is one. Nothing else changes.
    pub fn set_settlement_transaction(&mut self, settlement_transaction: Option<Relation<Transaction>>)
        ensures
            final(self)@ == (ExpenseView { settlement_transaction, ..old(self)@ }),
    {
        self.settlement_transaction = settlement_transaction;
    }

    /// Sets the category of the expense, if it has one. Nothing else changes.
    pub fn set_expense_category(&mut self, expense_category: Option<Relation<ExpenseCategory<'a>>>)
        ensures
            final(self)@ == (ExpenseView { expense_category, ..old(self)@ }),
    {
        self.expense_category = expense_category;
    }

    /// Sets the way in which the expense was paid. Nothing else changes.
    pub fn set_payment_method(&mut self, payment_method: PaymentMethod)
        ensures
            final(self)@ == (ExpenseView { payment_method: payment_method, ..old(self)@ }),
    {
        self.payment_method = payment_method;
    }

    /// Sets whether the expense served the company itself only. Nothing else changes.
    pub fn set_internal(&mut self, internal: bool)
        ensures
            final(self)@ == (ExpenseView { internal: internal, ..old(self)@ }),
    {
        self.internal = internal;
    }

    /// Sets the project for which the expense was paid, if any. Nothing else changes.
    pub fn set_project(&mut self, project: Option<Relation<Project>>)
        ensures
            final(self)@ == (ExpenseView { project, ..old(self)@ }),
    {
        self.project = project;
    }

    /// The text that shows the expense to the user, given the text that
    /// shows its amount.
    pub fn display_with(&self, amount: &str) -> (r: String)
        ensures
            r@ == expense_text(self@.name, self@.ident.text, amount@),
    {
        let ident: String = self.ident.to_string();
        let mut s: String = String::from_str("Expense ");
        s.append(self.name);
        s.append(" (");
        s.append(ident.as_str());
        s.append(") for ");
        s.append(amount);
        s
    }

    /// The text that shows the expense to the user.
    pub fn to_string(&self) -> (r: String)
        ensures
            r@ == expense_text(
                self@.name,
                self@.ident.text,
                display_text(
                    self@.amount,
                    local_money_text(self@.amount.minor, self@.amount.currency.code),
                ),
            ),
    {
        let amount: String = self.amount.to_string();
        self.display_with(amount.as_str())
    }
}

impl<'a> Default for Expense<'a> {
    /// A sample expense with a fresh identity: no money, accrued on the
    /// first of January 1970, with nothing else set.
    fn default() -> (r: Self)
        ensures
            is_random_id(r@.id@ as u128),
            r@ == (ExpenseView {
                id: r@.id,
                ident: IdentView {
                    record: RecordType::Expense,
                    text: sequence_text(RecordType::Expense, 1),
                },
                name: "HAL 9000"@,
                amount: MoneyView {
                    minor: 0,
                    currency: CurrencyView { code: seq!['C', 'H', 'F'], exponent: 2 },
                },
                path: "/path/to/attachement.pdf"@,
                date_of_accrual: CivilDay { year: 1970, month: 1, day: 1 },
                billable: false,
                obliged_customer: None,
                advanced_by_third_party: false,
                advanced_third_party: None,
                date_of_settlement: None,
                settlement_transaction: None,
                expense_category: None,
                payment_method: PaymentMethod::BankTransfer,
                internal: false,
                project: None,
            }),
    {
        Expense {
            id: ID::new(),
            ident: Ident::from_n(RecordType::Expense, 1),
            name: "HAL 9000",
            amount: Money::default(),
            path: String::from_str("/path/to/attachement.pdf"),
            date_of_accrual: Date::default(),
            billable: false,
            obliged_customer: None,
            advanced_by_third_party: false,
            advanced_third_party: None,
            date_of_settlement: None,
            settlement_transaction: None,
            expense_category: None,
            payment_method: PaymentMethod::default(),
            internal: false,
            project: None,
        }
    }
}

impl<'a> Record for Expense<'a> {
    open spec fn kind_of() -> RecordType {
        RecordType::Expense
    }

    closed spec fn identity(&self) -> ID {
        self.id
    }

    closed spec fn identifier(&self) -> IdentView {
        self.ident@
    }

    fn kind() -> (r: RecordType) {
        RecordType::Expense
    }

    fn id(&self) -> (r: ID) {
        self.id
    }

    fn ident(&self) -> (r: Ident) {
        self.ident.clone()
    }

    fn set_ident(&mut self, ident: Ident)
        ensures
            final(self)@ == (ExpenseView { ident: ident@, ..old(self)@ }),
    {
        self.ident = ident;
    }

    fn record_type(&self) -> (r: RecordType) {
        RecordType::Expense
    }
}

} // verus!
