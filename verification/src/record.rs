//! The kinds of record, the capability that every record offers, and the
//! checks that run requirements against a record.

use vstd::prelude::*;
use vstd::string::StringExecFns;
use crate::common::Ident;
use crate::common::IdentView;
use crate::common::ID;

verus! {

/// The closed set of record kinds. Identifier prefixes, display names and
/// the typing of relations all go by this enumeration.
#[derive(Debug, Clone, Copy, PartialEq, Eq, Structural, Hash)]
pub enum RecordType {
    Customer,
    Employee,
    Expense,
    ExpenseCategory,
    Invoice,
    Misc,
    Project,
    Transaction,
}

impl RecordType {
    /// The name shown to the user for this kind of record.
    pub open spec fn name(self) -> Seq<char> {
        match self {
            RecordType::Customer => "Customer"@,
            RecordType::Employee => "Employee"@,
            RecordType::Expense => "Expense"@,
            RecordType::ExpenseCategory => "Expense Category"@,
            RecordType::Invoice => "Invoice"@,
            RecordType::Misc => "Miscellaneous Record"@,
            RecordType::Project => "Project"@,
            RecordType::Transaction => "Transaction"@,
        }
    }

    /// The letters that start a display identifier of this kind of record.
    pub open spec fn prefix(self) -> Seq<char> {
        match self {
            RecordType::Customer => "c"@,
            RecordType::Employee => "y"@,
            RecordType::Expense => "e"@,
            RecordType::ExpenseCategory => "ec"@,
            RecordType::Invoice => "i"@,
            RecordType::Misc => "m"@,
            RecordType::Project => "p"@,
            RecordType::Transaction => "t"@,
        }
    }

    /// The prefix is one or two lower-case letters, whatever the kind.
    pub proof fn lemma_prefix_shape(self)
        ensures
            1 <= self.prefix().len() <= 2,
            forall|i: int| 0 <= i < self.prefix().len() ==> 'a' <= #[trigger] self.prefix()[i] <= 'z',
    {
        reveal_strlit("c");
        reveal_strlit("y");
        reveal_strlit("e");
        reveal_strlit("ec");
        reveal_strlit("i");
        reveal_strlit("m");
        reveal_strlit("p");
        reveal_strlit("t");
    }

    /// The display name as text.
    pub fn to_string(&self) -> (r: String)
        ensures
            r@ == self.name(),
    {
        String::from_str(
            match self {
                RecordType::Customer => "Customer",
                RecordType::Employee => "Employee",
                RecordType::Expense => "Expense",
                RecordType::ExpenseCategory => "Expense Category",
                RecordType::Invoice => "Invoice",
                RecordType::Misc => "Miscellaneous Record",
                RecordType::Project => "Project",
                RecordType::Transaction => "Transaction",
            },
        )
    }
}

/// What every record offers, whatever its shape: a stable identity, a
/// display identifier that is read and set through the record, and the kind
/// of record it is.
pub trait Record: Sized {
    /// The kind of record that every value of this type is.
    spec fn kind_of() -> RecordType;

    /// The identity of the record.
    spec fn identity(&self) -> ID;

    /// The display identifier of the record.
    spec fn identifier(&self) -> IdentView;

    /// The kind of record that this type holds.
    fn kind() -> (r: RecordType)
        ensures
            r == Self::kind_of(),
    ;

    /// The identity of the record.
    fn id(&self) -> (r: ID)
        ensures
            r == self.identity(),
    ;

    /// The display identifier of the record.
    fn ident(&self) -> (r: Ident)
        ensures
            r@ == self.identifier(),
    ;

    /// Gives the record another display identifier. Nothing else changes.
    fn set_ident(&mut self, ident: Ident)
        ensures
            final(self).identifier() == ident@,
            final(self).identity() == old(self).identity(),
    ;

    /// The kind of this record.
    fn record_type(&self) -> (r: RecordType)
        ensures
            r == Self::kind_of(),
    ;
}

/// A collection of records of one type.
pub struct Records<R: Record>(pub Vec<R>);

/// The message for a requirement that failed without an explanation.
pub const NO_EXPLANATION: &'static str =
    "Some Requirement test failed but there is no explanation for it";

/// The message for a requirement that was registered without a test.
pub const NO_CHECK: &'static str = "Got Requirement without a test. Please investigate.";

/// One line of a check result: the name of the record, a colon, a space
/// and the message.
pub open spec fn message_line(name: Seq<char>, message: Seq<char>) -> Seq<char> {
    name + ": "@ + message
}

/// The explanation for a failed requirement: its own, or the general one.
pub open spec fn failure_text(on_fail: Option<Seq<char>>) -> Seq<char> {
    match on_fail {
        Some(text) => text,
        None => NO_EXPLANATION@,
    }
}

/// The lines that one requirement adds to a result: one for a defect where
/// it has no test, none where its test returned `true`, one with the
/// explanation where it returned `false`.
pub open spec fn requirement_lines(
    name: Seq<char>,
    has_check: bool,
    on_fail: Option<Seq<char>>,
    outcome: bool,
) -> Seq<Seq<char>> {
    if !has_check {
        seq![message_line(name, NO_CHECK@)]
    } else if outcome {
        Seq::empty()
    } else {
        seq![message_line(name, failure_text(on_fail))]
    }
}

/// A single requirement on a record: a test that returns `true` where the
/// requirement is met, and the explanation to show where it is not.
pub struct Requirement<T> where T: Fn() -> bool {
    check: Option<T>,
    on_fail: Option<String>,
}

impl<T> Requirement<T> where T: Fn() -> bool {
    /// The test of the requirement, if it has one.
    pub closed spec fn test(&self) -> Option<T> {
        self.check
    }

    /// The explanation of the requirement, if it has one.
    pub closed spec fn on_fail(&self) -> Option<Seq<char>> {
        match self.on_fail {
            Some(text) => Some(text@),
            None => None,
        }
    }

    /// Whether the requirement has a test.
    pub open spec fn has_check(&self) -> bool {
        self.test() is Some
    }

    /// Whether the test, if there is one, may be called.
    pub open spec fn callable(&self) -> bool {
        match self.test() {
            Some(test) => call_requires(test, ()),
            None => true,
        }
    }

    /// Whether `outcome` is something that the test, if there is one, can
    /// return.
    pub open spec fn may_return(&self, outcome: bool) -> bool {
        match self.test() {
            Some(test) => call_ensures(test, (), outcome),
            None => true,
        }
    }

    /// The lines that this requirement adds to the result of a check on
    /// `name`, where its test returned `outcome`.
    pub open spec fn lines(&self, name: Seq<char>, outcome: bool) -> Seq<Seq<char>> {
        requirement_lines(name, self.has_check(), self.on_fail(), outcome)
    }

    /// The requirement with the given test and explanation.
    pub fn new(check: Option<T>, on_fail: Option<String>) -> (r: Self)
        ensures
            r.test() == check,
            r.on_fail() == match on_fail {
                Some(text) => Some(text@),
                None => None,
            },
    {
        Requirement { check, on_fail }
    }
}

/// What a `CheckResult` stands for: the name of the record that it speaks
/// of and the lines collected so far, oldest first.
pub struct CheckResultView {
    pub name: Seq<char>,
    pub messages: Seq<Seq<char>>,
}

/// The result of a check: one line for each requirement that failed and
/// for each that had no test, in the order of the requirements.
pub struct CheckResult {
    record_name: String,
    messages: Vec<String>,
}

impl View for CheckResult {
    type V = CheckResultView;

    closed spec fn view(&self) -> CheckResultView {
        CheckResultView {
            name: self.record_name@,
            messages: self.messages@.map_values(|line: String| line@),
        }
    }
}

impl CheckResult {
    /// The empty result for the record called `record_name`.
    pub fn new(record_name: &str) -> (r: Self)
        ensures
            r@ == (CheckResultView { name: record_name@, messages: Seq::empty() }),
    {
        let r = CheckResult { record_name: String::from_str(record_name), messages: Vec::new() };
        proof {
            assert(r@.messages =~= Seq::empty());
        }
        r
    }

    /// Adds the line for a requirement that failed: its explanation, or the
    /// general one where it has none.
    pub fn add<T: Fn() -> bool>(&mut self, r: &Requirement<T>)
        ensures
            final(self)@ == (CheckResultView {
                name: old(self)@.name,
                messages: old(self)@.messages.push(
                    message_line(old(self)@.name, failure_text(r.on_fail())),
                ),
            }),
    {
        match &r.on_fail {
            Some(text) => self.push(text.as_str()),
            None => self.push(NO_EXPLANATION),
        }
    }

    /// Adds the line that reports a requirement without a test.
    pub fn log_no_check(&mut self)
        ensures
            final(self)@ == (CheckResultView {
                name: old(self)@.name,
                messages: old(self)@.messages.push(message_line(old(self)@.name, NO_CHECK@)),
            }),
    {
        self.push(NO_CHECK);
    }

    /// Adds a line: the name of the record, then `msg`.
    pub fn push(&mut self, msg: &str)
        ensures
            final(self)@ == (CheckResultView {
                name: old(self)@.name,
                messages: old(self)@.messages.push(message_line(old(self)@.name, msg@)),
            }),
    {
        let mut line: String = self.record_name.clone();
        line.append(": ");
        line.append(msg);
        self.messages.push(line);
        proof {
            assert(self@.messages =~= old(self)@.messages.push(
                message_line(old(self)@.name, msg@),
            ));
        }
    }

    /// The name of the record that the result speaks of.
    pub fn record_name(&self) -> (r: &String)
        ensures
            r@ == self@.name,
    {
        &self.record_name
    }

    /// The lines collected, oldest first.
    pub fn messages(&self) -> (r: &Vec<String>)
        ensures
            r@.map_values(|line: String| line@) == self@.messages,
    {
        &self.messages
    }
}

/// The lines that a run of the requirements `requirements` on the record
/// called `name` collects, where the test of requirement `i` returned
/// `outcomes[i]`: those of each requirement, in the order of the
/// requirements.
pub open spec fn run_lines<T: Fn() -> bool>(
    name: Seq<char>,
    requirements: Seq<Requirement<T>>,
    outcomes: Seq<bool>,
) -> Seq<Seq<char>>
    decreases requirements.len(),
{
    if requirements.len() == 0 {
        Seq::empty()
    } else {
        run_lines(name, requirements.drop_last(), outcomes.drop_last()) + requirements.last().lines(
            name,
            outcomes.last(),
        )
    }
}

/// A run without requirements collects nothing.
pub proof fn lemma_run_lines_empty<T: Fn() -> bool>(
    name: Seq<char>,
    requirements: Seq<Requirement<T>>,
    outcomes: Seq<bool>,
)
    requires
        requirements.len() == 0,
    ensures
        run_lines(name, requirements, outcomes) == Seq::<Seq<char>>::empty(),
{
}

/// A requirement that is added last puts its lines after those of all the
/// others: the lines come in the order of the requirements.
pub proof fn lemma_run_lines_push<T: Fn() -> bool>(
    name: Seq<char>,
    requirements: Seq<Requirement<T>>,
    outcomes: Seq<bool>,
    r: Requirement<T>,
    outcome: bool,
)
    ensures
        run_lines(name, requirements.push(r), outcomes.push(outcome)) == run_lines(
            name,
            requirements,
            outcomes,
        ) + r.lines(name, outcome),
{
    assert(requirements.push(r).drop_last() =~= requirements);
    assert(outcomes.push(outcome).drop_last() =~= outcomes);
}

/// Whether `outcomes` holds, for each of `requirements`, something that its
/// test can return.
pub open spec fn are_outcomes<T: Fn() -> bool>(
    requirements: Seq<Requirement<T>>,
    outcomes: Seq<bool>,
) -> bool {
    &&& outcomes.len() == requirements.len()
    &&& forall|i: int|
        0 <= i < requirements.len() ==> (#[trigger] requirements[i]).may_return(outcomes[i])
}

/// The requirements on one kind of record, in the order in which they were
/// added.
pub struct Check<T> where T: Fn() -> bool {
    record_name: String,
    requirements: Vec<Requirement<T>>,
}

impl<T> Check<T> where T: Fn() -> bool {
    /// The name of the record that the check speaks of.
    pub closed spec fn name(&self) -> Seq<char> {
        self.record_name@
    }

    /// The requirements of the check, in the order in which they were added.
    pub closed spec fn requirements(&self) -> Seq<Requirement<T>> {
        self.requirements@
    }

    /// The check on the record called `record_name`, without requirements.
    pub fn new(record_name: String) -> (r: Self)
        ensures
            r.name() == record_name@,
            r.requirements() == Seq::<Requirement<T>>::empty(),
    {
        Check { record_name, requirements: Vec::new() }
    }

    /// Adds a requirement after those that the check has.
    pub fn add(&mut self, r: Requirement<T>) -> (ret: &mut Self)
        ensures
            ret.name() == old(self).name(),
            ret.requirements() == old(self).requirements().push(r),
            *final(self) == *final(ret),
    {
        self.requirements.push(r);
        self
    }

    /// Adds to `result` what one requirement gives where its test returned
    /// `outcome`.
    pub fn record_outcome(result: &mut CheckResult, r: &Requirement<T>, outcome: bool)
        ensures
            final(result)@ == (CheckResultView {
                name: old(result)@.name,
                messages: old(result)@.messages + r.lines(old(result)@.name, outcome),
            }),
    {
        match &r.check {
            Some(_) => {
                if !outcome {
                    result.add(r);
                }
            },
            None => {
                result.log_no_check();
            },
        }
        proof {
            assert(result@.messages =~= old(result)@.messages + r.lines(
                old(result)@.name,
                outcome,
            ));
        }
    }

    /// Runs every requirement, in the order in which they were added, and
    /// collects the lines of all that fail and of all that have no test.
    /// No failure ends the run early.
    pub fn run(&self) -> (r: CheckResult)
        requires
            forall|i: int|
                0 <= i < self.requirements().len() ==> (#[trigger] self.requirements()[i]).callable(),
        ensures
            r@.name == self.name(),
            exists|outcomes: Seq<bool>|
                are_outcomes(self.requirements(), outcomes) && r@.messages == run_lines(
                    self.name(),
                    self.requirements(),
                    outcomes,
                ),
    {
        let mut rsl: CheckResult = CheckResult::new(self.record_name.as_str());
        let ghost mut outcomes: Seq<bool> = Seq::empty();
        let mut i: usize = 0;
        proof {
            lemma_run_lines_empty(self.name(), self.requirements().take(0), outcomes);
        }
        while i < self.requirements.len()
            invariant
                i <= self.requirements.len(),
                forall|k: int|
                    0 <= k < self.requirements().len() ==> (
                    #[trigger] self.requirements()[k]).callable(),
                rsl@.name == self.name(),
                are_outcomes(self.requirements().take(i as int), outcomes),
                rsl@.messages == run_lines(
                    self.name(),
                    self.requirements().take(i as int),
                    outcomes,
                ),
            decreases self.requirements.len() - i,
        {
            let r: &Requirement<T> = &self.requirements[i];
            assert(r == self.requirements()[i as int]);
            assert(r.callable());
            let outcome: bool = match &r.check {
                Some(test) => test(),
                None => true,
            };
            Check::record_outcome(&mut rsl, r, outcome);
            proof {
                let before = self.requirements().take(i as int);
                let after = self.requirements().take(i + 1);
                let longer = outcomes.push(outcome);
                assert(after =~= before.push(*r));
                lemma_run_lines_push(self.name(), before, outcomes, *r, outcome);
                assert(r.may_return(outcome));
                assert forall|k: int| 0 <= k < after.len() implies (#[trigger] after[k]).may_return(
                    longer[k],
                ) by {
                    if k < before.len() {
                        assert(after[k] == before[k]);
                    }
                }
                outcomes = longer;
            }
            i = i + 1;
        }
        proof {
            assert(self.requirements().take(i as int) =~= self.requirements());
        }
        rsl
    }
}

} // verus!
