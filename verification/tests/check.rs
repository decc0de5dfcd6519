use acc_schema::record::{NO_CHECK, NO_EXPLANATION};
use acc_schema::{Check, CheckResult, Requirement};

fn holds() -> bool {
    true
}

fn fails() -> bool {
    false
}

fn requirement(check: Option<fn() -> bool>, on_fail: Option<&str>) -> Requirement<fn() -> bool> {
    Requirement::new(check, on_fail.map(|text| text.to_string()))
}

#[test]
fn check_collects_the_one_failure() {
    let mut check: Check<fn() -> bool> = Check::new("Expense".to_string());
    check.add(requirement(Some(holds), Some("never shown")));
    check.add(requirement(Some(fails), Some("the amount is missing")));
    check.add(requirement(Some(holds), None));
    let result = check.run();
    assert_eq!(
        &vec!["Expense: the amount is missing".to_string()],
        result.messages()
    );
    assert_eq!("Expense", result.record_name());
}

#[test]
fn check_without_requirements_collects_nothing() {
    let check: Check<fn() -> bool> = Check::new("Customer".to_string());
    let result = check.run();
    assert!(result.messages().is_empty());
    assert_eq!("Customer", result.record_name());
}

#[test]
fn check_collects_every_failure_in_order() {
    let mut check: Check<fn() -> bool> = Check::new("Invoice".to_string());
    check
        .add(requirement(Some(fails), Some("first")))
        .add(requirement(Some(holds), Some("second")))
        .add(requirement(None, Some("third")))
        .add(requirement(Some(fails), None))
        .add(requirement(Some(fails), Some("fifth")));
    let result = check.run();
    assert_eq!(
        &vec![
            "Invoice: first".to_string(),
            "Invoice: Got Requirement without a test. Please investigate.".to_string(),
            "Invoice: Some Requirement test failed but there is no explanation for it"
                .to_string(),
            "Invoice: fifth".to_string(),
        ],
        result.messages()
    );
}

#[test]
fn check_runs_closures_of_one_type() {
    let limit = 3;
    let amounts = [1, 5, 2];
    let mut check = Check::new("Project".to_string());
    for amount in amounts {
        check.add(Requirement::new(
            Some(move || amount <= limit),
            Some(format!("{} is over the limit", amount)),
        ));
    }
    let result = check.run();
    assert_eq!(
        &vec!["Project: 5 is over the limit".to_string()],
        result.messages()
    );
}

#[test]
fn check_result_adds_lines() {
    let mut result = CheckResult::new("Expense");
    assert!(result.messages().is_empty());
    result.add(&requirement(Some(fails), Some("explained")));
    result.add(&requirement(Some(fails), None));
    result.log_no_check();
    result.push("anything");
    assert_eq!(
        &vec![
            "Expense: explained".to_string(),
            format!("Expense: {}", NO_EXPLANATION),
            format!("Expense: {}", NO_CHECK),
            "Expense: anything".to_string(),
        ],
        result.messages()
    );
}

#[test]
fn check_record_outcome_goes_by_the_outcome() {
    let mut result = CheckResult::new("Expense");
    Check::record_outcome(&mut result, &requirement(Some(holds), Some("a")), true);
    assert!(result.messages().is_empty());
    Check::record_outcome(&mut result, &requirement(Some(holds), Some("b")), false);
    Check::record_outcome(&mut result, &requirement(None, Some("c")), true);
    Check::record_outcome(&mut result, &requirement(None, None), false);
    assert_eq!(
        &vec![
            "Expense: b".to_string(),
            format!("Expense: {}", NO_CHECK),
            format!("Expense: {}", NO_CHECK),
        ],
        result.messages()
    );
}
