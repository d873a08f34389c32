use pymodule::load::{load_outcome, plan_load, worker_start_step, StartAction, MODULE_NAME_LEN};

#[test]
fn plan_load_refuses_a_missing_entry_file() {
    let r = plan_load("./my-project/main.py", false);
    match r {
        Ok(_) => panic!("a missing entry file must be refused"),
        Err(e) => assert_eq!(e.message, "No ./my-project/main.py found"),
    }
}

#[test]
fn plan_load_on_an_existing_file_picks_a_fresh_name() {
    let r = plan_load("./my-project/main.py", true);
    match r {
        Ok(name) => assert_eq!(name.chars().count(), MODULE_NAME_LEN),
        Err(_) => panic!("an existing entry file must be accepted"),
    }
}

#[test]
fn worker_serves_exactly_when_the_context_loaded() {
    assert_eq!(worker_start_step(true), StartAction::ReportSuccessAndServe);
    assert_eq!(worker_start_step(false), StartAction::ReportFailureAndExit);
}

#[test]
fn load_outcome_passes_success_through() {
    assert!(load_outcome(Ok(())).is_ok());
}

#[test]
fn load_outcome_keeps_the_failure_detail() {
    let r = load_outcome(Err(String::from("import raised")));
    match r {
        Ok(_) => panic!("a failed initialization must surface as an error"),
        Err(e) => assert_eq!(e.message, "import raised"),
    }
}
