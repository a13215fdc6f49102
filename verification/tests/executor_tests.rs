use autodeploy::manifest::Action;
use autodeploy::processor::{Executor, Message};

fn command(name: &str) -> Action {
    Action::Command { command: name.to_string(), args: Vec::new() }
}

#[test]
fn failing_second_action_stops_the_run() {
    // a three-action manifest where the second action fails: the executor
    // hands out actions one and two, never action three, and reports
    // failure with one of three actions completed
    let actions = vec![command("first"), command("second"), command("third")];
    let mut exec = Executor::new(actions);

    match exec.next_action() {
        Some(Action::Command { command, .. }) => assert_eq!(command, "first"),
        _ => panic!("expected the first action"),
    }
    exec.record(true);

    match exec.next_action() {
        Some(Action::Command { command, .. }) => assert_eq!(command, "second"),
        _ => panic!("expected the second action"),
    }
    exec.record(false);

    assert!(exec.next_action().is_none());
    let (ok, completed) = exec.report();
    assert!(!ok);
    assert_eq!(completed, 1);
}

#[test]
fn all_actions_succeeding_reports_success() {
    let actions = vec![
        command("a"),
        Action::Copy { src: "conf/site".to_string(), dest: "/srv/site".to_string() },
    ];
    let mut exec = Executor::new(actions);
    let mut ran = 0;
    while let Some(_a) = exec.next_action() {
        exec.record(true);
        ran += 1;
    }
    assert_eq!(ran, 2);
    assert_eq!(exec.report(), (true, 2));
}

#[test]
fn empty_manifest_succeeds_with_zero_actions() {
    let mut_exec = Executor::new(Vec::new());
    assert!(mut_exec.next_action().is_none());
    assert_eq!(mut_exec.report(), (true, 0));
}

#[test]
fn failing_first_action_reports_zero_completed() {
    let mut exec = Executor::new(vec![command("only")]);
    assert!(exec.next_action().is_some());
    exec.record(false);
    assert!(exec.next_action().is_none());
    assert_eq!(exec.report(), (false, 0));
}

#[test]
fn actions_come_out_in_declared_order() {
    let actions = vec![command("one"), command("two"), command("three")];
    let mut exec = Executor::new(actions);
    let mut seen: Vec<String> = Vec::new();
    while let Some(a) = exec.next_action() {
        match a {
            Action::Command { command, .. } => seen.push(command.clone()),
            Action::Copy { .. } => panic!("no copy was declared"),
        }
        exec.record(true);
    }
    assert_eq!(seen, vec!["one", "two", "three"]);
}

#[test]
fn job_message_carries_path_and_repository() {
    let m = Message { path: "/var/mirrors/o__r".to_string(), repository: "o/r".to_string() };
    assert_eq!(m.path, "/var/mirrors/o__r");
    assert_eq!(m.repository, "o/r");
}
