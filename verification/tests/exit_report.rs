use news_letter::exit_report::{report_exit, LogLevel, TaskOutcome};

#[test]
fn normal_exit_is_info() {
    let r = report_exit("API", TaskOutcome::Exited);
    assert_eq!(r.level, LogLevel::Info);
    assert_eq!(r.text, "API has exited");
    assert!(r.error_message.is_none());
    assert!(r.error_cause_chain.is_none());
}

#[test]
fn failure_is_error() {
    let r = report_exit(
        "Background worker",
        TaskOutcome::Failed { message: "boom".to_string(), cause_chain: "Boom(\"x\")".to_string() },
    );
    assert_eq!(r.level, LogLevel::Error);
    assert_eq!(r.text, "Background worker failed ");
    assert_eq!(r.error_message.as_deref(), Some("boom"));
    assert_eq!(r.error_cause_chain.as_deref(), Some("Boom(\"x\")"));
}

#[test]
fn incomplete_task_is_error() {
    let r = report_exit(
        "API",
        TaskOutcome::NotCompleted { message: "task 1 panicked".to_string(), cause_chain: "JoinError".to_string() },
    );
    assert_eq!(r.level, LogLevel::Error);
    assert_eq!(r.text, "API' task failed to complete");
    assert_eq!(r.error_message.as_deref(), Some("task 1 panicked"));
}
