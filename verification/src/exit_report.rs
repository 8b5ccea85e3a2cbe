use vstd::prelude::*;
use vstd::string::*;

verus! {

/// How a background task ended, its error given by its text (`message`)
/// and by its debug rendering with the chain of causes (`cause_chain`).
pub enum TaskOutcome {
    /// The task returned normally.
    Exited,
    /// The task returned an error.
    Failed { message: String, cause_chain: String },
    /// The task did not run to completion (it panicked or was cancelled).
    NotCompleted { message: String, cause_chain: String },
}

/// The severity of a log record.
#[derive(Debug, Clone, Copy, PartialEq, Eq, Structural)]
pub enum LogLevel {
    Info,
    Error,
}

/// The log record that reports how a task ended.
pub struct ExitReport {
    pub level: LogLevel,
    pub text: String,
    /// The error's text, recorded as the field `error.message`.
    pub error_message: Option<String>,
    /// The error's chain of causes, recorded as the field `error.cause_chain`.
    pub error_cause_chain: Option<String>,
}

/// The mathematical content of a report.
pub struct ExitReportView {
    pub level: LogLevel,
    pub text: Seq<char>,
    pub error_message: Option<Seq<char>>,
    pub error_cause_chain: Option<Seq<char>>,
}

/// An optional string, taken by its view.
pub open spec fn opt_text(o: Option<String>) -> Option<Seq<char>> {
    match o {
        Some(s) => Some(s@),
        None => None,
    }
}

impl View for ExitReport {
    type V = ExitReportView;

    open spec fn view(&self) -> ExitReportView {
        ExitReportView {
            level: self.level,
            text: self.text@,
            error_message: opt_text(self.error_message),
            error_cause_chain: opt_text(self.error_cause_chain),
        }
    }
}

/// The record that reports how the task `task_name` ended.
pub open spec fn spec_report_exit(task_name: Seq<char>, outcome: TaskOutcome) -> ExitReportView {
    match outcome {
        TaskOutcome::Exited => ExitReportView {
            level: LogLevel::Info,
            text: task_name + " has exited"@,
            error_message: None,
            error_cause_chain: None,
        },
        TaskOutcome::Failed { message, cause_chain } => ExitReportView {
            level: LogLevel::Error,
            text: task_name + " failed "@,
            error_message: Some(message@),
            error_cause_chain: Some(cause_chain@),
        },
        TaskOutcome::NotCompleted { message, cause_chain } => ExitReportView {
            level: LogLevel::Error,
            text: task_name + "' task failed to complete"@,
            error_message: Some(message@),
            error_cause_chain: Some(cause_chain@),
        },
    }
}

/// Law: whatever the task's name, a normal exit is reported at level info
/// as the name followed by " has exited", with no error fields, and any
/// other ending is reported at level error with the error's text and chain
/// of causes.
pub proof fn lemma_level_follows_outcome(task_name: Seq<char>, outcome: TaskOutcome)
    ensures
        (spec_report_exit(task_name, outcome).level == LogLevel::Info) <==> (outcome is Exited),
        outcome is Exited ==> spec_report_exit(task_name, outcome) == (ExitReportView {
            level: LogLevel::Info,
            text: task_name + " has exited"@,
            error_message: None,
            error_cause_chain: None,
        }),
        !(outcome is Exited) ==> spec_report_exit(task_name, outcome).level == LogLevel::Error,
        outcome matches TaskOutcome::Failed { message, cause_chain } ==> spec_report_exit(
            task_name,
            outcome,
        ).error_message == Some(message@) && spec_report_exit(task_name, outcome).error_cause_chain
            == Some(cause_chain@),
        outcome matches TaskOutcome::NotCompleted { message, cause_chain } ==> spec_report_exit(
            task_name,
            outcome,
        ).error_message == Some(message@) && spec_report_exit(task_name, outcome).error_cause_chain
            == Some(cause_chain@),
{
}

/// Reports how the background task `task_name` ended: a normal exit at
/// level info, an error or an incomplete run at level error with the error.
pub fn report_exit(task_name: &str, outcome: TaskOutcome) -> (report: ExitReport)
    ensures
        report@ == spec_report_exit(task_name@, outcome),
        (report.level == LogLevel::Info) <==> (outcome is Exited),
        outcome is Exited ==> report.text@ == task_name@ + " has exited"@
            && report.error_message is None && report.error_cause_chain is None,
        outcome matches TaskOutcome::Failed { message, cause_chain } ==> report.text@ == task_name@
            + " failed "@ && report.error_message == Some(message)
            && report.error_cause_chain == Some(cause_chain),
        outcome matches TaskOutcome::NotCompleted { message, cause_chain } ==> report.text@
            == task_name@ + "' task failed to complete"@ && report.error_message == Some(message)
            && report.error_cause_chain == Some(cause_chain),
{
    let mut text = String::from_str(task_name);
    match outcome {
        TaskOutcome::Exited => {
            text.append(" has exited");
            ExitReport { level: LogLevel::Info, text, error_message: None, error_cause_chain: None }
        },
        TaskOutcome::Failed { message, cause_chain } => {
            text.append(" failed ");
            ExitReport {
                level: LogLevel::Error,
                text,
                error_message: Some(message),
                error_cause_chain: Some(cause_chain),
            }
        },
        TaskOutcome::NotCompleted { message, cause_chain } => {
            text.append("' task failed to complete");
            ExitReport {
                level: LogLevel::Error,
                text,
                error_message: Some(message),
                error_cause_chain: Some(cause_chain),
            }
        },
    }
}

} // verus!
