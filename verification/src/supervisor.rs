//! Supervision of the render/control loop: every abnormal loop outcome is
//! converted into exactly one persistent error notification, and the
//! supervised entry point always hands the host a clean return.

use vstd::prelude::*;

verus! {

/// Severity of a user-visible notification.
#[derive(Clone, Copy, PartialEq, Eq, Structural, Debug)]
pub enum Severity {
    Info,
    Warning,
    Error,
}

/// A user-visible notification dispatched to the host's notification sink.
pub struct Notification {
    /// Short category title.
    pub title: String,
    /// Severity level shown to the user.
    pub severity: Severity,
    /// Optional root-cause text.
    pub detail: Option<String>,
    /// Whether the notification stays on screen until dismissed.
    pub persistent: bool,
}

/// How one run of the render/control loop ended.
pub enum LoopOutcome {
    /// The loop observed the termination message and exited normally.
    Completed,
    /// The loop propagated an error; `cause` is its root-cause text.
    Failed { cause: String },
    /// The loop panicked; `message` is the panic payload's text, when the
    /// payload carried one.
    Panicked { message: Option<String> },
}

/// What the supervised entry point does before returning: the notifications
/// it dispatches (at most one), and whether it returns cleanly to the host.
pub struct SupervisionReport {
    /// Notifications to dispatch to the host's notification sink.
    pub notifications: Vec<Notification>,
    /// Whether the entry point returns without propagating a failure to the
    /// host; supervision guarantees that it always does.
    pub clean_return: bool,
}

/// Title of the notification reporting a loop error.
pub open spec fn gpu_error_title() -> Seq<char> {
    "GPU pipeline error"@
}

/// Title of the notification reporting a caught panic.
pub open spec fn gpu_panic_title() -> Seq<char> {
    "GPU pipeline panic"@
}

/// Fallback text used when a panic payload carries no readable message.
pub open spec fn panic_fallback() -> Seq<char> {
    "Caught a panic with an unknown type."@
}

/// Extracts a human-readable message from a panic payload: the payload's own
/// text when it has one, a fixed fallback otherwise.
pub fn panic_message(payload: Option<String>) -> (r: String)
    ensures
        payload matches Some(m) ==> r@ == m@,
        payload is None ==> r@ == panic_fallback(),
{
    match payload {
        Some(m) => m,
        None => "Caught a panic with an unknown type.".to_owned(),
    }
}

/// Decides what the supervised entry point does for a finished loop: a normal
/// completion passes silently; an error or a caught panic is reported through
/// exactly one persistent, error-severity notification. In every case the
/// entry point returns cleanly — a broken shader or a pipeline bug degrades
/// to "this one effect stops working", never to a host crash.
pub fn supervise(outcome: LoopOutcome) -> (r: SupervisionReport)
    ensures
        r.clean_return,
        outcome is Completed ==> r.notifications@.len() == 0,
        !(outcome is Completed) ==> {
            &&& r.notifications@.len() == 1
            &&& r.notifications@[0].severity is Error
            &&& r.notifications@[0].persistent
        },
        outcome matches LoopOutcome::Failed { cause } ==> {
            &&& r.notifications@[0].title@ == gpu_error_title()
            &&& r.notifications@[0].detail matches Some(d) && d@ == cause@
        },
        outcome matches LoopOutcome::Panicked { message } ==> {
            &&& r.notifications@[0].title@ == gpu_panic_title()
            &&& (message matches Some(m) ==> (r.notifications@[0].detail matches Some(d)
                && d@ == m@))
            &&& (message is None ==> (r.notifications@[0].detail matches Some(d)
                && d@ == panic_fallback()))
        },
{
    match outcome {
        LoopOutcome::Completed => SupervisionReport { notifications: Vec::new(), clean_return: true },
        LoopOutcome::Failed { cause } => {
            let mut notifications: Vec<Notification> = Vec::new();
            notifications.push(Notification {
                title: "GPU pipeline error".to_owned(),
                severity: Severity::Error,
                detail: Some(cause),
                persistent: true,
            });
            SupervisionReport { notifications, clean_return: true }
        },
        LoopOutcome::Panicked { message } => {
            let detail = panic_message(message);
            let mut notifications: Vec<Notification> = Vec::new();
            notifications.push(Notification {
                title: "GPU pipeline panic".to_owned(),
                severity: Severity::Error,
                detail: Some(detail),
                persistent: true,
            });
            SupervisionReport { notifications, clean_return: true }
        },
    }
}

} // verus!
