//! The side effects of the greeters: a notification and a reminder that fail
//! now and then. Whether the draw was unlucky is decided outside.

use vstd::prelude::*;
use vstd::string::StringExecFns;
use crate::text::concat3;

verus! {

/// Who can be hit by a failure on purpose.
#[derive(Debug, PartialEq, Eq)]
pub enum FailurePolicy {
    /// Everybody.
    Anyone,
    /// Everybody if the flag is set, nobody if not.
    OnRequest(bool),
    /// The person of that name, nobody else.
    OnlyFor(String),
}

impl FailurePolicy {
    /// Whether a failure on purpose can hit the person `name`.
    pub open spec fn spec_applies(&self, name: Seq<char>) -> bool {
        match self {
            FailurePolicy::Anyone => true,
            FailurePolicy::OnRequest(flag) => *flag,
            FailurePolicy::OnlyFor(person) => person@ == name,
        }
    }

    /// Whether a failure on purpose can hit the person `name`.
    pub fn applies(&self, name: &str) -> (b: bool)
        ensures
            b == self.spec_applies(name@),
    {
        match self {
            FailurePolicy::Anyone => true,
            FailurePolicy::OnRequest(flag) => *flag,
            FailurePolicy::OnlyFor(person) => *person == String::from_str(name),
        }
    }
}

/// The line that reports a notification.
pub open spec fn notification_sent(greeting_id: Seq<char>, name: Seq<char>) -> Seq<char> {
    "Notification sent: "@ + greeting_id + " - "@ + name
}

/// The message of a notification that failed on purpose.
pub open spec fn notification_failed(greeting_id: Seq<char>, name: Seq<char>) -> Seq<char> {
    "[SIMULATED] Failed to send notification: "@ + greeting_id + " - "@ + name
}

/// The line that reports a reminder.
pub open spec fn reminder_sent(greeting_id: Seq<char>) -> Seq<char> {
    "Reminder sent: "@ + greeting_id
}

/// The message of a reminder that failed on purpose.
pub open spec fn reminder_failed(greeting_id: Seq<char>) -> Seq<char> {
    "[SIMULATED] Failed to send reminder: "@ + greeting_id
}

/// Sends the notification of a greeting. It fails, with the message of
/// [`notification_failed`], if and only if the draw was unlucky and the
/// policy lets a failure hit this person; else the answer is the line of
/// [`notification_sent`].
pub fn send_notification(greeting_id: &str, name: &str, policy: &FailurePolicy, unlucky: bool) -> (r:
    Result<String, String>)
    ensures
        unlucky && policy.spec_applies(name@) ==> (r matches Err(m) && m@ == notification_failed(
            greeting_id@,
            name@,
        )),
        !(unlucky && policy.spec_applies(name@)) ==> (r matches Ok(line) && line@
            == notification_sent(greeting_id@, name@)),
{
    if unlucky && policy.applies(name) {
        let mut m = concat3("[SIMULATED] Failed to send notification: ", greeting_id, " - ");
        m.append(name);
        Err(m)
    } else {
        let mut line = concat3("Notification sent: ", greeting_id, " - ");
        line.append(name);
        Ok(line)
    }
}

/// Sends the reminder of a greeting. It fails, with the message of
/// [`reminder_failed`], if and only if the draw was unlucky and the policy
/// lets a failure hit this person; else the answer is the line of
/// [`reminder_sent`].
pub fn send_reminder(greeting_id: &str, name: &str, policy: &FailurePolicy, unlucky: bool) -> (r:
    Result<String, String>)
    ensures
        unlucky && policy.spec_applies(name@) ==> (r matches Err(m) && m@ == reminder_failed(
            greeting_id@,
        )),
        !(unlucky && policy.spec_applies(name@)) ==> (r matches Ok(line) && line@ == reminder_sent(
            greeting_id@,
        )),
{
    if unlucky && policy.applies(name) {
        let mut m = String::from_str("[SIMULATED] Failed to send reminder: ");
        m.append(greeting_id);
        Err(m)
    } else {
        let mut line = String::from_str("Reminder sent: ");
        line.append(greeting_id);
        Ok(line)
    }
}

} // verus!
