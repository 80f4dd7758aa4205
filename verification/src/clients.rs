//! The outside parties of the ticket shop, as far as the shop decides what
//! they answer: the mail client and the payment client.

use vstd::prelude::*;
use vstd::string::StringExecFns;
use crate::text::{concat3, decimal, decimal_text};

verus! {

/// Tells users how their payment went.
#[derive(Debug, Clone, Copy, PartialEq, Eq, Structural)]
pub struct EmailClient;

impl EmailClient {
    /// A mail client.
    pub fn new() -> (c: Self)
        ensures
            c == EmailClient,
    {
        EmailClient
    }

    /// The line that announces a success notice to `user_id`.
    pub open spec fn spec_success_line(user_id: Seq<char>) -> Seq<char> {
        "Notifying user "@ + user_id + " of payment success"@
    }

    /// The line that announces a failure notice to `user_id`.
    pub open spec fn spec_failure_line(user_id: Seq<char>) -> Seq<char> {
        "Notifying user "@ + user_id + " of payment failure"@
    }

    /// The line that announces a success notice to `user_id`.
    pub fn success_line(&self, user_id: &str) -> (line: String)
        ensures
            line@ == Self::spec_success_line(user_id@),
    {
        concat3("Notifying user ", user_id, " of payment success")
    }

    /// The line that announces a failure notice to `user_id`.
    pub fn failure_line(&self, user_id: &str) -> (line: String)
        ensures
            line@ == Self::spec_failure_line(user_id@),
    {
        concat3("Notifying user ", user_id, " of payment failure")
    }

    /// Notifies the user of a payment that succeeded. The answer is the
    /// payment's success: `true`.
    pub fn notify_user_of_payment_success(&self, user_id: &str) -> (r: Result<bool, String>)
        ensures
            r == Ok::<bool, String>(true),
    {
        Ok(true)
    }

    /// Notifies the user of a payment that failed. The answer is the
    /// payment's success: `false`.
    pub fn notify_user_of_payment_failure(&self, user_id: &str) -> (r: Result<bool, String>)
        ensures
            r == Ok::<bool, String>(false),
    {
        Ok(false)
    }
}

impl Default for EmailClient {
    fn default() -> (c: Self)
        ensures
            c == EmailClient,
    {
        EmailClient::new()
    }
}

/// The message of a payment call that did not go through.
pub open spec fn payment_failed() -> Seq<char> {
    "Payment call failed"@
}

/// The number of failed calls after which [`PaymentClient::failing_call`]
/// goes through.
pub const FAILURES_BEFORE_SUCCESS: i32 = 2;

/// Makes payments. It counts the calls that failed since the last success.
#[derive(Debug, PartialEq, Eq)]
pub struct PaymentClient {
    attempts: i32,
}

impl View for PaymentClient {
    type V = int;

    /// The number of calls that failed since the last success.
    closed spec fn view(&self) -> int {
        self.attempts as int
    }
}

impl PaymentClient {
    /// A payment client that has not failed yet.
    pub fn new() -> (c: Self)
        ensures
            c@ == 0,
    {
        PaymentClient { attempts: 0 }
    }

    /// The number of calls that failed since the last success.
    pub fn attempts(&self) -> (n: i32)
        ensures
            n == self@,
    {
        self.attempts
    }

    /// The line that reports a payment that went through.
    pub open spec fn spec_success_line(idempotency_key: Seq<char>, amount: u64) -> Seq<char> {
        "Payment call succeeded for idempotency key "@ + idempotency_key + " and amount "@
            + decimal(amount as nat)
    }

    /// The line that reports a payment that did not go through.
    pub open spec fn spec_failure_line(idempotency_key: Seq<char>, amount: u64) -> Seq<char> {
        "Payment call failed for idempotency key "@ + idempotency_key + " and amount "@ + decimal(
            amount as nat,
        ) + ". Retrying..."@
    }

    /// The line that reports a payment that went through.
    pub fn success_line(&self, idempotency_key: &str, amount: u64) -> (line: String)
        ensures
            line@ == Self::spec_success_line(idempotency_key@, amount),
    {
        let mut line = concat3(
            "Payment call succeeded for idempotency key ",
            idempotency_key,
            " and amount ",
        );
        line.append(decimal_text(amount).as_str());
        line
    }

    /// The line that reports a payment that did not go through.
    pub fn failure_line(&self, idempotency_key: &str, amount: u64) -> (line: String)
        ensures
            line@ == Self::spec_failure_line(idempotency_key@, amount),
    {
        let mut line = concat3(
            "Payment call failed for idempotency key ",
            idempotency_key,
            " and amount ",
        );
        line.append(decimal_text(amount).as_str());
        line.append(". Retrying...");
        line
    }

    /// Makes the payment. It always goes through.
    pub fn call(&self, idempotency_key: &str, amount: u64) -> (r: Result<bool, String>)
        ensures
            r == Ok::<bool, String>(true),
    {
        Ok(true)
    }

    /// Makes the payment the hard way: the call fails until
    /// [`FAILURES_BEFORE_SUCCESS`] calls have failed since the last success,
    /// then goes through and starts counting again.
    pub fn failing_call(&mut self, idempotency_key: &str, amount: u64) -> (r: Result<bool, String>)
        ensures
            old(self)@ >= FAILURES_BEFORE_SUCCESS ==> r == Ok::<bool, String>(true) && final(self)@
                == 0,
            old(self)@ < FAILURES_BEFORE_SUCCESS ==> (r matches Err(m) && m@ == payment_failed())
                && final(self)@ == old(self)@ + 1,
    {
        let attempt = self.attempts;
        if attempt >= FAILURES_BEFORE_SUCCESS {
            self.attempts = 0;
            Ok(true)
        } else {
            self.attempts = attempt + 1;
            Err(String::from_str("Payment call failed"))
        }
    }
}

impl Default for PaymentClient {
    fn default() -> (c: Self)
        ensures
            c@ == 0,
    {
        PaymentClient::new()
    }
}

} // verus!
