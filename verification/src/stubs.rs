//! Stand-ins for the systems that the subscription and signup handlers talk
//! to. Whether a stand-in fails is drawn outside and handed in.

use vstd::prelude::*;
use vstd::string::StringExecFns;
use crate::text::concat3;

verus! {

/// A user who signs up.
#[derive(Debug, PartialEq, Eq)]
pub struct User {
    pub name: String,
    pub email: String,
}

/// A charge on a bank account, the amount in the smallest unit of the
/// currency.
#[derive(Debug, PartialEq, Eq)]
pub struct BankAccountCharge {
    pub amount: u64,
    pub account: String,
}

/// What every successful stand-in answers.
pub open spec fn success_text() -> Seq<char> {
    "SUCCESS"@
}

/// The reference that the stand-in for recurring payments hands out.
pub open spec fn payment_reference_text() -> Seq<char> {
    "payment-reference"@
}

/// The message of a subscription that could not be created.
pub open spec fn subscription_failure(user_id: Seq<char>, subscription: Seq<char>) -> Seq<char> {
    "Failed to create subscription: "@ + user_id + " - "@ + subscription
}

/// The message of a recurring payment that could not be created.
pub open spec fn payment_failure(payment_id: Seq<char>) -> Seq<char> {
    "Failed to create recurring payment: "@ + payment_id
}

/// Creates a subscription: fails with [`subscription_failure`] where `fails`
/// says so, and answers [`success_text`] where not.
pub fn create_subscription(user_id: &str, subscription: &str, _payment_ref: &str, fails: bool) -> (r:
    Result<String, String>)
    ensures
        fails ==> (r matches Err(m) && m@ == subscription_failure(user_id@, subscription@)),
        !fails ==> (r matches Ok(s) && s@ == success_text()),
{
    if fails {
        let mut m = concat3("Failed to create subscription: ", user_id, " - ");
        m.append(subscription);
        Err(m)
    } else {
        Ok(String::from_str("SUCCESS"))
    }
}

/// Creates a recurring payment: fails with [`payment_failure`] where `fails`
/// says so, and answers [`payment_reference_text`] where not.
pub fn create_recurring_payment(_credit_card: &str, payment_id: &str, fails: bool) -> (r: Result<
    String,
    String,
>)
    ensures
        fails ==> (r matches Err(m) && m@ == payment_failure(payment_id@)),
        !fails ==> (r matches Ok(s) && s@ == payment_reference_text()),
{
    if fails {
        let mut m = String::from_str("Failed to create recurring payment: ");
        m.append(payment_id);
        Err(m)
    } else {
        Ok(String::from_str("payment-reference"))
    }
}

/// Creates the entry of a user. It always succeeds.
pub fn create_user_entry(entry: &User) -> (r: Result<(), String>)
    ensures
        r == Ok::<(), String>(()),
{
    Ok(())
}

/// The address that a user's click on the verification link calls.
pub open spec fn click_address(user_id: Seq<char>) -> Seq<char> {
    "SignupWorkflow/"@ + user_id + "/click"@
}

/// The address that the verification link of the mail calls: see
/// [`click_address`].
pub fn click_link(user_id: &str) -> (address: String)
    ensures
        address@ == click_address(user_id@),
{
    concat3("SignupWorkflow/", user_id, "/click")
}

/// Sends the mail with the verification link. It always succeeds.
pub fn send_email_with_link(user_id: &str, user: &User, secret: &str) -> (r: Result<(), String>)
    ensures
        r == Ok::<(), String>(()),
{
    Ok(())
}

/// Charges a bank account. It always succeeds.
pub fn charge_bank_account(_payment_deduplication_id: &str, _payment: u64) -> (r: Result<(), String>)
    ensures
        r == Ok::<(), String>(()),
{
    Ok(())
}

} // verus!
