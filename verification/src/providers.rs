//! Stand-ins for the payment provider and the subscription system of the
//! orchestration handlers. References are drawn at random.

use vstd::prelude::*;
use vstd::string::StringExecFns;
use crate::text::concat3;

verus! {

/// Whether the character is a decimal digit or one of the letters `a` to `f`.
pub open spec fn is_lower_hex(c: char) -> bool {
    ('0' <= c <= '9') || ('a' <= c <= 'f')
}

/// Whether the text has the shape of a random (version 4) UUID in its usual
/// writing: 36 characters, hyphens at the places 8, 13, 18 and 23, lower-case
/// hexadecimal digits elsewhere, the version digit `4` at place 14 and one of
/// `8`, `9`, `a`, `b` at place 19.
pub open spec fn is_uuid_text(s: Seq<char>) -> bool {
    &&& s.len() == 36
    &&& forall|i: int|
        0 <= i < 36 ==> if i == 8 || i == 13 || i == 18 || i == 23 {
            #[trigger] s[i] == '-'
        } else {
            is_lower_hex(s[i])
        }
    &&& s[14] == '4'
    &&& (s[19] == '8' || s[19] == '9' || s[19] == 'a' || s[19] == 'b')
}

/// Draws a random UUID and writes it out: `uuid::Uuid::new_v4` followed by
/// the crate's `Display`, which writes the hyphenated lower-case form. The
/// contract claims the shape of the text, see [`is_uuid_text`], and nothing
/// of its value. The call ends the process where the operating system hands
/// out no random bytes.
#[verifier::external_body]
fn new_uuid_text() -> (s: String)
    ensures
        is_uuid_text(s@),
{
    uuid::Uuid::new_v4().to_string()
}

/// A fresh random UUID, written out.
pub fn random_uuid() -> (s: String)
    ensures
        is_uuid_text(s@),
{
    new_uuid_text()
}

/// The payment reference made of a UUID.
pub open spec fn pay_ref(uuid: Seq<char>) -> Seq<char> {
    "payRef-"@ + uuid
}

/// The payment reference made of a UUID: see [`pay_ref`].
pub fn payment_reference(uuid: &str) -> (s: String)
    ensures
        s@ == pay_ref(uuid@),
{
    let mut s = String::from_str("payRef-");
    s.append(uuid);
    s
}

/// Whether the text is a payment reference: `payRef-` and a random UUID.
pub open spec fn is_payment_reference(s: Seq<char>) -> bool {
    exists|uuid: Seq<char>| is_uuid_text(uuid) && s == #[trigger] pay_ref(uuid)
}

/// Creates a recurring payment with the provider. It always succeeds, and
/// the answer is a fresh payment reference.
pub fn create_recurring_payment(_credit_card: &str, _payment_id: &str) -> (r: Result<String, String>)
    ensures
        r matches Ok(s) && is_payment_reference(s@),
{
    let uuid = random_uuid();
    let reference = payment_reference(uuid.as_str());
    assert(reference@ == pay_ref(uuid@));
    Ok(reference)
}

/// The lines that tell how to confirm a payment from outside.
pub open spec fn confirmation_hint(service: Seq<char>, payment_id: Seq<char>) -> Seq<char> {
    ">>> Initiating external payment "@ + payment_id + "\n  Confirm the payment via "@ + service
        + "/confirm with the id "@ + payment_id
}

/// The lines that tell how to confirm a payment from outside: see
/// [`confirmation_hint`].
pub fn confirmation_lines(service: &str, payment_id: &str) -> (s: String)
    ensures
        s@ == confirmation_hint(service@, payment_id@),
{
    let mut s = concat3(">>> Initiating external payment ", payment_id, "\n  Confirm the payment via ");
    s.append(service);
    s.append("/confirm with the id ");
    s.append(payment_id);
    s
}

/// Starts a payment with the provider. It always succeeds, and the answer is
/// a fresh payment reference.
pub fn init_payment(_payment_id: &str) -> (r: Result<String, String>)
    ensures
        r matches Ok(s) && is_payment_reference(s@),
{
    let uuid = random_uuid();
    let reference = payment_reference(uuid.as_str());
    assert(reference@ == pay_ref(uuid@));
    Ok(reference)
}

/// The line that reports the cancelling of a payment.
pub open spec fn cancel_line(pay_ref: Seq<char>) -> Seq<char> {
    ">>> Canceling external payment with ref "@ + pay_ref
}

/// Cancels a payment with the provider. It always succeeds; the answer is
/// the line that reports it.
pub fn cancel_payment(pay_ref: &str) -> (r: Result<String, String>)
    ensures
        r matches Ok(line) && line@ == cancel_line(pay_ref@),
{
    let mut line = String::from_str(">>> Canceling external payment with ref ");
    line.append(pay_ref);
    Ok(line)
}

/// The line that reports the removal of a recurring payment.
pub open spec fn remove_payment_line(payment_id: Seq<char>) -> Seq<char> {
    "Removing recurring payment: "@ + payment_id
}

/// Removes a recurring payment. It always succeeds; the answer is the line
/// that reports it.
pub fn remove_recurring_payment(payment_id: &str) -> (r: Result<String, String>)
    ensures
        r matches Ok(line) && line@ == remove_payment_line(payment_id@),
{
    let mut line = String::from_str("Removing recurring payment: ");
    line.append(payment_id);
    Ok(line)
}

/// The line that reports the creation of a subscription.
pub open spec fn create_subscription_line(
    user_id: Seq<char>,
    subscription: Seq<char>,
    payment_ref: Seq<char>,
) -> Seq<char> {
    "Creating subscription for user: "@ + user_id + ", subscription: "@ + subscription
        + ", paymentRef: "@ + payment_ref
}

/// Creates a subscription. It always succeeds; the answer is the line that
/// reports it.
pub fn create_subscription(user_id: &str, subscription: &str, payment_ref: &str) -> (r: Result<
    String,
    String,
>)
    ensures
        r matches Ok(line) && line@ == create_subscription_line(
            user_id@,
            subscription@,
            payment_ref@,
        ),
{
    let mut line = concat3("Creating subscription for user: ", user_id, ", subscription: ");
    line.append(subscription);
    line.append(", paymentRef: ");
    line.append(payment_ref);
    Ok(line)
}

/// The line that reports the removal of a subscription.
pub open spec fn remove_subscription_line(user_id: Seq<char>, subscription: Seq<char>) -> Seq<char> {
    "Removing subscription for user: "@ + user_id + ", subscription: "@ + subscription
}

/// Removes a subscription. It always succeeds; the answer is the line that
/// reports it.
pub fn remove_subscription(user_id: &str, subscription: &str) -> (r: Result<String, String>)
    ensures
        r matches Ok(line) && line@ == remove_subscription_line(user_id@, subscription@),
{
    let mut line = concat3("Removing subscription for user: ", user_id, ", subscription: ");
    line.append(subscription);
    Ok(line)
}

} // verus!
