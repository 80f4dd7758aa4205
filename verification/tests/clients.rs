use durable_exec::clients::{EmailClient, PaymentClient};
use durable_exec::notify::{send_notification, send_reminder, FailurePolicy};
use durable_exec::providers::{
    cancel_payment, confirmation_lines, create_recurring_payment, create_subscription,
    init_payment, payment_reference, random_uuid, remove_recurring_payment, remove_subscription,
};
use durable_exec::server::{step, ServerAction, ServerEvent, ServerState, DRAIN_SECONDS};
use durable_exec::stubs;
use durable_exec::stubs::{BankAccountCharge, User};

#[test]
fn email_client_reports_what_it_was_told() {
    let client = EmailClient::new();
    assert_eq!(client.notify_user_of_payment_success("mary"), Ok(true));
    assert_eq!(client.notify_user_of_payment_failure("mary"), Ok(false));
    assert_eq!(client.success_line("mary"), "Notifying user mary of payment success");
    assert_eq!(client.failure_line("mary"), "Notifying user mary of payment failure");
    assert_eq!(EmailClient::default(), EmailClient::new());
}

#[test]
fn payment_call_succeeds() {
    let client = PaymentClient::new();
    assert_eq!(client.call("key-1", 80), Ok(true));
    assert_eq!(
        client.success_line("key-1", 80),
        "Payment call succeeded for idempotency key key-1 and amount 80"
    );
}

#[test]
fn failing_call_fails_twice_then_succeeds_and_starts_over() {
    let mut client = PaymentClient::new();
    assert_eq!(client.attempts(), 0);
    assert_eq!(client.failing_call("k", 40), Err("Payment call failed".to_string()));
    assert_eq!(client.attempts(), 1);
    assert_eq!(client.failing_call("k", 40), Err("Payment call failed".to_string()));
    assert_eq!(client.attempts(), 2);
    assert_eq!(client.failing_call("k", 40), Ok(true));
    assert_eq!(client.attempts(), 0);
    assert_eq!(client.failing_call("k", 40), Err("Payment call failed".to_string()));
    assert_eq!(
        client.failure_line("k", 40),
        "Payment call failed for idempotency key k and amount 40. Retrying..."
    );
    assert_eq!(PaymentClient::default(), PaymentClient::new());
}

#[test]
fn stubs_fail_when_the_draw_says_so() {
    assert_eq!(
        stubs::create_subscription("sam", "Netflix", "ref", true),
        Err("Failed to create subscription: sam - Netflix".to_string())
    );
    assert_eq!(stubs::create_subscription("sam", "Netflix", "ref", false), Ok("SUCCESS".to_string()));
    assert_eq!(
        stubs::create_recurring_payment("1234", "pid-1", true),
        Err("Failed to create recurring payment: pid-1".to_string())
    );
    assert_eq!(
        stubs::create_recurring_payment("1234", "pid-1", false),
        Ok("payment-reference".to_string())
    );
}

#[test]
fn stubs_that_always_succeed() {
    let user = User { name: "Bob".to_string(), email: "bob@builder.com".to_string() };
    assert_eq!(stubs::create_user_entry(&user), Ok(()));
    assert_eq!(stubs::send_email_with_link("userid1", &user, "secret"), Ok(()));
    assert_eq!(stubs::click_link("userid1"), "SignupWorkflow/userid1/click");
    assert_eq!(stubs::charge_bank_account("dedup", 10000), Ok(()));
    let charge = BankAccountCharge { amount: 10000, account: "acc".to_string() };
    assert_eq!(charge.amount, 10000);
}

fn assert_uuid_shape(text: &str) {
    let chars: Vec<char> = text.chars().collect();
    assert_eq!(chars.len(), 36);
    for (i, c) in chars.iter().enumerate() {
        if i == 8 || i == 13 || i == 18 || i == 23 {
            assert_eq!(*c, '-');
        } else {
            assert!(c.is_ascii_digit() || ('a'..='f').contains(c), "{} at {}", c, i);
        }
    }
    assert_eq!(chars[14], '4');
    assert!(matches!(chars[19], '8' | '9' | 'a' | 'b'));
}

#[test]
fn random_uuid_has_the_shape_of_a_version_4_uuid() {
    for _ in 0..50 {
        assert_uuid_shape(&random_uuid());
    }
    assert_ne!(random_uuid(), random_uuid());
}

#[test]
fn payment_references_are_a_prefix_and_a_uuid() {
    assert_eq!(payment_reference("abc"), "payRef-abc");
    let reference = create_recurring_payment("1234", "pid-1").unwrap();
    assert!(reference.starts_with("payRef-"));
    assert_uuid_shape(&reference["payRef-".len()..]);
    let started = init_payment("7").unwrap();
    assert!(started.starts_with("payRef-"));
    assert_uuid_shape(&started["payRef-".len()..]);
    assert_ne!(reference, started);
}

#[test]
fn provider_lines() {
    assert_eq!(
        cancel_payment("payRef-1"),
        Ok(">>> Canceling external payment with ref payRef-1".to_string())
    );
    assert_eq!(
        remove_recurring_payment("pid-1"),
        Ok("Removing recurring payment: pid-1".to_string())
    );
    assert_eq!(
        create_subscription("sam", "Netflix", "payRef-1"),
        Ok("Creating subscription for user: sam, subscription: Netflix, paymentRef: payRef-1"
            .to_string())
    );
    assert_eq!(
        remove_subscription("sam", "Netflix"),
        Ok("Removing subscription for user: sam, subscription: Netflix".to_string())
    );
    assert_eq!(
        confirmation_lines("Payments", "7"),
        ">>> Initiating external payment 7\n  Confirm the payment via Payments/confirm with the id 7"
    );
}

#[test]
fn notification_fails_only_for_the_unlucky_whom_the_policy_covers() {
    let sent = Ok("Notification sent: g-1 - Alice".to_string());
    let failed = Err("[SIMULATED] Failed to send notification: g-1 - Alice".to_string());
    assert_eq!(send_notification("g-1", "Alice", &FailurePolicy::Anyone, true), failed);
    assert_eq!(send_notification("g-1", "Alice", &FailurePolicy::Anyone, false), sent);
    assert_eq!(send_notification("g-1", "Alice", &FailurePolicy::OnRequest(true), true), failed);
    assert_eq!(send_notification("g-1", "Alice", &FailurePolicy::OnRequest(false), true), sent);
    assert_eq!(send_notification("g-1", "Alice", &FailurePolicy::OnRequest(true), false), sent);
    let alice = FailurePolicy::OnlyFor("Alice".to_string());
    assert_eq!(send_notification("g-1", "Alice", &alice, true), failed);
    assert_eq!(
        send_notification("g-1", "Bob", &alice, true),
        Ok("Notification sent: g-1 - Bob".to_string())
    );
    assert!(alice.applies("Alice"));
    assert!(!alice.applies("alice"));
}

#[test]
fn reminder_fails_only_for_the_unlucky_whom_the_policy_covers() {
    assert_eq!(
        send_reminder("g-1", "Alice", &FailurePolicy::OnRequest(true), true),
        Err("[SIMULATED] Failed to send reminder: g-1".to_string())
    );
    assert_eq!(
        send_reminder("g-1", "Alice", &FailurePolicy::OnRequest(false), true),
        Ok("Reminder sent: g-1".to_string())
    );
    assert_eq!(
        send_reminder("g-1", "Bob", &FailurePolicy::OnlyFor("Alice".to_string()), true),
        Ok("Reminder sent: g-1".to_string())
    );
}

#[test]
fn endpoint_serves_until_shutdown_then_drains() {
    let mut state = ServerState::Accepting;
    let (next, action) = step(state, ServerEvent::Connection);
    assert_eq!((next, action), (ServerState::Accepting, ServerAction::Serve));
    state = next;
    let (next, action) = step(state, ServerEvent::Shutdown);
    assert_eq!(
        (next, action),
        (ServerState::Draining, ServerAction::Drain { seconds: DRAIN_SECONDS })
    );
    assert_eq!(DRAIN_SECONDS, 10);
    state = next;
    // No connection is served any more.
    assert_eq!(step(state, ServerEvent::Connection), (ServerState::Draining, ServerAction::Ignore));
    assert_eq!(
        step(state, ServerEvent::Drained),
        (ServerState::Stopped, ServerAction::Finish { timed_out: false })
    );
    assert_eq!(
        step(state, ServerEvent::DrainTimeout),
        (ServerState::Stopped, ServerAction::Finish { timed_out: true })
    );
}

#[test]
fn endpoint_ignores_what_does_not_concern_its_state() {
    assert_eq!(
        step(ServerState::Accepting, ServerEvent::Drained),
        (ServerState::Accepting, ServerAction::Ignore)
    );
    assert_eq!(
        step(ServerState::Accepting, ServerEvent::DrainTimeout),
        (ServerState::Accepting, ServerAction::Ignore)
    );
    assert_eq!(
        step(ServerState::Draining, ServerEvent::Shutdown),
        (ServerState::Draining, ServerAction::Ignore)
    );
    for event in [
        ServerEvent::Connection,
        ServerEvent::Shutdown,
        ServerEvent::Drained,
        ServerEvent::DrainTimeout,
    ] {
        assert_eq!(step(ServerState::Stopped, event), (ServerState::Stopped, ServerAction::Ignore));
    }
}
