//! The handlers that run on the engine, each written as the decision that
//! user code takes after a given history of completed operations, and the
//! one point at which a request is dispatched to its handler.

use vstd::prelude::*;
use vstd::string::StringExecFns;
use crate::action::{Action, ActionView, Event, EventView, Handler};
use crate::handlers::basics::{
    MyServiceImpl, SignupWorkflowImpl, SubscriptionServiceImpl, UserSubscriptions,
};
use crate::handlers::concert::{
    ConcertTicketingService, EmailService, PaymentService, PurchaseTicketRequest,
};
use crate::handlers::greeter::{GreeterFailureImpl, GreeterImpl, GreeterObjectImpl, Wording};
use crate::handlers::payments::{
    ConfirmationRequest, PaymentRequest, Payments, PaymentsWithTimeout,
};
use crate::handlers::subscription::{
    ParallelSubscriptionService, SubscriptionRequest, SubscriptionSaga, SubscriptionService,
};
use crate::handlers::ticketing::{
    CartObjectImpl, CheckoutRequest, CheckoutServiceImpl, TicketObjectImpl,
};
use crate::locks::HandlerKind;
use crate::stubs::User;

pub mod basics;
pub mod concert;
pub mod greeter;
pub mod payments;
pub mod subscription;
pub mod ticketing;

verus! {

/// A call of a handler: which handler, on which key, with what input.
#[derive(Debug, PartialEq, Eq)]
pub enum Request {
    SubscriptionAdd(SubscriptionRequest),
    SubscriptionSagaAdd(SubscriptionRequest),
    ParallelSubscriptionAdd(SubscriptionRequest),
    SubscriptionCreate { user_id: String },
    SubscriptionCancel,
    CartAddTicket { key: String, ticket_id: String },
    CartCheckout { key: String },
    CartExpireTicket { ticket_id: String },
    TicketReserve,
    TicketUnreserve,
    TicketMarkAsSold,
    Checkout(CheckoutRequest),
    PaymentProcess(PaymentRequest),
    PaymentConfirm(ConfirmationRequest),
    TimedPaymentProcess(PaymentRequest),
    TimedPaymentConfirm(ConfirmationRequest),
    TimedPaymentExpire { promise: u64 },
    Tour,
    Greet { name: String, wording: Wording },
    GreetUnreliably { name: String },
    ObjectGreet { key: String, greeting: String },
    ObjectUngreet { key: String },
    UserSubscriptionAdd { subscription: String },
    UserSubscriptionsGet,
    Signup { key: String, user: User },
    SignupClick { secret: String },
    TicketBuy(PurchaseTicketRequest),
    TicketCharge(PurchaseTicketRequest),
    TicketEmail(PurchaseTicketRequest),
    TicketReminder(PurchaseTicketRequest),
}

impl Request {
    /// The kind of the handler called, which decides how it holds its key.
    pub open spec fn spec_kind(&self) -> HandlerKind {
        match self {
            Request::SubscriptionCreate { .. } => HandlerKind::Object,
            Request::SubscriptionCancel => HandlerKind::Object,
            Request::CartAddTicket { .. } => HandlerKind::Object,
            Request::CartCheckout { .. } => HandlerKind::Object,
            Request::CartExpireTicket { .. } => HandlerKind::Object,
            Request::TicketReserve => HandlerKind::Object,
            Request::TicketUnreserve => HandlerKind::Object,
            Request::TicketMarkAsSold => HandlerKind::Object,
            Request::ObjectGreet { .. } => HandlerKind::Object,
            Request::ObjectUngreet { .. } => HandlerKind::Object,
            Request::UserSubscriptionAdd { .. } => HandlerKind::Object,
            Request::UserSubscriptionsGet => HandlerKind::ObjectShared,
            Request::Signup { .. } => HandlerKind::Workflow,
            Request::SignupClick { .. } => HandlerKind::WorkflowShared,
            _ => HandlerKind::Service,
        }
    }

    /// The kind of the handler called.
    #[verifier::when_used_as_spec(spec_kind)]
    pub fn kind(&self) -> (k: HandlerKind)
        ensures
            k == self.spec_kind(),
    {
        match self {
            Request::SubscriptionCreate { .. } => HandlerKind::Object,
            Request::SubscriptionCancel => HandlerKind::Object,
            Request::CartAddTicket { .. } => HandlerKind::Object,
            Request::CartCheckout { .. } => HandlerKind::Object,
            Request::CartExpireTicket { .. } => HandlerKind::Object,
            Request::TicketReserve => HandlerKind::Object,
            Request::TicketUnreserve => HandlerKind::Object,
            Request::TicketMarkAsSold => HandlerKind::Object,
            Request::ObjectGreet { .. } => HandlerKind::Object,
            Request::ObjectUngreet { .. } => HandlerKind::Object,
            Request::UserSubscriptionAdd { .. } => HandlerKind::Object,
            Request::UserSubscriptionsGet => HandlerKind::ObjectShared,
            Request::Signup { .. } => HandlerKind::Workflow,
            Request::SignupClick { .. } => HandlerKind::WorkflowShared,
            _ => HandlerKind::Service,
        }
    }

    /// The name of the service, object or workflow called.
    pub open spec fn spec_service(&self) -> Seq<char> {
        match self {
            Request::SubscriptionAdd(_) => "SubscriptionService"@,
            Request::SubscriptionSagaAdd(_) => "SubscriptionSaga"@,
            Request::ParallelSubscriptionAdd(_) => "ParallelSubscriptionService"@,
            Request::SubscriptionCreate { .. } => "SubscriptionObject"@,
            Request::SubscriptionCancel => "SubscriptionObject"@,
            Request::CartAddTicket { .. } => "CartObject"@,
            Request::CartCheckout { .. } => "CartObject"@,
            Request::CartExpireTicket { .. } => "CartObject"@,
            Request::TicketReserve => "TicketObject"@,
            Request::TicketUnreserve => "TicketObject"@,
            Request::TicketMarkAsSold => "TicketObject"@,
            Request::Checkout(_) => "CheckoutService"@,
            Request::PaymentProcess(_) => "Payments"@,
            Request::PaymentConfirm(_) => "Payments"@,
            Request::TimedPaymentProcess(_) => "PaymentsWithTimeout"@,
            Request::TimedPaymentConfirm(_) => "PaymentsWithTimeout"@,
            Request::TimedPaymentExpire { .. } => "PaymentsWithTimeout"@,
            Request::Tour => "MyService"@,
            Request::Greet { .. } => "Greeter"@,
            Request::GreetUnreliably { .. } => "GreeterFailure"@,
            Request::ObjectGreet { .. } => "GreeterObject"@,
            Request::ObjectUngreet { .. } => "GreeterObject"@,
            Request::UserSubscriptionAdd { .. } => "UserSubscriptions"@,
            Request::UserSubscriptionsGet => "UserSubscriptions"@,
            Request::Signup { .. } => "SignupWorkflow"@,
            Request::SignupClick { .. } => "SignupWorkflow"@,
            Request::TicketBuy(_) => "ConcertTicketingService"@,
            Request::TicketCharge(_) => "PaymentService"@,
            Request::TicketEmail(_) => "EmailService"@,
            Request::TicketReminder(_) => "EmailService"@,
        }
    }

    /// The name of the service, object or workflow called.
    pub fn service(&self) -> (s: String)
        ensures
            s@ == self.spec_service(),
    {
        match self {
            Request::SubscriptionAdd(_) => String::from_str("SubscriptionService"),
            Request::SubscriptionSagaAdd(_) => String::from_str("SubscriptionSaga"),
            Request::ParallelSubscriptionAdd(_) => String::from_str("ParallelSubscriptionService"),
            Request::SubscriptionCreate { .. } => String::from_str("SubscriptionObject"),
            Request::SubscriptionCancel => String::from_str("SubscriptionObject"),
            Request::CartAddTicket { .. } => String::from_str("CartObject"),
            Request::CartCheckout { .. } => String::from_str("CartObject"),
            Request::CartExpireTicket { .. } => String::from_str("CartObject"),
            Request::TicketReserve => String::from_str("TicketObject"),
            Request::TicketUnreserve => String::from_str("TicketObject"),
            Request::TicketMarkAsSold => String::from_str("TicketObject"),
            Request::Checkout(_) => String::from_str("CheckoutService"),
            Request::PaymentProcess(_) => String::from_str("Payments"),
            Request::PaymentConfirm(_) => String::from_str("Payments"),
            Request::TimedPaymentProcess(_) => String::from_str("PaymentsWithTimeout"),
            Request::TimedPaymentConfirm(_) => String::from_str("PaymentsWithTimeout"),
            Request::TimedPaymentExpire { .. } => String::from_str("PaymentsWithTimeout"),
            Request::Tour => String::from_str("MyService"),
            Request::Greet { .. } => String::from_str("Greeter"),
            Request::GreetUnreliably { .. } => String::from_str("GreeterFailure"),
            Request::ObjectGreet { .. } => String::from_str("GreeterObject"),
            Request::ObjectUngreet { .. } => String::from_str("GreeterObject"),
            Request::UserSubscriptionAdd { .. } => String::from_str("UserSubscriptions"),
            Request::UserSubscriptionsGet => String::from_str("UserSubscriptions"),
            Request::Signup { .. } => String::from_str("SignupWorkflow"),
            Request::SignupClick { .. } => String::from_str("SignupWorkflow"),
            Request::TicketBuy(_) => String::from_str("ConcertTicketingService"),
            Request::TicketCharge(_) => String::from_str("PaymentService"),
            Request::TicketEmail(_) => String::from_str("EmailService"),
            Request::TicketReminder(_) => String::from_str("EmailService"),
        }
    }
}

impl Handler for Request {
    /// The decision of the handler called: the single point of dispatch.
    open spec fn decide(&self, history: Seq<EventView>) -> ActionView {
        match self {
            Request::SubscriptionAdd(req) => SubscriptionService::spec_add(req, history),
            Request::SubscriptionSagaAdd(req) => SubscriptionSaga::spec_add(req, history),
            Request::ParallelSubscriptionAdd(req) => ParallelSubscriptionService::spec_add(
                req,
                history,
            ),
            Request::SubscriptionCreate { .. } => SubscriptionServiceImpl::spec_create(history),
            Request::SubscriptionCancel => SubscriptionServiceImpl::spec_cancel(history),
            Request::CartAddTicket { key, ticket_id } => CartObjectImpl::spec_add_ticket(
                key@,
                ticket_id@,
                history,
            ),
            Request::CartCheckout { key } => CartObjectImpl::spec_checkout(key@, history),
            Request::CartExpireTicket { ticket_id } => CartObjectImpl::spec_expire_ticket(
                ticket_id@,
                history,
            ),
            Request::TicketReserve => TicketObjectImpl::spec_reserve(history),
            Request::TicketUnreserve => TicketObjectImpl::spec_unreserve(history),
            Request::TicketMarkAsSold => TicketObjectImpl::spec_mark_as_sold(history),
            Request::Checkout(req) => CheckoutServiceImpl::spec_handle(req, history),
            Request::PaymentProcess(req) => Payments::spec_process(req, history),
            Request::PaymentConfirm(c) => Payments::spec_confirm(c, history),
            Request::TimedPaymentProcess(req) => PaymentsWithTimeout::spec_process(req, history),
            Request::TimedPaymentConfirm(c) => Payments::spec_confirm(c, history),
            Request::TimedPaymentExpire { promise } => PaymentsWithTimeout::spec_expire(
                *promise,
                history,
            ),
            Request::Tour => MyServiceImpl::spec_run(history),
            Request::Greet { name, wording } => (GreeterImpl { wording: *wording }).spec_greet(
                name@,
                history,
            ),
            Request::GreetUnreliably { name } => GreeterFailureImpl::spec_greet(name@, history),
            Request::ObjectGreet { key, greeting } => GreeterObjectImpl::spec_greet(
                key@,
                greeting@,
                history,
            ),
            Request::ObjectUngreet { key } => GreeterObjectImpl::spec_ungreet(key@, history),
            Request::UserSubscriptionAdd { subscription } => UserSubscriptions::spec_add(
                subscription@,
                history,
            ),
            Request::UserSubscriptionsGet => UserSubscriptions::spec_get_subscriptions(history),
            Request::Signup { key, user } => SignupWorkflowImpl::spec_run(key@, user, history),
            Request::SignupClick { secret } => SignupWorkflowImpl::spec_click(secret@, history),
            Request::TicketBuy(req) => ConcertTicketingService::spec_buy(req, history),
            Request::TicketCharge(_) => PaymentService::spec_charge(history),
            Request::TicketEmail(_) => EmailService::spec_done(history),
            Request::TicketReminder(_) => EmailService::spec_done(history),
        }
    }

    fn next(&self, history: &Vec<Event>) -> (action: Action) {
        match self {
            Request::SubscriptionAdd(req) => SubscriptionService.add(req, history),
            Request::SubscriptionSagaAdd(req) => SubscriptionSaga.add(req, history),
            Request::ParallelSubscriptionAdd(req) => ParallelSubscriptionService.add(req, history),
            Request::SubscriptionCreate { user_id } => SubscriptionServiceImpl.create(
                user_id,
                history,
            ),
            Request::SubscriptionCancel => SubscriptionServiceImpl.cancel(history),
            Request::CartAddTicket { key, ticket_id } => CartObjectImpl.add_ticket(
                key,
                ticket_id,
                history,
            ),
            Request::CartCheckout { key } => CartObjectImpl.checkout(key, history),
            Request::CartExpireTicket { ticket_id } => CartObjectImpl.expire_ticket(
                ticket_id,
                history,
            ),
            Request::TicketReserve => TicketObjectImpl.reserve(history),
            Request::TicketUnreserve => TicketObjectImpl.unreserve(history),
            Request::TicketMarkAsSold => TicketObjectImpl.mark_as_sold(history),
            Request::Checkout(req) => CheckoutServiceImpl.handle(req, history),
            Request::PaymentProcess(req) => Payments.process(req, history),
            Request::PaymentConfirm(c) => Payments.confirm(c, history),
            Request::TimedPaymentProcess(req) => PaymentsWithTimeout.process(req, history),
            Request::TimedPaymentConfirm(c) => PaymentsWithTimeout.confirm(c, history),
            Request::TimedPaymentExpire { promise } => PaymentsWithTimeout.expire(*promise, history),
            Request::Tour => MyServiceImpl.run(history),
            Request::Greet { name, wording } => (GreeterImpl { wording: *wording }).greet(
                name,
                history,
            ),
            Request::GreetUnreliably { name } => GreeterFailureImpl.greet(name, history),
            Request::ObjectGreet { key, greeting } => GreeterObjectImpl.greet(
                key,
                greeting,
                history,
            ),
            Request::ObjectUngreet { key } => GreeterObjectImpl.ungreet(key, history),
            Request::UserSubscriptionAdd { subscription } => UserSubscriptions.add(
                subscription,
                history,
            ),
            Request::UserSubscriptionsGet => UserSubscriptions.get_subscriptions(history),
            Request::Signup { key, user } => SignupWorkflowImpl.run(key, user, history),
            Request::SignupClick { secret } => SignupWorkflowImpl.click(secret, history),
            Request::TicketBuy(req) => ConcertTicketingService.buy(req, history),
            Request::TicketCharge(req) => PaymentService.charge(req, history),
            Request::TicketEmail(req) => EmailService.email_ticket(req, history),
            Request::TicketReminder(req) => EmailService.send_reminder(req, history),
        }
    }
}

} // verus!
