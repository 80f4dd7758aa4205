//! Buying a concert ticket: a call that is waited for, a message that is not,
//! and a message that goes out later.

use vstd::prelude::*;
use vstd::string::StringExecFns;
use crate::action::{event_views, Action, ActionView, Event, EventView};
use crate::script::{
    failed_at, failure_of, return_failure_at, return_value, run_action, text_of, text_value,
};
use crate::target::{Target, TargetView};
use crate::text::{decimal, decimal_text};
use crate::value::{text_views, OutcomeView, Value, ValueView};

verus! {

/// The request to buy a ticket. The price is in the smallest unit of the
/// currency.
#[derive(Debug, PartialEq, Eq)]
pub struct PurchaseTicketRequest {
    pub ticket_id: String,
    pub concert_date_time: String,
    pub price: u64,
    pub customer_email: String,
}

/// The number of seconds from now to the day before the concert. Until
/// concert dates are read, the reminder goes out one minute after the
/// purchase.
pub fn day_before(concert_date: &str) -> (seconds: u64)
    ensures
        seconds == 60,
{
    60
}

impl PurchaseTicketRequest {
    /// The request as a payload: ticket, date, price and mail address.
    pub open spec fn payload(&self) -> ValueView {
        ValueView::List(
            seq![
                self.ticket_id@,
                self.concert_date_time@,
                decimal(self.price as nat),
                self.customer_email@,
            ],
        )
    }

    /// See [`Self::payload`].
    pub fn to_value(&self) -> (v: Value)
        ensures
            v@ == self.payload(),
    {
        let mut l: Vec<String> = Vec::new();
        l.push(self.ticket_id.clone());
        l.push(self.concert_date_time.clone());
        l.push(decimal_text(self.price));
        l.push(self.customer_email.clone());
        assert(text_views(l@) =~= seq![
            self.ticket_id@,
            self.concert_date_time@,
            decimal(self.price as nat),
            self.customer_email@,
        ]);
        Value::List(l)
    }

    /// The line that reports the processing of the payment.
    pub open spec fn payment_line(&self, payment_id: Seq<char>) -> Seq<char> {
        "Processing payment for ticket "@ + self.ticket_id@ + " with payment ID "@ + payment_id
    }

    /// The line that reports the sending of the ticket.
    pub open spec fn ticket_line(&self) -> Seq<char> {
        "Sending ticket to "@ + self.customer_email@ + " for concert on "@
            + self.concert_date_time@
    }

    /// The line that reports the sending of the reminder.
    pub open spec fn reminder_line(&self) -> Seq<char> {
        "Sending reminder for concert on "@ + self.concert_date_time@ + " to "@
            + self.customer_email@
    }
}

/// The delay of the reminder in milliseconds, for a delay in seconds; the
/// largest delay where the product is beyond it.
pub open spec fn reminder_delay_ms(seconds: u64) -> u64 {
    if seconds * 1000 <= u64::MAX {
        (seconds * 1000) as u64
    } else {
        u64::MAX
    }
}

/// The payment service.
#[derive(Debug, PartialEq, Eq)]
pub struct PaymentService;

impl PaymentService {
    /// Charging for a ticket: a payment identifier is drawn and returned.
    pub open spec fn spec_charge(history: Seq<EventView>) -> ActionView {
        if history.len() == 0 {
            ActionView::Run { name: "uuid"@, args: Seq::empty() }
        } else if failure_of(history[0]) is Some {
            ActionView::Return { outcome: OutcomeView::Failure(failure_of(history[0])->0) }
        } else {
            ActionView::Return {
                outcome: OutcomeView::Success(ValueView::Text(text_of(history[0]))),
            }
        }
    }

    /// The handler `charge`: see [`Self::spec_charge`].
    pub fn charge(&self, req: &PurchaseTicketRequest, history: &Vec<Event>) -> (a: Action)
        ensures
            a@ == Self::spec_charge(event_views(history@)),
    {
        if history.len() == 0 {
            let none: Vec<String> = Vec::new();
            assert(text_views(none@) =~= Seq::<Seq<char>>::empty());
            return run_action("uuid", none);
        }
        assert(event_views(history@)[0] == history@[0]@);
        if failed_at(history, 0) {
            return return_failure_at(history, 0);
        }
        return_value(Value::Text(text_value(&history[0])))
    }

    /// The line that reports the processing of the payment: see
    /// [`PurchaseTicketRequest::payment_line`].
    pub fn payment_line(&self, req: &PurchaseTicketRequest, payment_id: &str) -> (line: String)
        ensures
            line@ == req.payment_line(payment_id@),
    {
        let mut line = String::from_str("Processing payment for ticket ");
        line.append(req.ticket_id.as_str());
        line.append(" with payment ID ");
        line.append(payment_id);
        line
    }
}

/// The mail service.
#[derive(Debug, PartialEq, Eq)]
pub struct EmailService;

impl EmailService {
    /// Mailing the ticket, and mailing the reminder: done at once.
    pub open spec fn spec_done(history: Seq<EventView>) -> ActionView {
        ActionView::Return { outcome: OutcomeView::Success(ValueView::Unit) }
    }

    /// The handler `email_ticket`: see [`Self::spec_done`].
    pub fn email_ticket(&self, req: &PurchaseTicketRequest, history: &Vec<Event>) -> (a: Action)
        ensures
            a@ == Self::spec_done(event_views(history@)),
    {
        return_value(Value::Unit)
    }

    /// The handler `send_reminder`: see [`Self::spec_done`].
    pub fn send_reminder(&self, req: &PurchaseTicketRequest, history: &Vec<Event>) -> (a: Action)
        ensures
            a@ == Self::spec_done(event_views(history@)),
    {
        return_value(Value::Unit)
    }

    /// The line that reports the sending of the ticket: see
    /// [`PurchaseTicketRequest::ticket_line`].
    pub fn ticket_line(&self, req: &PurchaseTicketRequest) -> (line: String)
        ensures
            line@ == req.ticket_line(),
    {
        let mut line = String::from_str("Sending ticket to ");
        line.append(req.customer_email.as_str());
        line.append(" for concert on ");
        line.append(req.concert_date_time.as_str());
        line
    }

    /// The line that reports the sending of the reminder: see
    /// [`PurchaseTicketRequest::reminder_line`].
    pub fn reminder_line(&self, req: &PurchaseTicketRequest) -> (line: String)
        ensures
            line@ == req.reminder_line(),
    {
        let mut line = String::from_str("Sending reminder for concert on ");
        line.append(req.concert_date_time.as_str());
        line.append(" to ");
        line.append(req.customer_email.as_str());
        line
    }
}

/// The service that sells concert tickets.
#[derive(Debug, PartialEq, Eq)]
pub struct ConcertTicketingService;

impl ConcertTicketingService {
    /// The answer to a purchase.
    pub open spec fn purchased(pay_ref: Seq<char>) -> Seq<char> {
        "Ticket purchased successfully with payment reference: "@ + pay_ref
    }

    /// Buying a ticket: the payment service is called and waited for; the
    /// ticket is mailed by a message that is not waited for; the reminder is
    /// sent with the delay of [`day_before`]; the answer names the payment
    /// reference. A payment that fails for good ends the purchase with that
    /// failure.
    pub open spec fn spec_buy(req: &PurchaseTicketRequest, history: Seq<EventView>) -> ActionView {
        if history.len() == 0 {
            ActionView::Call { target: TargetView::service("PaymentService"@, "charge"@), payload: req.payload() }
        } else if failure_of(history[0]) is Some {
            ActionView::Return { outcome: OutcomeView::Failure(failure_of(history[0])->0) }
        } else if history.len() == 1 {
            ActionView::Send {
                target: TargetView::service("EmailService"@, "email_ticket"@),
                payload: req.payload(),
                delay_ms: 0,
            }
        } else if history.len() == 2 {
            ActionView::Send {
                target: TargetView::service("EmailService"@, "send_reminder"@),
                payload: req.payload(),
                delay_ms: reminder_delay_ms(60),
            }
        } else {
            ActionView::Return {
                outcome: OutcomeView::Success(
                    ValueView::Text(Self::purchased(text_of(history[0]))),
                ),
            }
        }
    }

    /// The handler `buy`: see [`Self::spec_buy`].
    pub fn buy(&self, req: &PurchaseTicketRequest, history: &Vec<Event>) -> (a: Action)
        ensures
            a@ == Self::spec_buy(req, event_views(history@)),
    {
        let k = history.len();
        if k == 0 {
            return Action::Call {
                target: Target::service("PaymentService", "charge"),
                payload: req.to_value(),
            };
        }
        assert(event_views(history@)[0] == history@[0]@);
        if failed_at(history, 0) {
            return return_failure_at(history, 0);
        }
        if k == 1 {
            return Action::Send {
                target: Target::service("EmailService", "email_ticket"),
                payload: req.to_value(),
                delay_ms: 0,
            };
        }
        if k == 2 {
            let seconds = day_before(req.concert_date_time.as_str());
            let delay_ms = if seconds <= u64::MAX / 1000 {
                seconds * 1000
            } else {
                u64::MAX
            };
            return Action::Send {
                target: Target::service("EmailService", "send_reminder"),
                payload: req.to_value(),
                delay_ms,
            };
        }
        let mut answer = String::from_str("Ticket purchased successfully with payment reference: ");
        answer.append(text_value(&history[0]).as_str());
        return_value(Value::Text(answer))
    }
}

} // verus!
