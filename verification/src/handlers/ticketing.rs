//! Selling concert tickets: a ticket is an object with a status, a cart is an
//! object with the tickets a user has reserved, and checking out charges the
//! user and tells them how it went.

use vstd::prelude::*;
use vstd::string::StringExecFns;
use crate::action::{event_views, Action, ActionView, Event, EventView};
use crate::script::{
    args1, args2, failed_at, failure_of, flag_of, flag_value, list_of, list_value,
    return_failure_at, return_value, run_action, text_of, text_value,
};
use crate::target::{Target, TargetView};
use crate::text::{
    contains_text, decimal, decimal_text, insert_text, remove_text, with_member, without,
};
use crate::value::{text_views, OutcomeView, Value, ValueView};

verus! {

/// The status of a ticket.
#[derive(Debug, Clone, Copy, PartialEq, Eq, Structural)]
pub enum TicketStatus {
    Available,
    Reserved,
    Sold,
}

impl TicketStatus {
    /// The text under which the status is stored.
    pub open spec fn spec_as_text(self) -> Seq<char> {
        match self {
            TicketStatus::Available => "AVAILABLE"@,
            TicketStatus::Reserved => "RESERVED"@,
            TicketStatus::Sold => "SOLD"@,
        }
    }

    /// The status that a stored text stands for, if it stands for one.
    pub open spec fn spec_from_text(s: Seq<char>) -> Option<TicketStatus> {
        if s == "AVAILABLE"@ {
            Some(TicketStatus::Available)
        } else if s == "RESERVED"@ {
            Some(TicketStatus::Reserved)
        } else if s == "SOLD"@ {
            Some(TicketStatus::Sold)
        } else {
            None
        }
    }

    /// The status that a state read produced: the stored one, and
    /// `Available` where the field is not set or holds no status.
    pub open spec fn of_event(ev: EventView) -> TicketStatus {
        match ev {
            EventView::State(Some(ValueView::Text(s))) => match Self::spec_from_text(s) {
                Some(status) => status,
                None => TicketStatus::Available,
            },
            _ => TicketStatus::Available,
        }
    }

    /// The text under which the status is stored.
    pub fn as_text(self) -> (s: String)
        ensures
            s@ == self.spec_as_text(),
    {
        match self {
            TicketStatus::Available => String::from_str("AVAILABLE"),
            TicketStatus::Reserved => String::from_str("RESERVED"),
            TicketStatus::Sold => String::from_str("SOLD"),
        }
    }

    /// Reads a stored status.
    pub fn from_text(s: &String) -> (r: Option<TicketStatus>)
        ensures
            r == Self::spec_from_text(s@),
    {
        if *s == String::from_str("AVAILABLE") {
            Some(TicketStatus::Available)
        } else if *s == String::from_str("RESERVED") {
            Some(TicketStatus::Reserved)
        } else if *s == String::from_str("SOLD") {
            Some(TicketStatus::Sold)
        } else {
            None
        }
    }

    /// See [`Self::of_event`].
    pub fn from_event(ev: &Event) -> (r: TicketStatus)
        ensures
            r == Self::of_event(ev@),
    {
        match ev {
            Event::State(Some(Value::Text(s))) => match Self::from_text(s) {
                Some(status) => status,
                None => TicketStatus::Available,
            },
            _ => TicketStatus::Available,
        }
    }
}

/// Every status is read back from its stored text.
pub proof fn law_status_text_round_trip(status: TicketStatus)
    ensures
        TicketStatus::spec_from_text(status.spec_as_text()) == Some(status),
{
    reveal_strlit("AVAILABLE");
    reveal_strlit("RESERVED");
    reveal_strlit("SOLD");
    assert("AVAILABLE"@.len() == 9);
    assert("RESERVED"@.len() == 8);
    assert("SOLD"@.len() == 4);
}

/// The field of a ticket object that holds its status.
pub open spec fn status_key() -> Seq<char> {
    "status"@
}

/// The field of a cart object that holds its tickets.
pub open spec fn tickets_key() -> Seq<char> {
    "tickets"@
}

/// The address of a handler of the ticket object with the given key.
pub open spec fn ticket_target(ticket_id: Seq<char>, handler: Seq<char>) -> TargetView {
    TargetView::keyed("TicketObject"@, ticket_id, handler)
}

/// The time for which a reserved ticket is held in a cart: a quarter of an
/// hour, in milliseconds.
pub const RESERVATION_MS: u64 = 900000;

/// The price of one ticket.
pub const TICKET_PRICE: u64 = 40;

/// The ticket object: one per ticket, with the field `status`.
#[derive(Debug, PartialEq, Eq)]
pub struct TicketObjectImpl;

impl TicketObjectImpl {
    /// Reserving: an available ticket becomes reserved and the answer is
    /// `true`; any other ticket stays as it is and the answer is `false`.
    pub open spec fn spec_reserve(history: Seq<EventView>) -> ActionView {
        if history.len() == 0 {
            ActionView::GetState { key: status_key() }
        } else if TicketStatus::of_event(history[0]) is Available {
            if history.len() == 1 {
                ActionView::SetState {
                    key: status_key(),
                    value: ValueView::Text(TicketStatus::Reserved.spec_as_text()),
                }
            } else {
                ActionView::Return { outcome: OutcomeView::Success(ValueView::Bool(true)) }
            }
        } else {
            ActionView::Return { outcome: OutcomeView::Success(ValueView::Bool(false)) }
        }
    }

    /// Giving a reservation back: a reserved ticket loses its status field,
    /// which makes it available; any other ticket stays as it is.
    pub open spec fn spec_unreserve(history: Seq<EventView>) -> ActionView {
        if history.len() == 0 {
            ActionView::GetState { key: status_key() }
        } else if TicketStatus::of_event(history[0]) is Reserved && history.len() == 1 {
            ActionView::ClearState { key: status_key() }
        } else {
            ActionView::Return { outcome: OutcomeView::Success(ValueView::Unit) }
        }
    }

    /// Selling: a reserved ticket becomes sold; any other ticket stays as it
    /// is.
    pub open spec fn spec_mark_as_sold(history: Seq<EventView>) -> ActionView {
        if history.len() == 0 {
            ActionView::GetState { key: status_key() }
        } else if TicketStatus::of_event(history[0]) is Reserved && history.len() == 1 {
            ActionView::SetState {
                key: status_key(),
                value: ValueView::Text(TicketStatus::Sold.spec_as_text()),
            }
        } else {
            ActionView::Return { outcome: OutcomeView::Success(ValueView::Unit) }
        }
    }

    /// The handler `reserve`: see [`Self::spec_reserve`].
    pub fn reserve(&self, history: &Vec<Event>) -> (a: Action)
        ensures
            a@ == Self::spec_reserve(event_views(history@)),
    {
        if history.len() == 0 {
            return Action::GetState { key: String::from_str("status") };
        }
        assert(event_views(history@)[0] == history@[0]@);
        match TicketStatus::from_event(&history[0]) {
            TicketStatus::Available => {
                if history.len() == 1 {
                    Action::SetState {
                        key: String::from_str("status"),
                        value: Value::Text(TicketStatus::Reserved.as_text()),
                    }
                } else {
                    return_value(Value::Bool(true))
                }
            },
            _ => return_value(Value::Bool(false)),
        }
    }

    /// The handler `unreserve`: see [`Self::spec_unreserve`].
    pub fn unreserve(&self, history: &Vec<Event>) -> (a: Action)
        ensures
            a@ == Self::spec_unreserve(event_views(history@)),
    {
        if history.len() == 0 {
            return Action::GetState { key: String::from_str("status") };
        }
        assert(event_views(history@)[0] == history@[0]@);
        match TicketStatus::from_event(&history[0]) {
            TicketStatus::Reserved => {
                if history.len() == 1 {
                    Action::ClearState { key: String::from_str("status") }
                } else {
                    return_value(Value::Unit)
                }
            },
            _ => return_value(Value::Unit),
        }
    }

    /// The handler `markAsSold`: see [`Self::spec_mark_as_sold`].
    pub fn mark_as_sold(&self, history: &Vec<Event>) -> (a: Action)
        ensures
            a@ == Self::spec_mark_as_sold(event_views(history@)),
    {
        if history.len() == 0 {
            return Action::GetState { key: String::from_str("status") };
        }
        assert(event_views(history@)[0] == history@[0]@);
        match TicketStatus::from_event(&history[0]) {
            TicketStatus::Reserved => {
                if history.len() == 1 {
                    Action::SetState {
                        key: String::from_str("status"),
                        value: Value::Text(TicketStatus::Sold.as_text()),
                    }
                } else {
                    return_value(Value::Unit)
                }
            },
            _ => return_value(Value::Unit),
        }
    }
}

/// Whether the operation writes the status of the ticket.
pub open spec fn writes_status(a: ActionView) -> bool {
    a is SetState || a is ClearState
}

/// The status that the ticket has after the operation, given the status it
/// had before.
pub open spec fn status_after(before: TicketStatus, a: ActionView) -> TicketStatus {
    match a {
        ActionView::SetState { value: ValueView::Text(s), .. } => match TicketStatus::spec_from_text(
            s,
        ) {
            Some(status) => status,
            None => TicketStatus::Available,
        },
        ActionView::ClearState { .. } => TicketStatus::Available,
        _ => before,
    }
}

/// A ticket moves from available to reserved, and from reserved to sold or
/// back to available, and in no other way: whatever a handler of the ticket
/// object does after it has read the status, a sold ticket stays sold, only
/// `reserve` takes an available ticket, and only a reserved ticket is sold
/// or given back.
pub proof fn law_ticket_life_cycle(history: Seq<EventView>)
    requires
        history.len() >= 1,
    ensures
        ({
            let before = TicketStatus::of_event(history[0]);
            let reserve = TicketObjectImpl::spec_reserve(history);
            let unreserve = TicketObjectImpl::spec_unreserve(history);
            let sell = TicketObjectImpl::spec_mark_as_sold(history);
            &&& before is Sold ==> !writes_status(reserve) && !writes_status(unreserve)
                && !writes_status(sell)
            &&& before is Available ==> !writes_status(unreserve) && !writes_status(sell)
            &&& before is Reserved ==> !writes_status(reserve)
            &&& writes_status(reserve) ==> status_after(before, reserve) is Reserved
            &&& writes_status(unreserve) ==> status_after(before, unreserve) is Available
            &&& writes_status(sell) ==> status_after(before, sell) is Sold
        }),
{
    law_status_text_round_trip(TicketStatus::Reserved);
    law_status_text_round_trip(TicketStatus::Sold);
}

/// A reservation is answered with `true` if and only if the ticket was
/// available.
pub proof fn law_reserve_answers_truthfully(history: Seq<EventView>)
    requires
        history.len() >= 2,
    ensures
        TicketObjectImpl::spec_reserve(history) == (ActionView::Return {
            outcome: OutcomeView::Success(
                ValueView::Bool(TicketStatus::of_event(history[0]) is Available),
            ),
        }),
{
}

/// What the cart hands to the checkout service: the user and the tickets.
#[derive(Debug, PartialEq, Eq)]
pub struct CheckoutRequest {
    pub user_id: String,
    pub tickets: Vec<String>,
}

impl CheckoutRequest {
    /// The request as a payload: the list that starts with the user and goes
    /// on with the tickets.
    pub open spec fn payload(user_id: Seq<char>, tickets: Seq<Seq<char>>) -> ValueView {
        ValueView::List(seq![user_id] + tickets)
    }

    /// See [`Self::payload`].
    pub fn to_value(&self) -> (v: Value)
        ensures
            v@ == Self::payload(self.user_id@, text_views(self.tickets@)),
    {
        let mut l: Vec<String> = Vec::new();
        l.push(self.user_id.clone());
        let mut i: usize = 0;
        while i < self.tickets.len()
            invariant
                i <= self.tickets.len(),
                l@.len() == i + 1,
                l@[0]@ == self.user_id@,
                forall|j: int| 0 <= j < i ==> l@[j + 1]@ == self.tickets@[j]@,
            decreases self.tickets.len() - i,
        {
            l.push(self.tickets[i].clone());
            i = i + 1;
        }
        assert(text_views(l@) =~= seq![self.user_id@] + text_views(self.tickets@));
        Value::List(l)
    }

    /// Reads a request off a payload: the first entry of a list is the user,
    /// the rest are the tickets. `None` for anything but a list with a first
    /// entry.
    pub fn from_value(v: &Value) -> (r: Option<CheckoutRequest>)
        ensures
            r is Some <==> (v@ matches ValueView::List(l) && l.len() > 0),
            r matches Some(req) ==> v@ == Self::payload(req.user_id@, text_views(req.tickets@)),
    {
        match v {
            Value::List(l) => {
                if l.len() == 0 {
                    return None;
                }
                let mut tickets: Vec<String> = Vec::new();
                let mut i: usize = 1;
                while i < l.len()
                    invariant
                        1 <= i <= l.len(),
                        tickets@.len() == i - 1,
                        forall|j: int| 0 <= j < i - 1 ==> tickets@[j]@ == l@[j + 1]@,
                    decreases l.len() - i,
                {
                    tickets.push(l[i].clone());
                    i = i + 1;
                }
                let user_id = l[0].clone();
                assert(text_views(l@) =~= seq![user_id@] + text_views(tickets@));
                Some(CheckoutRequest { user_id, tickets })
            },
            _ => None,
        }
    }
}

/// The cart object: one per user, with the field `tickets`.
#[derive(Debug, PartialEq, Eq)]
pub struct CartObjectImpl;

impl CartObjectImpl {
    /// The address of a handler of the cart object with the given key.
    pub open spec fn cart_target(key: Seq<char>, handler: Seq<char>) -> TargetView {
        TargetView::keyed("CartObject"@, key, handler)
    }

    /// Adding a ticket: the ticket is asked to reserve itself. Where it
    /// refuses, the answer is `false` and nothing else happens. Where it
    /// agrees, the ticket joins the cart's tickets (once, however often it is
    /// added), the cart sends itself the order to expire the ticket a quarter
    /// of an hour later, and the answer is `true`.
    pub open spec fn spec_add_ticket(
        key: Seq<char>,
        ticket_id: Seq<char>,
        history: Seq<EventView>,
    ) -> ActionView {
        if history.len() == 0 {
            ActionView::Call {
                target: ticket_target(ticket_id, "reserve"@),
                payload: ValueView::Unit,
            }
        } else if failure_of(history[0]) is Some {
            ActionView::Return { outcome: OutcomeView::Failure(failure_of(history[0])->0) }
        } else if !flag_of(history[0]) {
            ActionView::Return { outcome: OutcomeView::Success(ValueView::Bool(false)) }
        } else if history.len() == 1 {
            ActionView::GetState { key: tickets_key() }
        } else if history.len() == 2 {
            ActionView::SetState {
                key: tickets_key(),
                value: ValueView::List(with_member(list_of(history[1]), ticket_id)),
            }
        } else if history.len() == 3 {
            ActionView::Send {
                target: Self::cart_target(key, "expireTicket"@),
                payload: ValueView::Text(ticket_id),
                delay_ms: RESERVATION_MS,
            }
        } else {
            ActionView::Return { outcome: OutcomeView::Success(ValueView::Bool(true)) }
        }
    }

    /// Checking out: with an empty cart the answer is `false`. Else the
    /// checkout service is called with the user and the tickets. Where it
    /// reports success, every ticket is told that it is sold, in the order of
    /// the cart, the cart is emptied, and the answer is `true`; where it
    /// reports no success, the answer is `false` and the cart stays.
    pub open spec fn spec_checkout(key: Seq<char>, history: Seq<EventView>) -> ActionView {
        if history.len() == 0 {
            ActionView::GetState { key: tickets_key() }
        } else if list_of(history[0]).len() == 0 {
            ActionView::Return { outcome: OutcomeView::Success(ValueView::Bool(false)) }
        } else if history.len() == 1 {
            ActionView::Call {
                target: TargetView::service("CheckoutService"@, "handle"@),
                payload: CheckoutRequest::payload(key, list_of(history[0])),
            }
        } else if failure_of(history[1]) is Some {
            ActionView::Return { outcome: OutcomeView::Failure(failure_of(history[1])->0) }
        } else if !flag_of(history[1]) {
            ActionView::Return { outcome: OutcomeView::Success(ValueView::Bool(false)) }
        } else if history.len() - 2 < list_of(history[0]).len() {
            ActionView::Send {
                target: ticket_target(list_of(history[0])[history.len() - 2], "markAsSold"@),
                payload: ValueView::Unit,
                delay_ms: 0,
            }
        } else if history.len() - 2 == list_of(history[0]).len() {
            ActionView::ClearState { key: tickets_key() }
        } else {
            ActionView::Return { outcome: OutcomeView::Success(ValueView::Bool(true)) }
        }
    }

    /// Expiring a ticket: where the ticket is in the cart, it leaves the cart
    /// and is told to give its reservation back; where it is not, nothing
    /// happens.
    pub open spec fn spec_expire_ticket(ticket_id: Seq<char>, history: Seq<EventView>) -> ActionView {
        if history.len() == 0 {
            ActionView::GetState { key: tickets_key() }
        } else if !list_of(history[0]).contains(ticket_id) {
            ActionView::Return { outcome: OutcomeView::Success(ValueView::Unit) }
        } else if history.len() == 1 {
            ActionView::SetState {
                key: tickets_key(),
                value: ValueView::List(without(list_of(history[0]), ticket_id)),
            }
        } else if history.len() == 2 {
            ActionView::Send {
                target: ticket_target(ticket_id, "unreserve"@),
                payload: ValueView::Unit,
                delay_ms: 0,
            }
        } else {
            ActionView::Return { outcome: OutcomeView::Success(ValueView::Unit) }
        }
    }

    /// The handler `addTicket` of the cart `key`: see
    /// [`Self::spec_add_ticket`].
    pub fn add_ticket(&self, key: &String, ticket_id: &String, history: &Vec<Event>) -> (a: Action)
        ensures
            a@ == Self::spec_add_ticket(key@, ticket_id@, event_views(history@)),
    {
        let k = history.len();
        if k == 0 {
            return Action::Call {
                target: Target::keyed("TicketObject", ticket_id.as_str(), "reserve"),
                payload: Value::Unit,
            };
        }
        assert(event_views(history@)[0] == history@[0]@);
        if failed_at(history, 0) {
            return return_failure_at(history, 0);
        }
        if !flag_value(&history[0]) {
            return return_value(Value::Bool(false));
        }
        if k == 1 {
            Action::GetState { key: String::from_str("tickets") }
        } else if k == 2 {
            assert(event_views(history@)[1] == history@[1]@);
            let tickets = list_value(&history[1]);
            Action::SetState {
                key: String::from_str("tickets"),
                value: Value::List(insert_text(&tickets, ticket_id)),
            }
        } else if k == 3 {
            Action::Send {
                target: Target::keyed("CartObject", key.as_str(), "expireTicket"),
                payload: Value::Text(ticket_id.clone()),
                delay_ms: RESERVATION_MS,
            }
        } else {
            return_value(Value::Bool(true))
        }
    }

    /// The handler `checkout` of the cart `key`: see [`Self::spec_checkout`].
    pub fn checkout(&self, key: &String, history: &Vec<Event>) -> (a: Action)
        ensures
            a@ == Self::spec_checkout(key@, event_views(history@)),
    {
        let k = history.len();
        if k == 0 {
            return Action::GetState { key: String::from_str("tickets") };
        }
        assert(event_views(history@)[0] == history@[0]@);
        let tickets = list_value(&history[0]);
        if tickets.len() == 0 {
            return return_value(Value::Bool(false));
        }
        if k == 1 {
            let request = CheckoutRequest { user_id: key.clone(), tickets };
            return Action::Call {
                target: Target::service("CheckoutService", "handle"),
                payload: request.to_value(),
            };
        }
        assert(event_views(history@)[1] == history@[1]@);
        if failed_at(history, 1) {
            return return_failure_at(history, 1);
        }
        if !flag_value(&history[1]) {
            return return_value(Value::Bool(false));
        }
        if k - 2 < tickets.len() {
            assert(text_views(tickets@)[k - 2] == tickets@[k - 2]@);
            Action::Send {
                target: Target::keyed("TicketObject", tickets[k - 2].as_str(), "markAsSold"),
                payload: Value::Unit,
                delay_ms: 0,
            }
        } else if k - 2 == tickets.len() {
            Action::ClearState { key: String::from_str("tickets") }
        } else {
            return_value(Value::Bool(true))
        }
    }

    /// The handler `expireTicket`: see [`Self::spec_expire_ticket`].
    pub fn expire_ticket(&self, ticket_id: &String, history: &Vec<Event>) -> (a: Action)
        ensures
            a@ == Self::spec_expire_ticket(ticket_id@, event_views(history@)),
    {
        let k = history.len();
        if k == 0 {
            return Action::GetState { key: String::from_str("tickets") };
        }
        assert(event_views(history@)[0] == history@[0]@);
        let tickets = list_value(&history[0]);
        if !contains_text(&tickets, ticket_id) {
            return return_value(Value::Unit);
        }
        if k == 1 {
            Action::SetState {
                key: String::from_str("tickets"),
                value: Value::List(remove_text(&tickets, ticket_id)),
            }
        } else if k == 2 {
            Action::Send {
                target: Target::keyed("TicketObject", ticket_id.as_str(), "unreserve"),
                payload: Value::Unit,
                delay_ms: 0,
            }
        } else {
            return_value(Value::Unit)
        }
    }
}

/// The price of a number of tickets, at [`TICKET_PRICE`] each; the largest
/// amount that can be written where the product is beyond it.
pub open spec fn total_price(tickets: nat) -> u64 {
    if tickets * TICKET_PRICE <= u64::MAX {
        (tickets * TICKET_PRICE) as u64
    } else {
        u64::MAX
    }
}

/// See [`total_price`].
pub fn price_of(tickets: usize) -> (p: u64)
    ensures
        p == total_price(tickets as nat),
{
    let count = tickets as u64;
    if count <= u64::MAX / TICKET_PRICE {
        count * TICKET_PRICE
    } else {
        u64::MAX
    }
}

/// The checkout service.
#[derive(Debug, PartialEq, Eq)]
pub struct CheckoutServiceImpl;

impl CheckoutServiceImpl {
    /// Handling a checkout: an idempotency key is drawn, the payment of the
    /// tickets' total price is made under it, the user is told of the
    /// payment's success or of its failure, and the answer is whether the
    /// payment succeeded. A step that fails for good ends the checkout with
    /// that failure.
    pub open spec fn spec_handle(req: &CheckoutRequest, history: Seq<EventView>) -> ActionView {
        if history.len() == 0 {
            ActionView::Run { name: "uuid"@, args: Seq::empty() }
        } else if failure_of(history[0]) is Some {
            ActionView::Return { outcome: OutcomeView::Failure(failure_of(history[0])->0) }
        } else if history.len() == 1 {
            ActionView::Run {
                name: "payment"@,
                args: seq![
                    text_of(history[0]),
                    decimal(total_price(req.tickets@.len()) as nat),
                ],
            }
        } else if failure_of(history[1]) is Some {
            ActionView::Return { outcome: OutcomeView::Failure(failure_of(history[1])->0) }
        } else if history.len() == 2 {
            ActionView::Run {
                name: if flag_of(history[1]) {
                    "notify-success"@
                } else {
                    "notify-failure"@
                },
                args: seq![req.user_id@],
            }
        } else if failure_of(history[2]) is Some {
            ActionView::Return { outcome: OutcomeView::Failure(failure_of(history[2])->0) }
        } else {
            ActionView::Return {
                outcome: OutcomeView::Success(ValueView::Bool(flag_of(history[1]))),
            }
        }
    }

    /// The handler `handle`: see [`Self::spec_handle`].
    pub fn handle(&self, req: &CheckoutRequest, history: &Vec<Event>) -> (a: Action)
        ensures
            a@ == Self::spec_handle(req, event_views(history@)),
    {
        let k = history.len();
        if k == 0 {
            let none: Vec<String> = Vec::new();
            assert(text_views(none@) =~= Seq::<Seq<char>>::empty());
            return run_action("uuid", none);
        }
        assert(event_views(history@)[0] == history@[0]@);
        if failed_at(history, 0) {
            return return_failure_at(history, 0);
        }
        if k == 1 {
            let key = text_value(&history[0]);
            let amount = decimal_text(price_of(req.tickets.len()));
            return run_action("payment", args2(&key, &amount));
        }
        assert(event_views(history@)[1] == history@[1]@);
        if failed_at(history, 1) {
            return return_failure_at(history, 1);
        }
        let success = flag_value(&history[1]);
        if k == 2 {
            let name = if success {
                "notify-success"
            } else {
                "notify-failure"
            };
            return run_action(name, args1(&req.user_id));
        }
        assert(event_views(history@)[2] == history@[2]@);
        if failed_at(history, 2) {
            return return_failure_at(history, 2);
        }
        return_value(Value::Bool(success))
    }
}

} // verus!
