use durable_exec::action::{Action, Event, Handler};
use durable_exec::handlers::ticketing::{
    price_of, CartObjectImpl, CheckoutRequest, CheckoutServiceImpl, TicketObjectImpl,
    TicketStatus, RESERVATION_MS, TICKET_PRICE,
};
use durable_exec::handlers::Request;
use durable_exec::locks::HandlerKind;
use durable_exec::target::Target;
use durable_exec::value::{Outcome, Value};

fn gives(value: Value) -> Action {
    Action::Return { outcome: Outcome::Success(value) }
}

fn state(value: Option<Value>) -> Event {
    Event::State(value)
}

fn status(text: &str) -> Event {
    Event::State(Some(Value::Text(text.to_string())))
}

fn tickets(items: &[&str]) -> Event {
    Event::State(Some(Value::List(items.iter().map(|s| s.to_string()).collect())))
}

fn done(value: Value) -> Event {
    Event::Completed(Outcome::Success(value))
}

fn get(key: &str) -> Action {
    Action::GetState { key: key.to_string() }
}

#[test]
fn reserve_available_ticket_sets_reserved() {
    let ticket = TicketObjectImpl;
    let mut history: Vec<Event> = Vec::new();
    assert_eq!(ticket.reserve(&history), get("status"));
    history.push(state(None));
    assert_eq!(
        ticket.reserve(&history),
        Action::SetState { key: "status".to_string(), value: Value::Text("RESERVED".to_string()) }
    );
    history.push(Event::Ack);
    assert_eq!(ticket.reserve(&history), gives(Value::Bool(true)));
}

#[test]
fn reserve_of_a_taken_ticket_answers_false() {
    let ticket = TicketObjectImpl;
    assert_eq!(ticket.reserve(&vec![status("RESERVED")]), gives(Value::Bool(false)));
    assert_eq!(ticket.reserve(&vec![status("SOLD")]), gives(Value::Bool(false)));
}

#[test]
fn stored_available_counts_as_available() {
    let ticket = TicketObjectImpl;
    assert_eq!(
        ticket.reserve(&vec![status("AVAILABLE")]),
        Action::SetState { key: "status".to_string(), value: Value::Text("RESERVED".to_string()) }
    );
    // So does anything that is no status.
    assert_eq!(
        ticket.reserve(&vec![status("reserved")]),
        Action::SetState { key: "status".to_string(), value: Value::Text("RESERVED".to_string()) }
    );
}

#[test]
fn unreserve_clears_a_reserved_ticket_only() {
    let ticket = TicketObjectImpl;
    assert_eq!(ticket.unreserve(&Vec::new()), get("status"));
    assert_eq!(
        ticket.unreserve(&vec![status("RESERVED")]),
        Action::ClearState { key: "status".to_string() }
    );
    assert_eq!(ticket.unreserve(&vec![status("RESERVED"), Event::Ack]), gives(Value::Unit));
    assert_eq!(ticket.unreserve(&vec![status("SOLD")]), gives(Value::Unit));
    assert_eq!(ticket.unreserve(&vec![state(None)]), gives(Value::Unit));
}

#[test]
fn mark_as_sold_sells_a_reserved_ticket_only() {
    let ticket = TicketObjectImpl;
    assert_eq!(ticket.mark_as_sold(&Vec::new()), get("status"));
    assert_eq!(
        ticket.mark_as_sold(&vec![status("RESERVED")]),
        Action::SetState { key: "status".to_string(), value: Value::Text("SOLD".to_string()) }
    );
    assert_eq!(ticket.mark_as_sold(&vec![status("RESERVED"), Event::Ack]), gives(Value::Unit));
    assert_eq!(ticket.mark_as_sold(&vec![state(None)]), gives(Value::Unit));
    assert_eq!(ticket.mark_as_sold(&vec![status("SOLD")]), gives(Value::Unit));
}

#[test]
fn status_texts() {
    assert_eq!(TicketStatus::Available.as_text(), "AVAILABLE");
    assert_eq!(TicketStatus::Reserved.as_text(), "RESERVED");
    assert_eq!(TicketStatus::Sold.as_text(), "SOLD");
    for s in [TicketStatus::Available, TicketStatus::Reserved, TicketStatus::Sold] {
        assert_eq!(TicketStatus::from_text(&s.as_text()), Some(s));
    }
    assert_eq!(TicketStatus::from_text(&"Sold".to_string()), None);
    assert_eq!(TicketStatus::from_event(&status("SOLD")), TicketStatus::Sold);
    assert_eq!(TicketStatus::from_event(&Event::Ack), TicketStatus::Available);
}

#[test]
fn add_ticket_reserves_stores_and_schedules_expiry() {
    let cart = CartObjectImpl;
    let key = "mary".to_string();
    let ticket = "seat2B".to_string();
    let mut history = Vec::new();
    assert_eq!(
        cart.add_ticket(&key, &ticket, &history),
        Action::Call { target: Target::keyed("TicketObject", "seat2B", "reserve"), payload: Value::Unit }
    );
    history.push(done(Value::Bool(true)));
    assert_eq!(cart.add_ticket(&key, &ticket, &history), get("tickets"));
    history.push(tickets(&["seat1A"]));
    assert_eq!(
        cart.add_ticket(&key, &ticket, &history),
        Action::SetState {
            key: "tickets".to_string(),
            value: Value::List(vec!["seat1A".to_string(), "seat2B".to_string()]),
        }
    );
    history.push(Event::Ack);
    assert_eq!(
        cart.add_ticket(&key, &ticket, &history),
        Action::Send {
            target: Target::keyed("CartObject", "mary", "expireTicket"),
            payload: Value::Text("seat2B".to_string()),
            delay_ms: 900000,
        }
    );
    assert_eq!(RESERVATION_MS, 15 * 60 * 1000);
    history.push(Event::Ack);
    assert_eq!(cart.add_ticket(&key, &ticket, &history), gives(Value::Bool(true)));
}

#[test]
fn add_ticket_of_a_refused_reservation_does_nothing_more() {
    let cart = CartObjectImpl;
    let history = vec![done(Value::Bool(false))];
    assert_eq!(
        cart.add_ticket(&"mary".to_string(), &"seat2B".to_string(), &history),
        gives(Value::Bool(false))
    );
}

#[test]
fn add_ticket_twice_keeps_it_once() {
    let cart = CartObjectImpl;
    let history = vec![done(Value::Bool(true)), tickets(&["seat2B"])];
    assert_eq!(
        cart.add_ticket(&"mary".to_string(), &"seat2B".to_string(), &history),
        Action::SetState {
            key: "tickets".to_string(),
            value: Value::List(vec!["seat2B".to_string()]),
        }
    );
}

#[test]
fn add_ticket_passes_on_a_failed_reservation_call() {
    let cart = CartObjectImpl;
    let history = vec![Event::Completed(Outcome::Failure("ticket service down".to_string()))];
    assert_eq!(
        cart.add_ticket(&"mary".to_string(), &"seat2B".to_string(), &history),
        Action::Return { outcome: Outcome::Failure("ticket service down".to_string()) }
    );
}

#[test]
fn checkout_of_an_empty_cart_answers_false() {
    let cart = CartObjectImpl;
    let key = "mary".to_string();
    assert_eq!(cart.checkout(&key, &Vec::new()), get("tickets"));
    assert_eq!(cart.checkout(&key, &vec![state(None)]), gives(Value::Bool(false)));
    assert_eq!(cart.checkout(&key, &vec![tickets(&[])]), gives(Value::Bool(false)));
}

#[test]
fn checkout_pays_sells_every_ticket_and_empties_the_cart() {
    let cart = CartObjectImpl;
    let key = "mary".to_string();
    let mut history = vec![tickets(&["seat1A", "seat2B"])];
    assert_eq!(
        cart.checkout(&key, &history),
        Action::Call {
            target: Target::service("CheckoutService", "handle"),
            payload: Value::List(vec![
                "mary".to_string(),
                "seat1A".to_string(),
                "seat2B".to_string()
            ]),
        }
    );
    history.push(done(Value::Bool(true)));
    assert_eq!(
        cart.checkout(&key, &history),
        Action::Send {
            target: Target::keyed("TicketObject", "seat1A", "markAsSold"),
            payload: Value::Unit,
            delay_ms: 0
        }
    );
    history.push(Event::Ack);
    assert_eq!(
        cart.checkout(&key, &history),
        Action::Send {
            target: Target::keyed("TicketObject", "seat2B", "markAsSold"),
            payload: Value::Unit,
            delay_ms: 0
        }
    );
    history.push(Event::Ack);
    assert_eq!(cart.checkout(&key, &history), Action::ClearState { key: "tickets".to_string() });
    history.push(Event::Ack);
    assert_eq!(cart.checkout(&key, &history), gives(Value::Bool(true)));
}

#[test]
fn checkout_that_is_not_paid_keeps_the_cart() {
    let cart = CartObjectImpl;
    let history = vec![tickets(&["seat1A"]), done(Value::Bool(false))];
    assert_eq!(cart.checkout(&"mary".to_string(), &history), gives(Value::Bool(false)));
    let history = vec![tickets(&["seat1A"]), Event::Completed(Outcome::Failure("down".to_string()))];
    assert_eq!(
        cart.checkout(&"mary".to_string(), &history),
        Action::Return { outcome: Outcome::Failure("down".to_string()) }
    );
}

#[test]
fn expire_ticket_removes_it_and_gives_the_reservation_back() {
    let cart = CartObjectImpl;
    let ticket = "seat2B".to_string();
    let mut history = Vec::new();
    assert_eq!(cart.expire_ticket(&ticket, &history), get("tickets"));
    history.push(tickets(&["seat1A", "seat2B", "seat3C"]));
    assert_eq!(
        cart.expire_ticket(&ticket, &history),
        Action::SetState {
            key: "tickets".to_string(),
            value: Value::List(vec!["seat1A".to_string(), "seat3C".to_string()]),
        }
    );
    history.push(Event::Ack);
    assert_eq!(
        cart.expire_ticket(&ticket, &history),
        Action::Send {
            target: Target::keyed("TicketObject", "seat2B", "unreserve"),
            payload: Value::Unit,
            delay_ms: 0
        }
    );
    history.push(Event::Ack);
    assert_eq!(cart.expire_ticket(&ticket, &history), gives(Value::Unit));
}

#[test]
fn expire_ticket_that_is_not_in_the_cart_does_nothing() {
    let cart = CartObjectImpl;
    assert_eq!(
        cart.expire_ticket(&"seat2B".to_string(), &vec![tickets(&["seat1A"])]),
        gives(Value::Unit)
    );
    assert_eq!(cart.expire_ticket(&"seat2B".to_string(), &vec![state(None)]), gives(Value::Unit));
}

#[test]
fn checkout_request_as_a_payload() {
    let request = CheckoutRequest {
        user_id: "mary".to_string(),
        tickets: vec!["seat1A".to_string(), "seat2B".to_string()],
    };
    let payload = request.to_value();
    assert_eq!(
        payload,
        Value::List(vec!["mary".to_string(), "seat1A".to_string(), "seat2B".to_string()])
    );
    assert_eq!(CheckoutRequest::from_value(&payload), Some(request));
    assert_eq!(CheckoutRequest::from_value(&Value::List(Vec::new())), None);
    assert_eq!(CheckoutRequest::from_value(&Value::Unit), None);
    assert_eq!(
        CheckoutRequest::from_value(&Value::List(vec!["mary".to_string()])),
        Some(CheckoutRequest { user_id: "mary".to_string(), tickets: Vec::new() })
    );
}

#[test]
fn total_price_is_forty_a_ticket() {
    assert_eq!(TICKET_PRICE, 40);
    assert_eq!(price_of(0), 0);
    assert_eq!(price_of(1), 40);
    assert_eq!(price_of(3), 120);
    assert_eq!(price_of(usize::MAX), u64::MAX);
}

#[test]
fn checkout_service_pays_and_notifies_of_success() {
    let service = CheckoutServiceImpl;
    let request = CheckoutRequest {
        user_id: "mary".to_string(),
        tickets: vec!["seat1A".to_string(), "seat2B".to_string(), "seat3C".to_string()],
    };
    let mut history = Vec::new();
    assert_eq!(
        service.handle(&request, &history),
        Action::Run { name: "uuid".to_string(), args: Vec::new() }
    );
    history.push(done(Value::Text("key-1".to_string())));
    assert_eq!(
        service.handle(&request, &history),
        Action::Run {
            name: "payment".to_string(),
            args: vec!["key-1".to_string(), "120".to_string()]
        }
    );
    history.push(done(Value::Bool(true)));
    assert_eq!(
        service.handle(&request, &history),
        Action::Run { name: "notify-success".to_string(), args: vec!["mary".to_string()] }
    );
    history.push(done(Value::Bool(true)));
    assert_eq!(service.handle(&request, &history), gives(Value::Bool(true)));
}

#[test]
fn checkout_service_notifies_of_failure() {
    let service = CheckoutServiceImpl;
    let request = CheckoutRequest { user_id: "mary".to_string(), tickets: vec!["s".to_string()] };
    let mut history = vec![done(Value::Text("key-1".to_string())), done(Value::Bool(false))];
    assert_eq!(
        service.handle(&request, &history),
        Action::Run { name: "notify-failure".to_string(), args: vec!["mary".to_string()] }
    );
    history.push(done(Value::Bool(false)));
    assert_eq!(service.handle(&request, &history), gives(Value::Bool(false)));
}

#[test]
fn checkout_service_fails_when_a_step_fails_for_good() {
    let service = CheckoutServiceImpl;
    let request = CheckoutRequest { user_id: "mary".to_string(), tickets: vec!["s".to_string()] };
    let history = vec![
        done(Value::Text("key-1".to_string())),
        Event::Completed(Outcome::Failure("Payment call failed".to_string())),
    ];
    assert_eq!(
        service.handle(&request, &history),
        Action::Return { outcome: Outcome::Failure("Payment call failed".to_string()) }
    );
}

#[test]
fn requests_dispatch_to_their_handlers() {
    let request = Request::CartCheckout { key: "mary".to_string() };
    assert_eq!(request.next(&Vec::new()), get("tickets"));
    assert_eq!(request.kind(), HandlerKind::Object);
    assert_eq!(request.service(), "CartObject");
    let request = Request::TicketReserve;
    assert_eq!(request.next(&vec![status("SOLD")]), gives(Value::Bool(false)));
    assert_eq!(request.service(), "TicketObject");
    let request = Request::Checkout(CheckoutRequest { user_id: "m".to_string(), tickets: Vec::new() });
    assert_eq!(request.kind(), HandlerKind::Service);
    assert_eq!(request.service(), "CheckoutService");
    assert_eq!(Request::UserSubscriptionsGet.kind(), HandlerKind::ObjectShared);
    assert_eq!(Request::SignupClick { secret: "s".to_string() }.kind(), HandlerKind::WorkflowShared);
    assert_eq!(Request::Tour.service(), "MyService");
}
