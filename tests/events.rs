use std::cell::RefCell;

use mellow::event::{AnyEvent, Event, EventRegistry, EventType, Listener, Ready};

type Callback<'a> = Box<dyn Fn(&AnyEvent) + 'a>;

fn ready(id: &str) -> AnyEvent {
    Ready { session_id: id.to_string() }.into_any()
}

#[test]
fn event_type_of_ready() {
    assert_eq!(<Ready as Event>::ty(), EventType::Ready);
    assert_eq!(ready("s").ty(), EventType::Ready);
}

#[test]
fn listener_handle_runs_matching_callback() {
    let seen: RefCell<Vec<String>> = RefCell::new(Vec::new());
    let l = Listener::new(EventType::Ready, |e: &AnyEvent| {
        let AnyEvent::Ready(r) = e;
        seen.borrow_mut().push(r.session_id.clone());
    });
    assert!(l.handle(&ready("abc")));
    assert_eq!(*seen.borrow(), vec!["abc".to_string()]);
}

#[test]
fn dispatch_runs_listener_once_with_the_event() {
    let seen: RefCell<Vec<String>> = RefCell::new(Vec::new());
    let mut reg: EventRegistry<Callback> = EventRegistry::new();
    reg.register_for::<Ready>(Box::new(|e: &AnyEvent| {
        let AnyEvent::Ready(r) = e;
        seen.borrow_mut().push(r.session_id.clone());
    }));
    let ran = reg.dispatch(&ready("s1"));
    assert_eq!(ran, vec![0]);
    assert_eq!(*seen.borrow(), vec!["s1".to_string()]);
}

#[test]
fn dispatch_runs_all_in_registration_order() {
    let order: RefCell<Vec<usize>> = RefCell::new(Vec::new());
    let mut reg: EventRegistry<Callback> = EventRegistry::new();
    for k in 0..5usize {
        let order = &order;
        reg.register(EventType::Ready, Box::new(move |_e: &AnyEvent| order.borrow_mut().push(k)));
    }
    assert_eq!(reg.len(), 5);
    let ran = reg.dispatch(&ready("s"));
    assert_eq!(ran, vec![0, 1, 2, 3, 4]);
    assert_eq!(*order.borrow(), vec![0, 1, 2, 3, 4]);
}

#[test]
fn empty_registry_runs_nothing() {
    let reg: EventRegistry<Callback> = EventRegistry::new();
    assert_eq!(reg.len(), 0);
    assert!(reg.dispatch(&ready("s")).is_empty());
}

#[test]
fn each_dispatch_runs_listeners_again() {
    let count: RefCell<usize> = RefCell::new(0);
    let mut reg: EventRegistry<Callback> = EventRegistry::new();
    reg.register(EventType::Ready, Box::new(|_e: &AnyEvent| *count.borrow_mut() += 1));
    reg.dispatch(&ready("a"));
    reg.dispatch(&ready("b"));
    assert_eq!(*count.borrow(), 2);
}
