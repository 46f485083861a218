use std::cell::{Cell, RefCell};
use std::rc::Rc;

use agent_bridge::session::{Connection, Phase, SendError, Session};
use agent_bridge::slot::CallbackSlot;

#[derive(Debug, Clone, Copy, PartialEq, Eq)]
enum Response {
    IncrementCounter,
    Value(u32),
}

type Handler = Box<dyn Fn(Response)>;

/// A transport that records every message it is given, and refuses those
/// equal to `refuse`.
struct Recorder {
    id: u32,
    log: Rc<RefCell<Vec<u32>>>,
    refuse: Option<u32>,
}

impl Connection<u32> for Recorder {
    type Error = String;

    fn send(&mut self, input: u32) -> Result<(), String> {
        if self.refuse == Some(input) {
            return Err(format!("worker {} refused {}", self.id, input));
        }
        self.log.borrow_mut().push(input);
        Ok(())
    }
}

fn recorder(id: u32, log: &Rc<RefCell<Vec<u32>>>, made: &Rc<Cell<u32>>) -> impl FnOnce() -> Recorder {
    let log = log.clone();
    let made = made.clone();
    move || {
        made.set(made.get() + 1);
        Recorder { id, log, refuse: None }
    }
}

fn deliver(session: &Rc<RefCell<Session<Handler, Recorder>>>, output: Response) {
    let handler = session.borrow().current_handler();
    if let Some(h) = handler {
        h(output);
    }
}

fn tracking(seen: &Rc<RefCell<Vec<(u32, Response)>>>, tag: u32) -> Handler {
    let seen = seen.clone();
    Box::new(move |r| seen.borrow_mut().push((tag, r)))
}

#[test]
fn new_session_is_uninitialized() {
    let s: Session<Handler, Recorder> = Session::new();
    assert_eq!(s.phase(), Phase::Uninitialized);
    assert_eq!(s.owner_count(), 1);
    assert_eq!(s.connect_count(), 0);
    assert_eq!(s.teardown_count(), 0);
    assert!(s.current_handler().is_none());
}

#[test]
fn one_connection_across_passes() {
    let log = Rc::new(RefCell::new(Vec::new()));
    let made = Rc::new(Cell::new(0));
    let seen = Rc::new(RefCell::new(Vec::new()));
    let mut s: Session<Handler, Recorder> = Session::new();
    for pass in 1..=5u32 {
        s.render(tracking(&seen, pass), recorder(pass, &log, &made));
        assert_eq!(s.phase(), Phase::Connected);
        assert_eq!(s.connect_count(), 1);
        assert_eq!(made.get(), 1);
    }
    // The connection of the first pass is the one that is kept.
    let conn = s.release().unwrap();
    assert_eq!(conn.id, 1);
}

#[test]
fn latest_handler_receives_outputs() {
    let log = Rc::new(RefCell::new(Vec::new()));
    let made = Rc::new(Cell::new(0));
    let seen = Rc::new(RefCell::new(Vec::new()));
    let s = Rc::new(RefCell::new(Session::new()));
    s.borrow_mut().render(tracking(&seen, 1), recorder(1, &log, &made));
    deliver(&s, Response::Value(10));
    deliver(&s, Response::Value(11));
    s.borrow_mut().render(tracking(&seen, 2), recorder(2, &log, &made));
    deliver(&s, Response::Value(12));
    assert_eq!(
        *seen.borrow(),
        vec![(1, Response::Value(10)), (1, Response::Value(11)), (2, Response::Value(12))]
    );
}

#[test]
fn send_reaches_transport_in_order() {
    let log = Rc::new(RefCell::new(Vec::new()));
    let made = Rc::new(Cell::new(0));
    let seen = Rc::new(RefCell::new(Vec::new()));
    let mut s: Session<Handler, Recorder> = Session::new();
    s.render(tracking(&seen, 1), recorder(1, &log, &made));
    for x in [5u32, 3, 5, 9] {
        assert_eq!(s.send(x), Ok(()));
    }
    assert_eq!(*log.borrow(), vec![5, 3, 5, 9]);
}

#[test]
fn send_before_first_pass_is_refused() {
    let mut s: Session<Handler, Recorder> = Session::new();
    assert_eq!(s.send(1), Err(SendError::NotConnected));
    assert_eq!(s.phase(), Phase::Uninitialized);
}

#[test]
fn send_after_close_is_refused() {
    let log = Rc::new(RefCell::new(Vec::new()));
    let made = Rc::new(Cell::new(0));
    let seen = Rc::new(RefCell::new(Vec::new()));
    let mut s: Session<Handler, Recorder> = Session::new();
    s.render(tracking(&seen, 1), recorder(1, &log, &made));
    assert!(s.release().is_some());
    assert_eq!(s.send(4), Err(SendError::Closed));
    assert!(log.borrow().is_empty());
}

#[test]
fn transport_refusal_is_passed_through() {
    let log = Rc::new(RefCell::new(Vec::new()));
    let seen = Rc::new(RefCell::new(Vec::new()));
    let mut s: Session<Handler, Recorder> = Session::new();
    let l = log.clone();
    s.render(tracking(&seen, 1), move || Recorder { id: 7, log: l, refuse: Some(13) });
    assert_eq!(
        s.send(13),
        Err(SendError::Transport("worker 7 refused 13".to_string()))
    );
    assert_eq!(s.send(14), Ok(()));
    assert_eq!(*log.borrow(), vec![14]);
}

#[test]
fn clone_shares_connection() {
    let log = Rc::new(RefCell::new(Vec::new()));
    let made = Rc::new(Cell::new(0));
    let seen = Rc::new(RefCell::new(Vec::new()));
    let mut s: Session<Handler, Recorder> = Session::new();
    s.render(tracking(&seen, 1), recorder(1, &log, &made));
    s.acquire();
    assert_eq!(s.owner_count(), 2);
    assert_eq!(s.send(1), Ok(()));
    assert_eq!(s.send(2), Ok(()));
    assert_eq!(*log.borrow(), vec![1, 2]);
    assert_eq!(made.get(), 1);
    assert_eq!(s.connect_count(), 1);
}

#[test]
fn reentrant_pass_inside_handler() {
    let log = Rc::new(RefCell::new(Vec::new()));
    let made = Rc::new(Cell::new(0));
    let seen = Rc::new(RefCell::new(Vec::new()));
    let s: Rc<RefCell<Session<Handler, Recorder>>> = Rc::new(RefCell::new(Session::new()));
    let inner = s.clone();
    let seen1 = seen.clone();
    let seen2 = seen.clone();
    let log2 = log.clone();
    let made2 = made.clone();
    let first: Handler = Box::new(move |r| {
        // Handling an output causes a new render pass with a new handler.
        inner
            .borrow_mut()
            .render(tracking(&seen2, 2), recorder(2, &log2, &made2));
        seen1.borrow_mut().push((1, r));
    });
    s.borrow_mut().render(first, recorder(1, &log, &made));
    deliver(&s, Response::Value(1));
    deliver(&s, Response::Value(2));
    assert_eq!(*seen.borrow(), vec![(1, Response::Value(1)), (2, Response::Value(2))]);
    assert_eq!(made.get(), 1);
    assert_eq!(s.borrow().connect_count(), 1);
}

#[test]
fn last_release_tears_down_once() {
    let log = Rc::new(RefCell::new(Vec::new()));
    let made = Rc::new(Cell::new(0));
    let seen = Rc::new(RefCell::new(Vec::new()));
    let mut s: Session<Handler, Recorder> = Session::new();
    s.render(tracking(&seen, 1), recorder(1, &log, &made));
    s.acquire();
    s.acquire();
    assert!(s.release().is_none());
    assert!(s.release().is_none());
    assert_eq!(s.teardown_count(), 0);
    assert_eq!(s.phase(), Phase::Connected);
    assert!(s.release().is_some());
    assert_eq!(s.teardown_count(), 1);
    assert_eq!(s.phase(), Phase::Closed);
    assert_eq!(s.owner_count(), 0);
}

#[test]
fn release_before_first_pass_closes_without_teardown() {
    let mut s: Session<Handler, Recorder> = Session::new();
    assert!(s.release().is_none());
    assert_eq!(s.phase(), Phase::Closed);
    assert_eq!(s.teardown_count(), 0);
    assert_eq!(s.connect_count(), 0);
}

#[test]
fn counter_scenario() {
    let log = Rc::new(RefCell::new(Vec::new()));
    let made = Rc::new(Cell::new(0));
    let a = Rc::new(Cell::new(0u32));
    let b = Rc::new(Cell::new(0u32));
    let s: Rc<RefCell<Session<Handler, Recorder>>> = Rc::new(RefCell::new(Session::new()));
    let ca = a.clone();
    let c1: Handler = Box::new(move |r| {
        if r == Response::IncrementCounter {
            ca.set(ca.get() + 1);
        }
    });
    s.borrow_mut().render(c1, recorder(1, &log, &made));
    deliver(&s, Response::IncrementCounter);
    assert_eq!(a.get(), 1);
    let cb = b.clone();
    let c2: Handler = Box::new(move |r| {
        if r == Response::IncrementCounter {
            cb.set(cb.get() + 1);
        }
    });
    s.borrow_mut().render(c2, recorder(2, &log, &made));
    assert_eq!(made.get(), 1);
    assert_eq!(s.borrow().connect_count(), 1);
    deliver(&s, Response::IncrementCounter);
    assert_eq!(b.get(), 1);
    assert_eq!(a.get(), 1);
}

#[test]
fn slot_replace_and_copy() {
    let mut slot = CallbackSlot::new(1u32);
    let before = slot.read_and_clone();
    slot.replace(2);
    assert_eq!(*before, 1);
    assert_eq!(*slot.read_and_clone(), 2);
}

#[test]
fn send_after_non_last_release_reaches_transport() {
    let log = Rc::new(RefCell::new(Vec::new()));
    let made = Rc::new(Cell::new(0));
    let seen = Rc::new(RefCell::new(Vec::new()));
    let mut s: Session<Handler, Recorder> = Session::new();
    s.render(tracking(&seen, 1), recorder(1, &log, &made));
    s.acquire();
    assert!(s.release().is_none());
    assert_eq!(s.teardown_count(), 0);
    assert_eq!(s.send(8), Ok(()));
    assert_eq!(*log.borrow(), vec![8]);
}
