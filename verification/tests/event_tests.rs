//! Dispatch behaviour of the event hub, observed through recording receivers.

use std::cell::RefCell;
use std::rc::Rc;

use v39::error::V39Result;
use v39::event::{EngineAction, EngineEvent, Event, EventData, EventReceiver};
use v39::event_handler::EventHandlerInterface;
use v39::input::V39Key;

/// A receiver that writes every callback it gets into a shared log.
struct Recorder {
    name: &'static str,
    log: Rc<RefCell<Vec<String>>>,
}

impl Recorder {
    fn new(name: &'static str, log: &Rc<RefCell<Vec<String>>>) -> Self {
        Recorder { name, log: Rc::clone(log) }
    }

    fn note(&self, what: String) {
        self.log.borrow_mut().push(format!("{}:{}", self.name, what));
    }
}

impl EventReceiver for Recorder {
    fn dispatch_event(&mut self, event: &Event) -> V39Result<Vec<EngineAction<Self>>> {
        self.note(format!("event {}", event.id));
        Ok(Vec::new())
    }

    fn reset(&mut self) -> V39Result<Vec<EngineAction<Self>>> {
        self.note("reset".to_string());
        Ok(Vec::new())
    }

    fn key_down(&mut self, key: V39Key) -> V39Result<Vec<EngineAction<Self>>> {
        self.note(format!("key_down {:?}", key));
        Ok(Vec::new())
    }

    fn frame_begin(&mut self) -> V39Result<Vec<EngineAction<Self>>> {
        self.note("frame_begin".to_string());
        Ok(Vec::new())
    }

    fn quit(&mut self, reason: u32) -> V39Result<Vec<EngineAction<Self>>> {
        self.note(format!("quit {}", reason));
        Ok(Vec::new())
    }
}

#[test]
fn single_reset_fires_exactly_once_per_receiver() {
    let log = Rc::new(RefCell::new(Vec::new()));
    let mut handler: EventHandlerInterface<Recorder> = EventHandlerInterface::new();
    handler.add_receiver(Recorder::new("r", &log));

    // A queued Reset must not be consumed by the single dispatch.
    handler.queue_engine_event(EngineEvent::Reset);
    handler.fire_single_engine_event(EngineEvent::Reset).unwrap();

    assert_eq!(*log.borrow(), vec!["r:reset".to_string()]);
}

#[test]
fn user_events_drain_lifo_to_every_receiver() {
    let log = Rc::new(RefCell::new(Vec::new()));
    let mut handler: EventHandlerInterface<Recorder> = EventHandlerInterface::new();
    handler.add_receiver(Recorder::new("a", &log));
    handler.add_receiver(Recorder::new("b", &log));

    handler.queue_event(Event::new(1, vec![EventData::Bool(true)]));
    handler.queue_event(Event::new(2, vec![]));
    handler.fire_events().unwrap();

    // Event 2 was queued last, so it is dispatched first, to both receivers
    // in registration order.
    assert_eq!(
        *log.borrow(),
        vec![
            "a:event 2".to_string(),
            "b:event 2".to_string(),
            "a:event 1".to_string(),
            "b:event 1".to_string(),
        ]
    );
}

#[test]
fn engine_events_match_by_variant_only() {
    let log = Rc::new(RefCell::new(Vec::new()));
    let mut handler: EventHandlerInterface<Recorder> = EventHandlerInterface::new();
    handler.add_receiver(Recorder::new("r", &log));

    handler.queue_engine_event(EngineEvent::KeyDown(Some(V39Key::A)));
    handler.queue_engine_event(EngineEvent::Reset);
    handler.queue_engine_event(EngineEvent::KeyDown(Some(V39Key::B)));

    // The kind carries no payload, yet both KeyDown events match; the Reset
    // stays queued for a later pass.
    handler.fire_engine_event(EngineEvent::KeyDown(None)).unwrap();
    assert_eq!(
        *log.borrow(),
        vec!["r:key_down A".to_string(), "r:key_down B".to_string()]
    );

    log.borrow_mut().clear();
    handler.fire_engine_event(EngineEvent::Reset).unwrap();
    assert_eq!(*log.borrow(), vec!["r:reset".to_string()]);
}

#[test]
fn var_eq_ignores_payload() {
    assert!(EngineEvent::KeyDown(Some(V39Key::A)).var_eq(&EngineEvent::KeyDown(None)));
    assert!(EngineEvent::Quit(Some(3)).var_eq(&EngineEvent::Quit(Some(7))));
    assert!(!EngineEvent::KeyDown(None).var_eq(&EngineEvent::KeyUp(None)));
    assert!(EngineEvent::WindowClose.var_eq(&EngineEvent::WindowClose));
}

/// A receiver that queues an event and registers a new recorder while a pass
/// is running.
struct Spawner {
    log: Rc<RefCell<Vec<String>>>,
    spawned: bool,
}

impl EventReceiver for Spawner {
    fn dispatch_event(&mut self, event: &Event) -> V39Result<Vec<EngineAction<Self>>> {
        self.log.borrow_mut().push(format!("spawner:event {}", event.id));
        if !self.spawned {
            self.spawned = true;
            Ok(vec![
                EngineAction::QueueEvent(Event::new(99, vec![])),
                EngineAction::AddReceiver(Spawner { log: Rc::clone(&self.log), spawned: true }),
            ])
        } else {
            Ok(Vec::new())
        }
    }
}

#[test]
fn additions_during_a_pass_take_effect_on_the_next_pass() {
    let log = Rc::new(RefCell::new(Vec::new()));
    let mut handler: EventHandlerInterface<Spawner> = EventHandlerInterface::new();
    handler.add_receiver(Spawner { log: Rc::clone(&log), spawned: false });

    handler.queue_event(Event::new(1, vec![]));
    handler.fire_events().unwrap();

    // The pass delivered event 1 to the one registered receiver only: the
    // event queued during the pass was not dispatched, and the receiver added
    // during the pass was not visited.
    assert_eq!(*log.borrow(), vec!["spawner:event 1".to_string()]);

    log.borrow_mut().clear();
    handler.fire_events().unwrap();

    // The next pass delivers the deferred event 99 exactly once to each of
    // the two receivers that now exist.
    let entries = log.borrow().clone();
    assert_eq!(entries.len(), 2);
    assert!(entries.iter().all(|e| e == "spawner:event 99"));

    log.borrow_mut().clear();
    handler.fire_events().unwrap();
    assert_eq!(log.borrow().len(), 0);
}

/// A receiver whose callback fails.
struct Faulty;

impl EventReceiver for Faulty {
    fn dispatch_event(&mut self, _event: &Event) -> V39Result<Vec<EngineAction<Faulty>>> {
        Err(v39::error::V39Error::Error("broken receiver".to_string()))
    }
}

#[test]
fn a_failing_receiver_does_not_abort_the_pass() {
    let mut handler: EventHandlerInterface<Faulty> = EventHandlerInterface::new();
    handler.add_receiver(Faulty);
    handler.add_receiver(Faulty);
    handler.queue_event(Event::new(1, vec![]));
    assert!(handler.fire_events().is_ok());
}

#[test]
fn quit_action_raises_the_flag() {
    struct Quitter;
    impl EventReceiver for Quitter {
        fn quit(&mut self, _reason: u32) -> V39Result<Vec<EngineAction<Quitter>>> {
            Ok(Vec::new())
        }
        fn dispatch_event(&mut self, _event: &Event) -> V39Result<Vec<EngineAction<Quitter>>> {
            Ok(vec![EngineAction::Quit])
        }
    }
    let mut handler: EventHandlerInterface<Quitter> = EventHandlerInterface::new();
    handler.add_receiver(Quitter);
    assert!(!handler.quit_requested());
    handler.queue_event(Event::new(1, vec![]));
    handler.fire_events().unwrap();
    assert!(handler.quit_requested());
}

#[test]
fn error_from_string() {
    let e = v39::error::V39Error::from("boom".to_string());
    assert_eq!(e, v39::error::V39Error::Error("boom".to_string()));
}
