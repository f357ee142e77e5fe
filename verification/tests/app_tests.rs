//! The runtime loop's per-frame ordering, observed through a recording
//! receiver.

use std::cell::RefCell;
use std::rc::Rc;

use v39::app::{App, InitProps};
use v39::error::V39Result;
use v39::event::{EngineAction, EngineEvent, Event, EventReceiver};
use v39::input::V39Key;

struct Recorder {
    log: Rc<RefCell<Vec<String>>>,
    quit_on_tick: bool,
}

impl EventReceiver for Recorder {
    fn dispatch_event(&mut self, event: &Event) -> V39Result<Vec<EngineAction<Self>>> {
        self.log.borrow_mut().push(format!("event {}", event.id));
        Ok(Vec::new())
    }

    fn key_down(&mut self, key: V39Key) -> V39Result<Vec<EngineAction<Self>>> {
        self.log.borrow_mut().push(format!("key_down {:?}", key));
        Ok(Vec::new())
    }

    fn key_up(&mut self, key: V39Key) -> V39Result<Vec<EngineAction<Self>>> {
        self.log.borrow_mut().push(format!("key_up {:?}", key));
        Ok(Vec::new())
    }

    fn frame_begin(&mut self) -> V39Result<Vec<EngineAction<Self>>> {
        self.log.borrow_mut().push("frame_begin".to_string());
        Ok(Vec::new())
    }

    fn frame_end(&mut self) -> V39Result<Vec<EngineAction<Self>>> {
        self.log.borrow_mut().push("frame_end".to_string());
        Ok(Vec::new())
    }

    fn tick(&mut self, delta: u64) -> V39Result<Vec<EngineAction<Self>>> {
        self.log.borrow_mut().push(format!("tick {}", delta));
        if self.quit_on_tick {
            Ok(vec![EngineAction::Quit])
        } else {
            Ok(Vec::new())
        }
    }

    fn window_close(&mut self) -> V39Result<Vec<EngineAction<Self>>> {
        self.log.borrow_mut().push("window_close".to_string());
        Ok(Vec::new())
    }
}

#[test]
fn a_frame_follows_the_loop_order() {
    let log = Rc::new(RefCell::new(Vec::new()));
    let mut app: App<Recorder> = App::init(0);
    app.add_receiver(Recorder { log: Rc::clone(&log), quit_on_tick: false });

    app.queue_engine_event(EngineEvent::KeyDown(Some(V39Key::W)));
    app.queue_engine_event(EngineEvent::KeyUp(Some(V39Key::Q)));
    app.queue_event(Event::new(1, vec![]));
    app.frame(16).unwrap();

    assert_eq!(
        *log.borrow(),
        vec![
            "key_down W".to_string(),
            "key_up Q".to_string(),
            "frame_begin".to_string(),
            "tick 16".to_string(),
            "event 1".to_string(),
            "frame_end".to_string(),
        ]
    );
}

#[test]
fn the_tick_carries_the_previous_frame_delta() {
    let log = Rc::new(RefCell::new(Vec::new()));
    let mut app: App<Recorder> = App::init(0);
    app.add_receiver(Recorder { log: Rc::clone(&log), quit_on_tick: false });

    app.frame(10).unwrap();
    log.borrow_mut().clear();
    app.frame(25).unwrap();

    // The second frame's tick reports the first frame's duration.
    assert_eq!(
        *log.borrow(),
        vec!["frame_begin".to_string(), "tick 15".to_string(), "frame_end".to_string()]
    );
}

#[test]
fn a_receiver_can_request_quit() {
    let log = Rc::new(RefCell::new(Vec::new()));
    let mut app: App<Recorder> = App::init(0);
    app.add_receiver(Recorder { log: Rc::clone(&log), quit_on_tick: true });

    assert!(!app.should_quit());
    app.frame(5).unwrap();
    assert!(app.should_quit());
}

#[test]
fn init_props_defaults() {
    let props = InitProps::default();
    assert_eq!(props.title, "V39 App");
    assert_eq!(props.screen_width, 800);
    assert_eq!(props.screen_height, 600);
    let custom = InitProps::new("demo".to_string(), 1280, 720);
    assert_eq!(custom.title, "demo");
    assert_eq!((custom.screen_width, custom.screen_height), (1280, 720));
}

#[test]
fn the_runtime_can_quit_directly() {
    let mut app: App<Recorder> = App::init(0);
    assert!(!app.should_quit());
    app.quit();
    assert!(app.should_quit());
}

#[test]
fn window_close_is_claimed_by_the_frame() {
    let log = Rc::new(RefCell::new(Vec::new()));
    let mut app: App<Recorder> = App::init(0);
    app.add_receiver(Recorder { log: Rc::clone(&log), quit_on_tick: false });

    app.queue_engine_event(EngineEvent::WindowClose);
    app.frame(1).unwrap();
    assert!(log.borrow().contains(&"window_close".to_string()));
}

#[test]
fn key_events_reach_the_input_manager() {
    let mut app: App<Recorder> = App::init(0);
    app.queue_engine_event(EngineEvent::KeyDown(Some(V39Key::A)));
    app.frame(1).unwrap();
    // The key is ingested during frame 1's key pass, so it converts to held
    // at frame 2's begin; between frames the snapshots are empty.
    app.queue_engine_event(EngineEvent::KeyUp(Some(V39Key::A)));
    app.frame(2).unwrap();
    app.frame(3).unwrap();
    assert!(!app.input_manager().is_held(V39Key::A));
}

#[test]
fn frame_pacing_reads_the_timer() {
    let mut app: App<Recorder> = App::init(0);
    app.set_target_fps(Some(60));
    app.frame(1000).unwrap();
    assert_eq!(app.pad_frame_time(1005), Some(11));
    assert_eq!(app.pad_frame_time(1016), None);
    assert_eq!(app.timer().frame_time(), Some(16));
}
