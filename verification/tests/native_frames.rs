use uni_app::AppConfig;
use uni_app::app::{App, Surface};
use uni_app::events::{DeviceId, ElementState, Event, KeyboardInput, ModifiersState, MouseButton};
use uni_app::sink::EventSink;

fn demo_app(width: u32, height: u32) -> App {
    App::new(AppConfig::new("demo".to_string(), (width, height)))
}

fn click() -> Event {
    Event::MouseInput {
        device: DeviceId,
        state: ElementState::Pressed,
        button: MouseButton::Left,
        modifiers: ModifiersState::default(),
    }
}

#[test]
fn config_keeps_title_and_size_and_defaults_vsync_on() {
    let config = AppConfig::new("demo".to_string(), (800, 600));
    assert_eq!(config.title, "demo");
    assert_eq!(config.size, (800, 600));
    assert!(config.vsync);
}

#[test]
fn new_app_reports_the_configured_size_and_no_events() {
    let app = demo_app(800, 600);
    assert_eq!(*app.canvas(), Surface { width: 800, height: 600 });
    assert!(app.events.is_empty());
}

#[test]
fn empty_poll_keeps_running_with_an_empty_batch() {
    // One native iteration with nothing pending and no close event: the
    // callback would observe an empty batch and the loop continues.
    let mut app = demo_app(800, 600);
    let running = app.process_events(Vec::new());
    assert!(running);
    assert!(app.events.is_empty());
    assert_eq!(*app.canvas(), Surface { width: 800, height: 600 });
}

#[test]
fn resize_updates_the_surface_before_the_callback_runs() {
    let mut app = demo_app(800, 600);
    let polled = vec![click(), Event::Resized(1024, 768)];
    let running = app.process_events(polled.clone());
    // At this point the callback has not yet run, and the surface already
    // reports the new dimensions; the resize is also forwarded in order.
    assert!(running);
    assert_eq!(*app.canvas(), Surface { width: 1024, height: 768 });
    assert_eq!(app.events, polled);
}

#[test]
fn the_last_resize_in_a_batch_wins() {
    let mut app = demo_app(800, 600);
    let polled = vec![Event::Resized(100, 100), click(), Event::Resized(320, 200)];
    app.process_events(polled);
    assert_eq!(*app.canvas(), Surface { width: 320, height: 200 });
}

#[test]
fn close_stops_the_loop_but_is_still_forwarded() {
    let mut app = demo_app(800, 600);
    let polled = vec![Event::Resized(10, 20), Event::Closed, click()];
    let running = app.process_events(polled.clone());
    assert!(!running);
    // The closing frame still sees the whole batch, close included.
    assert_eq!(app.events, polled);
    assert_eq!(*app.canvas(), Surface { width: 10, height: 20 });
}

#[test]
fn main_loop_moves_the_sink_into_the_batch() {
    let mut app = demo_app(800, 600);
    let mut sink = EventSink::new();
    sink.push(click());
    sink.push(Event::Resized(5, 6));
    app.main_loop(&mut sink);
    assert_eq!(app.events, vec![click(), Event::Resized(5, 6)]);
    assert_eq!(sink.len(), 0);
}
