use artimate::app::{App, Phase, SketchMode};
use artimate::config::Config;
use artimate::event::{Effect, Event};
use artimate::input::{ButtonId, KeyId};

fn ready_sketch(config: Config) -> App<SketchMode, ()> {
    let mut app = App::sketch(config).unwrap();
    app.start();
    app.handle_event(0, Event::Resumed);
    app
}

fn invoked_handlers(effects: &[Effect]) -> Vec<u32> {
    effects
        .iter()
        .filter_map(|e| match e {
            Effect::InvokeHandler { handler } => Some(*handler),
            _ => None,
        })
        .collect()
}

#[test]
fn registering_twice_keeps_only_the_second_handler() {
    let mut app = ready_sketch(Config::with_dims(8, 8));
    let key = KeyId::Character('x');
    app.on_key_press(key, 1);
    app.on_key_press(key, 2);
    let effects = app.handle_event(1, Event::KeyInput { key, pressed: true });
    let handlers = invoked_handlers(&effects);
    assert_eq!(handlers, vec![2]);
}

#[test]
fn one_handler_call_per_transition() {
    let mut app = ready_sketch(Config::with_dims(8, 8));
    let key = KeyId::Character('x');
    app.on_key_press(key, 10);
    // The key-down transition fires the press handler exactly once ...
    let effects = app.handle_event(1, Event::KeyInput { key, pressed: true });
    assert_eq!(invoked_handlers(&effects), vec![10]);
    // ... and a repeated down event while held fires nothing.
    let effects = app.handle_event(2, Event::KeyInput { key, pressed: true });
    assert!(invoked_handlers(&effects).is_empty());
    // Release, then press again: one more call.
    app.handle_event(3, Event::KeyInput { key, pressed: false });
    let effects = app.handle_event(4, Event::KeyInput { key, pressed: true });
    assert_eq!(invoked_handlers(&effects), vec![10]);
}

#[test]
fn press_and_release_handlers_toggle_a_model_flag() {
    // A press handler for "x" sets a model flag to true; the release
    // handler sets it back to false.
    let mut app = App::app(false, Config::with_dims(8, 8)).unwrap();
    app.start();
    app.handle_event(0, Event::Resumed);
    let key = KeyId::Character('x');
    const SET_FLAG: u32 = 1;
    const CLEAR_FLAG: u32 = 2;
    app.on_key_press(key, SET_FLAG);
    app.on_key_release(key, CLEAR_FLAG);

    let mut observed = vec![app.model];
    for event in [
        Event::KeyInput { key, pressed: true },
        Event::KeyInput { key, pressed: false },
    ] {
        let effects = app.handle_event(1, event);
        for handler in invoked_handlers(&effects) {
            match handler {
                SET_FLAG => app.model = true,
                CLEAR_FLAG => app.model = false,
                _ => panic!("unregistered handler invoked"),
            }
        }
        observed.push(app.model);
    }
    assert_eq!(observed, vec![false, true, false]);
}

#[test]
fn handler_invocation_requests_an_immediate_redraw() {
    let mut app = ready_sketch(Config::with_dims(8, 8));
    let key = KeyId::Character('r');
    app.on_key_press(key, 5);
    let effects = app.handle_event(1, Event::KeyInput { key, pressed: true });
    assert_eq!(effects.len(), 2);
    assert!(matches!(effects[0], Effect::InvokeHandler { handler: 5 }));
    assert!(matches!(effects[1], Effect::RequestRedraw));
    // A key without a handler produces no effects at all.
    let other = KeyId::Character('q');
    let effects = app.handle_event(2, Event::KeyInput { key: other, pressed: true });
    assert!(effects.is_empty());
}

#[test]
fn held_handlers_fire_once_per_frame() {
    let config = Config::with_dims(4, 4).set_frames(2);
    let mut app = ready_sketch(config);
    let key = KeyId::Character('h');
    app.on_key_held(key, 77);
    // Holding the key: the held handler does not fire on the transition...
    let effects = app.handle_event(1, Event::KeyInput { key, pressed: true });
    assert!(invoked_handlers(&effects).is_empty());
    // ...but fires exactly once in each completed redraw cycle.
    let buffer = vec![0u8; 64];
    let effects = app.on_redraw(2, buffer.clone()).unwrap();
    assert_eq!(invoked_handlers(&effects), vec![77]);
    let effects = app.on_redraw(3, buffer.clone()).unwrap();
    assert_eq!(invoked_handlers(&effects), vec![77]);
    // After release it no longer fires.  A third frame is still allowed
    // here because redraws requested by input events are independent of
    // the frame ceiling.
    app.handle_event(4, Event::KeyInput { key, pressed: false });
    let effects = app.on_redraw(5, buffer).unwrap();
    assert!(invoked_handlers(&effects).is_empty());
}

#[test]
fn held_handlers_fire_in_press_order() {
    let config = Config::with_dims(4, 4);
    let mut app = ready_sketch(config);
    let first = KeyId::Character('a');
    let second = KeyId::Named(3);
    app.on_key_held(first, 1);
    app.on_key_held(second, 2);
    app.handle_event(1, Event::KeyInput { key: second, pressed: true });
    app.handle_event(2, Event::KeyInput { key: first, pressed: true });
    let effects = app.on_redraw(3, vec![0u8; 64]).unwrap();
    assert_eq!(invoked_handlers(&effects), vec![2, 1]);
}

#[test]
fn mouse_press_invokes_the_registered_handler() {
    let mut app = ready_sketch(Config::with_dims(8, 8));
    app.on_mouse_press(ButtonId::Left, 9);
    let effects = app.handle_event(1, Event::MouseInput { button: ButtonId::Left });
    assert_eq!(invoked_handlers(&effects), vec![9]);
    let effects = app.handle_event(2, Event::MouseInput { button: ButtonId::Right });
    assert!(effects.is_empty());
    // Re-registration replaces the mouse handler too.
    app.on_mouse_press(ButtonId::Left, 11);
    let effects = app.handle_event(3, Event::MouseInput { button: ButtonId::Left });
    assert_eq!(invoked_handlers(&effects), vec![11]);
}

#[test]
fn release_without_handler_still_updates_held_keys() {
    let mut app = ready_sketch(Config::with_dims(8, 8));
    let key = KeyId::Character('z');
    app.on_key_held(key, 4);
    app.handle_event(1, Event::KeyInput { key, pressed: true });
    let effects = app.on_redraw(2, vec![0u8; 256]).unwrap();
    assert_eq!(invoked_handlers(&effects), vec![4]);
    app.handle_event(3, Event::KeyInput { key, pressed: false });
    let effects = app.on_redraw(4, vec![0u8; 256]).unwrap();
    assert!(invoked_handlers(&effects).is_empty());
    assert_eq!(app.phase, Phase::Active);
}
