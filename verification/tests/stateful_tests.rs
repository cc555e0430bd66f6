use artimate::app::{App, AppMode};
use artimate::config::Config;
use artimate::event::{Effect, Event};

/// Drives a stateful runtime whose update step increments an integer
/// model, recording the model value each draw observes.
#[test]
fn draw_sees_the_pre_update_model_each_cycle() {
    let config = Config::with_dims(4, 4).set_frames(3);
    let mut app: App<AppMode, i64> = App::app(0i64, config).unwrap();
    assert!(app.stateful);
    app.start();
    let effects = app.handle_event(0, Event::Resumed);
    let mut scheduled = effects.iter().any(|e| matches!(e, Effect::RequestRedraw));

    let mut seen_by_draw = Vec::new();
    let mut cycles: u32 = 0;
    while scheduled && cycles < 100 {
        scheduled = false;
        // The draw function runs first and observes the current model.
        seen_by_draw.push(app.model);
        let buffer = vec![0u8; 64];
        let effects = app.on_redraw(cycles as u64, buffer).unwrap();
        cycles += 1;
        for effect in effects {
            match effect {
                // The update step replaces the model after the draw,
                // within the same cycle.
                Effect::RunUpdate => app.model += 1,
                Effect::RequestRedraw => scheduled = true,
                _ => {}
            }
        }
    }

    assert_eq!(cycles, 3);
    assert_eq!(seen_by_draw, vec![0, 1, 2]);
    assert_eq!(app.model, 3);
}

#[test]
fn update_runs_after_the_save_of_the_same_cycle() {
    let config = Config::with_dims(2, 2).set_frames(1).set_frames_to_save(1);
    let mut app: App<AppMode, u8> = App::app(0u8, config).unwrap();
    app.start();
    app.handle_event(0, Event::Resumed);
    let effects = app.on_redraw(1, vec![9u8; 16]).unwrap();
    // Present, then save, then update: the presented and saved frame
    // belong to the pre-update model.
    let kinds: Vec<&'static str> = effects
        .iter()
        .map(|e| match e {
            Effect::Present { .. } => "present",
            Effect::Save { .. } => "save",
            Effect::RunUpdate => "update",
            Effect::RequestRedraw => "redraw",
            _ => "other",
        })
        .collect();
    assert_eq!(kinds, vec!["present", "save", "update"]);
}

#[test]
fn stateful_runtime_keeps_caller_model() {
    #[derive(Clone, PartialEq, Debug)]
    struct Model {
        ticks: u32,
        label: String,
    }
    let model = Model { ticks: 41, label: "noise".to_string() };
    let app = App::app(model.clone(), Config::with_dims(4, 4)).unwrap();
    assert_eq!(app.model, model);
}
