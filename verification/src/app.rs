//! The application runtime: a frame-lifecycle state machine.
//!
//! The runtime walks the phases `Created -> WindowPending -> Active ->
//! Terminating -> Terminated`.  The host feeds it events; every transition
//! returns the effects the host must perform.  Within `Active`, each
//! completed redraw cycle presents a frame, hands the leading frames to
//! the persistence worker, runs the held-key handlers and the update step,
//! increments the frame counter by exactly one, and decides whether to
//! schedule another redraw.

use vstd::prelude::*;
use crate::config::{Config, ConfigError};
use crate::event::{ContractViolation, Effect, Event, SaveRequest};
use crate::input::{ButtonId, HandlerId, HandlerRegistry, KeyId, KeySet};
use crate::laws::{cycle, cycle_reschedules, CycleModel};
use crate::persist::{frame_filename, spec_frame_filename};

verus! {

/// Marker type for sketches: no persistent model, no update step.
pub struct SketchMode;

/// Marker type for stateful applications: a model, updated once per frame.
pub struct AppMode;

/// The lifecycle phase of the runtime.
#[derive(Clone, Copy, Debug, PartialEq, Eq, Structural)]
pub enum Phase {
    /// Constructed; the event loop has not started.
    Created,
    /// The event loop runs, but no window exists yet.
    WindowPending,
    /// The window exists and redraw cycles run.
    Active,
    /// Shutting down; no further cycles.
    Terminating,
    /// Shut down.
    Terminated,
}

/// Whether a cycle that ended with this frame count schedules another
/// redraw: never when the run is single-frame, and under a frame ceiling
/// only while the ceiling is not reached.
pub open spec fn reschedules(config: Config, frame_count: int) -> bool {
    !config.no_loop && (match config.frames {
        Some(limit) => frame_count < limit,
        None => true,
    })
}

/// Whether the first redraw is scheduled at all when the window appears:
/// only a frame ceiling of zero suppresses it.
pub open spec fn wants_first_redraw(config: Config) -> bool {
    config.frames != Some(0u32)
}

/// Under a frame ceiling of zero the first redraw is never scheduled, so
/// no cycle runs at all: together with the laws on driven runs, a ceiling
/// of `k` yields exactly `k` cycles for every `k`.
pub proof fn lemma_frame_limit_zero_no_redraw(config: Config)
    requires
        config.frames == Some(0u32),
    ensures
        !wants_first_redraw(config),
{
}

/// Whether the frame with this index is handed to the persistence worker.
pub open spec fn save_due(config: Config, frame_index: u32) -> bool {
    frame_index < config.frames_to_save
}

/// The handler-invocation effects for the currently held keys, in press
/// order, one per held key that has a handler registered.
pub open spec fn held_handler_effects(keys: Seq<KeyId>, handlers: Map<KeyId, HandlerId>) -> Seq<
    Effect,
>
    decreases keys.len(),
{
    if keys.len() == 0 {
        Seq::empty()
    } else {
        let rest = held_handler_effects(keys.drop_first(), handlers);
        if handlers.contains_key(keys.first()) {
            seq![Effect::InvokeHandler { handler: handlers[keys.first()] }] + rest
        } else {
            rest
        }
    }
}

/// The loop model's scheduling decision after a cycle is exactly the
/// runtime's redraw-scheduling rule.
pub proof fn lemma_model_reschedules<Mode, M>(a: App<Mode, M>)
    ensures
        cycle_reschedules(a.loop_model()) == reschedules(a.config, a.frame_count + 1),
{
}

/// Appending a key appends its handler effect, if any.
proof fn lemma_held_effects_push(keys: Seq<KeyId>, k: KeyId, handlers: Map<KeyId, HandlerId>)
    ensures
        held_handler_effects(keys.push(k), handlers) == held_handler_effects(keys, handlers) + (
        if handlers.contains_key(k) {
            seq![Effect::InvokeHandler { handler: handlers[k] }]
        } else {
            Seq::<Effect>::empty()
        }),
    decreases keys.len(),
{
    let tail = if handlers.contains_key(k) {
        seq![Effect::InvokeHandler { handler: handlers[k] }]
    } else {
        Seq::<Effect>::empty()
    };
    if keys.len() == 0 {
        assert(keys.push(k).len() == 1);
        assert(keys.push(k).first() == k);
        assert(keys.push(k).drop_first() =~= keys);
        assert(held_handler_effects(keys, handlers) == Seq::<Effect>::empty());
        assert(held_handler_effects(keys.push(k), handlers) == held_handler_effects(
            keys.push(k).drop_first(),
            handlers,
        ) + tail || held_handler_effects(keys.push(k), handlers) == tail + held_handler_effects(
            keys.push(k).drop_first(),
            handlers,
        ));
        assert(held_handler_effects(keys.push(k), handlers) =~= held_handler_effects(
            keys,
            handlers,
        ) + tail);
    } else {
        assert(keys.push(k).first() == keys.first());
        assert(keys.push(k).drop_first() =~= keys.drop_first().push(k));
        lemma_held_effects_push(keys.drop_first(), k, handlers);
        if handlers.contains_key(keys.first()) {
            assert(held_handler_effects(keys.push(k), handlers) =~= held_handler_effects(
                keys,
                handlers,
            ) + tail);
        } else {
            assert(held_handler_effects(keys.push(k), handlers) =~= held_handler_effects(
                keys,
                handlers,
            ) + tail);
        }
    }
}

/// The application runtime.
///
/// `Mode` fixes, at construction, whether an update step runs each frame:
/// [`SketchMode`] runtimes have none, [`AppMode`] runtimes run one.  `M`
/// is the caller's model type; the runtime carries it and never inspects
/// it.
pub struct App<Mode, M> {
    /// The application's model.  The runtime owns it; handlers and the
    /// update step (run by the host on request) replace it.
    pub model: M,
    /// Configuration; immutable once the runtime starts.
    pub config: Config,
    /// The lifecycle phase.
    pub phase: Phase,
    /// Number of completed redraw cycles.
    pub frame_count: u32,
    /// Number of save requests emitted so far.
    pub saves_emitted: u32,
    /// Time since the run started, in microseconds, resampled once per
    /// event.
    pub elapsed_micros: u64,
    /// Cursor position in thousandths of a logical pixel.
    pub mouse_position: (i64, i64),
    /// The keys currently held down.
    pub held_keys: KeySet,
    /// The input-handler registry.
    pub registry: HandlerRegistry,
    /// Whether the window has been created.
    pub window_created: bool,
    /// Whether an update step runs each frame; fixed at construction.
    pub stateful: bool,
    /// The construction-time mode marker.
    pub mode: Mode,
}

impl<Mode, M> App<Mode, M> {
    /// The runtime's invariant: valid dimensions, well-formed registry and
    /// held-key set, and exactly one save request emitted per frame index
    /// within the save quota.
    pub open spec fn wf(self) -> bool {
        &&& self.config.dims_valid()
        &&& self.held_keys.wf()
        &&& self.registry.wf()
        &&& self.saves_emitted == (if self.frame_count < self.config.frames_to_save {
            self.frame_count
        } else {
            self.config.frames_to_save
        })
    }

    /// The cycle-relevant part of the runtime state: the loop policy and
    /// the two counters a redraw cycle advances.
    pub open spec fn loop_model(self) -> CycleModel {
        CycleModel {
            no_loop: self.config.no_loop,
            limit: self.config.frames,
            quota: self.config.frames_to_save,
            frame_count: self.frame_count as nat,
            saves_emitted: self.saves_emitted as nat,
        }
    }

    /// A freshly constructed runtime over the given configuration.
    pub open spec fn fresh_with(self, config: Config) -> bool {
        &&& self.config == config
        &&& self.phase == Phase::Created
        &&& self.frame_count == 0
        &&& self.saves_emitted == 0
        &&& self.elapsed_micros == 0
        &&& self.mouse_position == (0i64, 0i64)
        &&& self.held_keys.seq_view() == Seq::<KeyId>::empty()
        &&& self.registry.on_press@ == Map::<KeyId, HandlerId>::empty()
        &&& self.registry.on_release@ == Map::<KeyId, HandlerId>::empty()
        &&& self.registry.on_held@ == Map::<KeyId, HandlerId>::empty()
        &&& self.registry.on_mouse_press@ == Map::<crate::input::ButtonId, HandlerId>::empty()
        &&& !self.window_created
        &&& self.wf()
    }
}

impl App<SketchMode, ()> {
    /// Creates a sketch runtime: draw only, no model, no update step.
    ///
    /// Zero dimensions are rejected before any window could be created.
    pub fn sketch(config: Config) -> (r: Result<Self, ConfigError>)
        ensures
            config.dims_valid() ==> r is Ok && r->Ok_0.fresh_with(config) && !r->Ok_0.stateful,
            !config.dims_valid() ==> r == Err::<Self, ConfigError>(ConfigError::InvalidDimensions),
    {
        if config.width == 0 || config.height == 0 {
            return Err(ConfigError::InvalidDimensions);
        }
        Ok(App {
            model: (),
            config,
            phase: Phase::Created,
            frame_count: 0,
            saves_emitted: 0,
            elapsed_micros: 0,
            mouse_position: (0, 0),
            held_keys: KeySet::new(),
            registry: HandlerRegistry::new(),
            window_created: false,
            stateful: false,
            mode: SketchMode,
        })
    }
}

impl<M> App<AppMode, M> {
    /// Creates a stateful runtime: the model is updated once per frame.
    ///
    /// Zero dimensions are rejected before any window could be created.
    pub fn app(model: M, config: Config) -> (r: Result<Self, ConfigError>)
        ensures
            config.dims_valid() ==> r is Ok && r->Ok_0.fresh_with(config) && r->Ok_0.stateful
                && r->Ok_0.model == model,
            !config.dims_valid() ==> r is Err && r->Err_0 == ConfigError::InvalidDimensions,
    {
        if config.width == 0 || config.height == 0 {
            return Err(ConfigError::InvalidDimensions);
        }
        Ok(App {
            model,
            config,
            phase: Phase::Created,
            frame_count: 0,
            saves_emitted: 0,
            elapsed_micros: 0,
            mouse_position: (0, 0),
            held_keys: KeySet::new(),
            registry: HandlerRegistry::new(),
            window_created: false,
            stateful: true,
            mode: AppMode,
        })
    }
}

impl<Mode, M> App<Mode, M> {
    /// Sets the number of frames to save and returns the updated runtime.
    /// Builder-style; only before the runtime starts.
    pub fn set_frames_to_save(self, frames_to_save: u32) -> (r: Self)
        requires
            self.phase == Phase::Created,
            self.frame_count == 0,
        ensures
            r == (Self {
                config: (Config { frames_to_save, ..self.config }),
                saves_emitted: self.saves_emitted,
                ..self
            }),
    {
        let config = self.config.set_frames_to_save(frames_to_save);
        Self { config, ..self }
    }

    /// Sets cursor visibility and returns the updated runtime.
    /// Builder-style; only before the runtime starts.
    pub fn set_cursor_visibility(self, cursor_visible: bool) -> (r: Self)
        requires
            self.phase == Phase::Created,
        ensures
            r == (Self { config: (Config { cursor_visible, ..self.config }), ..self }),
    {
        let config = self.config.set_cursor_visibility(cursor_visible);
        Self { config, ..self }
    }

    /// Requests a single-frame run and returns the updated runtime.
    /// Builder-style; only before the runtime starts.
    pub fn no_loop(self) -> (r: Self)
        requires
            self.phase == Phase::Created,
        ensures
            r == (Self { config: (Config { no_loop: true, ..self.config }), ..self }),
    {
        let config = self.config.no_loop();
        Self { config, ..self }
    }

    /// Sets the frame ceiling and returns the updated runtime.
    /// Builder-style; only before the runtime starts.
    pub fn set_frames(self, frames: u32) -> (r: Self)
        requires
            self.phase == Phase::Created,
        ensures
            r == (Self { config: (Config { frames: Some(frames), ..self.config }), ..self }),
    {
        let config = self.config.set_frames(frames);
        Self { config, ..self }
    }

    /// Sets the window title and returns the updated runtime.
    /// Builder-style; only before the runtime starts.
    pub fn set_title(self, title: &str) -> (r: Self)
        requires
            self.phase == Phase::Created,
        ensures
            r.config.window_title@ == title@,
            r.config.width == self.config.width,
            r.config.height == self.config.height,
            r.config.no_loop == self.config.no_loop,
            r.config.frames == self.config.frames,
            r.config.cursor_visible == self.config.cursor_visible,
            r.config.frames_to_save == self.config.frames_to_save,
            r == (Self { config: r.config, ..self }),
    {
        let config = self.config.set_title(title);
        Self { config, ..self }
    }

    /// Returns the width and height as a pair.
    pub fn wh(&self) -> (r: (u32, u32))
        ensures
            r == (self.config.width, self.config.height),
    {
        self.config.wh()
    }

    /// Registers a handler for a key-down transition; a later registration
    /// for the same key replaces the earlier one.
    pub fn on_key_press(&mut self, key: KeyId, handler: HandlerId)
        requires
            old(self).registry.wf(),
        ensures
            final(self).registry.wf(),
            final(self).registry.on_press@ == old(self).registry.on_press@.insert(key, handler),
            final(self).registry.on_release == old(self).registry.on_release,
            final(self).registry.on_held == old(self).registry.on_held,
            final(self).registry.on_mouse_press == old(self).registry.on_mouse_press,
            *final(self) == (Self { registry: final(self).registry, ..*old(self) }),
    {
        self.registry.on_press.insert(key, handler);
    }

    /// Registers a handler for a key-up transition; a later registration
    /// for the same key replaces the earlier one.
    pub fn on_key_release(&mut self, key: KeyId, handler: HandlerId)
        requires
            old(self).registry.wf(),
        ensures
            final(self).registry.wf(),
            final(self).registry.on_release@ == old(self).registry.on_release@.insert(
                key,
                handler,
            ),
            final(self).registry.on_press == old(self).registry.on_press,
            final(self).registry.on_held == old(self).registry.on_held,
            final(self).registry.on_mouse_press == old(self).registry.on_mouse_press,
            *final(self) == (Self { registry: final(self).registry, ..*old(self) }),
    {
        self.registry.on_release.insert(key, handler);
    }

    /// Registers a handler invoked once per frame while a key is held; a
    /// later registration for the same key replaces the earlier one.
    pub fn on_key_held(&mut self, key: KeyId, handler: HandlerId)
        requires
            old(self).registry.wf(),
        ensures
            final(self).registry.wf(),
            final(self).registry.on_held@ == old(self).registry.on_held@.insert(key, handler),
            final(self).registry.on_press == old(self).registry.on_press,
            final(self).registry.on_release == old(self).registry.on_release,
            final(self).registry.on_mouse_press == old(self).registry.on_mouse_press,
            *final(self) == (Self { registry: final(self).registry, ..*old(self) }),
    {
        self.registry.on_held.insert(key, handler);
    }

    /// Registers a handler for a mouse-button press; a later registration
    /// for the same button replaces the earlier one.
    pub fn on_mouse_press(&mut self, button: ButtonId, handler: HandlerId)
        requires
            old(self).registry.wf(),
        ensures
            final(self).registry.wf(),
            final(self).registry.on_mouse_press@ == old(self).registry.on_mouse_press@.insert(
                button,
                handler,
            ),
            final(self).registry.on_press == old(self).registry.on_press,
            final(self).registry.on_release == old(self).registry.on_release,
            final(self).registry.on_held == old(self).registry.on_held,
            *final(self) == (Self { registry: final(self).registry, ..*old(self) }),
    {
        self.registry.on_mouse_press.insert(button, handler);
    }

    /// The effects of a key transition: on a key-down transition the
    /// matching press handler fires, on a key-up transition the matching
    /// release handler fires, and a fired handler is followed by an
    /// immediate redraw request.  Holding an already-held key fires
    /// nothing.
    pub open spec fn spec_key_effects(self, key: KeyId, pressed: bool) -> Seq<Effect> {
        if pressed {
            if self.held_keys.seq_view().contains(key) {
                Seq::empty()
            } else if self.registry.on_press@.contains_key(key) {
                seq![
                    Effect::InvokeHandler { handler: self.registry.on_press@[key] },
                    Effect::RequestRedraw,
                ]
            } else {
                Seq::empty()
            }
        } else {
            if self.registry.on_release@.contains_key(key) {
                seq![
                    Effect::InvokeHandler { handler: self.registry.on_release@[key] },
                    Effect::RequestRedraw,
                ]
            } else {
                Seq::empty()
            }
        }
    }

    /// The held-key set after a key transition: a key-down transition
    /// inserts, a key-up transition removes.
    pub open spec fn spec_held_after(self, key: KeyId, pressed: bool) -> Seq<KeyId> {
        if pressed {
            if self.held_keys.seq_view().contains(key) {
                self.held_keys.seq_view()
            } else {
                self.held_keys.seq_view().push(key)
            }
        } else {
            self.held_keys.seq_view().remove_value(key)
        }
    }

    /// Processes one keyboard transition: updates the held-key set, then
    /// fires the matching registered handler, if any.
    pub fn handle_keyboard_input(&mut self, key: KeyId, pressed: bool) -> (r: Vec<Effect>)
        requires
            old(self).held_keys.wf(),
            old(self).registry.wf(),
        ensures
            final(self).held_keys.wf(),
            final(self).held_keys.seq_view() == old(self).spec_held_after(key, pressed),
            r@ == old(self).spec_key_effects(key, pressed),
            *final(self) == (Self { held_keys: final(self).held_keys, ..*old(self) }),
    {
        let mut effects: Vec<Effect> = Vec::new();
        if pressed {
            let was_held = self.held_keys.contains(key);
            self.held_keys.insert(key);
            if !was_held {
                if let Some(handler) = self.registry.on_press.get(key) {
                    effects.push(Effect::InvokeHandler { handler });
                    effects.push(Effect::RequestRedraw);
                }
            }
        } else {
            self.held_keys.remove(key);
            if let Some(handler) = self.registry.on_release.get(key) {
                effects.push(Effect::InvokeHandler { handler });
                effects.push(Effect::RequestRedraw);
            }
        }
        proof {
            assert(effects@ =~= old(self).spec_key_effects(key, pressed));
        }
        effects
    }

    /// The effects of a mouse-button press: the matching handler fires,
    /// followed by an immediate redraw request.
    pub open spec fn spec_mouse_effects(self, button: ButtonId) -> Seq<Effect> {
        if self.registry.on_mouse_press@.contains_key(button) {
            seq![
                Effect::InvokeHandler { handler: self.registry.on_mouse_press@[button] },
                Effect::RequestRedraw,
            ]
        } else {
            Seq::empty()
        }
    }

    /// Processes one mouse-button press: fires the matching registered
    /// handler, if any.  The runtime state does not change.
    pub fn handle_mouse_input(&mut self, button: ButtonId) -> (r: Vec<Effect>)
        requires
            old(self).registry.wf(),
        ensures
            r@ == old(self).spec_mouse_effects(button),
            *final(self) == *old(self),
    {
        let mut effects: Vec<Effect> = Vec::new();
        if let Some(handler) = self.registry.on_mouse_press.get(button) {
            effects.push(Effect::InvokeHandler { handler });
            effects.push(Effect::RequestRedraw);
        }
        proof {
            assert(effects@ =~= self.spec_mouse_effects(button));
        }
        effects
    }

    /// Starts the runtime: the event loop may now deliver events.
    pub fn start(&mut self)
        requires
            old(self).phase == Phase::Created,
        ensures
            *final(self) == (Self { phase: Phase::WindowPending, ..*old(self) }),
    {
        self.phase = Phase::WindowPending;
    }

    /// The effects of the window-ready signal: on the first signal the
    /// window is created and, unless a frame ceiling of zero suppresses
    /// it, the first redraw is scheduled; later signals are no-ops.
    pub open spec fn spec_resumed_effects_ok(self, effs: Seq<Effect>) -> bool {
        if self.window_created {
            effs.len() == 0
        } else {
            let nr: int = if wants_first_redraw(self.config) {
                1
            } else {
                0
            };
            &&& effs.len() == 1 + nr
            &&& effs[0] matches Effect::CreateWindow { width, height, title } && width
                == self.config.width && height == self.config.height && title@
                == self.config.window_title@
            &&& wants_first_redraw(self.config) ==> effs[1] == Effect::RequestRedraw
        }
    }

    /// Handles the host's window-ready signal.  The window is created
    /// exactly once; a runtime whose window already exists ignores the
    /// signal.
    pub fn on_resumed(&mut self) -> (r: Vec<Effect>)
        requires
            old(self).phase == Phase::WindowPending || old(self).phase == Phase::Active,
        ensures
            old(self).spec_resumed_effects_ok(r@),
            old(self).window_created ==> *final(self) == *old(self),
            !old(self).window_created ==> *final(self) == (Self {
                phase: Phase::Active,
                window_created: true,
                ..*old(self)
            }),
    {
        if self.window_created {
            return Vec::new();
        }
        self.window_created = true;
        self.phase = Phase::Active;
        let mut effects: Vec<Effect> = Vec::new();
        let title = self.config.window_title.clone();
        effects.push(
            Effect::CreateWindow { width: self.config.width, height: self.config.height, title },
        );
        let first = match self.config.frames {
            Some(limit) => limit != 0,
            None => true,
        };
        if first {
            effects.push(Effect::RequestRedraw);
        }
        effects
    }

    /// Handles the operator's close request: the runtime shuts down
    /// gracefully, emitting the end-of-run summary.
    pub fn on_close_requested(&mut self) -> (r: Vec<Effect>)
        ensures
            *final(self) == (Self { phase: Phase::Terminating, ..*old(self) }),
            r@ =~= seq![
                Effect::EmitSummary {
                    frames: old(self).frame_count,
                    elapsed_micros: old(self).elapsed_micros,
                },
                Effect::Exit,
            ],
    {
        self.phase = Phase::Terminating;
        let mut effects: Vec<Effect> = Vec::new();
        effects.push(
            Effect::EmitSummary {
                frames: self.frame_count,
                elapsed_micros: self.elapsed_micros,
            },
        );
        effects.push(Effect::Exit);
        effects
    }

    /// Handles a fatal presentation failure: the runtime shuts down at
    /// once, without the summary a graceful shutdown emits.
    pub fn on_present_failed(&mut self) -> (r: Vec<Effect>)
        ensures
            *final(self) == (Self { phase: Phase::Terminating, ..*old(self) }),
            r@ =~= seq![Effect::Exit],
    {
        self.phase = Phase::Terminating;
        let mut effects: Vec<Effect> = Vec::new();
        effects.push(Effect::Exit);
        effects
    }

    /// Ends the shutdown once the host has performed the final effects.
    pub fn finish_shutdown(&mut self)
        requires
            old(self).phase == Phase::Terminating,
        ensures
            *final(self) == (Self { phase: Phase::Terminated, ..*old(self) }),
    {
        self.phase = Phase::Terminated;
    }

    /// Dispatches one window event, resampling the elapsed time first.
    ///
    /// Redraws are not dispatched here: a completed draw carries its pixel
    /// buffer through [`Self::on_redraw`].
    pub fn handle_event(&mut self, now_micros: u64, event: Event) -> (r: Vec<Effect>)
        requires
            old(self).held_keys.wf(),
            old(self).registry.wf(),
            old(self).phase == Phase::WindowPending || old(self).phase == Phase::Active,
        ensures
            final(self).elapsed_micros == now_micros,
            event == Event::Resumed ==> old(self).spec_resumed_effects_ok(r@),
            event == Event::Resumed && old(self).window_created ==> *final(self) == (Self {
                elapsed_micros: now_micros,
                ..*old(self)
            }),
            event == Event::Resumed && !old(self).window_created ==> *final(self) == (Self {
                phase: Phase::Active,
                window_created: true,
                elapsed_micros: now_micros,
                ..*old(self)
            }),
            event == Event::CloseRequested ==> *final(self) == (Self {
                phase: Phase::Terminating,
                elapsed_micros: now_micros,
                ..*old(self)
            }) && r@ =~= seq![
                Effect::EmitSummary { frames: old(self).frame_count, elapsed_micros: now_micros },
                Effect::Exit,
            ],
            forall|key: KeyId, pressed: bool|
                event == (Event::KeyInput { key, pressed }) ==> r@ == old(self).spec_key_effects(
                    key,
                    pressed,
                ) && final(self).held_keys.wf() && final(self).held_keys.seq_view() == old(
                    self,
                ).spec_held_after(key, pressed) && *final(self) == (Self {
                    held_keys: final(self).held_keys,
                    elapsed_micros: now_micros,
                    ..*old(self)
                }),
            forall|button: ButtonId|
                event == (Event::MouseInput { button }) ==> r@ == old(self).spec_mouse_effects(
                    button,
                ) && *final(self) == (Self { elapsed_micros: now_micros, ..*old(self) }),
            forall|x: i64, y: i64|
                event == (Event::CursorMoved { x, y }) ==> r@ == Seq::<Effect>::empty()
                    && *final(self) == (Self {
                    mouse_position: (x, y),
                    elapsed_micros: now_micros,
                    ..*old(self)
                }),
            event == Event::CursorEntered ==> r@ =~= (if old(self).config.cursor_visible {
                seq![Effect::ShowCursorCrosshair]
            } else {
                seq![Effect::HideCursor]
            }) && *final(self) == (Self { elapsed_micros: now_micros, ..*old(self) }),
            event == Event::CursorLeft ==> r@ =~= seq![Effect::ResetCursor] && *final(self)
                == (Self { elapsed_micros: now_micros, ..*old(self) }),
            event == Event::PresentFailed ==> r@ =~= seq![Effect::Exit] && *final(self) == (Self {
                phase: Phase::Terminating,
                elapsed_micros: now_micros,
                ..*old(self)
            }),
    {
        self.elapsed_micros = now_micros;
        match event {
            Event::Resumed => self.on_resumed(),
            Event::CloseRequested => self.on_close_requested(),
            Event::KeyInput { key, pressed } => self.handle_keyboard_input(key, pressed),
            Event::MouseInput { button } => self.handle_mouse_input(button),
            Event::CursorMoved { x, y } => {
                self.mouse_position = (x, y);
                Vec::new()
            },
            Event::CursorEntered => {
                let mut effects: Vec<Effect> = Vec::new();
                if self.config.cursor_visible {
                    effects.push(Effect::ShowCursorCrosshair);
                } else {
                    effects.push(Effect::HideCursor);
                }
                effects
            },
            Event::CursorLeft => {
                let mut effects: Vec<Effect> = Vec::new();
                effects.push(Effect::ResetCursor);
                effects
            },
            Event::PresentFailed => self.on_present_failed(),
        }
    }

    /// What a successful redraw cycle hands back to the host, in order:
    /// present the frame; within the save quota, a save request carrying a
    /// copy of the frame and its generated file name; one handler
    /// invocation per held key with a held handler, in press order; the
    /// update step in stateful mode; and a redraw request while the loop
    /// policy schedules one.
    pub open spec fn spec_redraw_effects_ok(self, buffer: Vec<u8>, effs: Seq<Effect>) -> bool {
        let ns: int = if save_due(self.config, self.frame_count) {
            1
        } else {
            0
        };
        let held = held_handler_effects(self.held_keys.seq_view(), self.registry.on_held@);
        let nu: int = if self.stateful {
            1
        } else {
            0
        };
        let nr: int = if reschedules(self.config, self.frame_count + 1) {
            1
        } else {
            0
        };
        &&& effs.len() == 1 + ns + held.len() + nu + nr
        &&& effs[0] == (Effect::Present { buffer })
        &&& save_due(self.config, self.frame_count) ==> (effs[1] matches Effect::Save { request }
            && request.pixels@ == buffer@ && request.filename@ == spec_frame_filename(
            self.frame_count as nat,
        ) && request.width == self.config.width && request.height == self.config.height)
        &&& effs.subrange(1 + ns, 1 + ns + held.len() as int) == held
        &&& self.stateful ==> effs[1 + ns + held.len() as int] == Effect::RunUpdate
        &&& reschedules(self.config, self.frame_count + 1) ==> effs[effs.len() - 1]
            == Effect::RequestRedraw
    }

    /// Runs one redraw cycle on a buffer the draw function returned.
    ///
    /// A buffer of exactly `width * height * 4` bytes completes the cycle:
    /// the frame counter increments by exactly one and the effects are as
    /// [`Self::spec_redraw_effects_ok`] states.  Any other length is a
    /// contract violation: the cycle runs no further, nothing is counted,
    /// and the runtime shuts down.
    pub fn on_redraw(&mut self, now_micros: u64, buffer: Vec<u8>) -> (r: Result<
        Vec<Effect>,
        ContractViolation,
    >)
        requires
            old(self).wf(),
            old(self).phase == Phase::Active,
            old(self).frame_count < 0xffff_ffffu32,
        ensures
            final(self).wf(),
            buffer@.len() == old(self).config.buffer_len() ==> r is Ok && old(
                self,
            ).spec_redraw_effects_ok(buffer, r->Ok_0@),
            buffer@.len() == old(self).config.buffer_len() ==> *final(self) == (Self {
                frame_count: (old(self).frame_count + 1) as u32,
                saves_emitted: final(self).saves_emitted,
                elapsed_micros: now_micros,
                ..*old(self)
            }),
            buffer@.len() == old(self).config.buffer_len() ==> final(self).saves_emitted == old(
                self,
            ).saves_emitted + (if save_due(old(self).config, old(self).frame_count) {
                1int
            } else {
                0int
            }),
            buffer@.len() == old(self).config.buffer_len() ==> final(self).loop_model() == cycle(
                old(self).loop_model(),
            ),
            buffer@.len() != old(self).config.buffer_len() ==> r == Err::<
                Vec<Effect>,
                ContractViolation,
            >(
                ContractViolation::PixelBufferWrongLength {
                    expected: old(self).config.buffer_len() as u128,
                    actual: buffer@.len() as u128,
                },
            ),
            buffer@.len() != old(self).config.buffer_len() ==> *final(self) == (Self {
                phase: Phase::Terminating,
                elapsed_micros: now_micros,
                ..*old(self)
            }),
    {
        self.elapsed_micros = now_micros;
        proof {
            assert((self.config.width as nat) * (self.config.height as nat) * 4
                < 0x1_0000_0000_0000_0000_0 * 4) by (nonlinear_arith)
                requires
                    self.config.width <= 0xffff_ffff,
                    self.config.height <= 0xffff_ffff,
            ;
        }
        let expected: u128 = (self.config.width as u128) * (self.config.height as u128) * 4;
        if (buffer.len() as u128) != expected {
            self.phase = Phase::Terminating;
            return Err(
                ContractViolation::PixelBufferWrongLength {
                    expected,
                    actual: buffer.len() as u128,
                },
            );
        }
        let mut effects: Vec<Effect> = Vec::new();
        let with_save = self.frame_count < self.config.frames_to_save;
        let maybe_save: Option<Effect> = if with_save {
            let pixels = buffer.clone();
            let filename = frame_filename(self.frame_count);
            Some(
                Effect::Save {
                    request: SaveRequest {
                        pixels,
                        filename,
                        width: self.config.width,
                        height: self.config.height,
                    },
                },
            )
        } else {
            None
        };
        effects.push(Effect::Present { buffer });
        if let Some(save_effect) = maybe_save {
            effects.push(save_effect);
            self.saves_emitted = self.saves_emitted + 1;
        }
        let ghost base = effects@;
        let ghost held_all = held_handler_effects(
            self.held_keys.seq_view(),
            self.registry.on_held@,
        );
        let held_n = self.held_keys.len();
        let mut i: usize = 0;
        while i < held_n
            invariant
                i <= held_n,
                held_n == self.held_keys.seq_view().len(),
                self.held_keys.wf(),
                self.registry.wf(),
                effects@ == base + held_handler_effects(
                    self.held_keys.seq_view().take(i as int),
                    self.registry.on_held@,
                ),
            decreases held_n - i,
        {
            let key = self.held_keys.get(i);
            let ghost prefix = self.held_keys.seq_view().take(i as int);
            if let Some(handler) = self.registry.on_held.get(key) {
                effects.push(Effect::InvokeHandler { handler });
            }
            proof {
                lemma_held_effects_push(prefix, key, self.registry.on_held@);
                assert(prefix.push(key) =~= self.held_keys.seq_view().take(i + 1));
            }
            i += 1;
        }
        proof {
            assert(self.held_keys.seq_view().take(held_n as int) =~= self.held_keys.seq_view());
            assert(effects@ == base + held_all);
        }
        if self.stateful {
            effects.push(Effect::RunUpdate);
        }
        self.frame_count = self.frame_count + 1;
        let reschedule: bool = if self.config.no_loop {
            false
        } else {
            match self.config.frames {
                Some(limit) => self.frame_count < limit,
                None => true,
            }
        };
        if reschedule {
            effects.push(Effect::RequestRedraw);
        }
        proof {
            let pre = *old(self);
            let ns: int = if save_due(pre.config, pre.frame_count) {
                1
            } else {
                0
            };
            assert(base.len() == 1 + ns);
            assert(effects@.subrange(1 + ns, 1 + ns + held_all.len() as int) =~= held_all);
        }
        Ok(effects)
    }
}

} // verus!

