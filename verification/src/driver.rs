//! The event loop driver: a state machine over the events the window system
//! delivers. Each event maps to a next state and an ordered list of effects
//! the platform loop must perform; the transition itself is pure and owns
//! every lifecycle decision, including the exit decision.

use vstd::prelude::*;

use crate::surface::{Extent, SurfaceConfig, resized};

verus! {

/// The two control states of the driver. `Exiting` is terminal: once it is
/// reached no event changes the state and no effect is issued.
#[derive(Clone, Copy, PartialEq, Eq, Structural, Debug)]
pub enum Mode {
    Running,
    Exiting,
}

/// Classified failures of a frame acquisition or presentation. `Lost` is
/// recoverable, `OutOfMemory` fatal, `Outdated` and `Timeout` transient;
/// `Other` is the forward-compatible catch-all.
#[derive(Clone, Copy, PartialEq, Eq, Structural, Debug)]
pub enum SurfaceError {
    Lost,
    OutOfMemory,
    Outdated,
    Timeout,
    Other,
}

/// A window-targeted event, reduced to what the driver reads of it.
#[derive(Clone, Copy, PartialEq, Eq, Structural, Debug)]
pub enum WindowEvent {
    CloseRequested,
    /// A keyboard event: whether the key went down, and whether it is the
    /// Escape key.
    KeyboardInput { pressed: bool, escape: bool },
    /// The window was resized to this physical size.
    Resized(Extent),
    /// The scale factor changed; the new physical size is carried along.
    ScaleFactorChanged(Extent),
    /// Any other window event; the driver ignores it.
    Other,
}

/// One event handed to the driver by the platform loop. `owned` says whether
/// the event targets the window the driver owns; events for any other
/// window are ignored.
#[derive(Clone, Copy, PartialEq, Eq, Structural, Debug)]
pub enum Event {
    Window { owned: bool, event: WindowEvent },
    RedrawRequested { owned: bool },
    /// All pending events of this batch have been delivered.
    MainEventsCleared,
    Other,
}

/// An action the platform loop must perform on the driver's behalf.
#[derive(Clone, Copy, PartialEq, Eq, Structural, Debug)]
pub enum Effect {
    /// Apply this configuration to the surface.
    Reconfigure(SurfaceConfig),
    /// Acquire one frame, record and submit its commands, and present it,
    /// then hand the classified outcome back to the driver.
    Render,
    /// Ask the window for another redraw tick.
    RequestRedraw,
    /// Write the error to the diagnostic stream.
    Log(SurfaceError),
}

/// The driver: its control state, the last known physical window size, and
/// the surface configuration currently applied.
#[derive(Clone, Copy, PartialEq, Eq, Structural, Debug)]
pub struct Driver {
    pub mode: Mode,
    pub size: Extent,
    pub config: SurfaceConfig,
}

/// The transition for a resize request of size `s`: rejected when a
/// dimension is zero; otherwise the size and the configuration are updated
/// together and one reconfiguration with the new configuration is issued.
pub open spec fn step_resize(pre: Driver, s: Extent) -> (Driver, Seq<Effect>) {
    if s.width > 0 && s.height > 0 {
        let c = resized(pre.config, s);
        (Driver { size: s, config: c, ..pre }, seq![Effect::Reconfigure(c)])
    } else {
        (pre, Seq::empty())
    }
}

/// The transition for an event that targets the owned window.
pub open spec fn step_window(pre: Driver, w: WindowEvent) -> (Driver, Seq<Effect>) {
    match w {
        WindowEvent::CloseRequested => (Driver { mode: Mode::Exiting, ..pre }, Seq::empty()),
        WindowEvent::KeyboardInput { pressed, escape } => {
            if pressed && escape {
                (Driver { mode: Mode::Exiting, ..pre }, Seq::empty())
            } else {
                (pre, Seq::empty())
            }
        },
        WindowEvent::Resized(s) => step_resize(pre, s),
        WindowEvent::ScaleFactorChanged(s) => step_resize(pre, s),
        WindowEvent::Other => (pre, Seq::empty()),
    }
}

/// The driver's pure transition function: the state after the event, and
/// the effects the platform loop must perform, in order. In `Exiting` every
/// event is inert.
pub open spec fn step(pre: Driver, event: Event) -> (Driver, Seq<Effect>) {
    if pre.mode is Exiting {
        (pre, Seq::empty())
    } else {
        match event {
            Event::Window { owned, event: w } => {
                if owned {
                    step_window(pre, w)
                } else {
                    (pre, Seq::empty())
                }
            },
            Event::RedrawRequested { owned } => {
                if owned {
                    (pre, seq![Effect::Render])
                } else {
                    (pre, Seq::empty())
                }
            },
            Event::MainEventsCleared => (pre, seq![Effect::RequestRedraw]),
            Event::Other => (pre, Seq::empty()),
        }
    }
}

/// The transition for the classified outcome of a frame: success and the
/// transient failures change nothing; `Lost` issues exactly one
/// reconfiguration with the current configuration; `OutOfMemory` exits; an
/// unclassified error is logged and nothing else happens.
pub open spec fn step_render_result(
    pre: Driver,
    outcome: Result<(), SurfaceError>,
) -> (Driver, Seq<Effect>) {
    if pre.mode is Exiting {
        (pre, Seq::empty())
    } else {
        match outcome {
            Ok(()) => (pre, Seq::empty()),
            Err(SurfaceError::Lost) => (pre, seq![Effect::Reconfigure(pre.config)]),
            Err(SurfaceError::OutOfMemory) => (Driver { mode: Mode::Exiting, ..pre }, Seq::empty()),
            Err(SurfaceError::Outdated) => (pre, Seq::empty()),
            Err(SurfaceError::Timeout) => (pre, Seq::empty()),
            Err(SurfaceError::Other) => (pre, seq![Effect::Log(SurfaceError::Other)]),
        }
    }
}

/// Law: a resize event with a zero dimension changes nothing — the stored
/// configuration is untouched and no reconfiguration is issued.
pub proof fn lemma_zero_resize_ignored(pre: Driver, s: Extent)
    requires
        pre.mode is Running,
        s.width == 0 || s.height == 0,
    ensures
        step(pre, (Event::Window { owned: true, event: WindowEvent::Resized(s) })).0 == pre,
        step(pre, (Event::Window { owned: true, event: WindowEvent::Resized(s) })).1
            =~= Seq::<Effect>::empty(),
{
}

/// Law: a resize event with positive dimensions stores the event's size
/// exactly, keeps everything else, and the only effect issued is the one
/// reconfiguration carrying the updated configuration — so it is applied
/// before any later frame acquisition of this loop.
pub proof fn lemma_positive_resize_applied(pre: Driver, s: Extent)
    requires
        pre.mode is Running,
        s.width > 0,
        s.height > 0,
    ensures
        ({
            let (post, fx) = step(pre, (Event::Window { owned: true, event: WindowEvent::Resized(s) }));
            &&& post.mode is Running
            &&& post.size == s
            &&& post.config.width == s.width
            &&& post.config.height == s.height
            &&& post.config.format == pre.config.format
            &&& post.config.present_mode == pre.config.present_mode
            &&& post.config.alpha_mode == pre.config.alpha_mode
            &&& fx =~= seq![Effect::Reconfigure(post.config)]
        }),
{
}

/// Law: `Exiting` is terminal — no later event and no later frame outcome
/// changes the state or issues any effect.
pub proof fn lemma_exiting_inert(pre: Driver, event: Event, outcome: Result<(), SurfaceError>)
    requires
        pre.mode is Exiting,
    ensures
        step(pre, event).0 == pre,
        step(pre, event).1 =~= Seq::<Effect>::empty(),
        step_render_result(pre, outcome).0 == pre,
        step_render_result(pre, outcome).1 =~= Seq::<Effect>::empty(),
{
}

/// Law: on a lost surface the driver stays in `Running`, keeps its whole
/// state, and issues exactly one reconfiguration with the current
/// configuration — the resize-to-current-size retry.
pub proof fn lemma_lost_recovers(pre: Driver)
    requires
        pre.mode is Running,
    ensures
        step_render_result(pre, Err(SurfaceError::Lost)).0 == pre,
        step_render_result(pre, Err(SurfaceError::Lost)).1
            =~= seq![Effect::Reconfigure(pre.config)],
{
}

/// Law: an out-of-memory failure exits: the mode becomes `Exiting`, nothing
/// else changes, no effect is issued, and no further frame operation is
/// ever issued afterwards.
pub proof fn lemma_out_of_memory_exits(pre: Driver, later: Event, outcome: Result<(), SurfaceError>)
    requires
        pre.mode is Running,
    ensures
        ({
            let (post, fx) = step_render_result(pre, Err(SurfaceError::OutOfMemory));
            &&& post.mode is Exiting
            &&& post.size == pre.size
            &&& post.config == pre.config
            &&& fx =~= Seq::<Effect>::empty()
            &&& step(post, later).1 =~= Seq::<Effect>::empty()
            &&& step_render_result(post, outcome).1 =~= Seq::<Effect>::empty()
        }),
{
    let (post, fx) = step_render_result(pre, Err(SurfaceError::OutOfMemory));
    lemma_exiting_inert(post, later, outcome);
}

/// Law: a transient (`Outdated`, `Timeout`) or unclassified failure mutates
/// no state and keeps the driver in `Running`; any effect issued is a log
/// entry and nothing else.
pub proof fn lemma_transient_error_keeps_state(pre: Driver, err: SurfaceError)
    requires
        pre.mode is Running,
        err is Outdated || err is Timeout || err is Other,
    ensures
        step_render_result(pre, Err(err)).0 == pre,
        forall|i: int|
            0 <= i < step_render_result(pre, Err(err)).1.len()
                ==> step_render_result(pre, Err(err)).1[i] is Log,
{
}

/// Law: an Escape key press-down on the owned window exits on the same
/// event-processing pass, with no effect issued — in particular no further
/// redraw is requested, not even by a later end-of-batch signal.
pub proof fn lemma_escape_exits(pre: Driver)
    requires
        pre.mode is Running,
    ensures
        ({
            let (post, fx) = step(pre, (Event::Window {
                owned: true,
                event: (WindowEvent::KeyboardInput { pressed: true, escape: true }),
            }));
            &&& post.mode is Exiting
            &&& post.size == pre.size
            &&& post.config == pre.config
            &&& fx =~= Seq::<Effect>::empty()
            &&& step(post, Event::MainEventsCleared).1 =~= Seq::<Effect>::empty()
        }),
{
}

/// Law: every transition preserves the driver invariant.
pub proof fn lemma_step_preserves_wf(pre: Driver, event: Event, outcome: Result<(), SurfaceError>)
    requires
        pre.wf(),
    ensures
        step(pre, event).0.wf(),
        step_render_result(pre, outcome).0.wf(),
{
}

impl Driver {
    /// The driver's invariant: the applied configuration has positive
    /// dimensions and mirrors the last known window size.
    pub open spec fn wf(self) -> bool {
        &&& self.config.wf()
        &&& self.config.width == self.size.width
        &&& self.config.height == self.size.height
    }

    /// Starts the driver in `Running` over a freshly applied configuration.
    pub fn new(config: SurfaceConfig, size: Extent) -> (d: Driver)
        requires
            config.wf(),
            config.width == size.width,
            config.height == size.height,
        ensures
            d == (Driver { mode: Mode::Running, size, config }),
            d.wf(),
    {
        Driver { mode: Mode::Running, size, config }
    }

    /// The input pre-filter, an extension point: it currently consumes
    /// nothing, so every window event reaches the driver.
    pub fn input(&self, _event: &WindowEvent) -> (consumed: bool)
        ensures
            !consumed,
    {
        false
    }

    /// The per-frame update hook, an extension point: it currently changes
    /// nothing.
    pub fn update(&mut self)
        ensures
            *final(self) == *old(self),
    {
    }

    /// Feeds one platform event to the driver: the state advances and the
    /// effects come back exactly as `step` says.
    pub fn handle_event(&mut self, event: Event) -> (effects: Vec<Effect>)
        ensures
            *final(self) == step(*old(self), event).0,
            effects@ == step(*old(self), event).1,
            old(self).wf() ==> final(self).wf(),
    {
        match self.mode {
            Mode::Exiting => Vec::new(),
            Mode::Running => match event {
                Event::Window { owned, event: w } => {
                    if owned && !self.input(&w) {
                        self.handle_window_event(w)
                    } else {
                        Vec::new()
                    }
                },
                Event::RedrawRequested { owned } => {
                    if owned {
                        self.update();
                        let mut effects: Vec<Effect> = Vec::new();
                        effects.push(Effect::Render);
                        proof {
                            assert(effects@ =~= step(*old(self), event).1);
                        }
                        effects
                    } else {
                        Vec::new()
                    }
                },
                Event::MainEventsCleared => {
                    let mut effects: Vec<Effect> = Vec::new();
                    effects.push(Effect::RequestRedraw);
                    proof {
                        assert(effects@ =~= step(*old(self), event).1);
                    }
                    effects
                },
                Event::Other => Vec::new(),
            },
        }
    }

    /// Handles one event that targets the owned window and passed the input
    /// pre-filter.
    fn handle_window_event(&mut self, w: WindowEvent) -> (effects: Vec<Effect>)
        requires
            old(self).mode is Running,
        ensures
            *final(self) == step_window(*old(self), w).0,
            effects@ == step_window(*old(self), w).1,
            old(self).wf() ==> final(self).wf(),
    {
        match w {
            WindowEvent::CloseRequested => {
                self.mode = Mode::Exiting;
                Vec::new()
            },
            WindowEvent::KeyboardInput { pressed, escape } => {
                if pressed && escape {
                    self.mode = Mode::Exiting;
                }
                Vec::new()
            },
            WindowEvent::Resized(s) => self.apply_resize(s),
            WindowEvent::ScaleFactorChanged(s) => self.apply_resize(s),
            WindowEvent::Other => Vec::new(),
        }
    }

    /// Applies a resize request to the stored configuration and says whether
    /// the surface must be reconfigured.
    fn apply_resize(&mut self, s: Extent) -> (effects: Vec<Effect>)
        ensures
            *final(self) == step_resize(*old(self), s).0,
            effects@ == step_resize(*old(self), s).1,
            old(self).wf() ==> final(self).wf(),
    {
        let applied = self.config.resize(s);
        let mut effects: Vec<Effect> = Vec::new();
        if applied {
            self.size = s;
            effects.push(Effect::Reconfigure(self.config));
            proof {
                assert(effects@ =~= step_resize(*old(self), s).1);
            }
        } else {
            proof {
                assert(effects@ =~= step_resize(*old(self), s).1);
            }
        }
        effects
    }

    /// Feeds the classified outcome of one frame back to the driver: the
    /// state advances and the effects come back exactly as
    /// `step_render_result` says.
    pub fn handle_render_result(&mut self, outcome: Result<(), SurfaceError>) -> (effects: Vec<Effect>)
        ensures
            *final(self) == step_render_result(*old(self), outcome).0,
            effects@ == step_render_result(*old(self), outcome).1,
            old(self).wf() ==> final(self).wf(),
    {
        match self.mode {
            Mode::Exiting => Vec::new(),
            Mode::Running => match outcome {
                Ok(()) => Vec::new(),
                Err(SurfaceError::Lost) => {
                    let mut effects: Vec<Effect> = Vec::new();
                    effects.push(Effect::Reconfigure(self.config));
                    proof {
                        assert(effects@ =~= step_render_result(*old(self), outcome).1);
                    }
                    effects
                },
                Err(SurfaceError::OutOfMemory) => {
                    self.mode = Mode::Exiting;
                    Vec::new()
                },
                Err(SurfaceError::Outdated) => Vec::new(),
                Err(SurfaceError::Timeout) => Vec::new(),
                Err(SurfaceError::Other) => {
                    let mut effects: Vec<Effect> = Vec::new();
                    effects.push(Effect::Log(SurfaceError::Other));
                    proof {
                        assert(effects@ =~= step_render_result(*old(self), outcome).1);
                    }
                    effects
                },
            },
        }
    }
}

} // verus!
