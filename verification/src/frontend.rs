//! The decisions of the front-end's event loop.
//!
//! The front-end owns a window and the handle of the simulation. What it does with
//! them is decided here; the window, the drawing and the handle itself are the caller's.

use crate::client::ClientEvent;
use crate::engine::EngineConfig;
use crate::engine::EngineEvent;
use crate::scheduler::NANOS_PER_SECOND;
use vstd::prelude::*;

verus! {

/// The number of frames that the front-end draws per second at most.
pub const FRAMES_PER_SECOND: u64 = 60;

/// The nanoseconds that must have passed since the last frame before the next is drawn.
pub const FRAME_PERIOD: u64 = NANOS_PER_SECOND / FRAMES_PER_SECOND;

/// What the front-end is started with.
pub struct LaunchOptions {
    engine_path: String,
}

impl LaunchOptions {
    /// The path of the simulation's executable.
    pub closed spec fn spec_engine_path(&self) -> Seq<char> {
        self.engine_path@
    }

    pub fn new(engine_path: String) -> (options: LaunchOptions)
        ensures
            options.spec_engine_path() == engine_path@,
    {
        LaunchOptions { engine_path }
    }

    /// The path of the simulation's executable.
    pub fn engine_path(&self) -> (path: &str)
        ensures
            path@ == self.spec_engine_path(),
    {
        self.engine_path.as_str()
    }
}

/// The settings of a front-end that starts the simulation as it is.
pub struct ClientConfig {
    engine_path: String,
}

impl ClientConfig {
    /// The path of the simulation's executable.
    pub closed spec fn spec_engine_path(&self) -> Seq<char> {
        self.engine_path@
    }

    /// The settings that the launch options ask for.
    pub fn new(options: LaunchOptions) -> (config: ClientConfig)
        ensures
            config.spec_engine_path() == options.spec_engine_path(),
    {
        ClientConfig { engine_path: options.engine_path }
    }

    /// The path of the simulation's executable.
    pub fn engine_path(&self) -> (path: &str)
        ensures
            path@ == self.spec_engine_path(),
    {
        self.engine_path.as_str()
    }
}

/// The settings of a front-end that starts the simulation with a configuration.
pub struct ApplicationConfig {
    engine_path: String,
    engine_config: EngineConfig,
}

impl ApplicationConfig {
    /// The path of the simulation's executable.
    pub closed spec fn spec_engine_path(&self) -> Seq<char> {
        self.engine_path@
    }

    /// The configuration that the simulation is started with.
    pub closed spec fn spec_engine_config(&self) -> EngineConfig {
        self.engine_config
    }

    pub fn new(engine_path: String, engine_config: EngineConfig) -> (config: ApplicationConfig)
        ensures
            config.spec_engine_path() == engine_path@,
            config.spec_engine_config() == engine_config,
    {
        ApplicationConfig { engine_path, engine_config }
    }

    /// The path of the simulation's executable.
    pub fn engine_path(&self) -> (path: &str)
        ensures
            path@ == self.spec_engine_path(),
    {
        self.engine_path.as_str()
    }

    /// The configuration that the simulation is started with.
    pub fn engine_config(&self) -> (config: &EngineConfig)
        ensures
            *config == self.spec_engine_config(),
    {
        &self.engine_config
    }
}

/// What happened to the window.
#[derive(Clone, Copy, Debug, PartialEq, Eq, Structural)]
pub enum WindowSignal {
    /// The window wants to be drawn.
    RedrawRequested,
    /// The user wants the window closed.
    CloseRequested,
    /// Anything else.
    Other,
}

/// What the front-end does about something that happened to the window.
#[derive(Clone, Copy, Debug, PartialEq, Eq, Structural)]
pub enum WindowAction {
    Nothing,
    /// Draw a frame.
    Redraw,
    /// Have the event delivered to the simulation.
    Send(ClientEvent),
}

/// What the front-end does at the end of a pass of its event loop.
#[derive(Clone, Copy, Debug, PartialEq, Eq, Structural)]
pub struct Pass {
    /// Whether the event loop is to end.
    pub exit: bool,
    /// Whether a frame is to be asked for.
    pub redraw: bool,
}

/// The state of a front-end.
pub struct ClientView {
    /// Whether the front-end still holds the handle of the simulation.
    pub attached: bool,
    /// When the last frame was asked for, in nanoseconds of the caller's clock.
    pub last_draw: u64,
}

impl ClientView {
    /// Whether a frame is due at `now`.
    pub open spec fn frame_due(self, now: u64) -> bool {
        now > self.last_draw && now - self.last_draw > FRAME_PERIOD
    }

    /// The state after the front-end has heard `event` from the simulation.
    pub open spec fn heard(self, event: EngineEvent) -> ClientView {
        ClientView { attached: self.attached && !(event is Closed), ..self }
    }

    /// The state after the pass that ends at `now` and in which `polled` was found in
    /// the channel from the simulation.
    pub open spec fn passed(self, polled: Option<EngineEvent>, now: u64) -> ClientView {
        let heard = match polled {
            Some(event) => self.heard(event),
            None => self,
        };
        ClientView {
            attached: heard.attached,
            last_draw: if self.frame_due(now) {
                now
            } else {
                self.last_draw
            },
        }
    }
}

/// The front-end between its window and the simulation.
pub struct Client {
    attached: bool,
    last_draw: u64,
}

impl Client {
    pub closed spec fn view(&self) -> ClientView {
        ClientView { attached: self.attached, last_draw: self.last_draw }
    }

    /// A front-end that has just started the simulation, at `now`.
    pub fn new(now: u64) -> (client: Client)
        ensures
            client@ == (ClientView { attached: true, last_draw: now }),
    {
        Client { attached: true, last_draw: now }
    }

    /// Whether the front-end still holds the handle of the simulation.
    pub fn is_attached(&self) -> (attached: bool)
        ensures
            attached == self@.attached,
    {
        self.attached
    }

    /// Takes note of an event from the simulation: on `Closed` the front-end lets go of
    /// the simulation's handle.
    pub fn handle_engine_event(&mut self, event: EngineEvent)
        ensures
            final(self)@ == old(self)@.heard(event),
    {
        match event {
            EngineEvent::Closed => {
                self.attached = false;
            },
            _ => {},
        }
    }

    /// Decides what to do about something that happened to the window.
    ///
    /// A request to close the window is passed on to the simulation as long as the
    /// front-end holds its handle; the window stays until the simulation has closed.
    pub fn window_event(&self, signal: WindowSignal) -> (action: WindowAction)
        ensures
            action == (match signal {
                WindowSignal::RedrawRequested => WindowAction::Redraw,
                WindowSignal::CloseRequested => if self@.attached {
                    WindowAction::Send(ClientEvent::CloseRequested)
                } else {
                    WindowAction::Nothing
                },
                WindowSignal::Other => WindowAction::Nothing,
            }),
    {
        match signal {
            WindowSignal::RedrawRequested => WindowAction::Redraw,
            WindowSignal::CloseRequested => {
                if self.attached {
                    WindowAction::Send(ClientEvent::CloseRequested)
                } else {
                    WindowAction::Nothing
                }
            },
            WindowSignal::Other => WindowAction::Nothing,
        }
    }

    /// Ends a pass of the event loop at `now`.
    ///
    /// `polled` is what a look into the channel from the simulation found; a front-end
    /// that has let go of the simulation does not look. The event loop ends in the pass
    /// after the one in which the front-end let go of the simulation. A frame is asked
    /// for when more than a sixtieth of a second has passed since the last one.
    pub fn about_to_wait(&mut self, polled: Option<EngineEvent>, now: u64) -> (pass: Pass)
        ensures
            final(self)@ == old(self)@.passed(polled, now),
            pass.exit == !old(self)@.attached,
            pass.redraw == old(self)@.frame_due(now),
    {
        let exit = !self.attached;
        if let Some(event) = polled {
            self.handle_engine_event(event);
        }
        let redraw = now > self.last_draw && now - self.last_draw > FRAME_PERIOD;
        if redraw {
            self.last_draw = now;
        }
        Pass { exit, redraw }
    }
}

} // verus!
