use vstd::prelude::*;

verus! {

/// A capability plugin attached to the application before its event loop starts.
#[derive(Clone, Copy, Debug, PartialEq, Eq, Structural)]
pub enum Plugin {
    /// Persistent key-value storage.
    Store,
    /// Scoped filesystem access.
    Fs,
    /// Native open/save/message dialogs.
    Dialog,
}

/// Where the start-up sequence stands.
#[derive(Clone, Copy, Debug, PartialEq, Eq, Structural)]
pub enum Phase {
    /// Plugins are being attached; the event loop has not been started.
    Attaching,
    /// The event loop ran and shut down cleanly.
    ShutDown,
    /// The event loop could not be started.
    Failed,
}

/// What the driver has to do next.
#[derive(Clone, Copy, Debug, PartialEq, Eq, Structural)]
pub enum Action {
    /// Attach this plugin to the application builder.
    Attach(Plugin),
    /// Start the event loop with the generated context; blocks until shutdown.
    Run,
    /// End the process normally with this status.
    Exit(u8),
    /// Abort the process with [`STARTUP_FAILURE_MESSAGE`].
    Abort,
}

/// The diagnostic printed when the event loop cannot be started.
pub const STARTUP_FAILURE_MESSAGE: &'static str = "error while running tauri application";

/// The plugins in the order in which they are attached.
pub open spec fn plugin_order() -> Seq<Plugin> {
    seq![Plugin::Store, Plugin::Fs, Plugin::Dialog]
}

/// The mathematical state of a start-up sequence.
pub struct BootState {
    /// The plugins attached so far, in the order of attachment.
    pub attached: Seq<Plugin>,
    /// Where the sequence stands.
    pub phase: Phase,
}

/// A reachable state: the attached plugins are a prefix of the fixed order,
/// and the event loop is only ever reached with all of them attached.
pub open spec fn state_wf(s: BootState) -> bool {
    &&& s.attached.len() <= plugin_order().len()
    &&& s.attached =~= plugin_order().take(s.attached.len() as int)
    &&& s.phase != Phase::Attaching ==> s.attached.len() == plugin_order().len()
}

/// The state before anything was done.
pub open spec fn initial_state() -> BootState {
    BootState { attached: Seq::empty(), phase: Phase::Attaching }
}

/// What the driver must do in state `s`.
pub open spec fn action_of(s: BootState) -> Action {
    match s.phase {
        Phase::Attaching => if s.attached.len() < plugin_order().len() {
            Action::Attach(plugin_order()[s.attached.len() as int])
        } else {
            Action::Run
        },
        Phase::ShutDown => Action::Exit(0),
        Phase::Failed => Action::Abort,
    }
}

/// The state after the plugin asked for in `s` was attached.
pub open spec fn after_attach(s: BootState) -> BootState {
    BootState { attached: s.attached.push(plugin_order()[s.attached.len() as int]), ..s }
}

/// The state after the event loop, started in `s`, returned; `started` tells
/// whether it ran and shut down cleanly.
pub open spec fn after_run(s: BootState, started: bool) -> BootState {
    BootState { phase: if started { Phase::ShutDown } else { Phase::Failed }, ..s }
}

/// Drives the start-up of the application: which plugin to attach next, when
/// to start the event loop, and how to end the process.
pub struct Bootstrap {
    attached: Vec<Plugin>,
    phase: Phase,
}

impl View for Bootstrap {
    type V = BootState;

    closed spec fn view(&self) -> BootState {
        BootState { attached: self.attached@, phase: self.phase }
    }
}

impl Bootstrap {
    /// The sequence holds a reachable state.
    pub open spec fn wf(&self) -> bool {
        state_wf(self@)
    }

    /// A sequence with no plugin attached and the event loop not started.
    pub fn new() -> (r: Bootstrap)
        ensures
            r@ == initial_state(),
            r.wf(),
    {
        let r = Bootstrap { attached: Vec::new(), phase: Phase::Attaching };
        assert(r@.attached =~= plugin_order().take(0));
        r
    }

    /// What the driver must do next.
    pub fn next_action(&self) -> (a: Action)
        requires
            self.wf(),
        ensures
            a == action_of(self@),
    {
        match self.phase {
            Phase::Attaching => {
                let n = self.attached.len();
                if n == 0 {
                    Action::Attach(Plugin::Store)
                } else if n == 1 {
                    Action::Attach(Plugin::Fs)
                } else if n == 2 {
                    Action::Attach(Plugin::Dialog)
                } else {
                    Action::Run
                }
            },
            Phase::ShutDown => Action::Exit(0),
            Phase::Failed => Action::Abort,
        }
    }

    /// The plugins attached so far, in the order of attachment.
    pub fn attached(&self) -> (r: Vec<Plugin>)
        ensures
            r@ == self@.attached,
    {
        self.attached.clone()
    }

    /// Where the sequence stands.
    pub fn phase(&self) -> (r: Phase)
        ensures
            r == self@.phase,
    {
        self.phase
    }

    /// Records that the plugin asked for by [`Bootstrap::next_action`] was
    /// attached. Any other moment is refused: the state stays as it was and
    /// the result is `false`.
    pub fn plugin_attached(&mut self) -> (accepted: bool)
        requires
            old(self).wf(),
        ensures
            final(self).wf(),
            accepted == (action_of(old(self)@) is Attach),
            final(self)@ == (if accepted { after_attach(old(self)@) } else { old(self)@ }),
    {
        match self.next_action() {
            Action::Attach(p) => {
                self.attached.push(p);
                assert(self@.attached =~= plugin_order().take(self@.attached.len() as int));
                true
            },
            _ => false,
        }
    }

    /// Records how the event loop ended: `started` is `true` where it ran and
    /// shut down cleanly, `false` where it could not be started. Any moment
    /// but the one at which [`Bootstrap::next_action`] asks to run is refused:
    /// the state stays as it was and the result is `false`.
    pub fn run_returned(&mut self, started: bool) -> (accepted: bool)
        requires
            old(self).wf(),
        ensures
            final(self).wf(),
            accepted == (action_of(old(self)@) == Action::Run),
            final(self)@ == (if accepted { after_run(old(self)@, started) } else { old(self)@ }),
    {
        match self.next_action() {
            Action::Run => {
                self.phase = if started { Phase::ShutDown } else { Phase::Failed };
                true
            },
            _ => false,
        }
    }
}

} // verus!
