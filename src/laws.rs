use vstd::prelude::*;

use crate::bootstrap::{
    Action, BootState, Plugin, action_of, after_attach, after_run, initial_state, plugin_order,
    state_wf,
};

verus! {

/// From the initial state the driver is asked to attach the storage, the
/// filesystem and the dialog plugins, in that order, and only then to start
/// the event loop, with all three attached.
pub proof fn lemma_startup_order()
    ensures
        ({
            let s0 = initial_state();
            let s1 = after_attach(s0);
            let s2 = after_attach(s1);
            let s3 = after_attach(s2);
            &&& state_wf(s0) && state_wf(s1) && state_wf(s2) && state_wf(s3)
            &&& action_of(s0) == Action::Attach(Plugin::Store)
            &&& action_of(s1) == Action::Attach(Plugin::Fs)
            &&& action_of(s2) == Action::Attach(Plugin::Dialog)
            &&& action_of(s3) == Action::Run
            &&& s3.attached == plugin_order()
        }),
{
    let s0 = initial_state();
    let s1 = after_attach(s0);
    let s2 = after_attach(s1);
    let s3 = after_attach(s2);
    assert(s0.attached =~= plugin_order().take(0));
    assert(s1.attached =~= plugin_order().take(1));
    assert(s2.attached =~= plugin_order().take(2));
    assert(s3.attached =~= plugin_order().take(3));
    assert(s3.attached =~= plugin_order());
}

/// In every reachable state, the event loop is started only once every
/// plugin is attached, each once and in the fixed order.
pub proof fn lemma_run_only_with_all_plugins(s: BootState)
    requires
        state_wf(s),
        action_of(s) == Action::Run,
    ensures
        s.attached == plugin_order(),
{
    assert(s.attached =~= plugin_order());
}

/// When the event loop ran and shut down cleanly, the process ends normally
/// with status 0, and nothing else is asked of the driver.
pub proof fn lemma_clean_shutdown_exits_zero(s: BootState)
    requires
        state_wf(s),
        action_of(s) == Action::Run,
    ensures
        state_wf(after_run(s, true)),
        action_of(after_run(s, true)) == Action::Exit(0),
{
}

/// When the event loop cannot be started, the process is aborted with the
/// fixed diagnostic, never ended normally.
pub proof fn lemma_failed_start_aborts(s: BootState)
    requires
        state_wf(s),
        action_of(s) == Action::Run,
    ensures
        state_wf(after_run(s, false)),
        action_of(after_run(s, false)) == Action::Abort,
        forall|code: u8| action_of(after_run(s, false)) != Action::Exit(code),
{
}

} // verus!
