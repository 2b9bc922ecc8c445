use launcher::{Action, Bootstrap, Phase, Plugin, STARTUP_FAILURE_MESSAGE};

fn attach_all(boot: &mut Bootstrap) {
    for _ in 0..3 {
        assert!(boot.plugin_attached());
    }
}

#[test]
fn new_sequence_attaches_storage_first() {
    let boot = Bootstrap::new();
    assert_eq!(boot.next_action(), Action::Attach(Plugin::Store));
    assert_eq!(boot.phase(), Phase::Attaching);
    assert!(boot.attached().is_empty());
}

#[test]
fn plugins_are_attached_in_order_before_run() {
    let mut boot = Bootstrap::new();
    let mut seen = Vec::new();
    while let Action::Attach(p) = boot.next_action() {
        seen.push(p);
        assert!(boot.plugin_attached());
    }
    assert_eq!(seen, vec![Plugin::Store, Plugin::Fs, Plugin::Dialog]);
    assert_eq!(boot.next_action(), Action::Run);
    assert_eq!(boot.attached(), vec![Plugin::Store, Plugin::Fs, Plugin::Dialog]);
}

#[test]
fn run_is_refused_before_all_plugins_are_attached() {
    let mut boot = Bootstrap::new();
    assert!(boot.plugin_attached());
    assert!(!boot.run_returned(true));
    assert_eq!(boot.next_action(), Action::Attach(Plugin::Fs));
    assert_eq!(boot.attached(), vec![Plugin::Store]);
    assert_eq!(boot.phase(), Phase::Attaching);
}

#[test]
fn fourth_attachment_is_refused() {
    let mut boot = Bootstrap::new();
    attach_all(&mut boot);
    assert!(!boot.plugin_attached());
    assert_eq!(boot.attached().len(), 3);
    assert_eq!(boot.next_action(), Action::Run);
}

#[test]
fn clean_shutdown_exits_with_status_zero() {
    let mut boot = Bootstrap::new();
    attach_all(&mut boot);
    assert!(boot.run_returned(true));
    assert_eq!(boot.phase(), Phase::ShutDown);
    assert_eq!(boot.next_action(), Action::Exit(0));
}

#[test]
fn failed_start_aborts() {
    let mut boot = Bootstrap::new();
    attach_all(&mut boot);
    assert!(boot.run_returned(false));
    assert_eq!(boot.phase(), Phase::Failed);
    assert_eq!(boot.next_action(), Action::Abort);
}

#[test]
fn finished_sequence_refuses_further_events() {
    let mut boot = Bootstrap::new();
    attach_all(&mut boot);
    assert!(boot.run_returned(true));
    assert!(!boot.run_returned(false));
    assert!(!boot.plugin_attached());
    assert_eq!(boot.next_action(), Action::Exit(0));
    assert_eq!(boot.attached().len(), 3);
}

#[test]
fn startup_failure_message_is_fixed() {
    assert_eq!(STARTUP_FAILURE_MESSAGE, "error while running tauri application");
}
