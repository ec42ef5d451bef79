use timetracker::bootstrap::BootstrapStep;
use timetracker::bootstrap::apply_step;
use timetracker::bootstrap::bootstrap_steps;
use timetracker::bootstrap::run_bootstrap;
use timetracker::bootstrap::startup_sequence;
use timetracker::bootstrap::step_aborts_on_failure;
use timetracker::settings::SettingsView;
use timetracker::settings::auto_update_enabled;
use timetracker::settings::toggle_auto_update;
use timetracker::settings::toggled_value;
use timetracker::singleton::InstanceLock;
use timetracker::singleton::LaunchDecision;
use timetracker::singleton::launch_decision;

#[test]
fn fresh_install_first_launch() {
    let mut lock = InstanceLock::new();
    let acquired = lock.try_acquire(100);
    assert_eq!(launch_decision(acquired), LaunchDecision::Proceed);

    let mut settings = SettingsView { first_time_use: None, auto_update: None };
    let (enable_startup, check_update) = startup_sequence(&mut settings);
    assert_eq!(settings.first_time_use, Some(0));
    assert_eq!(settings.auto_update, Some(1));
    assert!(enable_startup);
    assert!(check_update);

    let second_instance = lock.try_acquire(200);
    assert_eq!(
        launch_decision(second_instance),
        LaunchDecision::AbortAlreadyRunning
    );
}

#[test]
fn bootstrap_second_run_is_noop() {
    let mut settings = SettingsView { first_time_use: None, auto_update: None };
    let first = run_bootstrap(&mut settings);
    assert!(first);
    let after_first = settings;
    let second = run_bootstrap(&mut settings);
    assert!(!second);
    assert_eq!(settings, after_first);
    assert_eq!(bootstrap_steps(settings.first_time_use), vec![]);
}

#[test]
fn bootstrap_plan_for_fresh_install() {
    assert_eq!(
        bootstrap_steps(None),
        vec![
            BootstrapStep::WriteFirstTimeUse { value: 1 },
            BootstrapStep::WriteFirstTimeUse { value: 0 },
            BootstrapStep::EnableStartup,
            BootstrapStep::WriteAutoUpdate { value: 1 },
        ]
    );
}

#[test]
fn bootstrap_plan_for_pending_marker() {
    assert_eq!(
        bootstrap_steps(Some(3)),
        vec![
            BootstrapStep::WriteFirstTimeUse { value: 0 },
            BootstrapStep::EnableStartup,
            BootstrapStep::WriteAutoUpdate { value: 1 },
        ]
    );
}

#[test]
fn bootstrap_plan_for_done_marker() {
    assert_eq!(bootstrap_steps(Some(0)), vec![]);
}

#[test]
fn only_marker_writes_abort_on_failure() {
    assert!(step_aborts_on_failure(&BootstrapStep::WriteFirstTimeUse { value: 1 }));
    assert!(step_aborts_on_failure(&BootstrapStep::WriteFirstTimeUse { value: 0 }));
    assert!(!step_aborts_on_failure(&BootstrapStep::EnableStartup));
    assert!(!step_aborts_on_failure(&BootstrapStep::WriteAutoUpdate { value: 1 }));
}

#[test]
fn plan_steps_change_only_their_own_key() {
    let mut settings = SettingsView { first_time_use: Some(2), auto_update: Some(0) };
    apply_step(&mut settings, &BootstrapStep::WriteFirstTimeUse { value: 0 });
    assert_eq!(settings, SettingsView { first_time_use: Some(0), auto_update: Some(0) });
    apply_step(&mut settings, &BootstrapStep::EnableStartup);
    assert_eq!(settings, SettingsView { first_time_use: Some(0), auto_update: Some(0) });
    apply_step(&mut settings, &BootstrapStep::WriteAutoUpdate { value: 1 });
    assert_eq!(settings, SettingsView { first_time_use: Some(0), auto_update: Some(1) });
}

#[test]
fn toggle_round_trip_restores_flag() {
    let mut settings = SettingsView { first_time_use: Some(0), auto_update: Some(0) };
    let original = settings;

    let check_after_enable = toggle_auto_update(&mut settings, false);
    assert_eq!(settings.auto_update, Some(1));
    assert!(check_after_enable);

    let check_after_disable = toggle_auto_update(&mut settings, true);
    assert_eq!(settings.auto_update, Some(0));
    assert!(!check_after_disable);

    assert_eq!(settings, original);
}

#[test]
fn missing_flag_counts_as_disabled() {
    assert!(!auto_update_enabled(&None));
    assert!(!auto_update_enabled(&Some(0)));
    assert!(auto_update_enabled(&Some(1)));
    assert!(auto_update_enabled(&Some(7)));
}

#[test]
fn toggle_writes_inverted_checkbox() {
    assert_eq!(toggled_value(false), 1);
    assert_eq!(toggled_value(true), 0);
}

#[test]
fn first_toggle_of_missing_flag_enables() {
    let mut settings = SettingsView { first_time_use: Some(0), auto_update: None };
    let check_now = toggle_auto_update(&mut settings, false);
    assert!(check_now);
    assert_eq!(settings.auto_update, Some(1));
}
