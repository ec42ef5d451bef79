use timetracker::coordinator::TrayAction;
use timetracker::coordinator::TrayCoordinator;
use timetracker::coordinator::TrayEvent;
use timetracker::singleton::InstanceLock;
use timetracker::singleton::LaunchDecision;
use timetracker::singleton::launch_decision;

#[test]
fn first_of_many_attempts_wins() {
    let mut lock = InstanceLock::new();
    let first = lock.try_acquire(11);
    let second = lock.try_acquire(22);
    let third = lock.try_acquire(33);
    assert!(first);
    assert!(!second);
    assert!(!third);
    assert_eq!(lock.holder, Some(11));
    assert_eq!(launch_decision(first), LaunchDecision::Proceed);
    assert_eq!(launch_decision(second), LaunchDecision::AbortAlreadyRunning);
    assert_eq!(launch_decision(third), LaunchDecision::AbortAlreadyRunning);
}

#[test]
fn failed_attempt_changes_nothing() {
    let mut lock = InstanceLock::new();
    assert!(lock.try_acquire(5));
    let before = lock;
    assert!(!lock.try_acquire(6));
    assert_eq!(lock, before);
}

#[test]
fn activation_with_no_window_creates_one() {
    let coordinator = TrayCoordinator::new();
    assert!(!coordinator.is_window_open());
    assert_eq!(coordinator.on_tray_activated(), TrayAction::CreateWindow);
}

#[test]
fn second_activation_focuses_existing_window() {
    let mut coordinator = TrayCoordinator::new();
    assert_eq!(
        coordinator.handle_event(TrayEvent::Activated),
        vec![TrayAction::CreateWindow]
    );
    assert_eq!(
        coordinator.handle_event(TrayEvent::WindowCreated { handle: 42 }),
        vec![
            TrayAction::FocusWindow { handle: 42 },
            TrayAction::RunNestedLoop,
        ]
    );
    assert!(coordinator.is_window_open());
    assert_eq!(
        coordinator.handle_event(TrayEvent::Activated),
        vec![TrayAction::FocusWindow { handle: 42 }]
    );
    assert!(coordinator.is_window_open());
}

#[test]
fn close_clears_handle() {
    let mut coordinator = TrayCoordinator::new();
    coordinator.handle_event(TrayEvent::WindowCreated { handle: 7 });
    assert_eq!(coordinator.active_handle(), Some(7));
    assert_eq!(
        coordinator.handle_event(TrayEvent::WindowClosed),
        vec![TrayAction::EndNestedLoop]
    );
    assert_eq!(coordinator.active_handle(), None);
    assert!(!coordinator.is_window_open());
}

#[test]
fn window_reuse_across_a_session() {
    let mut coordinator = TrayCoordinator::new();
    let mut open_windows: u32 = 0;
    let events = vec![
        TrayEvent::Activated,
        TrayEvent::WindowCreated { handle: 1 },
        TrayEvent::Activated,
        TrayEvent::Activated,
        TrayEvent::WindowClosed,
        TrayEvent::Activated,
        TrayEvent::WindowCreated { handle: 2 },
        TrayEvent::WindowClosed,
    ];
    for event in events {
        coordinator.handle_event(event);
        match event {
            TrayEvent::WindowCreated { .. } => open_windows += 1,
            TrayEvent::WindowClosed => open_windows -= 1,
            _ => {}
        }
        assert!(open_windows <= 1);
        assert_eq!(open_windows == 1, coordinator.is_window_open());
    }
    assert_eq!(coordinator.active_handle(), None);
}

#[test]
fn menu_refresh_updates_checkboxes() {
    let mut coordinator = TrayCoordinator::new();
    assert_eq!(
        coordinator.handle_event(TrayEvent::MenuOpened {
            startup_query: Some(true),
            stored_update: Some(5),
        }),
        vec![TrayAction::ShowMenu { startup_checked: true, update_checked: true }]
    );
    assert_eq!(
        coordinator.handle_event(TrayEvent::MenuOpened {
            startup_query: None,
            stored_update: Some(0),
        }),
        vec![TrayAction::ShowMenu { startup_checked: true, update_checked: false }]
    );
    assert_eq!(
        coordinator.handle_event(TrayEvent::MenuOpened {
            startup_query: None,
            stored_update: None,
        }),
        vec![TrayAction::ShowMenu { startup_checked: true, update_checked: false }]
    );
}

#[test]
fn startup_item_toggles_registration() {
    let mut coordinator = TrayCoordinator::new();
    assert_eq!(
        coordinator.handle_event(TrayEvent::StartupSelected),
        vec![TrayAction::EnableStartup]
    );
    coordinator.handle_event(TrayEvent::MenuOpened {
        startup_query: Some(true),
        stored_update: None,
    });
    assert_eq!(
        coordinator.handle_event(TrayEvent::StartupSelected),
        vec![TrayAction::DisableStartup]
    );
}

#[test]
fn update_item_writes_flag_then_reruns_routine() {
    let mut coordinator = TrayCoordinator::new();
    assert_eq!(
        coordinator.handle_event(TrayEvent::UpdateSelected),
        vec![
            TrayAction::WriteAutoUpdate { value: 1 },
            TrayAction::RunUpdateRoutine,
        ]
    );
    coordinator.handle_event(TrayEvent::MenuOpened {
        startup_query: None,
        stored_update: Some(1),
    });
    assert_eq!(
        coordinator.handle_event(TrayEvent::UpdateSelected),
        vec![
            TrayAction::WriteAutoUpdate { value: 0 },
            TrayAction::RunUpdateRoutine,
        ]
    );
}

#[test]
fn exit_ends_both_dispatch_loops() {
    let mut coordinator = TrayCoordinator::new();
    coordinator.handle_event(TrayEvent::WindowCreated { handle: 9 });
    assert_eq!(
        coordinator.handle_event(TrayEvent::ExitSelected),
        vec![TrayAction::EndNestedLoop, TrayAction::EndOuterLoop]
    );
}
