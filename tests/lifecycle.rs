use game_launcher::game::game_arguments;
use game_launcher::instance::{launch_plan, ClaimError, InstanceClaim, LaunchStep, Role};
use game_launcher::menu::{get_menu, tray_menu, MenuEntry};
use game_launcher::window::{activation_commands, menu_event, ui_commands, UiEvent, WindowCommand};

#[test]
fn second_claim_of_the_same_lock_forwards_once() {
    let name = "game_launcher_lifecycle_test_lock";
    let first = InstanceClaim::acquire(name).expect("lock primitive");
    assert!(first.is_primary());
    assert_eq!(first.role(), Role::Primary);
    assert_eq!(first.lock_name(), name);
    let second = InstanceClaim::acquire(name).expect("lock primitive");
    assert!(!second.is_primary());
    assert_eq!(second.role(), Role::Secondary);
    let plan = launch_plan(&Ok(second));
    assert_eq!(plan, vec![LaunchStep::ForwardActivation, LaunchStep::Exit]);
    assert_eq!(plan.iter().filter(|s| **s == LaunchStep::ForwardActivation).count(), 1);
    assert!(!plan.contains(&LaunchStep::BuildMainWindow));
    let primary_plan = launch_plan(&Ok(first));
    assert_eq!(
        primary_plan,
        vec![
            LaunchStep::RegisterActivationHandler,
            LaunchStep::BuildMainWindow,
            LaunchStep::InstallTray,
            LaunchStep::RunEventLoop,
        ]
    );
}

#[test]
fn unavailable_lock_aborts() {
    assert_eq!(launch_plan(&Err(ClaimError::LockUnavailable)), vec![LaunchStep::Abort]);
}

#[test]
fn activation_restores_the_window() {
    let argv = vec!["launcher".to_string(), "--flag".to_string()];
    assert_eq!(
        activation_commands(&argv, "/tmp"),
        vec![WindowCommand::Show, WindowCommand::Unminimize, WindowCommand::SetFocus]
    );
}

#[test]
fn tray_requests() {
    assert_eq!(menu_event("show"), Some(UiEvent::ShowRequested));
    assert_eq!(menu_event("exit_app"), Some(UiEvent::ExitRequested));
    assert_eq!(menu_event("Show"), None);
    assert_eq!(menu_event(""), None);
    assert_eq!(ui_commands(UiEvent::ShowRequested), vec![WindowCommand::Show]);
    assert_eq!(ui_commands(UiEvent::ExitRequested), vec![WindowCommand::Exit { code: 0 }]);
    assert_eq!(
        ui_commands(UiEvent::PrimaryClickRequested),
        vec![WindowCommand::Show, WindowCommand::Unminimize, WindowCommand::SetFocus]
    );
}

#[test]
fn menus() {
    let menu = get_menu();
    assert_eq!(menu.len(), 2);
    match &menu[0] {
        MenuEntry::Submenu { title, entries } => {
            assert_eq!(title, "My app");
            assert!(matches!(entries[0], MenuEntry::Copy));
            match &entries[1] {
                MenuEntry::Submenu { title, entries } => {
                    assert_eq!(title, "Sub menu");
                    match &entries[0] {
                        MenuEntry::Item { item } => {
                            assert_eq!(item.id, "disable-menu");
                            assert_eq!(item.accelerator.as_deref(), Some("CmdOrControl+D"));
                        }
                        _ => panic!("expected an item"),
                    }
                }
                _ => panic!("expected a submenu"),
            }
        }
        _ => panic!("expected a submenu"),
    }
    match &menu[1] {
        MenuEntry::Submenu { title, entries } => {
            assert_eq!(title, "Other menu");
            assert_eq!(entries.len(), 3);
            assert!(matches!(entries[1], MenuEntry::Separator));
        }
        _ => panic!("expected a submenu"),
    }
    let tray = tray_menu();
    assert_eq!(tray[0].id, "show");
    assert_eq!(tray[0].title, "Show");
    assert_eq!(tray[1].id, "exit_app");
    assert_eq!(tray[1].title, "Quit");
}

#[test]
fn game_is_started_with_the_tokens() {
    let args = game_arguments("access".to_string(), "refresh".to_string());
    assert_eq!(args, vec!["Firebase", "access", "refresh"]);
}
