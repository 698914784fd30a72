use context_menu::commands::{
    close_all_context_menus, get_context_menu_options, resize_context_menu, show_context_menu,
    show_menu, submit_context_menu, update_context_menu_regions, MenuAction, OverlayGeometry,
};
use context_menu::options::{ContextMenuOptions, MenuItem, MenuRegion, MenuRegions};
use context_menu::registry::{MenuPoll, SessionRegistry};
use context_menu::scheduler::ScheduledCleanup;

fn item(id: &str) -> MenuItem {
    MenuItem { id: id.to_string(), label: id.to_string() }
}

fn edit_items() -> Vec<MenuItem> {
    vec![item("Cut"), item("Copy"), item("Paste")]
}

fn cleanup(session_id: u64) -> MenuAction {
    MenuAction::ScheduleCleanup(ScheduledCleanup { session_id, delay_ms: 200 })
}

fn run(registry: &mut SessionRegistry, actions: &[MenuAction]) {
    for action in actions {
        if let MenuAction::ScheduleCleanup(scheduled) = action {
            scheduled.run(registry);
        }
    }
}

#[test]
fn options_before_any_menu_are_not_initialized() {
    let registry = SessionRegistry::new();
    assert_eq!(get_context_menu_options(&registry), Err("config not initialized".to_string()));
}

#[test]
fn show_context_menu_opens_first_session() {
    let mut registry = SessionRegistry::new();
    let actions = show_context_menu(&mut registry, edit_items(), 100, 100, None, None).unwrap();
    assert_eq!(
        actions,
        vec![
            MenuAction::CloseImagePreview,
            MenuAction::ShowOverlay { session_id: 1, x: 100, y: 100, width: None },
        ]
    );
    assert_eq!(registry.get_active_menu_session(), 1);
}

#[test]
fn show_context_menu_fills_in_neutral_options() {
    let mut registry = SessionRegistry::new();
    show_context_menu(
        &mut registry,
        edit_items(),
        -5,
        640,
        Some(220),
        Some("light".to_string()),
    )
    .unwrap();
    let expected = ContextMenuOptions {
        items: edit_items(),
        x: -5,
        y: 640,
        cursor_x: 0,
        cursor_y: 0,
        width: Some(220),
        theme: Some("light".to_string()),
        session_id: 1,
        monitor_x: 0,
        monitor_y: 0,
        monitor_width: 0,
        monitor_height: 0,
        is_tray_menu: false,
        force_focus: false,
    };
    assert_eq!(get_context_menu_options(&registry), Ok(expected));
}

#[test]
fn show_context_menu_replaces_the_open_menu() {
    let mut registry = SessionRegistry::new();
    show_context_menu(&mut registry, edit_items(), 1, 2, None, None).unwrap();
    let actions = show_context_menu(&mut registry, vec![item("Open")], 3, 4, Some(90), None).unwrap();
    assert_eq!(
        actions,
        vec![
            MenuAction::CloseImagePreview,
            cleanup(1),
            MenuAction::ShowOverlay { session_id: 2, x: 3, y: 4, width: Some(90) },
        ]
    );
    assert_eq!(registry.get_active_menu_session(), 2);
    assert_eq!(registry.poll_result(1), MenuPoll::Resolved(None));
    assert_eq!(registry.poll_result(2), MenuPoll::Pending);
    run(&mut registry, &actions);
    assert_eq!(registry.get_active_menu_session(), 2);
    assert!(registry.options_for_session(1).is_none());
    assert_eq!(get_context_menu_options(&registry).unwrap().items, vec![item("Open")]);
}

#[test]
fn show_menu_places_overlay_by_caller_relative_position() {
    let mut registry = SessionRegistry::new();
    let options = ContextMenuOptions {
        items: edit_items(),
        x: 40,
        y: 50,
        cursor_x: 900,
        cursor_y: 800,
        width: Some(150),
        theme: None,
        session_id: 0,
        monitor_x: 1920,
        monitor_y: 0,
        monitor_width: 2560,
        monitor_height: 1440,
        is_tray_menu: true,
        force_focus: true,
    };
    let actions = show_menu(&mut registry, options).unwrap();
    assert_eq!(
        actions,
        vec![
            MenuAction::CloseImagePreview,
            MenuAction::ShowOverlay { session_id: 1, x: 40, y: 50, width: Some(150) },
        ]
    );
    let cached = get_context_menu_options(&registry).unwrap();
    assert_eq!(cached.monitor_x, 1920);
    assert_eq!(cached.monitor_width, 2560);
    assert_eq!(cached.cursor_y, 800);
    assert!(cached.is_tray_menu);
    assert!(cached.force_focus);
    assert_eq!(cached.session_id, 1);
}

#[test]
fn show_context_menu_fails_without_identifier() {
    let mut registry = SessionRegistry::starting_after(u64::MAX);
    assert_eq!(
        show_context_menu(&mut registry, edit_items(), 0, 0, None, None),
        Err("no session identifier left".to_string())
    );
    assert_eq!(registry.get_active_menu_session(), 0);
    assert_eq!(get_context_menu_options(&registry), Err("config not initialized".to_string()));
}

#[test]
fn submit_schedules_cleanup_of_the_active_session() {
    let mut registry = SessionRegistry::new();
    show_context_menu(&mut registry, edit_items(), 0, 0, None, None).unwrap();
    let actions = submit_context_menu(&mut registry, Some("Paste".to_string()));
    assert_eq!(actions, vec![cleanup(1)]);
    assert_eq!(registry.get_active_menu_session(), 1);
    assert!(get_context_menu_options(&registry).is_ok());
}

#[test]
fn submit_without_session_schedules_an_empty_cleanup() {
    let mut registry = SessionRegistry::new();
    let actions = submit_context_menu(&mut registry, Some("Paste".to_string()));
    assert_eq!(actions, vec![cleanup(0)]);
    run(&mut registry, &actions);
    assert_eq!(registry.get_active_menu_session(), 0);
    show_context_menu(&mut registry, edit_items(), 0, 0, None, None).unwrap();
    assert_eq!(registry.poll_result(1), MenuPoll::Pending);
}

#[test]
fn submitted_item_resolves_the_waiting_show() {
    let mut registry = SessionRegistry::new();
    show_context_menu(&mut registry, edit_items(), 0, 0, None, None).unwrap();
    show_context_menu(&mut registry, edit_items(), 0, 0, None, None).unwrap();
    submit_context_menu(&mut registry, Some("Cut".to_string()));
    assert_eq!(registry.poll_result(1), MenuPoll::Resolved(None));
    assert_eq!(registry.poll_result(2), MenuPoll::Resolved(Some("Cut".to_string())));
}

#[test]
fn submitted_dismissal_resolves_without_item() {
    let mut registry = SessionRegistry::new();
    show_context_menu(&mut registry, edit_items(), 0, 0, None, None).unwrap();
    submit_context_menu(&mut registry, None);
    assert_eq!(registry.poll_result(1), MenuPoll::Resolved(None));
}

#[test]
fn second_submit_does_not_replace_the_first() {
    let mut registry = SessionRegistry::new();
    show_context_menu(&mut registry, edit_items(), 0, 0, None, None).unwrap();
    submit_context_menu(&mut registry, Some("Cut".to_string()));
    let again = submit_context_menu(&mut registry, Some("Paste".to_string()));
    assert_eq!(again, vec![cleanup(1)]);
    assert_eq!(registry.poll_result(1), MenuPoll::Resolved(Some("Cut".to_string())));
}

#[test]
fn submit_cleanup_spares_a_menu_shown_in_the_meantime() {
    let mut registry = SessionRegistry::new();
    show_context_menu(&mut registry, edit_items(), 0, 0, None, None).unwrap();
    let after_submit = submit_context_menu(&mut registry, Some("Copy".to_string()));
    show_context_menu(&mut registry, vec![item("Open")], 9, 9, None, None).unwrap();
    run(&mut registry, &after_submit);
    assert_eq!(registry.get_active_menu_session(), 2);
    assert_eq!(get_context_menu_options(&registry).unwrap().x, 9);
    assert!(registry.options_for_session(1).is_none());
}

#[test]
fn close_all_with_overlay_hides_and_schedules_cleanup() {
    let mut registry = SessionRegistry::new();
    show_context_menu(&mut registry, edit_items(), 0, 0, None, None).unwrap();
    let actions = close_all_context_menus(&registry, true);
    assert_eq!(actions, vec![MenuAction::CloseImagePreview, MenuAction::HideOverlay, cleanup(1)]);
    assert_eq!(registry.get_active_menu_session(), 1);
    assert!(get_context_menu_options(&registry).is_ok());
}

#[test]
fn close_all_without_overlay_only_closes_the_preview() {
    let mut registry = SessionRegistry::new();
    assert_eq!(close_all_context_menus(&registry, false), vec![MenuAction::CloseImagePreview]);
    show_context_menu(&mut registry, edit_items(), 0, 0, None, None).unwrap();
    assert_eq!(close_all_context_menus(&registry, false), vec![MenuAction::CloseImagePreview]);
    assert_eq!(registry.get_active_menu_session(), 1);
}

#[test]
fn close_all_without_session_schedules_an_empty_cleanup() {
    let mut registry = SessionRegistry::new();
    let actions = close_all_context_menus(&registry, true);
    assert_eq!(actions, vec![MenuAction::CloseImagePreview, MenuAction::HideOverlay, cleanup(0)]);
    run(&mut registry, &actions);
    assert_eq!(registry.get_active_menu_session(), 0);
}

#[test]
fn options_are_gone_after_close_all_and_cleanup() {
    let mut registry = SessionRegistry::new();
    show_context_menu(&mut registry, edit_items(), 0, 0, None, None).unwrap();
    let actions = close_all_context_menus(&registry, true);
    assert_eq!(registry.poll_result(1), MenuPoll::Pending);
    run(&mut registry, &actions);
    assert_eq!(get_context_menu_options(&registry), Err("config not initialized".to_string()));
    assert_eq!(registry.get_active_menu_session(), 0);
    assert_eq!(registry.poll_result(1), MenuPoll::Resolved(None));
}

#[test]
fn close_all_twice_is_harmless() {
    let mut registry = SessionRegistry::new();
    show_context_menu(&mut registry, edit_items(), 0, 0, None, None).unwrap();
    let first = close_all_context_menus(&registry, true);
    let second = close_all_context_menus(&registry, true);
    run(&mut registry, &first);
    run(&mut registry, &second);
    assert_eq!(registry.get_active_menu_session(), 0);
    assert_eq!(get_context_menu_options(&registry), Err("config not initialized".to_string()));
}

#[test]
fn close_all_cleanup_spares_a_menu_shown_in_the_meantime() {
    let mut registry = SessionRegistry::new();
    show_context_menu(&mut registry, edit_items(), 0, 0, None, None).unwrap();
    let closing = close_all_context_menus(&registry, true);
    show_context_menu(&mut registry, vec![item("Open")], 7, 7, None, None).unwrap();
    run(&mut registry, &closing);
    assert_eq!(registry.get_active_menu_session(), 2);
    assert_eq!(get_context_menu_options(&registry).unwrap().x, 7);
}

#[test]
fn update_regions_keeps_the_options() {
    let mut registry = SessionRegistry::new();
    show_context_menu(&mut registry, edit_items(), 12, 34, None, None).unwrap();
    let before = get_context_menu_options(&registry).unwrap();
    let main_menu = MenuRegion { x: 12, y: 34, width: 200, height: 96 };
    let submenus = vec![MenuRegion { x: 212, y: 60, width: 180, height: 64 }];
    update_context_menu_regions(&mut registry, main_menu, submenus.clone());
    assert_eq!(get_context_menu_options(&registry).unwrap(), before);
    assert_eq!(registry.get_active_menu_session(), 1);
    assert_eq!(
        registry.get_menu_regions(),
        Some(&MenuRegions { main_menu: Some(main_menu), submenus })
    );
}

#[test]
fn update_regions_without_menu_is_ignored() {
    let mut registry = SessionRegistry::new();
    update_context_menu_regions(
        &mut registry,
        MenuRegion { x: 0, y: 0, width: 1, height: 1 },
        vec![],
    );
    assert!(registry.get_menu_regions().is_none());
    assert_eq!(get_context_menu_options(&registry), Err("config not initialized".to_string()));
}

#[test]
fn resize_without_overlay_does_nothing() {
    assert_eq!(resize_context_menu(false, 240.5_f64, 120.25_f64, 10, 20), None);
    assert_eq!(resize_context_menu(false, 0_u32, 0_u32, -1, -1), None);
}

#[test]
fn resize_with_overlay_moves_and_sizes_it() {
    assert_eq!(
        resize_context_menu(true, 240.5_f64, 120.25_f64, 10, -20),
        Some(OverlayGeometry { x: 10, y: -20, width: 240.5, height: 120.25 })
    );
    assert_eq!(
        resize_context_menu(true, 300_u32, 150_u32, i32::MIN, i32::MAX),
        Some(OverlayGeometry { x: i32::MIN, y: i32::MAX, width: 300, height: 150 })
    );
}

#[test]
fn cut_copy_paste_scenario() {
    let mut registry = SessionRegistry::new();
    let shown = show_context_menu(&mut registry, edit_items(), 100, 100, None, None).unwrap();
    let session = match shown[shown.len() - 1] {
        MenuAction::ShowOverlay { session_id, x, y, width } => {
            assert_eq!((x, y, width), (100, 100, None));
            session_id
        }
        other => panic!("unexpected action {:?}", other),
    };
    assert_eq!(session, registry.get_active_menu_session());
    assert_eq!(registry.poll_result(session), MenuPoll::Pending);
    assert_eq!(get_context_menu_options(&registry).unwrap().items, edit_items());

    let after_submit = submit_context_menu(&mut registry, Some("Copy".to_string()));
    assert_eq!(after_submit, vec![cleanup(session)]);
    assert_eq!(registry.poll_result(session), MenuPoll::Resolved(Some("Copy".to_string())));
    assert!(registry.options_for_session(session).is_some());

    run(&mut registry, &after_submit);
    assert!(registry.options_for_session(session).is_none());
    assert_eq!(get_context_menu_options(&registry), Err("config not initialized".to_string()));
}
