//! The commands that the user interface sends.
//!
//! A command reads or changes the registry and answers with the actions that the
//! caller has to perform on the windows and the timer, in the order given. The caller
//! reports what only it can know: whether the overlay window exists.

use crate::model::RegistryModel;
use crate::options::{
    items_view, text_view, ContextMenuOptions, MenuItem, MenuItemView, MenuRegion, OptionsView,
    SessionId, NO_SESSION,
};
use crate::registry::SessionRegistry;
use crate::scheduler::{cleanup_of, ScheduledCleanup};
use vstd::prelude::*;

verus! {

/// Something for the caller to do.
#[derive(Debug, Clone, Copy, PartialEq, Eq)]
pub enum MenuAction {
    /// Close the image preview popup. A failure to do so is ignored.
    CloseImagePreview,
    /// Show the overlay for `session_id` at `x`, `y`, in pixels relative to the
    /// caller, then wait for the session with [`SessionRegistry::poll_result`].
    ShowOverlay { session_id: SessionId, x: i32, y: i32, width: Option<i32> },
    /// Hide the overlay at once.
    HideOverlay,
    /// Start the timer of a cleanup.
    ScheduleCleanup(ScheduledCleanup),
}

/// Where the overlay window goes and how large it becomes. The position is in
/// physical pixels. The size is in logical units, in whatever number type the
/// caller measures them.
#[derive(Debug, PartialEq)]
pub struct OverlayGeometry<S> {
    pub x: i32,
    pub y: i32,
    pub width: S,
    pub height: S,
}

/// The text of the error for options that were never set or are gone.
pub open spec fn not_initialized_message() -> Seq<char> {
    "config not initialized"@
}

/// The text of the error for a registry that has handed out every identifier.
pub open spec fn sessions_exhausted_message() -> Seq<char> {
    "no session identifier left"@
}

/// What a request for the active session's options is answered with.
pub open spec fn options_reply(registry: RegistryModel) -> Result<OptionsView, Seq<char>> {
    match registry.active_options() {
        Some(options) => Ok(options),
        None => Err(not_initialized_message()),
    }
}

/// The options of a menu that is shown on request of the user interface: only the
/// items, the position, the width and the theme are given.
pub open spec fn menu_request(
    items: Seq<MenuItemView>,
    x: i32,
    y: i32,
    width: Option<i32>,
    theme: Option<Seq<char>>,
) -> OptionsView {
    OptionsView {
        items,
        x,
        y,
        cursor_x: 0,
        cursor_y: 0,
        width,
        theme,
        session_id: NO_SESSION,
        monitor_x: 0,
        monitor_y: 0,
        monitor_width: 0,
        monitor_height: 0,
        is_tray_menu: false,
        force_focus: false,
    }
}

/// The actions that show a menu: the image preview is closed first, a session that
/// the new one replaces gets its cleanup, and the overlay is shown for the new
/// session, placed by the caller-relative position of the options.
pub open spec fn show_actions(before: RegistryModel, options: OptionsView) -> Seq<MenuAction> {
    let show = MenuAction::ShowOverlay {
        session_id: before.next_id(),
        x: options.x,
        y: options.y,
        width: options.width,
    };
    if before.active == NO_SESSION {
        seq![MenuAction::CloseImagePreview, show]
    } else {
        seq![
            MenuAction::CloseImagePreview,
            MenuAction::ScheduleCleanup(cleanup_of(before.active)),
            show,
        ]
    }
}

/// The actions that follow a result: the cleanup of the session that was active when
/// the result came in.
pub open spec fn submit_actions(before: RegistryModel) -> Seq<MenuAction> {
    seq![MenuAction::ScheduleCleanup(cleanup_of(before.active))]
}

/// The actions that close every menu. The image preview is closed in any case.
/// Without an overlay window that is all.
pub open spec fn close_all_actions(registry: RegistryModel, overlay_present: bool) -> Seq<
    MenuAction,
> {
    if overlay_present {
        seq![
            MenuAction::CloseImagePreview,
            MenuAction::HideOverlay,
            MenuAction::ScheduleCleanup(cleanup_of(registry.active)),
        ]
    } else {
        seq![MenuAction::CloseImagePreview]
    }
}

/// The options of the active session, or the error "config not initialized" when
/// none are cached for it.
pub fn get_context_menu_options(registry: &SessionRegistry) -> (reply: Result<
    ContextMenuOptions,
    String,
>)
    ensures
        match reply {
            Ok(options) => options_reply(registry@) == Ok::<OptionsView, Seq<char>>(options@),
            Err(message) => options_reply(registry@) == Err::<OptionsView, Seq<char>>(message@),
        },
{
    match registry.get_options() {
        Some(options) => Ok(options.clone()),
        None => Err("config not initialized".to_owned()),
    }
}

/// Takes over the regions that the user interface measured after laying the menu
/// out. See [`SessionRegistry::update_menu_regions`].
pub fn update_context_menu_regions(
    registry: &mut SessionRegistry,
    main_menu: MenuRegion,
    submenus: Vec<MenuRegion>,
)
    ensures
        final(registry)@ == old(registry)@.update_regions(main_menu, submenus@),
        final(registry)@.wf(),
{
    registry.update_menu_regions(main_menu, submenus);
}

/// Takes the user's answer for the active session: the chosen item, or `None` for a
/// dismissal. The session is cleaned up after the grace delay, whatever has become
/// active by then.
pub fn submit_context_menu(registry: &mut SessionRegistry, item_id: Option<String>) -> (actions:
    Vec<MenuAction>)
    ensures
        final(registry)@ == old(registry)@.set_result(text_view(item_id)),
        final(registry)@.wf(),
        actions@ == submit_actions(old(registry)@),
{
    let session_id: SessionId = registry.get_active_menu_session();
    registry.set_result(item_id);
    let mut actions: Vec<MenuAction> = Vec::new();
    actions.push(MenuAction::ScheduleCleanup(ScheduledCleanup::for_session(session_id)));
    assert(actions@ =~= submit_actions(old(registry)@));
    actions
}

/// Opens a session with `options` and says how to present it. The new session is the
/// active one from here on; one that was active before is replaced and cleaned up
/// after the grace delay. The error is "no session identifier left"; the registry is
/// then unchanged.
pub fn show_menu(registry: &mut SessionRegistry, options: ContextMenuOptions) -> (shown: Result<
    Vec<MenuAction>,
    String,
>)
    ensures
        match shown {
            Ok(actions) => {
                &&& old(registry)@.can_open()
                &&& final(registry)@ == old(registry)@.open(options@)
                &&& actions@ == show_actions(old(registry)@, options@)
            },
            Err(message) => {
                &&& !old(registry)@.can_open()
                &&& final(registry)@ == old(registry)@
                &&& message@ == sessions_exhausted_message()
            },
        },
        final(registry)@.wf(),
{
    let replaced: SessionId = registry.get_active_menu_session();
    let x: i32 = options.x;
    let y: i32 = options.y;
    let width: Option<i32> = options.width;
    match registry.open_session(options) {
        Some(session_id) => {
            let mut actions: Vec<MenuAction> = Vec::new();
            actions.push(MenuAction::CloseImagePreview);
            if replaced != NO_SESSION {
                actions.push(MenuAction::ScheduleCleanup(ScheduledCleanup::for_session(replaced)));
            }
            actions.push(MenuAction::ShowOverlay { session_id, x, y, width });
            assert(actions@ =~= show_actions(old(registry)@, options@));
            Ok(actions)
        },
        None => Err("no session identifier left".to_owned()),
    }
}

/// Shows a menu of `items` at `x`, `y`. The remaining options start out neutral:
/// cursor and monitor at zero, no tray menu, no forced focus. See [`show_menu`].
pub fn show_context_menu(
    registry: &mut SessionRegistry,
    items: Vec<MenuItem>,
    x: i32,
    y: i32,
    width: Option<i32>,
    theme: Option<String>,
) -> (shown: Result<Vec<MenuAction>, String>)
    ensures
        match shown {
            Ok(actions) => {
                &&& old(registry)@.can_open()
                &&& final(registry)@ == old(registry)@.open(
                    menu_request(items_view(items@), x, y, width, text_view(theme)),
                )
                &&& actions@ == show_actions(
                    old(registry)@,
                    menu_request(items_view(items@), x, y, width, text_view(theme)),
                )
            },
            Err(message) => {
                &&& !old(registry)@.can_open()
                &&& final(registry)@ == old(registry)@
                &&& message@ == sessions_exhausted_message()
            },
        },
        final(registry)@.wf(),
{
    show_menu(
        registry,
        ContextMenuOptions {
            items,
            x,
            y,
            cursor_x: 0,
            cursor_y: 0,
            width,
            theme,
            session_id: NO_SESSION,
            monitor_x: 0,
            monitor_y: 0,
            monitor_width: 0,
            monitor_height: 0,
            is_tray_menu: false,
            force_focus: false,
        },
    )
}

/// Closes every menu. With an overlay window, it is hidden at once and the active
/// session is cleaned up after the grace delay. The registry itself is not touched
/// before that cleanup runs.
pub fn close_all_context_menus(registry: &SessionRegistry, overlay_present: bool) -> (actions: Vec<
    MenuAction,
>)
    ensures
        actions@ == close_all_actions(registry@, overlay_present),
{
    let mut actions: Vec<MenuAction> = Vec::new();
    actions.push(MenuAction::CloseImagePreview);
    if overlay_present {
        let session_id: SessionId = registry.get_active_menu_session();
        actions.push(MenuAction::HideOverlay);
        actions.push(MenuAction::ScheduleCleanup(ScheduledCleanup::for_session(session_id)));
    }
    assert(actions@ =~= close_all_actions(registry@, overlay_present));
    actions
}

/// Moves the overlay to `x`, `y` and gives it the size `width` by `height`. Without
/// an overlay window there is nothing to do, and that is no error.
pub fn resize_context_menu<S>(overlay_present: bool, width: S, height: S, x: i32, y: i32) -> (plan:
    Option<OverlayGeometry<S>>)
    ensures
        plan == if overlay_present {
            Some(OverlayGeometry { x, y, width, height })
        } else {
            None
        },
{
    if overlay_present {
        Some(OverlayGeometry { x, y, width, height })
    } else {
        None
    }
}

} // verus!
