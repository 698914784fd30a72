//! The data that travels with a menu session, and its mathematical view.

use vstd::prelude::*;

verus! {

/// Identifies a menu session. Identifiers are handed out in increasing order.
pub type SessionId = u64;

/// The identifier that stands for "no session".
pub const NO_SESSION: SessionId = 0;

/// One entry of a menu. The registry stores entries and hands them back unread.
#[derive(Debug, PartialEq, Eq)]
pub struct MenuItem {
    pub id: String,
    pub label: String,
}

/// View of a [`MenuItem`].
pub struct MenuItemView {
    pub id: Seq<char>,
    pub label: Seq<char>,
}

impl View for MenuItem {
    type V = MenuItemView;

    open spec fn view(&self) -> MenuItemView {
        MenuItemView { id: self.id@, label: self.label@ }
    }
}

impl Clone for MenuItem {
    fn clone(&self) -> (copy: Self)
        ensures
            copy@ == self@,
    {
        MenuItem { id: self.id.clone(), label: self.label.clone() }
    }
}

/// The views of a sequence of items, in order.
pub open spec fn items_view(items: Seq<MenuItem>) -> Seq<MenuItemView> {
    Seq::new(items.len(), |i: int| items[i]@)
}

/// View of an optional string.
pub open spec fn text_view(text: Option<String>) -> Option<Seq<char>> {
    match text {
        Some(s) => Some(s@),
        None => None,
    }
}

/// Copies an optional string.
pub fn clone_text(text: &Option<String>) -> (copy: Option<String>)
    ensures
        text_view(copy) == text_view(*text),
{
    match text {
        Some(s) => Some(s.clone()),
        None => None,
    }
}

/// Copies a list of items.
pub fn clone_items(items: &Vec<MenuItem>) -> (copy: Vec<MenuItem>)
    ensures
        items_view(copy@) == items_view(items@),
{
    let mut copy: Vec<MenuItem> = Vec::new();
    let mut i: usize = 0;
    while i < items.len()
        invariant
            i <= items.len(),
            copy.len() == i,
            forall|k: int| 0 <= k < i ==> copy@[k]@ == items@[k]@,
        decreases items.len() - i,
    {
        copy.push(items[i].clone());
        i = i + 1;
    }
    assert(items_view(copy@) =~= items_view(items@));
    copy
}

/// What a menu session was opened with.
///
/// `x` and `y` place the overlay, in pixels relative to the caller. The cursor and
/// monitor fields are hints for whoever lays the menu out; nothing here reads them.
#[derive(Debug, PartialEq, Eq)]
pub struct ContextMenuOptions {
    pub items: Vec<MenuItem>,
    pub x: i32,
    pub y: i32,
    pub cursor_x: i32,
    pub cursor_y: i32,
    pub width: Option<i32>,
    pub theme: Option<String>,
    pub session_id: SessionId,
    pub monitor_x: i32,
    pub monitor_y: i32,
    pub monitor_width: u32,
    pub monitor_height: u32,
    pub is_tray_menu: bool,
    pub force_focus: bool,
}

/// View of [`ContextMenuOptions`].
pub struct OptionsView {
    pub items: Seq<MenuItemView>,
    pub x: i32,
    pub y: i32,
    pub cursor_x: i32,
    pub cursor_y: i32,
    pub width: Option<i32>,
    pub theme: Option<Seq<char>>,
    pub session_id: SessionId,
    pub monitor_x: i32,
    pub monitor_y: i32,
    pub monitor_width: u32,
    pub monitor_height: u32,
    pub is_tray_menu: bool,
    pub force_focus: bool,
}

impl OptionsView {
    /// The same options, owned by session `id`.
    pub open spec fn owned_by(self, id: SessionId) -> OptionsView {
        OptionsView { session_id: id, ..self }
    }
}

impl View for ContextMenuOptions {
    type V = OptionsView;

    open spec fn view(&self) -> OptionsView {
        OptionsView {
            items: items_view(self.items@),
            x: self.x,
            y: self.y,
            cursor_x: self.cursor_x,
            cursor_y: self.cursor_y,
            width: self.width,
            theme: text_view(self.theme),
            session_id: self.session_id,
            monitor_x: self.monitor_x,
            monitor_y: self.monitor_y,
            monitor_width: self.monitor_width,
            monitor_height: self.monitor_height,
            is_tray_menu: self.is_tray_menu,
            force_focus: self.force_focus,
        }
    }
}

impl Clone for ContextMenuOptions {
    fn clone(&self) -> (copy: Self)
        ensures
            copy@ == self@,
    {
        ContextMenuOptions {
            items: clone_items(&self.items),
            x: self.x,
            y: self.y,
            cursor_x: self.cursor_x,
            cursor_y: self.cursor_y,
            width: self.width,
            theme: clone_text(&self.theme),
            session_id: self.session_id,
            monitor_x: self.monitor_x,
            monitor_y: self.monitor_y,
            monitor_width: self.monitor_width,
            monitor_height: self.monitor_height,
            is_tray_menu: self.is_tray_menu,
            force_focus: self.force_focus,
        }
    }
}

/// A rectangle on screen: where it starts and how far it reaches.
#[derive(Debug, Clone, Copy, PartialEq, Eq)]
pub struct MenuRegion {
    pub x: i32,
    pub y: i32,
    pub width: u32,
    pub height: u32,
}

/// Where the rendered menu lies: the main menu, once it is known, and its submenus.
#[derive(Debug, PartialEq, Eq)]
pub struct MenuRegions {
    pub main_menu: Option<MenuRegion>,
    pub submenus: Vec<MenuRegion>,
}

/// View of [`MenuRegions`].
pub struct RegionsView {
    pub main_menu: Option<MenuRegion>,
    pub submenus: Seq<MenuRegion>,
}

impl RegionsView {
    /// No region is known yet.
    pub open spec fn unknown() -> RegionsView {
        RegionsView { main_menu: None, submenus: Seq::empty() }
    }
}

impl View for MenuRegions {
    type V = RegionsView;

    open spec fn view(&self) -> RegionsView {
        RegionsView { main_menu: self.main_menu, submenus: self.submenus@ }
    }
}

impl MenuRegions {
    /// The regions of a menu that has not been laid out.
    pub fn unknown() -> (regions: Self)
        ensures
            regions@ == RegionsView::unknown(),
    {
        MenuRegions { main_menu: None, submenus: Vec::new() }
    }
}

} // verus!
