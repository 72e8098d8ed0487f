use vstd::prelude::*;

use crate::event_types::{EventUpdate, MenuStatus, TextDirection, ToggleState};
use crate::menu::MenuTree;
use crate::notifier::{Category, IconPixmap, NotifierStatus, ToolTip};
use crate::service::MenuService;

verus! {

/// The error type that handlers report to the bus.
/// Relies on zbus::fdo::Error only as an opaque value passed through.
#[verifier::external_type_specification]
#[verifier::external_body]
pub struct ExFdoError(zbus::fdo::Error);

/// A tray icon with its menu, built up one capability at a time. `tray` makes one in
/// which every optional capability has its inert default; each `with_` method returns
/// the same tray with that one capability replaced and everything else kept.
/// Every capability is a closure: properties are read from the icon's state `S` or the
/// menu's state `MS` each time a client asks, so they follow the program as it runs;
/// event handlers act on those states. Menu entries carry messages of type `Msg`.
pub struct Tray<S, MS, Msg, Ttl, Tip, Thp, Icn, Ipx, Ain, Aip, Amn, Oin, Oip, Iim, Cat, Sts, Wid, Mst, Tdr, Mtp, Act, Sec, Ctx, Scr, Clk, Tog, Ats, Atg> {
    /// A name for the icon that stays the same while the program runs.
    pub id: String,
    /// The icon's own state, handed to its capabilities.
    pub state: S,
    /// The menu's own state, handed to its capabilities.
    pub menu_state: MS,
    /// The menu tree and its revision.
    pub menu: MenuService<Msg>,
    /// Gives the title, from the icon's state.
    pub title: Ttl,
    /// Gives the tooltip, from the icon's state.
    pub tool_tip: Tip,
    /// Gives an extra icon theme directory for the icon, from the icon's state.
    pub tray_icon_theme_path: Thp,
    /// Gives the icon by theme name, from the icon's state.
    pub icon_name: Icn,
    /// Gives the icon as images, from the icon's state.
    pub icon_pixmap: Ipx,
    /// Gives the icon shown while asking for attention, by theme name, from the icon's
    /// state.
    pub attention_icon_name: Ain,
    /// Gives the icon shown while asking for attention, as images, from the icon's state.
    pub attention_icon_pixmap: Aip,
    /// Gives an animation shown while asking for attention, from the icon's state.
    pub attention_movie_name: Amn,
    /// Gives an icon drawn over the main one, by theme name, from the icon's state.
    pub overlay_icon_name: Oin,
    /// Gives an icon drawn over the main one, as images, from the icon's state.
    pub overlay_icon_pixmap: Oip,
    /// Gives whether a primary click opens the menu rather than activating, from the icon's
    /// state.
    pub item_is_menu: Iim,
    /// Gives what kind of program the icon belongs to.
    pub category: Cat,
    /// Gives how much the icon asks for attention, from the icon's state.
    pub tray_status: Sts,
    /// Gives the window the icon belongs to, from the icon's state.
    pub window_id: Wid,
    /// Gives the menu's status, from the menu's state.
    pub menu_status: Mst,
    /// Gives the menu's text direction, from the menu's state.
    pub text_direction: Tdr,
    /// Gives extra icon theme directories for the menu, from the menu's state.
    pub menu_icon_theme_path: Mtp,
    /// Handles a primary click on the icon at a screen position.
    pub activate: Act,
    /// Handles a secondary (middle) click on the icon at a screen position.
    pub secondary_activate: Sec,
    /// Handles a request for a context menu at a screen position.
    pub context_menu: Ctx,
    /// Handles a scroll over the icon, by a delta along an orientation.
    pub scroll: Scr,
    /// Handles a click on a menu entry, with the entry's message and a timestamp.
    pub on_clicked: Clk,
    /// Handles a change of a menu entry's toggle state, with the entry's message, the new
    /// state and a timestamp.
    pub on_toggled: Tog,
    /// Handles the notice that the submenu `id` is about to open; true asks the client to
    /// fetch the layout again.
    pub about_to_show: Ats,
    /// Handles the notice that several submenus are about to open; returns the ids that
    /// need a new layout and those that do not.
    pub about_to_show_group: Atg,
}

fn no_text<S>(state: &S) -> (r: String)
    ensures
        r@.len() == 0,
{
    String::new()
}

fn no_tool_tip<S>(state: &S) -> (r: ToolTip)
    ensures
        r.icon_name@.len() == 0 && r.icon_pixmap@.len() == 0 && r.title@.len() == 0
            && r.description@.len() == 0,
{
    ToolTip::default()
}

fn no_pixmaps<S>(state: &S) -> (r: Vec<IconPixmap>)
    ensures
        r@.len() == 0,
{
    Vec::new()
}

fn not_menu<S>(state: &S) -> (r: bool)
    ensures
        !r,
{
    false
}

fn application_status() -> (r: Category)
    ensures
        r == Category::ApplicationStatus,
{
    Category::ApplicationStatus
}

fn active_status<S>(state: &S) -> (r: NotifierStatus)
    ensures
        r == NotifierStatus::Active,
{
    NotifierStatus::Active
}

fn no_window<S>(state: &S) -> (r: i32)
    ensures
        r == 0,
{
    0
}

fn normal_status<MS>(state: &MS) -> (r: MenuStatus)
    ensures
        r == MenuStatus::Normal,
{
    MenuStatus::Normal
}

fn inherit_direction<MS>(state: &MS) -> (r: TextDirection)
    ensures
        r == TextDirection::Inherit,
{
    TextDirection::Inherit
}

fn no_paths<MS>(state: &MS) -> (r: Vec<String>)
    ensures
        r@.len() == 0,
{
    Vec::new()
}

fn inert_pointer<S>(state: &mut S, x: i32, y: i32) -> (r: Result<(), zbus::fdo::Error>)
    ensures
        *final(state) == *old(state),
        r is Ok,
{
    Ok(())
}

fn inert_scroll<S>(state: &mut S, delta: i32, orientation: &str) -> (r: Result<
    (),
    zbus::fdo::Error,
>)
    ensures
        *final(state) == *old(state),
        r is Ok,
{
    Ok(())
}

fn inert_clicked<MS, Msg>(state: &mut MS, message: &Msg, timestamp: u32) -> (r: EventUpdate)
    ensures
        *final(state) == *old(state),
        r == EventUpdate::NoUpdate,
{
    EventUpdate::NoUpdate
}

fn inert_toggled<MS, Msg>(
    state: &mut MS,
    message: &Msg,
    toggle: ToggleState,
    timestamp: u32,
) -> (r: EventUpdate)
    ensures
        *final(state) == *old(state),
        r == EventUpdate::NoUpdate,
{
    EventUpdate::NoUpdate
}

fn inert_about_to_show<MS>(state: &mut MS, id: i32) -> (r: bool)
    ensures
        !r,
        *final(state) == *old(state),
{
    false
}

fn inert_about_to_show_group<MS>(state: &mut MS, ids: Vec<i32>) -> (r: Result<
    (Vec<i32>, Vec<i32>),
    zbus::fdo::Error,
>)
    ensures
        *final(state) == *old(state),
        r matches Ok((a, b)) && a@.len() == 0 && b@.len() == 0,
{
    Ok((Vec::new(), Vec::new()))
}

/// A tray with the given identity, states, title and menu. Every other capability
/// has its inert default: properties give empty text and lists, `false`, 0, the
/// `ApplicationStatus` category, an `Active` status, a `Normal` menu status and an
/// inherited text direction; pointer and scroll events succeed, menu events report no
/// update, and no submenu asks to be fetched again. The menu starts at revision 0.
pub fn tray<S, MS, Msg, Ttl>(
    state: S,
    id: String,
    title: Ttl,
    menu_state: MS,
    menu: MenuTree<Msg>,
) -> (r: Tray<
    S,
    MS,
    Msg,
    Ttl,
    impl Fn(&S) -> ToolTip,
    impl Fn(&S) -> String,
    impl Fn(&S) -> String,
    impl Fn(&S) -> Vec<IconPixmap>,
    impl Fn(&S) -> String,
    impl Fn(&S) -> Vec<IconPixmap>,
    impl Fn(&S) -> String,
    impl Fn(&S) -> String,
    impl Fn(&S) -> Vec<IconPixmap>,
    impl Fn(&S) -> bool,
    impl Fn() -> Category,
    impl Fn(&S) -> NotifierStatus,
    impl Fn(&S) -> i32,
    impl Fn(&MS) -> MenuStatus,
    impl Fn(&MS) -> TextDirection,
    impl Fn(&MS) -> Vec<String>,
    impl Fn(&mut S, i32, i32) -> Result<(), zbus::fdo::Error>,
    impl Fn(&mut S, i32, i32) -> Result<(), zbus::fdo::Error>,
    impl Fn(&mut S, i32, i32) -> Result<(), zbus::fdo::Error>,
    impl Fn(&mut S, i32, &str) -> Result<(), zbus::fdo::Error>,
    impl Fn(&mut MS, &Msg, u32) -> EventUpdate,
    impl Fn(&mut MS, &Msg, ToggleState, u32) -> EventUpdate,
    impl Fn(&mut MS, i32) -> bool,
    impl Fn(&mut MS, Vec<i32>) -> Result<(Vec<i32>, Vec<i32>), zbus::fdo::Error>,
>)
    where
        Ttl: Fn(&S) -> String,
    ensures
        r.id == id,
        r.title == title,
        r.state == state,
        r.menu_state == menu_state,
        r.menu.spec_tree() == menu@,
        r.menu.spec_revision() == 0,
        forall|s: &S, out: ToolTip| call_ensures(r.tool_tip, (s,), out) ==> out.icon_name@.len() == 0 && out.icon_pixmap@.len() == 0 && out.title@.len() == 0 && out.description@.len() == 0,
        forall|s: &S, out: String| call_ensures(r.tray_icon_theme_path, (s,), out) ==> out@.len() == 0,
        forall|s: &S, out: String| call_ensures(r.icon_name, (s,), out) ==> out@.len() == 0,
        forall|s: &S, out: Vec<IconPixmap>| call_ensures(r.icon_pixmap, (s,), out) ==> out@.len() == 0,
        forall|s: &S, out: String| call_ensures(r.attention_icon_name, (s,), out) ==> out@.len() == 0,
        forall|s: &S, out: Vec<IconPixmap>| call_ensures(r.attention_icon_pixmap, (s,), out) ==> out@.len() == 0,
        forall|s: &S, out: String| call_ensures(r.attention_movie_name, (s,), out) ==> out@.len() == 0,
        forall|s: &S, out: String| call_ensures(r.overlay_icon_name, (s,), out) ==> out@.len() == 0,
        forall|s: &S, out: Vec<IconPixmap>| call_ensures(r.overlay_icon_pixmap, (s,), out) ==> out@.len() == 0,
        forall|s: &S, out: bool| call_ensures(r.item_is_menu, (s,), out) ==> !out,
        forall|out: Category| call_ensures(r.category, (), out) ==> out == Category::ApplicationStatus,
        forall|s: &S, out: NotifierStatus| call_ensures(r.tray_status, (s,), out) ==> out == NotifierStatus::Active,
        forall|s: &S, out: i32| call_ensures(r.window_id, (s,), out) ==> out == 0,
        forall|s: &MS, out: MenuStatus| call_ensures(r.menu_status, (s,), out) ==> out == MenuStatus::Normal,
        forall|s: &MS, out: TextDirection| call_ensures(r.text_direction, (s,), out) ==> out == TextDirection::Inherit,
        forall|s: &MS, out: Vec<String>| call_ensures(r.menu_icon_theme_path, (s,), out) ==> out@.len() == 0,
        forall|s: &mut S, x: i32, y: i32, out: Result<(), zbus::fdo::Error>| call_ensures(r.activate, (s, x, y), out) ==> (out is Ok) && *final(s) == *s,
        forall|s: &mut S, x: i32, y: i32, out: Result<(), zbus::fdo::Error>| call_ensures(r.secondary_activate, (s, x, y), out) ==> (out is Ok) && *final(s) == *s,
        forall|s: &mut S, x: i32, y: i32, out: Result<(), zbus::fdo::Error>| call_ensures(r.context_menu, (s, x, y), out) ==> (out is Ok) && *final(s) == *s,
        forall|s: &mut S, d: i32, o: &str, out: Result<(), zbus::fdo::Error>| call_ensures(r.scroll, (s, d, o), out) ==> (out is Ok) && *final(s) == *s,
        forall|s: &mut MS, m: &Msg, t: u32, out: EventUpdate| call_ensures(r.on_clicked, (s, m, t), out) ==> (out == EventUpdate::NoUpdate) && *final(s) == *s,
        forall|s: &mut MS, m: &Msg, st: ToggleState, t: u32, out: EventUpdate| call_ensures(r.on_toggled, (s, m, st, t), out) ==> (out == EventUpdate::NoUpdate) && *final(s) == *s,
        forall|s: &mut MS, i: i32, out: bool| call_ensures(r.about_to_show, (s, i), out) ==> (!out) && *final(s) == *s,
        forall|s: &mut MS, ids: Vec<i32>, out: Result<(Vec<i32>, Vec<i32>), zbus::fdo::Error>| call_ensures(r.about_to_show_group, (s, ids), out) ==> ((out matches Ok((a, b)) && a@.len() == 0 && b@.len() == 0)) && *final(s) == *s,
{
    Tray {
        id,
        title,
        state,
        menu_state,
        menu: MenuService::new(menu),
        tool_tip: no_tool_tip::<S>,
        tray_icon_theme_path: no_text::<S>,
        icon_name: no_text::<S>,
        icon_pixmap: no_pixmaps::<S>,
        attention_icon_name: no_text::<S>,
        attention_icon_pixmap: no_pixmaps::<S>,
        attention_movie_name: no_text::<S>,
        overlay_icon_name: no_text::<S>,
        overlay_icon_pixmap: no_pixmaps::<S>,
        item_is_menu: not_menu::<S>,
        category: application_status,
        tray_status: active_status::<S>,
        window_id: no_window::<S>,
        menu_status: normal_status::<MS>,
        text_direction: inherit_direction::<MS>,
        menu_icon_theme_path: no_paths::<MS>,
        activate: inert_pointer::<S>,
        secondary_activate: inert_pointer::<S>,
        context_menu: inert_pointer::<S>,
        scroll: inert_scroll::<S>,
        on_clicked: inert_clicked::<MS, Msg>,
        on_toggled: inert_toggled::<MS, Msg>,
        about_to_show: inert_about_to_show::<MS>,
        about_to_show_group: inert_about_to_show_group::<MS>,
    }
}

impl<S, MS, Msg, Ttl, Tip, Thp, Icn, Ipx, Ain, Aip, Amn, Oin, Oip, Iim, Cat, Sts, Wid, Mst, Tdr, Mtp, Act, Sec, Ctx, Scr, Clk, Tog, Ats, Atg>
    Tray<S, MS, Msg, Ttl, Tip, Thp, Icn, Ipx, Ain, Aip, Amn, Oin, Oip, Iim, Cat, Sts, Wid, Mst, Tdr, Mtp, Act, Sec, Ctx, Scr, Clk, Tog, Ats, Atg> {
    /// The same tray with `f` giving the tooltip, from the icon's state.
    pub fn with_tool_tip<F>(
        self,
        f: F,
    ) -> (r: Tray<S, MS, Msg, Ttl, F, Thp, Icn, Ipx, Ain, Aip, Amn, Oin, Oip, Iim, Cat, Sts, Wid, Mst, Tdr, Mtp, Act, Sec, Ctx, Scr, Clk, Tog, Ats, Atg>)
        where
            F: Fn(&S) -> ToolTip,
        ensures
            r.tool_tip == f,
            r.id == self.id,
            r.state == self.state,
            r.menu_state == self.menu_state,
            r.menu == self.menu,
            r.title == self.title,
            r.tray_icon_theme_path == self.tray_icon_theme_path,
            r.icon_name == self.icon_name,
            r.icon_pixmap == self.icon_pixmap,
            r.attention_icon_name == self.attention_icon_name,
            r.attention_icon_pixmap == self.attention_icon_pixmap,
            r.attention_movie_name == self.attention_movie_name,
            r.overlay_icon_name == self.overlay_icon_name,
            r.overlay_icon_pixmap == self.overlay_icon_pixmap,
            r.item_is_menu == self.item_is_menu,
            r.category == self.category,
            r.tray_status == self.tray_status,
            r.window_id == self.window_id,
            r.menu_status == self.menu_status,
            r.text_direction == self.text_direction,
            r.menu_icon_theme_path == self.menu_icon_theme_path,
            r.activate == self.activate,
            r.secondary_activate == self.secondary_activate,
            r.context_menu == self.context_menu,
            r.scroll == self.scroll,
            r.on_clicked == self.on_clicked,
            r.on_toggled == self.on_toggled,
            r.about_to_show == self.about_to_show,
            r.about_to_show_group == self.about_to_show_group,
    {
        Tray {
            id: self.id,
            state: self.state,
            menu_state: self.menu_state,
            menu: self.menu,
            title: self.title,
            tool_tip: f,
            tray_icon_theme_path: self.tray_icon_theme_path,
            icon_name: self.icon_name,
            icon_pixmap: self.icon_pixmap,
            attention_icon_name: self.attention_icon_name,
            attention_icon_pixmap: self.attention_icon_pixmap,
            attention_movie_name: self.attention_movie_name,
            overlay_icon_name: self.overlay_icon_name,
            overlay_icon_pixmap: self.overlay_icon_pixmap,
            item_is_menu: self.item_is_menu,
            category: self.category,
            tray_status: self.tray_status,
            window_id: self.window_id,
            menu_status: self.menu_status,
            text_direction: self.text_direction,
            menu_icon_theme_path: self.menu_icon_theme_path,
            activate: self.activate,
            secondary_activate: self.secondary_activate,
            context_menu: self.context_menu,
            scroll: self.scroll,
            on_clicked: self.on_clicked,
            on_toggled: self.on_toggled,
            about_to_show: self.about_to_show,
            about_to_show_group: self.about_to_show_group,
        }
    }

    /// The same tray with `f` giving an extra icon theme directory for the icon, from the
    /// icon's state.
    pub fn with_tray_icon_theme_path<F>(
        self,
        f: F,
    ) -> (r: Tray<S, MS, Msg, Ttl, Tip, F, Icn, Ipx, Ain, Aip, Amn, Oin, Oip, Iim, Cat, Sts, Wid, Mst, Tdr, Mtp, Act, Sec, Ctx, Scr, Clk, Tog, Ats, Atg>)
        where
            F: Fn(&S) -> String,
        ensures
            r.tray_icon_theme_path == f,
            r.id == self.id,
            r.state == self.state,
            r.menu_state == self.menu_state,
            r.menu == self.menu,
            r.title == self.title,
            r.tool_tip == self.tool_tip,
            r.icon_name == self.icon_name,
            r.icon_pixmap == self.icon_pixmap,
            r.attention_icon_name == self.attention_icon_name,
            r.attention_icon_pixmap == self.attention_icon_pixmap,
            r.attention_movie_name == self.attention_movie_name,
            r.overlay_icon_name == self.overlay_icon_name,
            r.overlay_icon_pixmap == self.overlay_icon_pixmap,
            r.item_is_menu == self.item_is_menu,
            r.category == self.category,
            r.tray_status == self.tray_status,
            r.window_id == self.window_id,
            r.menu_status == self.menu_status,
            r.text_direction == self.text_direction,
            r.menu_icon_theme_path == self.menu_icon_theme_path,
            r.activate == self.activate,
            r.secondary_activate == self.secondary_activate,
            r.context_menu == self.context_menu,
            r.scroll == self.scroll,
            r.on_clicked == self.on_clicked,
            r.on_toggled == self.on_toggled,
            r.about_to_show == self.about_to_show,
            r.about_to_show_group == self.about_to_show_group,
    {
        Tray {
            id: self.id,
            state: self.state,
            menu_state: self.menu_state,
            menu: self.menu,
            title: self.title,
            tool_tip: self.tool_tip,
            tray_icon_theme_path: f,
            icon_name: self.icon_name,
            icon_pixmap: self.icon_pixmap,
            attention_icon_name: self.attention_icon_name,
            attention_icon_pixmap: self.attention_icon_pixmap,
            attention_movie_name: self.attention_movie_name,
            overlay_icon_name: self.overlay_icon_name,
            overlay_icon_pixmap: self.overlay_icon_pixmap,
            item_is_menu: self.item_is_menu,
            category: self.category,
            tray_status: self.tray_status,
            window_id: self.window_id,
            menu_status: self.menu_status,
            text_direction: self.text_direction,
            menu_icon_theme_path: self.menu_icon_theme_path,
            activate: self.activate,
            secondary_activate: self.secondary_activate,
            context_menu: self.context_menu,
            scroll: self.scroll,
            on_clicked: self.on_clicked,
            on_toggled: self.on_toggled,
            about_to_show: self.about_to_show,
            about_to_show_group: self.about_to_show_group,
        }
    }

    /// The same tray with `f` giving the icon by theme name, from the icon's state.
    pub fn with_icon_name<F>(
        self,
        f: F,
    ) -> (r: Tray<S, MS, Msg, Ttl, Tip, Thp, F, Ipx, Ain, Aip, Amn, Oin, Oip, Iim, Cat, Sts, Wid, Mst, Tdr, Mtp, Act, Sec, Ctx, Scr, Clk, Tog, Ats, Atg>)
        where
            F: Fn(&S) -> String,
        ensures
            r.icon_name == f,
            r.id == self.id,
            r.state == self.state,
            r.menu_state == self.menu_state,
            r.menu == self.menu,
            r.title == self.title,
            r.tool_tip == self.tool_tip,
            r.tray_icon_theme_path == self.tray_icon_theme_path,
            r.icon_pixmap == self.icon_pixmap,
            r.attention_icon_name == self.attention_icon_name,
            r.attention_icon_pixmap == self.attention_icon_pixmap,
            r.attention_movie_name == self.attention_movie_name,
            r.overlay_icon_name == self.overlay_icon_name,
            r.overlay_icon_pixmap == self.overlay_icon_pixmap,
            r.item_is_menu == self.item_is_menu,
            r.category == self.category,
            r.tray_status == self.tray_status,
            r.window_id == self.window_id,
            r.menu_status == self.menu_status,
            r.text_direction == self.text_direction,
            r.menu_icon_theme_path == self.menu_icon_theme_path,
            r.activate == self.activate,
            r.secondary_activate == self.secondary_activate,
            r.context_menu == self.context_menu,
            r.scroll == self.scroll,
            r.on_clicked == self.on_clicked,
            r.on_toggled == self.on_toggled,
            r.about_to_show == self.about_to_show,
            r.about_to_show_group == self.about_to_show_group,
    {
        Tray {
            id: self.id,
            state: self.state,
            menu_state: self.menu_state,
            menu: self.menu,
            title: self.title,
            tool_tip: self.tool_tip,
            tray_icon_theme_path: self.tray_icon_theme_path,
            icon_name: f,
            icon_pixmap: self.icon_pixmap,
            attention_icon_name: self.attention_icon_name,
            attention_icon_pixmap: self.attention_icon_pixmap,
            attention_movie_name: self.attention_movie_name,
            overlay_icon_name: self.overlay_icon_name,
            overlay_icon_pixmap: self.overlay_icon_pixmap,
            item_is_menu: self.item_is_menu,
            category: self.category,
            tray_status: self.tray_status,
            window_id: self.window_id,
            menu_status: self.menu_status,
            text_direction: self.text_direction,
            menu_icon_theme_path: self.menu_icon_theme_path,
            activate: self.activate,
            secondary_activate: self.secondary_activate,
            context_menu: self.context_menu,
            scroll: self.scroll,
            on_clicked: self.on_clicked,
            on_toggled: self.on_toggled,
            about_to_show: self.about_to_show,
            about_to_show_group: self.about_to_show_group,
        }
    }

    /// The same tray with `f` giving the icon as images, from the icon's state.
    pub fn with_icon_pixmap<F>(
        self,
        f: F,
    ) -> (r: Tray<S, MS, Msg, Ttl, Tip, Thp, Icn, F, Ain, Aip, Amn, Oin, Oip, Iim, Cat, Sts, Wid, Mst, Tdr, Mtp, Act, Sec, Ctx, Scr, Clk, Tog, Ats, Atg>)
        where
            F: Fn(&S) -> Vec<IconPixmap>,
        ensures
            r.icon_pixmap == f,
            r.id == self.id,
            r.state == self.state,
            r.menu_state == self.menu_state,
            r.menu == self.menu,
            r.title == self.title,
            r.tool_tip == self.tool_tip,
            r.tray_icon_theme_path == self.tray_icon_theme_path,
            r.icon_name == self.icon_name,
            r.attention_icon_name == self.attention_icon_name,
            r.attention_icon_pixmap == self.attention_icon_pixmap,
            r.attention_movie_name == self.attention_movie_name,
            r.overlay_icon_name == self.overlay_icon_name,
            r.overlay_icon_pixmap == self.overlay_icon_pixmap,
            r.item_is_menu == self.item_is_menu,
            r.category == self.category,
            r.tray_status == self.tray_status,
            r.window_id == self.window_id,
            r.menu_status == self.menu_status,
            r.text_direction == self.text_direction,
            r.menu_icon_theme_path == self.menu_icon_theme_path,
            r.activate == self.activate,
            r.secondary_activate == self.secondary_activate,
            r.context_menu == self.context_menu,
            r.scroll == self.scroll,
            r.on_clicked == self.on_clicked,
            r.on_toggled == self.on_toggled,
            r.about_to_show == self.about_to_show,
            r.about_to_show_group == self.about_to_show_group,
    {
        Tray {
            id: self.id,
            state: self.state,
            menu_state: self.menu_state,
            menu: self.menu,
            title: self.title,
            tool_tip: self.tool_tip,
            tray_icon_theme_path: self.tray_icon_theme_path,
            icon_name: self.icon_name,
            icon_pixmap: f,
            attention_icon_name: self.attention_icon_name,
            attention_icon_pixmap: self.attention_icon_pixmap,
            attention_movie_name: self.attention_movie_name,
            overlay_icon_name: self.overlay_icon_name,
            overlay_icon_pixmap: self.overlay_icon_pixmap,
            item_is_menu: self.item_is_menu,
            category: self.category,
            tray_status: self.tray_status,
            window_id: self.window_id,
            menu_status: self.menu_status,
            text_direction: self.text_direction,
            menu_icon_theme_path: self.menu_icon_theme_path,
            activate: self.activate,
            secondary_activate: self.secondary_activate,
            context_menu: self.context_menu,
            scroll: self.scroll,
            on_clicked: self.on_clicked,
            on_toggled: self.on_toggled,
            about_to_show: self.about_to_show,
            about_to_show_group: self.about_to_show_group,
        }
    }

    /// The same tray with `f` giving the icon shown while asking for attention, by theme
    /// name, from the icon's state.
    pub fn with_attention_icon_name<F>(
        self,
        f: F,
    ) -> (r: Tray<S, MS, Msg, Ttl, Tip, Thp, Icn, Ipx, F, Aip, Amn, Oin, Oip, Iim, Cat, Sts, Wid, Mst, Tdr, Mtp, Act, Sec, Ctx, Scr, Clk, Tog, Ats, Atg>)
        where
            F: Fn(&S) -> String,
        ensures
            r.attention_icon_name == f,
            r.id == self.id,
            r.state == self.state,
            r.menu_state == self.menu_state,
            r.menu == self.menu,
            r.title == self.title,
            r.tool_tip == self.tool_tip,
            r.tray_icon_theme_path == self.tray_icon_theme_path,
            r.icon_name == self.icon_name,
            r.icon_pixmap == self.icon_pixmap,
            r.attention_icon_pixmap == self.attention_icon_pixmap,
            r.attention_movie_name == self.attention_movie_name,
            r.overlay_icon_name == self.overlay_icon_name,
            r.overlay_icon_pixmap == self.overlay_icon_pixmap,
            r.item_is_menu == self.item_is_menu,
            r.category == self.category,
            r.tray_status == self.tray_status,
            r.window_id == self.window_id,
            r.menu_status == self.menu_status,
            r.text_direction == self.text_direction,
            r.menu_icon_theme_path == self.menu_icon_theme_path,
            r.activate == self.activate,
            r.secondary_activate == self.secondary_activate,
            r.context_menu == self.context_menu,
            r.scroll == self.scroll,
            r.on_clicked == self.on_clicked,
            r.on_toggled == self.on_toggled,
            r.about_to_show == self.about_to_show,
            r.about_to_show_group == self.about_to_show_group,
    {
        Tray {
            id: self.id,
            state: self.state,
            menu_state: self.menu_state,
            menu: self.menu,
            title: self.title,
            tool_tip: self.tool_tip,
            tray_icon_theme_path: self.tray_icon_theme_path,
            icon_name: self.icon_name,
            icon_pixmap: self.icon_pixmap,
            attention_icon_name: f,
            attention_icon_pixmap: self.attention_icon_pixmap,
            attention_movie_name: self.attention_movie_name,
            overlay_icon_name: self.overlay_icon_name,
            overlay_icon_pixmap: self.overlay_icon_pixmap,
            item_is_menu: self.item_is_menu,
            category: self.category,
            tray_status: self.tray_status,
            window_id: self.window_id,
            menu_status: self.menu_status,
            text_direction: self.text_direction,
            menu_icon_theme_path: self.menu_icon_theme_path,
            activate: self.activate,
            secondary_activate: self.secondary_activate,
            context_menu: self.context_menu,
            scroll: self.scroll,
            on_clicked: self.on_clicked,
            on_toggled: self.on_toggled,
            about_to_show: self.about_to_show,
            about_to_show_group: self.about_to_show_group,
        }
    }

    /// The same tray with `f` giving the icon shown while asking for attention, as images,
    /// from the icon's state.
    pub fn with_attention_icon_pixmap<F>(
        self,
        f: F,
    ) -> (r: Tray<S, MS, Msg, Ttl, Tip, Thp, Icn, Ipx, Ain, F, Amn, Oin, Oip, Iim, Cat, Sts, Wid, Mst, Tdr, Mtp, Act, Sec, Ctx, Scr, Clk, Tog, Ats, Atg>)
        where
            F: Fn(&S) -> Vec<IconPixmap>,
        ensures
            r.attention_icon_pixmap == f,
            r.id == self.id,
            r.state == self.state,
            r.menu_state == self.menu_state,
            r.menu == self.menu,
            r.title == self.title,
            r.tool_tip == self.tool_tip,
            r.tray_icon_theme_path == self.tray_icon_theme_path,
            r.icon_name == self.icon_name,
            r.icon_pixmap == self.icon_pixmap,
            r.attention_icon_name == self.attention_icon_name,
            r.attention_movie_name == self.attention_movie_name,
            r.overlay_icon_name == self.overlay_icon_name,
            r.overlay_icon_pixmap == self.overlay_icon_pixmap,
            r.item_is_menu == self.item_is_menu,
            r.category == self.category,
            r.tray_status == self.tray_status,
            r.window_id == self.window_id,
            r.menu_status == self.menu_status,
            r.text_direction == self.text_direction,
            r.menu_icon_theme_path == self.menu_icon_theme_path,
            r.activate == self.activate,
            r.secondary_activate == self.secondary_activate,
            r.context_menu == self.context_menu,
            r.scroll == self.scroll,
            r.on_clicked == self.on_clicked,
            r.on_toggled == self.on_toggled,
            r.about_to_show == self.about_to_show,
            r.about_to_show_group == self.about_to_show_group,
    {
        Tray {
            id: self.id,
            state: self.state,
            menu_state: self.menu_state,
            menu: self.menu,
            title: self.title,
            tool_tip: self.tool_tip,
            tray_icon_theme_path: self.tray_icon_theme_path,
            icon_name: self.icon_name,
            icon_pixmap: self.icon_pixmap,
            attention_icon_name: self.attention_icon_name,
            attention_icon_pixmap: f,
            attention_movie_name: self.attention_movie_name,
            overlay_icon_name: self.overlay_icon_name,
            overlay_icon_pixmap: self.overlay_icon_pixmap,
            item_is_menu: self.item_is_menu,
            category: self.category,
            tray_status: self.tray_status,
            window_id: self.window_id,
            menu_status: self.menu_status,
            text_direction: self.text_direction,
            menu_icon_theme_path: self.menu_icon_theme_path,
            activate: self.activate,
            secondary_activate: self.secondary_activate,
            context_menu: self.context_menu,
            scroll: self.scroll,
            on_clicked: self.on_clicked,
            on_toggled: self.on_toggled,
            about_to_show: self.about_to_show,
            about_to_show_group: self.about_to_show_group,
        }
    }

    /// The same tray with `f` giving an animation shown while asking for attention, from
    /// the icon's state.
    pub fn with_attention_movie_name<F>(
        self,
        f: F,
    ) -> (r: Tray<S, MS, Msg, Ttl, Tip, Thp, Icn, Ipx, Ain, Aip, F, Oin, Oip, Iim, Cat, Sts, Wid, Mst, Tdr, Mtp, Act, Sec, Ctx, Scr, Clk, Tog, Ats, Atg>)
        where
            F: Fn(&S) -> String,
        ensures
            r.attention_movie_name == f,
            r.id == self.id,
            r.state == self.state,
            r.menu_state == self.menu_state,
            r.menu == self.menu,
            r.title == self.title,
            r.tool_tip == self.tool_tip,
            r.tray_icon_theme_path == self.tray_icon_theme_path,
            r.icon_name == self.icon_name,
            r.icon_pixmap == self.icon_pixmap,
            r.attention_icon_name == self.attention_icon_name,
            r.attention_icon_pixmap == self.attention_icon_pixmap,
            r.overlay_icon_name == self.overlay_icon_name,
            r.overlay_icon_pixmap == self.overlay_icon_pixmap,
            r.item_is_menu == self.item_is_menu,
            r.category == self.category,
            r.tray_status == self.tray_status,
            r.window_id == self.window_id,
            r.menu_status == self.menu_status,
            r.text_direction == self.text_direction,
            r.menu_icon_theme_path == self.menu_icon_theme_path,
            r.activate == self.activate,
            r.secondary_activate == self.secondary_activate,
            r.context_menu == self.context_menu,
            r.scroll == self.scroll,
            r.on_clicked == self.on_clicked,
            r.on_toggled == self.on_toggled,
            r.about_to_show == self.about_to_show,
            r.about_to_show_group == self.about_to_show_group,
    {
        Tray {
            id: self.id,
            state: self.state,
            menu_state: self.menu_state,
            menu: self.menu,
            title: self.title,
            tool_tip: self.tool_tip,
            tray_icon_theme_path: self.tray_icon_theme_path,
            icon_name: self.icon_name,
            icon_pixmap: self.icon_pixmap,
            attention_icon_name: self.attention_icon_name,
            attention_icon_pixmap: self.attention_icon_pixmap,
            attention_movie_name: f,
            overlay_icon_name: self.overlay_icon_name,
            overlay_icon_pixmap: self.overlay_icon_pixmap,
            item_is_menu: self.item_is_menu,
            category: self.category,
            tray_status: self.tray_status,
            window_id: self.window_id,
            menu_status: self.menu_status,
            text_direction: self.text_direction,
            menu_icon_theme_path: self.menu_icon_theme_path,
            activate: self.activate,
            secondary_activate: self.secondary_activate,
            context_menu: self.context_menu,
            scroll: self.scroll,
            on_clicked: self.on_clicked,
            on_toggled: self.on_toggled,
            about_to_show: self.about_to_show,
            about_to_show_group: self.about_to_show_group,
        }
    }

    /// The same tray with `f` giving an icon drawn over the main one, by theme name, from
    /// the icon's state.
    pub fn with_overlay_icon_name<F>(
        self,
        f: F,
    ) -> (r: Tray<S, MS, Msg, Ttl, Tip, Thp, Icn, Ipx, Ain, Aip, Amn, F, Oip, Iim, Cat, Sts, Wid, Mst, Tdr, Mtp, Act, Sec, Ctx, Scr, Clk, Tog, Ats, Atg>)
        where
            F: Fn(&S) -> String,
        ensures
            r.overlay_icon_name == f,
            r.id == self.id,
            r.state == self.state,
            r.menu_state == self.menu_state,
            r.menu == self.menu,
            r.title == self.title,
            r.tool_tip == self.tool_tip,
            r.tray_icon_theme_path == self.tray_icon_theme_path,
            r.icon_name == self.icon_name,
            r.icon_pixmap == self.icon_pixmap,
            r.attention_icon_name == self.attention_icon_name,
            r.attention_icon_pixmap == self.attention_icon_pixmap,
            r.attention_movie_name == self.attention_movie_name,
            r.overlay_icon_pixmap == self.overlay_icon_pixmap,
            r.item_is_menu == self.item_is_menu,
            r.category == self.category,
            r.tray_status == self.tray_status,
            r.window_id == self.window_id,
            r.menu_status == self.menu_status,
            r.text_direction == self.text_direction,
            r.menu_icon_theme_path == self.menu_icon_theme_path,
            r.activate == self.activate,
            r.secondary_activate == self.secondary_activate,
            r.context_menu == self.context_menu,
            r.scroll == self.scroll,
            r.on_clicked == self.on_clicked,
            r.on_toggled == self.on_toggled,
            r.about_to_show == self.about_to_show,
            r.about_to_show_group == self.about_to_show_group,
    {
        Tray {
            id: self.id,
            state: self.state,
            menu_state: self.menu_state,
            menu: self.menu,
            title: self.title,
            tool_tip: self.tool_tip,
            tray_icon_theme_path: self.tray_icon_theme_path,
            icon_name: self.icon_name,
            icon_pixmap: self.icon_pixmap,
            attention_icon_name: self.attention_icon_name,
            attention_icon_pixmap: self.attention_icon_pixmap,
            attention_movie_name: self.attention_movie_name,
            overlay_icon_name: f,
            overlay_icon_pixmap: self.overlay_icon_pixmap,
            item_is_menu: self.item_is_menu,
            category: self.category,
            tray_status: self.tray_status,
            window_id: self.window_id,
            menu_status: self.menu_status,
            text_direction: self.text_direction,
            menu_icon_theme_path: self.menu_icon_theme_path,
            activate: self.activate,
            secondary_activate: self.secondary_activate,
            context_menu: self.context_menu,
            scroll: self.scroll,
            on_clicked: self.on_clicked,
            on_toggled: self.on_toggled,
            about_to_show: self.about_to_show,
            about_to_show_group: self.about_to_show_group,
        }
    }

    /// The same tray with `f` giving an icon drawn over the main one, as images, from the
    /// icon's state.
    pub fn with_overlay_icon_pixmap<F>(
        self,
        f: F,
    ) -> (r: Tray<S, MS, Msg, Ttl, Tip, Thp, Icn, Ipx, Ain, Aip, Amn, Oin, F, Iim, Cat, Sts, Wid, Mst, Tdr, Mtp, Act, Sec, Ctx, Scr, Clk, Tog, Ats, Atg>)
        where
            F: Fn(&S) -> Vec<IconPixmap>,
        ensures
            r.overlay_icon_pixmap == f,
            r.id == self.id,
            r.state == self.state,
            r.menu_state == self.menu_state,
            r.menu == self.menu,
            r.title == self.title,
            r.tool_tip == self.tool_tip,
            r.tray_icon_theme_path == self.tray_icon_theme_path,
            r.icon_name == self.icon_name,
            r.icon_pixmap == self.icon_pixmap,
            r.attention_icon_name == self.attention_icon_name,
            r.attention_icon_pixmap == self.attention_icon_pixmap,
            r.attention_movie_name == self.attention_movie_name,
            r.overlay_icon_name == self.overlay_icon_name,
            r.item_is_menu == self.item_is_menu,
            r.category == self.category,
            r.tray_status == self.tray_status,
            r.window_id == self.window_id,
            r.menu_status == self.menu_status,
            r.text_direction == self.text_direction,
            r.menu_icon_theme_path == self.menu_icon_theme_path,
            r.activate == self.activate,
            r.secondary_activate == self.secondary_activate,
            r.context_menu == self.context_menu,
            r.scroll == self.scroll,
            r.on_clicked == self.on_clicked,
            r.on_toggled == self.on_toggled,
            r.about_to_show == self.about_to_show,
            r.about_to_show_group == self.about_to_show_group,
    {
        Tray {
            id: self.id,
            state: self.state,
            menu_state: self.menu_state,
            menu: self.menu,
            title: self.title,
            tool_tip: self.tool_tip,
            tray_icon_theme_path: self.tray_icon_theme_path,
            icon_name: self.icon_name,
            icon_pixmap: self.icon_pixmap,
            attention_icon_name: self.attention_icon_name,
            attention_icon_pixmap: self.attention_icon_pixmap,
            attention_movie_name: self.attention_movie_name,
            overlay_icon_name: self.overlay_icon_name,
            overlay_icon_pixmap: f,
            item_is_menu: self.item_is_menu,
            category: self.category,
            tray_status: self.tray_status,
            window_id: self.window_id,
            menu_status: self.menu_status,
            text_direction: self.text_direction,
            menu_icon_theme_path: self.menu_icon_theme_path,
            activate: self.activate,
            secondary_activate: self.secondary_activate,
            context_menu: self.context_menu,
            scroll: self.scroll,
            on_clicked: self.on_clicked,
            on_toggled: self.on_toggled,
            about_to_show: self.about_to_show,
            about_to_show_group: self.about_to_show_group,
        }
    }

    /// The same tray with `f` giving whether a primary click opens the menu rather than
    /// activating, from the icon's state.
    pub fn with_item_is_menu<F>(
        self,
        f: F,
    ) -> (r: Tray<S, MS, Msg, Ttl, Tip, Thp, Icn, Ipx, Ain, Aip, Amn, Oin, Oip, F, Cat, Sts, Wid, Mst, Tdr, Mtp, Act, Sec, Ctx, Scr, Clk, Tog, Ats, Atg>)
        where
            F: Fn(&S) -> bool,
        ensures
            r.item_is_menu == f,
            r.id == self.id,
            r.state == self.state,
            r.menu_state == self.menu_state,
            r.menu == self.menu,
            r.title == self.title,
            r.tool_tip == self.tool_tip,
            r.tray_icon_theme_path == self.tray_icon_theme_path,
            r.icon_name == self.icon_name,
            r.icon_pixmap == self.icon_pixmap,
            r.attention_icon_name == self.attention_icon_name,
            r.attention_icon_pixmap == self.attention_icon_pixmap,
            r.attention_movie_name == self.attention_movie_name,
            r.overlay_icon_name == self.overlay_icon_name,
            r.overlay_icon_pixmap == self.overlay_icon_pixmap,
            r.category == self.category,
            r.tray_status == self.tray_status,
            r.window_id == self.window_id,
            r.menu_status == self.menu_status,
            r.text_direction == self.text_direction,
            r.menu_icon_theme_path == self.menu_icon_theme_path,
            r.activate == self.activate,
            r.secondary_activate == self.secondary_activate,
            r.context_menu == self.context_menu,
            r.scroll == self.scroll,
            r.on_clicked == self.on_clicked,
            r.on_toggled == self.on_toggled,
            r.about_to_show == self.about_to_show,
            r.about_to_show_group == self.about_to_show_group,
    {
        Tray {
            id: self.id,
            state: self.state,
            menu_state: self.menu_state,
            menu: self.menu,
            title: self.title,
            tool_tip: self.tool_tip,
            tray_icon_theme_path: self.tray_icon_theme_path,
            icon_name: self.icon_name,
            icon_pixmap: self.icon_pixmap,
            attention_icon_name: self.attention_icon_name,
            attention_icon_pixmap: self.attention_icon_pixmap,
            attention_movie_name: self.attention_movie_name,
            overlay_icon_name: self.overlay_icon_name,
            overlay_icon_pixmap: self.overlay_icon_pixmap,
            item_is_menu: f,
            category: self.category,
            tray_status: self.tray_status,
            window_id: self.window_id,
            menu_status: self.menu_status,
            text_direction: self.text_direction,
            menu_icon_theme_path: self.menu_icon_theme_path,
            activate: self.activate,
            secondary_activate: self.secondary_activate,
            context_menu: self.context_menu,
            scroll: self.scroll,
            on_clicked: self.on_clicked,
            on_toggled: self.on_toggled,
            about_to_show: self.about_to_show,
            about_to_show_group: self.about_to_show_group,
        }
    }

    /// The same tray with `f` giving what kind of program the icon belongs to.
    pub fn with_category<F>(
        self,
        f: F,
    ) -> (r: Tray<S, MS, Msg, Ttl, Tip, Thp, Icn, Ipx, Ain, Aip, Amn, Oin, Oip, Iim, F, Sts, Wid, Mst, Tdr, Mtp, Act, Sec, Ctx, Scr, Clk, Tog, Ats, Atg>)
        where
            F: Fn() -> Category,
        ensures
            r.category == f,
            r.id == self.id,
            r.state == self.state,
            r.menu_state == self.menu_state,
            r.menu == self.menu,
            r.title == self.title,
            r.tool_tip == self.tool_tip,
            r.tray_icon_theme_path == self.tray_icon_theme_path,
            r.icon_name == self.icon_name,
            r.icon_pixmap == self.icon_pixmap,
            r.attention_icon_name == self.attention_icon_name,
            r.attention_icon_pixmap == self.attention_icon_pixmap,
            r.attention_movie_name == self.attention_movie_name,
            r.overlay_icon_name == self.overlay_icon_name,
            r.overlay_icon_pixmap == self.overlay_icon_pixmap,
            r.item_is_menu == self.item_is_menu,
            r.tray_status == self.tray_status,
            r.window_id == self.window_id,
            r.menu_status == self.menu_status,
            r.text_direction == self.text_direction,
            r.menu_icon_theme_path == self.menu_icon_theme_path,
            r.activate == self.activate,
            r.secondary_activate == self.secondary_activate,
            r.context_menu == self.context_menu,
            r.scroll == self.scroll,
            r.on_clicked == self.on_clicked,
            r.on_toggled == self.on_toggled,
            r.about_to_show == self.about_to_show,
            r.about_to_show_group == self.about_to_show_group,
    {
        Tray {
            id: self.id,
            state: self.state,
            menu_state: self.menu_state,
            menu: self.menu,
            title: self.title,
            tool_tip: self.tool_tip,
            tray_icon_theme_path: self.tray_icon_theme_path,
            icon_name: self.icon_name,
            icon_pixmap: self.icon_pixmap,
            attention_icon_name: self.attention_icon_name,
            attention_icon_pixmap: self.attention_icon_pixmap,
            attention_movie_name: self.attention_movie_name,
            overlay_icon_name: self.overlay_icon_name,
            overlay_icon_pixmap: self.overlay_icon_pixmap,
            item_is_menu: self.item_is_menu,
            category: f,
            tray_status: self.tray_status,
            window_id: self.window_id,
            menu_status: self.menu_status,
            text_direction: self.text_direction,
            menu_icon_theme_path: self.menu_icon_theme_path,
            activate: self.activate,
            secondary_activate: self.secondary_activate,
            context_menu: self.context_menu,
            scroll: self.scroll,
            on_clicked: self.on_clicked,
            on_toggled: self.on_toggled,
            about_to_show: self.about_to_show,
            about_to_show_group: self.about_to_show_group,
        }
    }

    /// The same tray with `f` giving how much the icon asks for attention, from the icon's
    /// state.
    pub fn with_tray_status<F>(
        self,
        f: F,
    ) -> (r: Tray<S, MS, Msg, Ttl, Tip, Thp, Icn, Ipx, Ain, Aip, Amn, Oin, Oip, Iim, Cat, F, Wid, Mst, Tdr, Mtp, Act, Sec, Ctx, Scr, Clk, Tog, Ats, Atg>)
        where
            F: Fn(&S) -> NotifierStatus,
        ensures
            r.tray_status == f,
            r.id == self.id,
            r.state == self.state,
            r.menu_state == self.menu_state,
            r.menu == self.menu,
            r.title == self.title,
            r.tool_tip == self.tool_tip,
            r.tray_icon_theme_path == self.tray_icon_theme_path,
            r.icon_name == self.icon_name,
            r.icon_pixmap == self.icon_pixmap,
            r.attention_icon_name == self.attention_icon_name,
            r.attention_icon_pixmap == self.attention_icon_pixmap,
            r.attention_movie_name == self.attention_movie_name,
            r.overlay_icon_name == self.overlay_icon_name,
            r.overlay_icon_pixmap == self.overlay_icon_pixmap,
            r.item_is_menu == self.item_is_menu,
            r.category == self.category,
            r.window_id == self.window_id,
            r.menu_status == self.menu_status,
            r.text_direction == self.text_direction,
            r.menu_icon_theme_path == self.menu_icon_theme_path,
            r.activate == self.activate,
            r.secondary_activate == self.secondary_activate,
            r.context_menu == self.context_menu,
            r.scroll == self.scroll,
            r.on_clicked == self.on_clicked,
            r.on_toggled == self.on_toggled,
            r.about_to_show == self.about_to_show,
            r.about_to_show_group == self.about_to_show_group,
    {
        Tray {
            id: self.id,
            state: self.state,
            menu_state: self.menu_state,
            menu: self.menu,
            title: self.title,
            tool_tip: self.tool_tip,
            tray_icon_theme_path: self.tray_icon_theme_path,
            icon_name: self.icon_name,
            icon_pixmap: self.icon_pixmap,
            attention_icon_name: self.attention_icon_name,
            attention_icon_pixmap: self.attention_icon_pixmap,
            attention_movie_name: self.attention_movie_name,
            overlay_icon_name: self.overlay_icon_name,
            overlay_icon_pixmap: self.overlay_icon_pixmap,
            item_is_menu: self.item_is_menu,
            category: self.category,
            tray_status: f,
            window_id: self.window_id,
            menu_status: self.menu_status,
            text_direction: self.text_direction,
            menu_icon_theme_path: self.menu_icon_theme_path,
            activate: self.activate,
            secondary_activate: self.secondary_activate,
            context_menu: self.context_menu,
            scroll: self.scroll,
            on_clicked: self.on_clicked,
            on_toggled: self.on_toggled,
            about_to_show: self.about_to_show,
            about_to_show_group: self.about_to_show_group,
        }
    }

    /// The same tray with `f` giving the window the icon belongs to, from the icon's state.
    pub fn with_window_id<F>(
        self,
        f: F,
    ) -> (r: Tray<S, MS, Msg, Ttl, Tip, Thp, Icn, Ipx, Ain, Aip, Amn, Oin, Oip, Iim, Cat, Sts, F, Mst, Tdr, Mtp, Act, Sec, Ctx, Scr, Clk, Tog, Ats, Atg>)
        where
            F: Fn(&S) -> i32,
        ensures
            r.window_id == f,
            r.id == self.id,
            r.state == self.state,
            r.menu_state == self.menu_state,
            r.menu == self.menu,
            r.title == self.title,
            r.tool_tip == self.tool_tip,
            r.tray_icon_theme_path == self.tray_icon_theme_path,
            r.icon_name == self.icon_name,
            r.icon_pixmap == self.icon_pixmap,
            r.attention_icon_name == self.attention_icon_name,
            r.attention_icon_pixmap == self.attention_icon_pixmap,
            r.attention_movie_name == self.attention_movie_name,
            r.overlay_icon_name == self.overlay_icon_name,
            r.overlay_icon_pixmap == self.overlay_icon_pixmap,
            r.item_is_menu == self.item_is_menu,
            r.category == self.category,
            r.tray_status == self.tray_status,
            r.menu_status == self.menu_status,
            r.text_direction == self.text_direction,
            r.menu_icon_theme_path == self.menu_icon_theme_path,
            r.activate == self.activate,
            r.secondary_activate == self.secondary_activate,
            r.context_menu == self.context_menu,
            r.scroll == self.scroll,
            r.on_clicked == self.on_clicked,
            r.on_toggled == self.on_toggled,
            r.about_to_show == self.about_to_show,
            r.about_to_show_group == self.about_to_show_group,
    {
        Tray {
            id: self.id,
            state: self.state,
            menu_state: self.menu_state,
            menu: self.menu,
            title: self.title,
            tool_tip: self.tool_tip,
            tray_icon_theme_path: self.tray_icon_theme_path,
            icon_name: self.icon_name,
            icon_pixmap: self.icon_pixmap,
            attention_icon_name: self.attention_icon_name,
            attention_icon_pixmap: self.attention_icon_pixmap,
            attention_movie_name: self.attention_movie_name,
            overlay_icon_name: self.overlay_icon_name,
            overlay_icon_pixmap: self.overlay_icon_pixmap,
            item_is_menu: self.item_is_menu,
            category: self.category,
            tray_status: self.tray_status,
            window_id: f,
            menu_status: self.menu_status,
            text_direction: self.text_direction,
            menu_icon_theme_path: self.menu_icon_theme_path,
            activate: self.activate,
            secondary_activate: self.secondary_activate,
            context_menu: self.context_menu,
            scroll: self.scroll,
            on_clicked: self.on_clicked,
            on_toggled: self.on_toggled,
            about_to_show: self.about_to_show,
            about_to_show_group: self.about_to_show_group,
        }
    }

    /// The same tray with `f` giving the menu's status, from the menu's state.
    pub fn with_menu_status<F>(
        self,
        f: F,
    ) -> (r: Tray<S, MS, Msg, Ttl, Tip, Thp, Icn, Ipx, Ain, Aip, Amn, Oin, Oip, Iim, Cat, Sts, Wid, F, Tdr, Mtp, Act, Sec, Ctx, Scr, Clk, Tog, Ats, Atg>)
        where
            F: Fn(&MS) -> MenuStatus,
        ensures
            r.menu_status == f,
            r.id == self.id,
            r.state == self.state,
            r.menu_state == self.menu_state,
            r.menu == self.menu,
            r.title == self.title,
            r.tool_tip == self.tool_tip,
            r.tray_icon_theme_path == self.tray_icon_theme_path,
            r.icon_name == self.icon_name,
            r.icon_pixmap == self.icon_pixmap,
            r.attention_icon_name == self.attention_icon_name,
            r.attention_icon_pixmap == self.attention_icon_pixmap,
            r.attention_movie_name == self.attention_movie_name,
            r.overlay_icon_name == self.overlay_icon_name,
            r.overlay_icon_pixmap == self.overlay_icon_pixmap,
            r.item_is_menu == self.item_is_menu,
            r.category == self.category,
            r.tray_status == self.tray_status,
            r.window_id == self.window_id,
            r.text_direction == self.text_direction,
            r.menu_icon_theme_path == self.menu_icon_theme_path,
            r.activate == self.activate,
            r.secondary_activate == self.secondary_activate,
            r.context_menu == self.context_menu,
            r.scroll == self.scroll,
            r.on_clicked == self.on_clicked,
            r.on_toggled == self.on_toggled,
            r.about_to_show == self.about_to_show,
            r.about_to_show_group == self.about_to_show_group,
    {
        Tray {
            id: self.id,
            state: self.state,
            menu_state: self.menu_state,
            menu: self.menu,
            title: self.title,
            tool_tip: self.tool_tip,
            tray_icon_theme_path: self.tray_icon_theme_path,
            icon_name: self.icon_name,
            icon_pixmap: self.icon_pixmap,
            attention_icon_name: self.attention_icon_name,
            attention_icon_pixmap: self.attention_icon_pixmap,
            attention_movie_name: self.attention_movie_name,
            overlay_icon_name: self.overlay_icon_name,
            overlay_icon_pixmap: self.overlay_icon_pixmap,
            item_is_menu: self.item_is_menu,
            category: self.category,
            tray_status: self.tray_status,
            window_id: self.window_id,
            menu_status: f,
            text_direction: self.text_direction,
            menu_icon_theme_path: self.menu_icon_theme_path,
            activate: self.activate,
            secondary_activate: self.secondary_activate,
            context_menu: self.context_menu,
            scroll: self.scroll,
            on_clicked: self.on_clicked,
            on_toggled: self.on_toggled,
            about_to_show: self.about_to_show,
            about_to_show_group: self.about_to_show_group,
        }
    }

    /// The same tray with `f` giving the menu's text direction, from the menu's state.
    pub fn with_text_direction<F>(
        self,
        f: F,
    ) -> (r: Tray<S, MS, Msg, Ttl, Tip, Thp, Icn, Ipx, Ain, Aip, Amn, Oin, Oip, Iim, Cat, Sts, Wid, Mst, F, Mtp, Act, Sec, Ctx, Scr, Clk, Tog, Ats, Atg>)
        where
            F: Fn(&MS) -> TextDirection,
        ensures
            r.text_direction == f,
            r.id == self.id,
            r.state == self.state,
            r.menu_state == self.menu_state,
            r.menu == self.menu,
            r.title == self.title,
            r.tool_tip == self.tool_tip,
            r.tray_icon_theme_path == self.tray_icon_theme_path,
            r.icon_name == self.icon_name,
            r.icon_pixmap == self.icon_pixmap,
            r.attention_icon_name == self.attention_icon_name,
            r.attention_icon_pixmap == self.attention_icon_pixmap,
            r.attention_movie_name == self.attention_movie_name,
            r.overlay_icon_name == self.overlay_icon_name,
            r.overlay_icon_pixmap == self.overlay_icon_pixmap,
            r.item_is_menu == self.item_is_menu,
            r.category == self.category,
            r.tray_status == self.tray_status,
            r.window_id == self.window_id,
            r.menu_status == self.menu_status,
            r.menu_icon_theme_path == self.menu_icon_theme_path,
            r.activate == self.activate,
            r.secondary_activate == self.secondary_activate,
            r.context_menu == self.context_menu,
            r.scroll == self.scroll,
            r.on_clicked == self.on_clicked,
            r.on_toggled == self.on_toggled,
            r.about_to_show == self.about_to_show,
            r.about_to_show_group == self.about_to_show_group,
    {
        Tray {
            id: self.id,
            state: self.state,
            menu_state: self.menu_state,
            menu: self.menu,
            title: self.title,
            tool_tip: self.tool_tip,
            tray_icon_theme_path: self.tray_icon_theme_path,
            icon_name: self.icon_name,
            icon_pixmap: self.icon_pixmap,
            attention_icon_name: self.attention_icon_name,
            attention_icon_pixmap: self.attention_icon_pixmap,
            attention_movie_name: self.attention_movie_name,
            overlay_icon_name: self.overlay_icon_name,
            overlay_icon_pixmap: self.overlay_icon_pixmap,
            item_is_menu: self.item_is_menu,
            category: self.category,
            tray_status: self.tray_status,
            window_id: self.window_id,
            menu_status: self.menu_status,
            text_direction: f,
            menu_icon_theme_path: self.menu_icon_theme_path,
            activate: self.activate,
            secondary_activate: self.secondary_activate,
            context_menu: self.context_menu,
            scroll: self.scroll,
            on_clicked: self.on_clicked,
            on_toggled: self.on_toggled,
            about_to_show: self.about_to_show,
            about_to_show_group: self.about_to_show_group,
        }
    }

    /// The same tray with `f` giving extra icon theme directories for the menu, from the
    /// menu's state.
    pub fn with_menu_icon_theme_path<F>(
        self,
        f: F,
    ) -> (r: Tray<S, MS, Msg, Ttl, Tip, Thp, Icn, Ipx, Ain, Aip, Amn, Oin, Oip, Iim, Cat, Sts, Wid, Mst, Tdr, F, Act, Sec, Ctx, Scr, Clk, Tog, Ats, Atg>)
        where
            F: Fn(&MS) -> Vec<String>,
        ensures
            r.menu_icon_theme_path == f,
            r.id == self.id,
            r.state == self.state,
            r.menu_state == self.menu_state,
            r.menu == self.menu,
            r.title == self.title,
            r.tool_tip == self.tool_tip,
            r.tray_icon_theme_path == self.tray_icon_theme_path,
            r.icon_name == self.icon_name,
            r.icon_pixmap == self.icon_pixmap,
            r.attention_icon_name == self.attention_icon_name,
            r.attention_icon_pixmap == self.attention_icon_pixmap,
            r.attention_movie_name == self.attention_movie_name,
            r.overlay_icon_name == self.overlay_icon_name,
            r.overlay_icon_pixmap == self.overlay_icon_pixmap,
            r.item_is_menu == self.item_is_menu,
            r.category == self.category,
            r.tray_status == self.tray_status,
            r.window_id == self.window_id,
            r.menu_status == self.menu_status,
            r.text_direction == self.text_direction,
            r.activate == self.activate,
            r.secondary_activate == self.secondary_activate,
            r.context_menu == self.context_menu,
            r.scroll == self.scroll,
            r.on_clicked == self.on_clicked,
            r.on_toggled == self.on_toggled,
            r.about_to_show == self.about_to_show,
            r.about_to_show_group == self.about_to_show_group,
    {
        Tray {
            id: self.id,
            state: self.state,
            menu_state: self.menu_state,
            menu: self.menu,
            title: self.title,
            tool_tip: self.tool_tip,
            tray_icon_theme_path: self.tray_icon_theme_path,
            icon_name: self.icon_name,
            icon_pixmap: self.icon_pixmap,
            attention_icon_name: self.attention_icon_name,
            attention_icon_pixmap: self.attention_icon_pixmap,
            attention_movie_name: self.attention_movie_name,
            overlay_icon_name: self.overlay_icon_name,
            overlay_icon_pixmap: self.overlay_icon_pixmap,
            item_is_menu: self.item_is_menu,
            category: self.category,
            tray_status: self.tray_status,
            window_id: self.window_id,
            menu_status: self.menu_status,
            text_direction: self.text_direction,
            menu_icon_theme_path: f,
            activate: self.activate,
            secondary_activate: self.secondary_activate,
            context_menu: self.context_menu,
            scroll: self.scroll,
            on_clicked: self.on_clicked,
            on_toggled: self.on_toggled,
            about_to_show: self.about_to_show,
            about_to_show_group: self.about_to_show_group,
        }
    }

    /// The same tray with `f` handling a primary click on the icon at a screen position.
    pub fn with_activate<F>(
        self,
        f: F,
    ) -> (r: Tray<S, MS, Msg, Ttl, Tip, Thp, Icn, Ipx, Ain, Aip, Amn, Oin, Oip, Iim, Cat, Sts, Wid, Mst, Tdr, Mtp, F, Sec, Ctx, Scr, Clk, Tog, Ats, Atg>)
        where
            F: Fn(&mut S, i32, i32) -> Result<(), zbus::fdo::Error>,
        ensures
            r.activate == f,
            r.id == self.id,
            r.state == self.state,
            r.menu_state == self.menu_state,
            r.menu == self.menu,
            r.title == self.title,
            r.tool_tip == self.tool_tip,
            r.tray_icon_theme_path == self.tray_icon_theme_path,
            r.icon_name == self.icon_name,
            r.icon_pixmap == self.icon_pixmap,
            r.attention_icon_name == self.attention_icon_name,
            r.attention_icon_pixmap == self.attention_icon_pixmap,
            r.attention_movie_name == self.attention_movie_name,
            r.overlay_icon_name == self.overlay_icon_name,
            r.overlay_icon_pixmap == self.overlay_icon_pixmap,
            r.item_is_menu == self.item_is_menu,
            r.category == self.category,
            r.tray_status == self.tray_status,
            r.window_id == self.window_id,
            r.menu_status == self.menu_status,
            r.text_direction == self.text_direction,
            r.menu_icon_theme_path == self.menu_icon_theme_path,
            r.secondary_activate == self.secondary_activate,
            r.context_menu == self.context_menu,
            r.scroll == self.scroll,
            r.on_clicked == self.on_clicked,
            r.on_toggled == self.on_toggled,
            r.about_to_show == self.about_to_show,
            r.about_to_show_group == self.about_to_show_group,
    {
        Tray {
            id: self.id,
            state: self.state,
            menu_state: self.menu_state,
            menu: self.menu,
            title: self.title,
            tool_tip: self.tool_tip,
            tray_icon_theme_path: self.tray_icon_theme_path,
            icon_name: self.icon_name,
            icon_pixmap: self.icon_pixmap,
            attention_icon_name: self.attention_icon_name,
            attention_icon_pixmap: self.attention_icon_pixmap,
            attention_movie_name: self.attention_movie_name,
            overlay_icon_name: self.overlay_icon_name,
            overlay_icon_pixmap: self.overlay_icon_pixmap,
            item_is_menu: self.item_is_menu,
            category: self.category,
            tray_status: self.tray_status,
            window_id: self.window_id,
            menu_status: self.menu_status,
            text_direction: self.text_direction,
            menu_icon_theme_path: self.menu_icon_theme_path,
            activate: f,
            secondary_activate: self.secondary_activate,
            context_menu: self.context_menu,
            scroll: self.scroll,
            on_clicked: self.on_clicked,
            on_toggled: self.on_toggled,
            about_to_show: self.about_to_show,
            about_to_show_group: self.about_to_show_group,
        }
    }

    /// The same tray with `f` handling a secondary (middle) click on the icon at a screen
    /// position.
    pub fn with_secondary_activate<F>(
        self,
        f: F,
    ) -> (r: Tray<S, MS, Msg, Ttl, Tip, Thp, Icn, Ipx, Ain, Aip, Amn, Oin, Oip, Iim, Cat, Sts, Wid, Mst, Tdr, Mtp, Act, F, Ctx, Scr, Clk, Tog, Ats, Atg>)
        where
            F: Fn(&mut S, i32, i32) -> Result<(), zbus::fdo::Error>,
        ensures
            r.secondary_activate == f,
            r.id == self.id,
            r.state == self.state,
            r.menu_state == self.menu_state,
            r.menu == self.menu,
            r.title == self.title,
            r.tool_tip == self.tool_tip,
            r.tray_icon_theme_path == self.tray_icon_theme_path,
            r.icon_name == self.icon_name,
            r.icon_pixmap == self.icon_pixmap,
            r.attention_icon_name == self.attention_icon_name,
            r.attention_icon_pixmap == self.attention_icon_pixmap,
            r.attention_movie_name == self.attention_movie_name,
            r.overlay_icon_name == self.overlay_icon_name,
            r.overlay_icon_pixmap == self.overlay_icon_pixmap,
            r.item_is_menu == self.item_is_menu,
            r.category == self.category,
            r.tray_status == self.tray_status,
            r.window_id == self.window_id,
            r.menu_status == self.menu_status,
            r.text_direction == self.text_direction,
            r.menu_icon_theme_path == self.menu_icon_theme_path,
            r.activate == self.activate,
            r.context_menu == self.context_menu,
            r.scroll == self.scroll,
            r.on_clicked == self.on_clicked,
            r.on_toggled == self.on_toggled,
            r.about_to_show == self.about_to_show,
            r.about_to_show_group == self.about_to_show_group,
    {
        Tray {
            id: self.id,
            state: self.state,
            menu_state: self.menu_state,
            menu: self.menu,
            title: self.title,
            tool_tip: self.tool_tip,
            tray_icon_theme_path: self.tray_icon_theme_path,
            icon_name: self.icon_name,
            icon_pixmap: self.icon_pixmap,
            attention_icon_name: self.attention_icon_name,
            attention_icon_pixmap: self.attention_icon_pixmap,
            attention_movie_name: self.attention_movie_name,
            overlay_icon_name: self.overlay_icon_name,
            overlay_icon_pixmap: self.overlay_icon_pixmap,
            item_is_menu: self.item_is_menu,
            category: self.category,
            tray_status: self.tray_status,
            window_id: self.window_id,
            menu_status: self.menu_status,
            text_direction: self.text_direction,
            menu_icon_theme_path: self.menu_icon_theme_path,
            activate: self.activate,
            secondary_activate: f,
            context_menu: self.context_menu,
            scroll: self.scroll,
            on_clicked: self.on_clicked,
            on_toggled: self.on_toggled,
            about_to_show: self.about_to_show,
            about_to_show_group: self.about_to_show_group,
        }
    }

    /// The same tray with `f` handling a request for a context menu at a screen position.
    pub fn with_context_menu<F>(
        self,
        f: F,
    ) -> (r: Tray<S, MS, Msg, Ttl, Tip, Thp, Icn, Ipx, Ain, Aip, Amn, Oin, Oip, Iim, Cat, Sts, Wid, Mst, Tdr, Mtp, Act, Sec, F, Scr, Clk, Tog, Ats, Atg>)
        where
            F: Fn(&mut S, i32, i32) -> Result<(), zbus::fdo::Error>,
        ensures
            r.context_menu == f,
            r.id == self.id,
            r.state == self.state,
            r.menu_state == self.menu_state,
            r.menu == self.menu,
            r.title == self.title,
            r.tool_tip == self.tool_tip,
            r.tray_icon_theme_path == self.tray_icon_theme_path,
            r.icon_name == self.icon_name,
            r.icon_pixmap == self.icon_pixmap,
            r.attention_icon_name == self.attention_icon_name,
            r.attention_icon_pixmap == self.attention_icon_pixmap,
            r.attention_movie_name == self.attention_movie_name,
            r.overlay_icon_name == self.overlay_icon_name,
            r.overlay_icon_pixmap == self.overlay_icon_pixmap,
            r.item_is_menu == self.item_is_menu,
            r.category == self.category,
            r.tray_status == self.tray_status,
            r.window_id == self.window_id,
            r.menu_status == self.menu_status,
            r.text_direction == self.text_direction,
            r.menu_icon_theme_path == self.menu_icon_theme_path,
            r.activate == self.activate,
            r.secondary_activate == self.secondary_activate,
            r.scroll == self.scroll,
            r.on_clicked == self.on_clicked,
            r.on_toggled == self.on_toggled,
            r.about_to_show == self.about_to_show,
            r.about_to_show_group == self.about_to_show_group,
    {
        Tray {
            id: self.id,
            state: self.state,
            menu_state: self.menu_state,
            menu: self.menu,
            title: self.title,
            tool_tip: self.tool_tip,
            tray_icon_theme_path: self.tray_icon_theme_path,
            icon_name: self.icon_name,
            icon_pixmap: self.icon_pixmap,
            attention_icon_name: self.attention_icon_name,
            attention_icon_pixmap: self.attention_icon_pixmap,
            attention_movie_name: self.attention_movie_name,
            overlay_icon_name: self.overlay_icon_name,
            overlay_icon_pixmap: self.overlay_icon_pixmap,
            item_is_menu: self.item_is_menu,
            category: self.category,
            tray_status: self.tray_status,
            window_id: self.window_id,
            menu_status: self.menu_status,
            text_direction: self.text_direction,
            menu_icon_theme_path: self.menu_icon_theme_path,
            activate: self.activate,
            secondary_activate: self.secondary_activate,
            context_menu: f,
            scroll: self.scroll,
            on_clicked: self.on_clicked,
            on_toggled: self.on_toggled,
            about_to_show: self.about_to_show,
            about_to_show_group: self.about_to_show_group,
        }
    }

    /// The same tray with `f` handling a scroll over the icon, by a delta along an
    /// orientation.
    pub fn with_scroll<F>(
        self,
        f: F,
    ) -> (r: Tray<S, MS, Msg, Ttl, Tip, Thp, Icn, Ipx, Ain, Aip, Amn, Oin, Oip, Iim, Cat, Sts, Wid, Mst, Tdr, Mtp, Act, Sec, Ctx, F, Clk, Tog, Ats, Atg>)
        where
            F: Fn(&mut S, i32, &str) -> Result<(), zbus::fdo::Error>,
        ensures
            r.scroll == f,
            r.id == self.id,
            r.state == self.state,
            r.menu_state == self.menu_state,
            r.menu == self.menu,
            r.title == self.title,
            r.tool_tip == self.tool_tip,
            r.tray_icon_theme_path == self.tray_icon_theme_path,
            r.icon_name == self.icon_name,
            r.icon_pixmap == self.icon_pixmap,
            r.attention_icon_name == self.attention_icon_name,
            r.attention_icon_pixmap == self.attention_icon_pixmap,
            r.attention_movie_name == self.attention_movie_name,
            r.overlay_icon_name == self.overlay_icon_name,
            r.overlay_icon_pixmap == self.overlay_icon_pixmap,
            r.item_is_menu == self.item_is_menu,
            r.category == self.category,
            r.tray_status == self.tray_status,
            r.window_id == self.window_id,
            r.menu_status == self.menu_status,
            r.text_direction == self.text_direction,
            r.menu_icon_theme_path == self.menu_icon_theme_path,
            r.activate == self.activate,
            r.secondary_activate == self.secondary_activate,
            r.context_menu == self.context_menu,
            r.on_clicked == self.on_clicked,
            r.on_toggled == self.on_toggled,
            r.about_to_show == self.about_to_show,
            r.about_to_show_group == self.about_to_show_group,
    {
        Tray {
            id: self.id,
            state: self.state,
            menu_state: self.menu_state,
            menu: self.menu,
            title: self.title,
            tool_tip: self.tool_tip,
            tray_icon_theme_path: self.tray_icon_theme_path,
            icon_name: self.icon_name,
            icon_pixmap: self.icon_pixmap,
            attention_icon_name: self.attention_icon_name,
            attention_icon_pixmap: self.attention_icon_pixmap,
            attention_movie_name: self.attention_movie_name,
            overlay_icon_name: self.overlay_icon_name,
            overlay_icon_pixmap: self.overlay_icon_pixmap,
            item_is_menu: self.item_is_menu,
            category: self.category,
            tray_status: self.tray_status,
            window_id: self.window_id,
            menu_status: self.menu_status,
            text_direction: self.text_direction,
            menu_icon_theme_path: self.menu_icon_theme_path,
            activate: self.activate,
            secondary_activate: self.secondary_activate,
            context_menu: self.context_menu,
            scroll: f,
            on_clicked: self.on_clicked,
            on_toggled: self.on_toggled,
            about_to_show: self.about_to_show,
            about_to_show_group: self.about_to_show_group,
        }
    }

    /// The same tray with `f` handling a click on a menu entry, with the entry's message
    /// and a timestamp.
    pub fn with_on_clicked<F>(
        self,
        f: F,
    ) -> (r: Tray<S, MS, Msg, Ttl, Tip, Thp, Icn, Ipx, Ain, Aip, Amn, Oin, Oip, Iim, Cat, Sts, Wid, Mst, Tdr, Mtp, Act, Sec, Ctx, Scr, F, Tog, Ats, Atg>)
        where
            F: Fn(&mut MS, &Msg, u32) -> EventUpdate,
        ensures
            r.on_clicked == f,
            r.id == self.id,
            r.state == self.state,
            r.menu_state == self.menu_state,
            r.menu == self.menu,
            r.title == self.title,
            r.tool_tip == self.tool_tip,
            r.tray_icon_theme_path == self.tray_icon_theme_path,
            r.icon_name == self.icon_name,
            r.icon_pixmap == self.icon_pixmap,
            r.attention_icon_name == self.attention_icon_name,
            r.attention_icon_pixmap == self.attention_icon_pixmap,
            r.attention_movie_name == self.attention_movie_name,
            r.overlay_icon_name == self.overlay_icon_name,
            r.overlay_icon_pixmap == self.overlay_icon_pixmap,
            r.item_is_menu == self.item_is_menu,
            r.category == self.category,
            r.tray_status == self.tray_status,
            r.window_id == self.window_id,
            r.menu_status == self.menu_status,
            r.text_direction == self.text_direction,
            r.menu_icon_theme_path == self.menu_icon_theme_path,
            r.activate == self.activate,
            r.secondary_activate == self.secondary_activate,
            r.context_menu == self.context_menu,
            r.scroll == self.scroll,
            r.on_toggled == self.on_toggled,
            r.about_to_show == self.about_to_show,
            r.about_to_show_group == self.about_to_show_group,
    {
        Tray {
            id: self.id,
            state: self.state,
            menu_state: self.menu_state,
            menu: self.menu,
            title: self.title,
            tool_tip: self.tool_tip,
            tray_icon_theme_path: self.tray_icon_theme_path,
            icon_name: self.icon_name,
            icon_pixmap: self.icon_pixmap,
            attention_icon_name: self.attention_icon_name,
            attention_icon_pixmap: self.attention_icon_pixmap,
            attention_movie_name: self.attention_movie_name,
            overlay_icon_name: self.overlay_icon_name,
            overlay_icon_pixmap: self.overlay_icon_pixmap,
            item_is_menu: self.item_is_menu,
            category: self.category,
            tray_status: self.tray_status,
            window_id: self.window_id,
            menu_status: self.menu_status,
            text_direction: self.text_direction,
            menu_icon_theme_path: self.menu_icon_theme_path,
            activate: self.activate,
            secondary_activate: self.secondary_activate,
            context_menu: self.context_menu,
            scroll: self.scroll,
            on_clicked: f,
            on_toggled: self.on_toggled,
            about_to_show: self.about_to_show,
            about_to_show_group: self.about_to_show_group,
        }
    }

    /// The same tray with `f` handling a change of a menu entry's toggle state, with the
    /// entry's message, the new state and a timestamp.
    pub fn with_on_toggled<F>(
        self,
        f: F,
    ) -> (r: Tray<S, MS, Msg, Ttl, Tip, Thp, Icn, Ipx, Ain, Aip, Amn, Oin, Oip, Iim, Cat, Sts, Wid, Mst, Tdr, Mtp, Act, Sec, Ctx, Scr, Clk, F, Ats, Atg>)
        where
            F: Fn(&mut MS, &Msg, ToggleState, u32) -> EventUpdate,
        ensures
            r.on_toggled == f,
            r.id == self.id,
            r.state == self.state,
            r.menu_state == self.menu_state,
            r.menu == self.menu,
            r.title == self.title,
            r.tool_tip == self.tool_tip,
            r.tray_icon_theme_path == self.tray_icon_theme_path,
            r.icon_name == self.icon_name,
            r.icon_pixmap == self.icon_pixmap,
            r.attention_icon_name == self.attention_icon_name,
            r.attention_icon_pixmap == self.attention_icon_pixmap,
            r.attention_movie_name == self.attention_movie_name,
            r.overlay_icon_name == self.overlay_icon_name,
            r.overlay_icon_pixmap == self.overlay_icon_pixmap,
            r.item_is_menu == self.item_is_menu,
            r.category == self.category,
            r.tray_status == self.tray_status,
            r.window_id == self.window_id,
            r.menu_status == self.menu_status,
            r.text_direction == self.text_direction,
            r.menu_icon_theme_path == self.menu_icon_theme_path,
            r.activate == self.activate,
            r.secondary_activate == self.secondary_activate,
            r.context_menu == self.context_menu,
            r.scroll == self.scroll,
            r.on_clicked == self.on_clicked,
            r.about_to_show == self.about_to_show,
            r.about_to_show_group == self.about_to_show_group,
    {
        Tray {
            id: self.id,
            state: self.state,
            menu_state: self.menu_state,
            menu: self.menu,
            title: self.title,
            tool_tip: self.tool_tip,
            tray_icon_theme_path: self.tray_icon_theme_path,
            icon_name: self.icon_name,
            icon_pixmap: self.icon_pixmap,
            attention_icon_name: self.attention_icon_name,
            attention_icon_pixmap: self.attention_icon_pixmap,
            attention_movie_name: self.attention_movie_name,
            overlay_icon_name: self.overlay_icon_name,
            overlay_icon_pixmap: self.overlay_icon_pixmap,
            item_is_menu: self.item_is_menu,
            category: self.category,
            tray_status: self.tray_status,
            window_id: self.window_id,
            menu_status: self.menu_status,
            text_direction: self.text_direction,
            menu_icon_theme_path: self.menu_icon_theme_path,
            activate: self.activate,
            secondary_activate: self.secondary_activate,
            context_menu: self.context_menu,
            scroll: self.scroll,
            on_clicked: self.on_clicked,
            on_toggled: f,
            about_to_show: self.about_to_show,
            about_to_show_group: self.about_to_show_group,
        }
    }

    /// The same tray with `f` handling the notice that the submenu `id` is about to open;
    /// true asks the client to fetch the layout again.
    pub fn with_about_to_show<F>(
        self,
        f: F,
    ) -> (r: Tray<S, MS, Msg, Ttl, Tip, Thp, Icn, Ipx, Ain, Aip, Amn, Oin, Oip, Iim, Cat, Sts, Wid, Mst, Tdr, Mtp, Act, Sec, Ctx, Scr, Clk, Tog, F, Atg>)
        where
            F: Fn(&mut MS, i32) -> bool,
        ensures
            r.about_to_show == f,
            r.id == self.id,
            r.state == self.state,
            r.menu_state == self.menu_state,
            r.menu == self.menu,
            r.title == self.title,
            r.tool_tip == self.tool_tip,
            r.tray_icon_theme_path == self.tray_icon_theme_path,
            r.icon_name == self.icon_name,
            r.icon_pixmap == self.icon_pixmap,
            r.attention_icon_name == self.attention_icon_name,
            r.attention_icon_pixmap == self.attention_icon_pixmap,
            r.attention_movie_name == self.attention_movie_name,
            r.overlay_icon_name == self.overlay_icon_name,
            r.overlay_icon_pixmap == self.overlay_icon_pixmap,
            r.item_is_menu == self.item_is_menu,
            r.category == self.category,
            r.tray_status == self.tray_status,
            r.window_id == self.window_id,
            r.menu_status == self.menu_status,
            r.text_direction == self.text_direction,
            r.menu_icon_theme_path == self.menu_icon_theme_path,
            r.activate == self.activate,
            r.secondary_activate == self.secondary_activate,
            r.context_menu == self.context_menu,
            r.scroll == self.scroll,
            r.on_clicked == self.on_clicked,
            r.on_toggled == self.on_toggled,
            r.about_to_show_group == self.about_to_show_group,
    {
        Tray {
            id: self.id,
            state: self.state,
            menu_state: self.menu_state,
            menu: self.menu,
            title: self.title,
            tool_tip: self.tool_tip,
            tray_icon_theme_path: self.tray_icon_theme_path,
            icon_name: self.icon_name,
            icon_pixmap: self.icon_pixmap,
            attention_icon_name: self.attention_icon_name,
            attention_icon_pixmap: self.attention_icon_pixmap,
            attention_movie_name: self.attention_movie_name,
            overlay_icon_name: self.overlay_icon_name,
            overlay_icon_pixmap: self.overlay_icon_pixmap,
            item_is_menu: self.item_is_menu,
            category: self.category,
            tray_status: self.tray_status,
            window_id: self.window_id,
            menu_status: self.menu_status,
            text_direction: self.text_direction,
            menu_icon_theme_path: self.menu_icon_theme_path,
            activate: self.activate,
            secondary_activate: self.secondary_activate,
            context_menu: self.context_menu,
            scroll: self.scroll,
            on_clicked: self.on_clicked,
            on_toggled: self.on_toggled,
            about_to_show: f,
            about_to_show_group: self.about_to_show_group,
        }
    }

    /// The same tray with `f` handling the notice that several submenus are about to open;
    /// returns the ids that need a new layout and those that do not.
    pub fn with_about_to_show_group<F>(
        self,
        f: F,
    ) -> (r: Tray<S, MS, Msg, Ttl, Tip, Thp, Icn, Ipx, Ain, Aip, Amn, Oin, Oip, Iim, Cat, Sts, Wid, Mst, Tdr, Mtp, Act, Sec, Ctx, Scr, Clk, Tog, Ats, F>)
        where
            F: Fn(&mut MS, Vec<i32>) -> Result<(Vec<i32>, Vec<i32>), zbus::fdo::Error>,
        ensures
            r.about_to_show_group == f,
            r.id == self.id,
            r.state == self.state,
            r.menu_state == self.menu_state,
            r.menu == self.menu,
            r.title == self.title,
            r.tool_tip == self.tool_tip,
            r.tray_icon_theme_path == self.tray_icon_theme_path,
            r.icon_name == self.icon_name,
            r.icon_pixmap == self.icon_pixmap,
            r.attention_icon_name == self.attention_icon_name,
            r.attention_icon_pixmap == self.attention_icon_pixmap,
            r.attention_movie_name == self.attention_movie_name,
            r.overlay_icon_name == self.overlay_icon_name,
            r.overlay_icon_pixmap == self.overlay_icon_pixmap,
            r.item_is_menu == self.item_is_menu,
            r.category == self.category,
            r.tray_status == self.tray_status,
            r.window_id == self.window_id,
            r.menu_status == self.menu_status,
            r.text_direction == self.text_direction,
            r.menu_icon_theme_path == self.menu_icon_theme_path,
            r.activate == self.activate,
            r.secondary_activate == self.secondary_activate,
            r.context_menu == self.context_menu,
            r.scroll == self.scroll,
            r.on_clicked == self.on_clicked,
            r.on_toggled == self.on_toggled,
            r.about_to_show == self.about_to_show,
    {
        Tray {
            id: self.id,
            state: self.state,
            menu_state: self.menu_state,
            menu: self.menu,
            title: self.title,
            tool_tip: self.tool_tip,
            tray_icon_theme_path: self.tray_icon_theme_path,
            icon_name: self.icon_name,
            icon_pixmap: self.icon_pixmap,
            attention_icon_name: self.attention_icon_name,
            attention_icon_pixmap: self.attention_icon_pixmap,
            attention_movie_name: self.attention_movie_name,
            overlay_icon_name: self.overlay_icon_name,
            overlay_icon_pixmap: self.overlay_icon_pixmap,
            item_is_menu: self.item_is_menu,
            category: self.category,
            tray_status: self.tray_status,
            window_id: self.window_id,
            menu_status: self.menu_status,
            text_direction: self.text_direction,
            menu_icon_theme_path: self.menu_icon_theme_path,
            activate: self.activate,
            secondary_activate: self.secondary_activate,
            context_menu: self.context_menu,
            scroll: self.scroll,
            on_clicked: self.on_clicked,
            on_toggled: self.on_toggled,
            about_to_show: self.about_to_show,
            about_to_show_group: f,
        }
    }

}

} // verus!
