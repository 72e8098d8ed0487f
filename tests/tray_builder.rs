use libappindicator_zbus::tray;
use libappindicator_zbus::utils::{
    ButtonOptions, Category, EventUpdate, IconPixmap, MenuStatus, MenuTree, MenuUnit,
    NotifierStatus, TextDirection, ToggleState, ToolTip,
};

#[derive(Debug, Clone, Copy, PartialEq, Eq)]
enum Msg {
    Clicked,
}

struct Icon {
    clicks: Vec<(i32, i32)>,
    scrolled: i32,
}

struct Menu {
    seen: u32,
}

fn menu() -> MenuTree<Msg> {
    MenuTree::new().push(MenuUnit::button(
        ButtonOptions {
            label: "Hello".to_owned(),
            enabled: true,
            icon_name: "nheko".to_owned(),
        },
        Msg::Clicked,
    ))
}

fn icon() -> Icon {
    Icon {
        clicks: Vec::new(),
        scrolled: 0,
    }
}

fn title(_: &Icon) -> String {
    "fake".to_owned()
}

#[test]
fn a_new_tray_has_inert_defaults() {
    let mut t = tray(icon(), "hello".to_owned(), title, Menu { seen: 0 }, menu());
    assert_eq!(t.id, "hello");
    assert_eq!((t.title)(&t.state), "fake");
    assert_eq!((t.icon_name)(&t.state), "");
    assert!((t.icon_pixmap)(&t.state).is_empty());
    assert!((t.attention_icon_pixmap)(&t.state).is_empty());
    assert_eq!((t.attention_movie_name)(&t.state), "");
    assert_eq!((t.overlay_icon_name)(&t.state), "");
    assert_eq!((t.tray_icon_theme_path)(&t.state), "");
    assert!(!(t.item_is_menu)(&t.state));
    assert_eq!((t.category)(), Category::ApplicationStatus);
    assert_eq!((t.tray_status)(&t.state), NotifierStatus::Active);
    assert_eq!((t.window_id)(&t.state), 0);
    assert_eq!((t.menu_status)(&t.menu_state), MenuStatus::Normal);
    assert_eq!((t.text_direction)(&t.menu_state), TextDirection::Inherit);
    assert!((t.menu_icon_theme_path)(&t.menu_state).is_empty());
    assert_eq!((t.tool_tip)(&t.state), ToolTip::default());
    assert_eq!(t.menu.revision(), 0);
    assert!((t.activate)(&mut t.state, 1, 2).is_ok());
    assert!((t.secondary_activate)(&mut t.state, 1, 2).is_ok());
    assert!((t.context_menu)(&mut t.state, 1, 2).is_ok());
    assert!((t.scroll)(&mut t.state, 3, "vertical").is_ok());
    assert_eq!(
        (t.on_clicked)(&mut t.menu_state, &Msg::Clicked, 5),
        EventUpdate::NoUpdate
    );
    assert_eq!(
        (t.on_toggled)(&mut t.menu_state, &Msg::Clicked, ToggleState::Selected, 5),
        EventUpdate::NoUpdate
    );
    assert!(!(t.about_to_show)(&mut t.menu_state, 1));
    let (update, rest) = (t.about_to_show_group)(&mut t.menu_state, vec![1, 2]).unwrap();
    assert!(update.is_empty() && rest.is_empty());
    assert!(t.state.clicks.is_empty());
}

#[test]
fn properties_follow_the_state() {
    let pixmap = IconPixmap {
        width: 1,
        height: 1,
        data: vec![255, 0, 0, 0],
    };
    let shown = pixmap.clone();
    let mut t = tray(icon(), "hello".to_owned(), title, Menu { seen: 0 }, menu())
        .with_item_is_menu(|s: &Icon| s.scrolled > 0)
        .with_icon_name(|s: &Icon| format!("icon-{}", s.clicks.len()))
        .with_icon_pixmap(move |_: &Icon| vec![shown.clone()])
        .with_attention_icon_name(|_: &Icon| "alert".to_owned())
        .with_attention_icon_pixmap(|_: &Icon| Vec::new())
        .with_attention_movie_name(|_: &Icon| "movie".to_owned())
        .with_overlay_icon_name(|_: &Icon| "overlay".to_owned())
        .with_overlay_icon_pixmap(|_: &Icon| Vec::new())
        .with_tray_icon_theme_path(|_: &Icon| "/icons".to_owned())
        .with_category(|| Category::Communications)
        .with_tray_status(|s: &Icon| {
            if s.clicks.is_empty() {
                NotifierStatus::Active
            } else {
                NotifierStatus::NeedsAttention
            }
        })
        .with_window_id(|_: &Icon| 42)
        .with_tool_tip(|s: &Icon| ToolTip {
            title: format!("{} clicks", s.clicks.len()),
            ..ToolTip::default()
        })
        .with_text_direction(|_: &Menu| TextDirection::Rtl)
        .with_menu_status(|m: &Menu| {
            if m.seen > 0 {
                MenuStatus::Notice
            } else {
                MenuStatus::Normal
            }
        })
        .with_menu_icon_theme_path(|_: &Menu| vec!["/menu-icons".to_owned()]);
    assert!(!(t.item_is_menu)(&t.state));
    assert_eq!((t.icon_name)(&t.state), "icon-0");
    assert_eq!((t.tray_status)(&t.state), NotifierStatus::Active);
    assert_eq!((t.tool_tip)(&t.state).title, "0 clicks");
    t.state.clicks.push((1, 1));
    t.state.scrolled = 2;
    assert!((t.item_is_menu)(&t.state));
    assert_eq!((t.icon_name)(&t.state), "icon-1");
    assert_eq!((t.tray_status)(&t.state), NotifierStatus::NeedsAttention);
    assert_eq!((t.tool_tip)(&t.state).title, "1 clicks");
    assert_eq!((t.icon_pixmap)(&t.state), vec![pixmap]);
    assert_eq!((t.attention_icon_name)(&t.state), "alert");
    assert_eq!((t.attention_movie_name)(&t.state), "movie");
    assert_eq!((t.overlay_icon_name)(&t.state), "overlay");
    assert_eq!((t.tray_icon_theme_path)(&t.state), "/icons");
    assert_eq!((t.category)(), Category::Communications);
    assert_eq!((t.window_id)(&t.state), 42);
    assert_eq!((t.text_direction)(&t.menu_state), TextDirection::Rtl);
    assert_eq!((t.menu_status)(&t.menu_state), MenuStatus::Normal);
    t.menu_state.seen = 1;
    assert_eq!((t.menu_status)(&t.menu_state), MenuStatus::Notice);
    assert_eq!((t.menu_icon_theme_path)(&t.menu_state), vec!["/menu-icons".to_owned()]);
    assert_eq!(t.id, "hello");
    assert_eq!(t.menu.tree().len(), 2);
}

#[test]
fn handlers_are_the_ones_supplied() {
    let mut t = tray(icon(), "hello".to_owned(), title, Menu { seen: 0 }, menu())
        .with_activate(|s: &mut Icon, x: i32, y: i32| {
            s.clicks.push((x, y));
            Ok(())
        })
        .with_secondary_activate(|s: &mut Icon, x: i32, y: i32| {
            s.clicks.push((-x, -y));
            Ok(())
        })
        .with_context_menu(|_s: &mut Icon, _x: i32, _y: i32| {
            Err(zbus::fdo::Error::NotSupported("no context menu".to_owned()))
        })
        .with_scroll(|s: &mut Icon, delta: i32, _orientation: &str| {
            s.scrolled += delta;
            Ok(())
        })
        .with_on_clicked(|m: &mut Menu, _msg: &Msg, _t: u32| {
            m.seen += 1;
            EventUpdate::UpdateCurrent
        })
        .with_on_toggled(|_m: &mut Menu, _msg: &Msg, _s: ToggleState, _t: u32| EventUpdate::UpdateAll)
        .with_about_to_show(|_m: &mut Menu, id: i32| id == 1)
        .with_about_to_show_group(|_m: &mut Menu, ids: Vec<i32>| Ok((ids, Vec::new())));
    (t.activate)(&mut t.state, 3, 4).unwrap();
    (t.secondary_activate)(&mut t.state, 5, 6).unwrap();
    assert!((t.context_menu)(&mut t.state, 0, 0).is_err());
    (t.scroll)(&mut t.state, 7, "horizontal").unwrap();
    assert_eq!(t.state.clicks, vec![(3, 4), (-5, -6)]);
    assert_eq!(t.state.scrolled, 7);
    let message = *t.menu.message(1).unwrap();
    let update = (t.on_clicked)(&mut t.menu_state, &message, 9);
    assert_eq!(update, EventUpdate::UpdateCurrent);
    assert_eq!(t.menu_state.seen, 1);
    assert_eq!(t.menu.click(1), Ok(false));
    let note = t.menu.apply_update(1, update).unwrap();
    assert_eq!((note.revision, note.parent), (1, 0));
    assert_eq!(
        (t.on_toggled)(&mut t.menu_state, &message, ToggleState::Selected, 9),
        EventUpdate::UpdateAll
    );
    assert!((t.about_to_show)(&mut t.menu_state, 1));
    let (update, rest) = (t.about_to_show_group)(&mut t.menu_state, vec![1]).unwrap();
    assert_eq!(update, vec![1]);
    assert!(rest.is_empty());
}

#[test]
fn wire_names_of_tray_enums() {
    assert_eq!(Category::SystemServices.wire_name(), "SystemServices");
    assert_eq!(NotifierStatus::NeedsAttention.wire_name(), "NeedsAttention");
    assert_eq!(TextDirection::Rtl.wire_name(), "rtl");
    assert_eq!(MenuStatus::Notice.wire_name(), "notice");
}
