use libappindicator_zbus::utils::{
    ButtonOptions, EventUpdate, LayoutUpdated, MenuError, MenuKind, MenuProperty, MenuService,
    MenuTree, MenuUnit, RadioGroupBuilder, RadioOptions, ToggleState, ToggleType,
};

#[derive(Debug, Clone, Copy, PartialEq, Eq)]
enum Msg {
    Hello,
    A,
    B,
    Good,
}

fn button(label: &str, icon: &str, message: Msg) -> MenuUnit<Msg> {
    MenuUnit::button(
        ButtonOptions {
            label: label.to_owned(),
            enabled: true,
            icon_name: icon.to_owned(),
        },
        message,
    )
}

fn radio(label: &str, state: ToggleState) -> RadioOptions {
    RadioOptions {
        label: label.to_owned(),
        enabled: true,
        toggle_type: ToggleType::Radio,
        toggle_state: state,
        ..Default::default()
    }
}

/// Root -> [Button("Hello"), RadioGroup([A selected, B unselected])]
/// ids: root 0, Hello 1, group 2, A 3, B 4
fn sample() -> MenuTree<Msg> {
    let group = RadioGroupBuilder::new()
        .append(radio("A", ToggleState::Selected), Msg::A)
        .append(radio("B", ToggleState::UnSelected), Msg::B);
    MenuTree::new()
        .push(button("Hello", "", Msg::Hello))
        .push(MenuUnit::radio_group(group).unwrap())
}

fn no_names() -> Vec<String> {
    Vec::new()
}

fn state_of(props: &[MenuProperty]) -> Option<ToggleState> {
    props.iter().find_map(|p| match p {
        MenuProperty::ToggleState(s) => Some(*s),
        _ => None,
    })
}

#[test]
fn full_layout_lists_both_children_with_all_properties() {
    let service = MenuService::new(sample());
    let (revision, items) = service.get_layout(0, -1, &no_names()).unwrap();
    assert_eq!(revision, 0);
    let ids: Vec<i32> = items.iter().map(|i| i.id).collect();
    assert_eq!(ids, vec![0, 1, 2, 3, 4]);
    let depths: Vec<usize> = items.iter().map(|i| i.depth).collect();
    assert_eq!(depths, vec![0, 1, 1, 2, 2]);
    assert_eq!(
        items[1].properties,
        vec![MenuProperty::Label("Hello".to_owned()), MenuProperty::Enabled(true)]
    );
    assert_eq!(
        items[3].properties,
        vec![
            MenuProperty::Label("A".to_owned()),
            MenuProperty::Enabled(true),
            MenuProperty::ToggleType(ToggleType::Radio),
            MenuProperty::ToggleState(ToggleState::Selected),
        ]
    );
    assert!(items[0].properties.is_empty());
    assert!(items[2].properties.is_empty());
}

#[test]
fn toggling_b_moves_the_selection_and_bumps_the_revision() {
    let mut service = MenuService::new(sample());
    assert_eq!(service.toggle(4, ToggleState::Selected), Ok(true));
    let handler_said = EventUpdate::UpdateCurrent;
    let note = service.apply_update(4, handler_said);
    assert_eq!(note, Some(LayoutUpdated { revision: 1, parent: 2 }));
    assert_eq!(service.revision(), 1);
    let items = service.get_group_properties(&vec![3, 4], &no_names());
    assert_eq!(items.len(), 2);
    assert_eq!(items[0].id, 3);
    assert_eq!(state_of(&items[0].properties), Some(ToggleState::UnSelected));
    assert_eq!(items[1].id, 4);
    assert_eq!(state_of(&items[1].properties), Some(ToggleState::Selected));
}

#[test]
fn a_radio_change_reported_as_no_update_is_not_announced() {
    let mut service = MenuService::new(sample());
    assert_eq!(service.click(4), Ok(true));
    assert_eq!(service.apply_update(4, EventUpdate::NoUpdate), None);
    assert_eq!(service.revision(), 0);
    assert_eq!(service.click(4), Ok(false));
    assert_eq!(service.toggle(4, ToggleState::Selected), Ok(false));
    assert_eq!(service.apply_update(4, EventUpdate::NoUpdate), None);
    assert_eq!(service.revision(), 0);
}

#[test]
fn choosing_the_selected_button_clears_its_siblings() {
    let group = RadioGroupBuilder::new()
        .append(radio("A", ToggleState::Selected), Msg::A)
        .append(radio("B", ToggleState::TriState), Msg::B);
    let tree = MenuTree::new().push(MenuUnit::radio_group(group).unwrap());
    // ids: root 0, group 1, A 2, B 3
    let mut service = MenuService::new(tree);
    assert_eq!(service.click(2), Ok(false));
    let items = service.get_group_properties(&vec![2, 3], &no_names());
    assert_eq!(state_of(&items[0].properties), Some(ToggleState::Selected));
    assert_eq!(state_of(&items[1].properties), Some(ToggleState::UnSelected));

    let group = RadioGroupBuilder::new()
        .append(radio("A", ToggleState::Selected), Msg::A)
        .append(radio("B", ToggleState::TriState), Msg::B);
    let tree = MenuTree::new().push(MenuUnit::radio_group(group).unwrap());
    let mut service = MenuService::new(tree);
    assert_eq!(service.toggle(2, ToggleState::Selected), Ok(false));
    let items = service.get_group_properties(&vec![2, 3], &no_names());
    assert_eq!(state_of(&items[1].properties), Some(ToggleState::UnSelected));
    assert_eq!(service.revision(), 0);
}

#[test]
fn dispatched_clicks_reach_both_handlers_and_announce_what_they_report() {
    let mut service = MenuService::new(sample());
    let mut seen: Vec<(Msg, Option<ToggleState>)> = Vec::new();
    let clicked = |s: &mut Vec<(Msg, Option<ToggleState>)>, m: &Msg, _t: u32| {
        s.push((*m, None));
        EventUpdate::NoUpdate
    };
    let toggled = |s: &mut Vec<(Msg, Option<ToggleState>)>, m: &Msg, st: ToggleState, _t: u32| {
        s.push((*m, Some(st)));
        EventUpdate::UpdateCurrent
    };
    // B is not selected yet: both handlers run and the toggle handler's report wins
    let note = service.dispatch_click(&mut seen, 4, 7, &clicked, &toggled).unwrap();
    assert_eq!(note, Some(LayoutUpdated { revision: 1, parent: 2 }));
    assert_eq!(seen, vec![(Msg::B, None), (Msg::B, Some(ToggleState::Selected))]);
    // B again: only the click handler runs, and it reports nothing
    let note = service.dispatch_click(&mut seen, 4, 8, &clicked, &toggled).unwrap();
    assert_eq!(note, None);
    assert_eq!(service.revision(), 1);
    assert_eq!(seen.len(), 3);
    // a plain button
    let note = service.dispatch_click(&mut seen, 1, 9, &clicked, &toggled).unwrap();
    assert_eq!(note, None);
    assert_eq!(seen[3], (Msg::Hello, None));
    assert_eq!(
        service.dispatch_click(&mut seen, 99, 9, &clicked, &toggled).err(),
        Some(MenuError::NotFound)
    );
}

#[test]
fn join_keeps_the_wider_update() {
    assert_eq!(EventUpdate::NoUpdate.join(EventUpdate::NoUpdate), EventUpdate::NoUpdate);
    assert_eq!(EventUpdate::NoUpdate.join(EventUpdate::UpdateCurrent), EventUpdate::UpdateCurrent);
    assert_eq!(EventUpdate::UpdateAll.join(EventUpdate::UpdateCurrent), EventUpdate::UpdateAll);
    assert_eq!(EventUpdate::UpdateCurrent.join(EventUpdate::UpdateAll), EventUpdate::UpdateAll);
}

#[test]
fn group_properties_of_unknown_id_is_empty() {
    let service = MenuService::new(sample());
    let items = service.get_group_properties(&vec![999], &no_names());
    assert!(items.is_empty());
}

#[test]
fn group_properties_follow_tree_order_once_each() {
    let service = MenuService::new(sample());
    let items = service.get_group_properties(&vec![4, 1, 4, -3], &no_names());
    let ids: Vec<i32> = items.iter().map(|i| i.id).collect();
    assert_eq!(ids, vec![1, 4]);
}

#[test]
fn recursion_depth_bounds_the_reply() {
    let service = MenuService::new(sample());
    let (_, only_root) = service.get_layout(0, 0, &no_names()).unwrap();
    assert_eq!(only_root.len(), 1);
    assert_eq!(only_root[0].id, 0);
    let (_, one_level) = service.get_layout(0, 1, &no_names()).unwrap();
    let ids: Vec<i32> = one_level.iter().map(|i| i.id).collect();
    assert_eq!(ids, vec![0, 1, 2]);
    assert!(one_level.iter().all(|i| i.depth <= 1));
    let (_, group) = service.get_layout(2, -1, &no_names()).unwrap();
    let ids: Vec<i32> = group.iter().map(|i| i.id).collect();
    assert_eq!(ids, vec![2, 3, 4]);
    let depths: Vec<usize> = group.iter().map(|i| i.depth).collect();
    assert_eq!(depths, vec![0, 1, 1]);
}

#[test]
fn negative_depths_other_than_minus_one_are_unbounded() {
    let service = MenuService::new(sample());
    let (_, items) = service.get_layout(0, -7, &no_names()).unwrap();
    assert_eq!(items.len(), 5);
}

#[test]
fn property_filter_keeps_only_named_properties() {
    let service = MenuService::new(sample());
    let names = vec!["label".to_owned(), "toggle-state".to_owned()];
    let (_, items) = service.get_layout(0, -1, &names).unwrap();
    for item in &items {
        for p in &item.properties {
            assert!(names.contains(&p.key()));
        }
    }
    assert_eq!(
        items[3].properties,
        vec![
            MenuProperty::Label("A".to_owned()),
            MenuProperty::ToggleState(ToggleState::Selected),
        ]
    );
    let (_, none) = service.get_layout(0, -1, &vec!["no-such-property".to_owned()]).unwrap();
    assert!(none.iter().all(|i| i.properties.is_empty()));
}

#[test]
fn unknown_parent_is_not_found() {
    let service = MenuService::new(sample());
    assert_eq!(service.get_layout(5, -1, &no_names()).err(), Some(MenuError::NotFound));
    assert_eq!(service.get_layout(-1, -1, &no_names()).err(), Some(MenuError::NotFound));
}

#[test]
fn radio_group_needs_exactly_one_selected() {
    let none = RadioGroupBuilder::new()
        .append(radio("A", ToggleState::UnSelected), Msg::A)
        .append(radio("B", ToggleState::UnSelected), Msg::B);
    assert_eq!(MenuUnit::radio_group(none).err(), Some(MenuError::RadioSelection));
    let two = RadioGroupBuilder::new()
        .append(radio("A", ToggleState::Selected), Msg::A)
        .append(radio("B", ToggleState::Selected), Msg::B);
    assert_eq!(MenuUnit::radio_group(two).err(), Some(MenuError::RadioSelection));
    let empty: RadioGroupBuilder<Msg> = RadioGroupBuilder::new();
    assert_eq!(MenuUnit::radio_group(empty).err(), Some(MenuError::RadioSelection));
    let one = RadioGroupBuilder::new().append(radio("A", ToggleState::Selected), Msg::A);
    assert_eq!(MenuUnit::radio_group(one).unwrap().len(), 2);
}

#[test]
fn every_toggle_leaves_one_selected() {
    let mut service = MenuService::new(sample());
    let steps: Vec<(i32, ToggleState)> = vec![
        (4, ToggleState::Selected),
        (4, ToggleState::Selected),
        (3, ToggleState::Selected),
        (3, ToggleState::UnSelected),
        (4, ToggleState::TriState),
        (4, ToggleState::Selected),
    ];
    for (id, state) in steps {
        service.toggle(id, state).unwrap();
        let items = service.get_group_properties(&vec![3, 4], &no_names());
        let on = items
            .iter()
            .filter(|i| state_of(&i.properties) == Some(ToggleState::Selected))
            .count();
        assert_eq!(on, 1);
    }
    let items = service.get_group_properties(&vec![3, 4], &no_names());
    assert_eq!(state_of(&items[1].properties), Some(ToggleState::Selected));
}

#[test]
fn clicking_a_radio_button_selects_it() {
    let mut service = MenuService::new(sample());
    assert_eq!(service.click(4), Ok(true));
    assert_eq!(service.click(4), Ok(false));
    assert_eq!(service.click(1), Ok(false));
    assert_eq!(service.click(17), Err(MenuError::NotFound));
    let items = service.get_group_properties(&vec![3, 4], &no_names());
    assert_eq!(state_of(&items[0].properties), Some(ToggleState::UnSelected));
    assert_eq!(state_of(&items[1].properties), Some(ToggleState::Selected));
    assert_eq!(service.revision(), 0);
}

#[test]
fn revision_moves_by_one_per_announced_update() {
    let mut service = MenuService::new(sample());
    assert_eq!(service.apply_update(1, EventUpdate::NoUpdate), None);
    assert_eq!(service.revision(), 0);
    assert_eq!(
        service.apply_update(1, EventUpdate::UpdateCurrent),
        Some(LayoutUpdated { revision: 1, parent: 0 })
    );
    assert_eq!(
        service.apply_update(3, EventUpdate::UpdateAll),
        Some(LayoutUpdated { revision: 2, parent: 0 })
    );
    assert_eq!(service.apply_update(1, EventUpdate::NoUpdate), None);
    assert_eq!(service.revision(), 2);
    assert_eq!(
        service.apply_update(3, EventUpdate::UpdateAll),
        Some(LayoutUpdated { revision: 3, parent: 0 })
    );
    assert_eq!(service.layout_changed(2), LayoutUpdated { revision: 3, parent: 2 });
    let note = service.replace_tree(sample());
    assert_eq!(note, LayoutUpdated { revision: 4, parent: 0 });
    let (revision, _) = service.get_layout(0, 0, &no_names()).unwrap();
    assert_eq!(revision, 4);
}

#[test]
fn submenus_nest_and_scope_updates_to_their_parent() {
    let tree = MenuTree::new()
        .push(button("World", "fcitx", Msg::Hello))
        .push(MenuUnit::separator())
        .push(MenuUnit::sub_menu("Next".to_owned()).push(button("Good", "wezterm", Msg::Good)));
    // ids: root 0, World 1, separator 2, Next 3, Good 4
    assert_eq!(tree.len(), 5);
    assert_eq!(tree.entry(3).kind, MenuKind::SubMenu);
    assert_eq!(tree.parent(4), 3);
    assert_eq!(tree.parent(3), 0);
    assert_eq!(tree.parent(0), 0);
    let mut service = MenuService::new(tree);
    let (_, items) = service.get_layout(3, -1, &no_names()).unwrap();
    assert_eq!(items.len(), 2);
    assert_eq!(
        items[0].properties,
        vec![MenuProperty::Label("Next".to_owned()), MenuProperty::SubMenu]
    );
    assert_eq!(
        items[1].properties,
        vec![
            MenuProperty::Label("Good".to_owned()),
            MenuProperty::Enabled(true),
            MenuProperty::IconName("wezterm".to_owned()),
        ]
    );
    assert_eq!(items[1].depth, 1);
    let (_, sep) = service.get_layout(2, 0, &no_names()).unwrap();
    assert_eq!(sep[0].properties, vec![MenuProperty::Separator]);
    assert_eq!(service.message(4), Some(&Msg::Good));
    assert_eq!(service.message(3), None);
    assert_eq!(service.message(40), None);
    assert_eq!(
        service.apply_update(4, EventUpdate::UpdateCurrent),
        Some(LayoutUpdated { revision: 1, parent: 3 })
    );
}

#[test]
fn full_layout_reproduces_the_tree() {
    let tree = sample();
    let n = tree.len();
    let service = MenuService::new(tree);
    let (_, items) = service.get_layout(0, -1, &no_names()).unwrap();
    assert_eq!(items.len(), n);
    for (i, item) in items.iter().enumerate() {
        let entry = service.tree().entry(i);
        assert_eq!(item.id as usize, i);
        assert_eq!(item.depth, entry.depth);
        assert_eq!(item.properties, libappindicator_zbus::layout::properties_of(entry));
    }
}

#[test]
fn property_keys_and_wire_names() {
    assert_eq!(MenuProperty::Separator.key(), "type");
    assert_eq!(MenuProperty::IconName(String::new()).key(), "icon-name");
    assert_eq!(MenuProperty::SubMenu.key(), "children-display");
    assert_eq!(ToggleType::Checkmark.wire_name(), "checkmark");
    assert_eq!(ToggleType::Plain.wire_name(), "");
    assert_eq!(ToggleState::Selected.to_wire(), 1);
    assert_eq!(ToggleState::TriState.to_wire(), 2);
    assert_eq!(ToggleState::from_wire(0), ToggleState::UnSelected);
    assert_eq!(ToggleState::from_wire(7), ToggleState::TriState);
}
