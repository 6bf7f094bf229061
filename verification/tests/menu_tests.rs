use status_notifier::bridge::event_channel;
use status_notifier::dbusmenu::{
    decode_event, DBusMenuEvents, DBusMenuInterface, DBusMenuLayoutItem, LayoutProperty, Menu,
    Submenu, DBUS_MENU_PATH,
};
use status_notifier::item::StatusNotifierItemEvents;

fn leaf(id: i32, label: &str) -> Submenu {
    Submenu { id, icon_name: None, label: Some(label.to_string()), children: Vec::new() }
}

#[test]
fn serialize_bare_node() {
    let node = Submenu { id: 42, icon_name: None, label: None, children: Vec::new() };
    let layout = node.to_layout();
    assert_eq!(layout.id, 42);
    assert!(layout.properties.is_empty());
    assert!(layout.children.is_empty());
}

#[test]
fn serialize_twice_is_identical() {
    let node = Submenu {
        id: 1,
        icon_name: Some("edit-copy".to_string()),
        label: Some("Copy".to_string()),
        children: vec![leaf(2, "A"), leaf(3, "B")],
    };
    let first = node.to_layout();
    let second = node.to_layout();
    assert_eq!(first, second);
}

#[test]
fn serialize_parent_marks_submenu() {
    let node = Submenu {
        id: 1,
        icon_name: None,
        label: None,
        children: vec![leaf(10, "x"), leaf(11, "y"), leaf(12, "z")],
    };
    let layout = node.to_layout();
    assert!(layout
        .properties
        .contains(&LayoutProperty::ChildrenDisplay("submenu".to_string())));
    assert_eq!(layout.children.len(), 3);
    assert_eq!(layout.children[0].id, 10);
    assert_eq!(layout.children[1].id, 11);
    assert_eq!(layout.children[2].id, 12);
}

#[test]
fn serialize_sets_icon_and_label_keys() {
    let node = Submenu {
        id: 5,
        icon_name: Some("document-open".to_string()),
        label: Some("Open".to_string()),
        children: Vec::new(),
    };
    let layout = node.to_layout();
    assert_eq!(
        layout.properties,
        vec![
            LayoutProperty::IconName("document-open".to_string()),
            LayoutProperty::Label("Open".to_string()),
        ]
    );
    assert!(layout.children.is_empty());
}

#[test]
fn layout_clone_is_identical() {
    let node = Submenu {
        id: 9,
        icon_name: Some("go-home".to_string()),
        label: Some("Home".to_string()),
        children: vec![leaf(2, "sub")],
    };
    let layout = node.to_layout();
    assert_eq!(layout.clone(), layout);
}

#[test]
fn submenu_clone_serializes_identically() {
    let node = Submenu {
        id: 4,
        icon_name: None,
        label: Some("Quit".to_string()),
        children: vec![leaf(8, "inner")],
    };
    let copy = node.clone();
    assert_eq!(copy.to_layout(), node.to_layout());
}

#[test]
fn get_layout_full_tree_scenario() {
    let root = Submenu {
        id: 1,
        icon_name: None,
        label: None,
        children: vec![leaf(2, "Toggle Check"), leaf(3, "Toggle Visible")],
    };
    let menu = Menu { children: root.children };
    let iface = DBusMenuInterface { menu, event_sender: None };
    let (revision, layout) = iface.get_layout(0, -1, Vec::new());
    assert_eq!(revision, 0);
    assert!(layout
        .properties
        .contains(&LayoutProperty::ChildrenDisplay("submenu".to_string())));
    assert_eq!(layout.children.len(), 2);
    assert_eq!(layout.children[0].id, 2);
    assert_eq!(layout.children[1].id, 3);
    assert_eq!(
        layout.children[0].properties,
        vec![LayoutProperty::Label("Toggle Check".to_string())]
    );
    assert_eq!(
        layout.children[1].properties,
        vec![LayoutProperty::Label("Toggle Visible".to_string())]
    );
    assert!(layout.children[0].children.is_empty());
    assert!(layout.children[1].children.is_empty());
}

#[test]
fn get_layout_empty_menu() {
    let iface = DBusMenuInterface { menu: Menu::default(), event_sender: None };
    let (revision, layout) = iface.get_layout(0, -1, Vec::new());
    assert_eq!(revision, 0);
    assert_eq!(layout.id, 0);
    assert!(layout.properties.is_empty());
    assert!(layout.children.is_empty());
}

#[test]
fn default_layout_item_is_empty() {
    let layout = DBusMenuLayoutItem::default();
    assert_eq!(layout.id, 0);
    assert!(layout.properties.is_empty());
    assert!(layout.children.is_empty());
}

#[test]
fn about_to_show_is_false_for_every_id() {
    let iface = DBusMenuInterface { menu: Menu::default(), event_sender: None };
    assert!(!iface.about_to_show(0));
    assert!(!iface.about_to_show(1));
    assert!(!iface.about_to_show(-1));
    assert!(!iface.about_to_show(i32::MIN));
    assert!(!iface.about_to_show(i32::MAX));
}

#[test]
fn decode_event_recognizes_only_clicked() {
    assert_eq!(decode_event(7, "clicked"), Some(DBusMenuEvents::MenuClick(7)));
    assert_eq!(decode_event(-3, "clicked"), Some(DBusMenuEvents::MenuClick(-3)));
    assert_eq!(decode_event(7, "hovered"), None);
    assert_eq!(decode_event(7, "opened"), None);
    assert_eq!(decode_event(7, ""), None);
    assert_eq!(decode_event(7, "Clicked"), None);
}

#[test]
fn clicked_event_yields_exactly_one_menu_click() {
    let (sender, receiver) = event_channel();
    let iface = DBusMenuInterface { menu: Menu::default(), event_sender: Some(sender) };
    iface.event(21, "clicked".to_string(), 0);
    let events = receiver.drain();
    assert_eq!(
        events,
        vec![StatusNotifierItemEvents::MenuEvent(DBusMenuEvents::MenuClick(21))]
    );
}

#[test]
fn other_event_ids_yield_nothing() {
    let (sender, receiver) = event_channel();
    let iface = DBusMenuInterface { menu: Menu::default(), event_sender: Some(sender) };
    iface.event(21, "hovered".to_string(), 0);
    iface.event(21, "opened".to_string(), 0);
    iface.event(21, "closed".to_string(), 0);
    assert!(receiver.drain().is_empty());
}

#[test]
fn menu_path_constant() {
    assert_eq!(DBUS_MENU_PATH, "/MenuBar");
}

#[test]
fn layout_property_wire_keys() {
    assert_eq!(LayoutProperty::IconName("x".to_string()).key(), "icon-name");
    assert_eq!(LayoutProperty::Label("x".to_string()).key(), "label");
    assert_eq!(
        LayoutProperty::ChildrenDisplay("submenu".to_string()).key(),
        "children-display"
    );
}
