use status_notifier::dbusmenu::{Menu, Submenu};
use status_notifier::tray::Tray;

#[test]
fn new_tray_defaults() {
    let tray = Tray::new();
    assert!(tray.tooltip.is_none());
    assert!(tray.title.is_none());
    assert!(tray.icon.is_none());
    assert!(tray.icon_data.is_none());
    assert!(!tray.icon_is_template);
    assert!(tray.menu.is_none());
    assert!(tray.visible);
}

#[test]
fn builder_sets_each_field() {
    let menu = Menu {
        children: vec![Submenu {
            id: 1,
            icon_name: None,
            label: Some("Quit".to_string()),
            children: Vec::new(),
        }],
    };
    let tray = Tray::new()
        .tooltip("tip".to_string())
        .title("title".to_string())
        .icon(vec![1, 2, 3])
        .icon_as_template(true)
        .menu(menu)
        .visible(false);
    assert_eq!(tray.tooltip.as_deref(), Some("tip"));
    assert_eq!(tray.title.as_deref(), Some("title"));
    assert_eq!(tray.icon, Some(vec![1, 2, 3]));
    assert!(tray.icon_is_template);
    assert_eq!(tray.menu.as_ref().map(|m| m.children.len()), Some(1));
    assert!(!tray.visible);
}

#[test]
fn render_icon_stores_pixels_when_icon_set() {
    let mut tray = Tray::new().icon(vec![9, 9]);
    tray.render_icon(vec![1, 2, 3, 4], 1, 1);
    let data = tray.icon_data.expect("rendered data should be stored");
    assert_eq!(data.data, vec![1, 2, 3, 4]);
    assert_eq!(data.width, 1);
    assert_eq!(data.height, 1);
}

#[test]
fn render_icon_is_a_no_op_without_an_icon() {
    let mut tray = Tray::new();
    tray.render_icon(vec![1, 2, 3, 4], 1, 1);
    assert!(tray.icon_data.is_none());
}
