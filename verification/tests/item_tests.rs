use status_notifier::item::{
    bus_name, Attention, Category, Icon, Pixmap, Status, StatusNotifierItemInterface,
    StatusNotifierItemOptions, ToolTip, STATUS_NOTIFIER_ITEM_PATH,
};
use status_notifier::text::{i32_to_decimal, u64_to_decimal};

#[test]
fn category_wire_strings() {
    assert_eq!(Category::ApplicationStatus.text(), "ApplicationStatus");
    assert_eq!(Category::Communications.text(), "Communications");
    assert_eq!(Category::SystemServices.text(), "SystemServices");
    assert_eq!(Category::Hardware.text(), "Hardware");
    assert_eq!(Category::default(), Category::ApplicationStatus);
}

#[test]
fn status_wire_strings() {
    assert_eq!(Status::Active.text(), "Active");
    assert_eq!(Status::Passive.text(), "Passive");
    assert_eq!(Status::NeedsAttention.text(), "NeedsAttention");
    assert_eq!(Status::default(), Status::Active);
}

#[test]
fn status_parses_exactly_the_wire_strings() {
    assert_eq!(Status::from_str("Active"), Ok(Status::Active));
    assert_eq!(Status::from_str("Passive"), Ok(Status::Passive));
    assert_eq!(Status::from_str("NeedsAttention"), Ok(Status::NeedsAttention));
    assert_eq!(Status::from_str("active"), Err(()));
    assert_eq!(Status::from_str(""), Err(()));
    assert_eq!(Status::from_str("Attention"), Err(()));
}

#[test]
fn decimal_rendering() {
    assert_eq!(u64_to_decimal(0), "0");
    assert_eq!(u64_to_decimal(7), "7");
    assert_eq!(u64_to_decimal(10), "10");
    assert_eq!(u64_to_decimal(90210), "90210");
    assert_eq!(u64_to_decimal(u64::MAX), "18446744073709551615");
    assert_eq!(i32_to_decimal(0), "0");
    assert_eq!(i32_to_decimal(-1), "-1");
    assert_eq!(i32_to_decimal(i32::MAX), "2147483647");
    assert_eq!(i32_to_decimal(i32::MIN), "-2147483648");
}

#[test]
fn bus_name_formatting() {
    assert_eq!(bus_name(1234, 5), "org.freedesktop.StatusNotifierItem-1234-5");
    assert_eq!(bus_name(1, -3), "org.freedesktop.StatusNotifierItem-1--3");
    assert_eq!(bus_name(0, 0), "org.freedesktop.StatusNotifierItem-0-0");
}

#[test]
fn icon_projections() {
    let named = Icon::Name("network-idle".to_string());
    assert_eq!(named.clone().name_or_default(), "network-idle");
    assert!(named.pixmaps_or_default().is_empty());

    let pm = Pixmap { width: 2, height: 1, bytes: vec![0, 1, 2, 3, 4, 5, 6, 7] };
    let raster = Icon::Pixmaps(vec![pm]);
    assert_eq!(raster.clone().name_or_default(), "");
    let pixmaps = raster.pixmaps_or_default();
    assert_eq!(pixmaps.len(), 1);
    assert_eq!(pixmaps[0].width, 2);
    assert_eq!(pixmaps[0].height, 1);
    assert_eq!(pixmaps[0].bytes, vec![0, 1, 2, 3, 4, 5, 6, 7]);
}

#[test]
fn tooltip_builder() {
    let tooltip = ToolTip::new()
        .title("Title".to_string())
        .description("Longer text".to_string())
        .icon(Icon::Name("dialog-information".to_string()));
    assert_eq!(tooltip.title, "Title");
    assert_eq!(tooltip.description, "Longer text");
    match &tooltip.icon {
        Icon::Name(name) => assert_eq!(name, "dialog-information"),
        Icon::Pixmaps(_) => panic!("expected a named icon"),
    }
}

#[test]
fn options_builder() {
    let options = StatusNotifierItemOptions::new()
        .title("My App".to_string())
        .icon(Icon::Name("app-icon".to_string()))
        .tooltip(ToolTip::new().title("tip".to_string()));
    let iface = StatusNotifierItemInterface::new(7, options, false, None);
    assert_eq!(iface.title(), "My App");
    assert_eq!(iface.icon_name(), "app-icon");
    assert_eq!(iface.tooltip().title, "tip");
}

#[test]
fn interface_construction() {
    let iface =
        StatusNotifierItemInterface::new(7, StatusNotifierItemOptions::new(), true, None);
    assert_eq!(iface.id(), "7");
    assert_eq!(iface.menu(), "/MenuBar");
    let bare =
        StatusNotifierItemInterface::new(-2, StatusNotifierItemOptions::new(), false, None);
    assert_eq!(bare.id(), "-2");
    assert_eq!(bare.menu(), "/");
}

#[test]
fn default_property_projections() {
    let iface =
        StatusNotifierItemInterface::new(1, StatusNotifierItemOptions::new(), false, None);
    assert_eq!(iface.category(), "ApplicationStatus");
    assert_eq!(iface.title(), "");
    assert_eq!(iface.status(), "Active");
    assert_eq!(iface.window_id(), 0);
    assert_eq!(iface.icon_theme_path(), "");
    assert_eq!(iface.icon_name(), "");
    assert!(iface.icon_pixmap().is_empty());
    assert_eq!(iface.overlay_icon_name(), "");
    assert!(iface.overlay_icon_pixmap().is_empty());
    assert_eq!(iface.attention_icon_name(), "");
    assert!(iface.attention_icon_pixmap().is_empty());
    assert_eq!(iface.attention_movie_name(), "");
    assert_eq!(iface.tooltip().title, "");
    assert!(!iface.item_is_menu());
}

#[test]
fn setter_replaces_exactly_one_field() {
    let mut iface = StatusNotifierItemInterface::new(
        1,
        StatusNotifierItemOptions::new().title("before".to_string()),
        false,
        None,
    );
    iface.set_status(Status::NeedsAttention);
    // The targeted field changed...
    assert_eq!(iface.status(), "NeedsAttention");
    // ...and every other projection is exactly what it was.
    assert_eq!(iface.title(), "before");
    assert_eq!(iface.category(), "ApplicationStatus");
    assert_eq!(iface.icon_name(), "");
    assert_eq!(iface.tooltip().title, "");
    assert!(!iface.item_is_menu());
}

#[test]
fn combined_tooltip_update_is_whole() {
    let mut iface = StatusNotifierItemInterface::new(
        1,
        StatusNotifierItemOptions::new().tooltip(
            ToolTip::new().title("old title".to_string()).description("old text".to_string()),
        ),
        false,
        None,
    );
    let replacement =
        ToolTip::new().title("new title".to_string()).description("new text".to_string());
    iface.set_tooltip(replacement);
    // The tooltip is fully the new one, never a mix of old and new fields.
    let seen = iface.tooltip();
    assert_eq!(seen.title, "new title");
    assert_eq!(seen.description, "new text");
}

#[test]
fn tooltip_subfield_setters() {
    let mut iface = StatusNotifierItemInterface::new(
        1,
        StatusNotifierItemOptions::new().tooltip(
            ToolTip::new().title("t".to_string()).description("d".to_string()),
        ),
        false,
        None,
    );
    iface.set_tooltip_title("t2".to_string());
    assert_eq!(iface.tooltip().title, "t2");
    assert_eq!(iface.tooltip().description, "d");
    iface.set_tooltip_description("d2".to_string());
    assert_eq!(iface.tooltip().title, "t2");
    assert_eq!(iface.tooltip().description, "d2");
}

#[test]
fn all_setters_round_trip() {
    let mut iface =
        StatusNotifierItemInterface::new(1, StatusNotifierItemOptions::new(), false, None);
    iface.set_title("hello".to_string());
    assert_eq!(iface.title(), "hello");
    iface.set_icon(Icon::Name("icon-a".to_string()));
    assert_eq!(iface.icon_name(), "icon-a");
    iface.set_overlay(Icon::Name("icon-b".to_string()));
    assert_eq!(iface.overlay_icon_name(), "icon-b");
    iface.set_attention(Attention {
        icon: Icon::Name("icon-c".to_string()),
        movie_name: "movie".to_string(),
    });
    assert_eq!(iface.attention_icon_name(), "icon-c");
    assert_eq!(iface.attention_movie_name(), "movie");
    iface.set_category(Category::Hardware);
    assert_eq!(iface.category(), "Hardware");
}

#[test]
fn item_path_constant() {
    assert_eq!(STATUS_NOTIFIER_ITEM_PATH, "/StatusNotifierItem");
}

#[test]
fn pixmap_properties_round_trip() {
    let pm = Pixmap { width: 4, height: 4, bytes: (0..64).collect() };
    let options = StatusNotifierItemOptions::new().icon(Icon::Pixmaps(vec![pm]));
    let iface = StatusNotifierItemInterface::new(1, options, false, None);
    let seen = iface.icon_pixmap();
    assert_eq!(seen.len(), 1);
    assert_eq!(seen[0].width, 4);
    assert_eq!(seen[0].height, 4);
    assert_eq!(seen[0].bytes, (0..64).collect::<Vec<u8>>());
    assert_eq!(iface.icon_name(), "");
}
