//! The application-facing tray description: a builder the host fills in
//! before it constructs the bus-facing objects.

use vstd::prelude::*;

use crate::dbusmenu::Menu;

verus! {

/// Rendered icon pixels: raw bytes plus their dimensions, produced by the
/// host's icon-rendering service.
#[derive(Debug)]
pub struct TrayIconData {
    pub data: Vec<u8>,
    pub width: u32,
    pub height: u32,
}

/// A system tray icon description.
pub struct Tray {
    /// Tooltip text.
    pub tooltip: Option<String>,
    /// Tray title shown after the icon.
    pub title: Option<String>,
    /// The encoded source image of the tray icon, before rendering.
    pub icon: Option<Vec<u8>>,
    /// The rendered icon pixels, once the host has rendered the source image.
    pub icon_data: Option<TrayIconData>,
    /// Whether the icon should be treated as a template image on platforms
    /// that support it: a single-color glyph the system recolors for light
    /// and dark appearances.
    pub icon_is_template: bool,
    /// The context menu.
    pub menu: Option<Menu>,
    /// Visibility of the tray icon.
    pub visible: bool,
}

impl Tray {
    /// A new tray icon with default properties: nothing set, visible.
    pub fn new() -> (r: Self)
        ensures
            r.tooltip is None,
            r.title is None,
            r.icon is None,
            r.icon_data is None,
            r.icon_is_template == false,
            r.menu is None,
            r.visible == true,
    {
        Tray {
            tooltip: None,
            title: None,
            icon: None,
            icon_data: None,
            icon_is_template: false,
            menu: None,
            visible: true,
        }
    }

    /// Sets the tooltip text and nothing else.
    pub fn tooltip(self, tooltip: String) -> (r: Self)
        ensures
            r.tooltip == Some(tooltip),
            r.title == self.title,
            r.icon == self.icon,
            r.icon_data == self.icon_data,
            r.icon_is_template == self.icon_is_template,
            r.menu == self.menu,
            r.visible == self.visible,
    {
        Tray {
            tooltip: Some(tooltip),
            title: self.title,
            icon: self.icon,
            icon_data: self.icon_data,
            icon_is_template: self.icon_is_template,
            menu: self.menu,
            visible: self.visible,
        }
    }

    /// Sets the title text and nothing else.
    pub fn title(self, title: String) -> (r: Self)
        ensures
            r.title == Some(title),
            r.tooltip == self.tooltip,
            r.icon == self.icon,
            r.icon_data == self.icon_data,
            r.icon_is_template == self.icon_is_template,
            r.menu == self.menu,
            r.visible == self.visible,
    {
        Tray {
            tooltip: self.tooltip,
            title: Some(title),
            icon: self.icon,
            icon_data: self.icon_data,
            icon_is_template: self.icon_is_template,
            menu: self.menu,
            visible: self.visible,
        }
    }

    /// Sets the source icon image and nothing else.
    pub fn icon(self, icon: Vec<u8>) -> (r: Self)
        ensures
            r.icon == Some(icon),
            r.tooltip == self.tooltip,
            r.title == self.title,
            r.icon_data == self.icon_data,
            r.icon_is_template == self.icon_is_template,
            r.menu == self.menu,
            r.visible == self.visible,
    {
        Tray {
            tooltip: self.tooltip,
            title: self.title,
            icon: Some(icon),
            icon_data: self.icon_data,
            icon_is_template: self.icon_is_template,
            menu: self.menu,
            visible: self.visible,
        }
    }

    /// Marks the icon as a template image (or not) and nothing else.
    pub fn icon_as_template(self, is_template: bool) -> (r: Self)
        ensures
            r.icon_is_template == is_template,
            r.tooltip == self.tooltip,
            r.title == self.title,
            r.icon == self.icon,
            r.icon_data == self.icon_data,
            r.menu == self.menu,
            r.visible == self.visible,
    {
        Tray {
            tooltip: self.tooltip,
            title: self.title,
            icon: self.icon,
            icon_data: self.icon_data,
            icon_is_template: is_template,
            menu: self.menu,
            visible: self.visible,
        }
    }

    /// Sets the context menu and nothing else.
    pub fn menu(self, menu: Menu) -> (r: Self)
        ensures
            r.menu == Some(menu),
            r.tooltip == self.tooltip,
            r.title == self.title,
            r.icon == self.icon,
            r.icon_data == self.icon_data,
            r.icon_is_template == self.icon_is_template,
            r.visible == self.visible,
    {
        Tray {
            tooltip: self.tooltip,
            title: self.title,
            icon: self.icon,
            icon_data: self.icon_data,
            icon_is_template: self.icon_is_template,
            menu: Some(menu),
            visible: self.visible,
        }
    }

    /// Sets the visibility and nothing else; the default is visible.
    pub fn visible(self, visible: bool) -> (r: Self)
        ensures
            r.visible == visible,
            r.tooltip == self.tooltip,
            r.title == self.title,
            r.icon == self.icon,
            r.icon_data == self.icon_data,
            r.icon_is_template == self.icon_is_template,
            r.menu == self.menu,
    {
        Tray {
            tooltip: self.tooltip,
            title: self.title,
            icon: self.icon,
            icon_data: self.icon_data,
            icon_is_template: self.icon_is_template,
            menu: self.menu,
            visible,
        }
    }

    /// Stores freshly rendered icon pixels, but only when a source icon is
    /// set; everything else is left untouched.
    pub fn render_icon(&mut self, data: Vec<u8>, width: u32, height: u32)
        ensures
            old(self).icon is Some ==> final(self).icon_data == Some(
                TrayIconData { data, width, height },
            ),
            old(self).icon is None ==> final(self).icon_data == old(self).icon_data,
            final(self).tooltip == old(self).tooltip,
            final(self).title == old(self).title,
            final(self).icon == old(self).icon,
            final(self).icon_is_template == old(self).icon_is_template,
            final(self).menu == old(self).menu,
            final(self).visible == old(self).visible,
    {
        if self.icon.is_some() {
            self.icon_data = Some(TrayIconData { data, width, height });
        }
    }
}

} // verus!
