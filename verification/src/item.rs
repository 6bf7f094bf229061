//! Tray-item metadata and the bus-facing item interface object: the data
//! types that make up the observable state of a tray icon, the pure property
//! projections the shell reads, and the setters the application writes
//! through.

use vstd::prelude::*;

use crate::bridge::EventSender;
use crate::text::{copy_bytes, spec_decimal, spec_udecimal, str_eq, i32_to_decimal, u64_to_decimal};
use vstd::string::StringExecFns;

verus! {

/// The object path the item interface is served at.
pub const STATUS_NOTIFIER_ITEM_PATH: &'static str = "/StatusNotifierItem";

/// The category a tray item reports to the shell.
#[derive(Clone, Copy, Debug, PartialEq, Eq, Structural)]
pub enum Category {
    /// A generic application status item; the fallback when nothing more
    /// specific applies.
    ApplicationStatus,
    /// A communication-oriented application, such as a chat or mail client.
    Communications,
    /// A background system service not seen as a stand-alone application.
    SystemServices,
    /// An indicator for a piece of hardware, such as battery charge.
    Hardware,
}

impl Category {
    /// The exact string this category shows on the wire.
    pub open spec fn spec_text(&self) -> Seq<char> {
        match self {
            Category::ApplicationStatus => "ApplicationStatus"@,
            Category::Communications => "Communications"@,
            Category::SystemServices => "SystemServices"@,
            Category::Hardware => "Hardware"@,
        }
    }

    /// Renders the category as its wire string.
    pub fn text(&self) -> (r: String)
        ensures
            r@ == self.spec_text(),
    {
        match self {
            Category::ApplicationStatus => "ApplicationStatus".to_owned(),
            Category::Communications => "Communications".to_owned(),
            Category::SystemServices => "SystemServices".to_owned(),
            Category::Hardware => "Hardware".to_owned(),
        }
    }
}

impl Default for Category {
    /// The default category is the generic application status.
    fn default() -> (r: Self)
        ensures
            r == Category::ApplicationStatus,
    {
        Category::ApplicationStatus
    }
}

/// The status a tray item reports to the shell.
#[derive(Clone, Copy, Debug, PartialEq, Eq, Structural)]
pub enum Status {
    /// The item is active; the shell shows it.
    Active,
    /// The item is passive; the shell may hide it.
    Passive,
    /// The item asks for the user's attention.
    NeedsAttention,
}

impl Status {
    /// The exact string this status shows on the wire.
    pub open spec fn spec_text(&self) -> Seq<char> {
        match self {
            Status::Active => "Active"@,
            Status::Passive => "Passive"@,
            Status::NeedsAttention => "NeedsAttention"@,
        }
    }

    /// Renders the status as its wire string.
    pub fn text(&self) -> (r: String)
        ensures
            r@ == self.spec_text(),
    {
        match self {
            Status::Active => "Active".to_owned(),
            Status::Passive => "Passive".to_owned(),
            Status::NeedsAttention => "NeedsAttention".to_owned(),
        }
    }

    /// Parses a wire status string; exactly the three wire strings are
    /// accepted.
    pub fn from_str(s: &str) -> (r: Result<Status, ()>)
        ensures
            r == (if s@ == "Active"@ {
                Result::<Status, ()>::Ok(Status::Active)
            } else if s@ == "Passive"@ {
                Result::<Status, ()>::Ok(Status::Passive)
            } else if s@ == "NeedsAttention"@ {
                Result::<Status, ()>::Ok(Status::NeedsAttention)
            } else {
                Result::<Status, ()>::Err(())
            }),
    {
        if str_eq(s, "Active") {
            Ok(Status::Active)
        } else if str_eq(s, "Passive") {
            Ok(Status::Passive)
        } else if str_eq(s, "NeedsAttention") {
            Ok(Status::NeedsAttention)
        } else {
            Err(())
        }
    }
}

impl Default for Status {
    /// The default status is active.
    fn default() -> (r: Self)
        ensures
            r == Status::Active,
    {
        Status::Active
    }
}

/// One raster image: width, height, and raw pixel bytes in the one fixed
/// wire encoding.
#[derive(Debug)]
pub struct Pixmap {
    pub width: i32,
    pub height: i32,
    pub bytes: Vec<u8>,
}

/// The mathematical value of a `Pixmap`.
pub struct PixmapView {
    pub width: i32,
    pub height: i32,
    pub bytes: Seq<u8>,
}

impl View for Pixmap {
    type V = PixmapView;

    open spec fn view(&self) -> PixmapView {
        PixmapView { width: self.width, height: self.height, bytes: self.bytes@ }
    }
}

impl Clone for Pixmap {
    /// A clone has the same value.
    fn clone(&self) -> (r: Self)
        ensures
            r@ == self@,
    {
        Pixmap { width: self.width, height: self.height, bytes: copy_bytes(&self.bytes) }
    }
}

/// The values of a vector of pixmaps.
pub open spec fn pixmaps_view(v: Vec<Pixmap>) -> Seq<PixmapView> {
    Seq::new(v@.len(), |i: int| v@[i]@)
}

/// Copies a vector of pixmaps.
fn clone_pixmaps(v: &Vec<Pixmap>) -> (r: Vec<Pixmap>)
    ensures
        pixmaps_view(r) == pixmaps_view(*v),
{
    let mut r: Vec<Pixmap> = Vec::new();
    let mut i: usize = 0;
    while i < v.len()
        invariant
            i <= v.len(),
            r@.len() == i,
            forall|j: int| 0 <= j < i ==> r@[j]@ == v@[j]@,
        decreases v.len() - i,
    {
        r.push(v[i].clone());
        i = i + 1;
    }
    proof {
        assert(pixmaps_view(r) =~= pixmaps_view(*v));
    }
    r
}

/// The icon of a tray item: either a name the shell resolves against its
/// theme, or explicit raster images. Exactly one variant at a time.
#[derive(Debug)]
pub enum Icon {
    /// A themed icon name.
    Name(String),
    /// Explicit raster images.
    Pixmaps(Vec<Pixmap>),
}

/// The mathematical value of an `Icon`.
pub enum IconView {
    Name(Seq<char>),
    Pixmaps(Seq<PixmapView>),
}

impl IconView {
    /// The icon name, or the empty string for a raster icon.
    pub open spec fn name_or_default(self) -> Seq<char> {
        match self {
            IconView::Name(name) => name,
            IconView::Pixmaps(_) => Seq::empty(),
        }
    }

    /// The raster images, or none for a named icon.
    pub open spec fn pixmaps_or_default(self) -> Seq<PixmapView> {
        match self {
            IconView::Name(_) => Seq::empty(),
            IconView::Pixmaps(pixmaps) => pixmaps,
        }
    }
}

impl View for Icon {
    type V = IconView;

    open spec fn view(&self) -> IconView {
        match self {
            Icon::Name(name) => IconView::Name(name@),
            Icon::Pixmaps(pixmaps) => IconView::Pixmaps(pixmaps_view(*pixmaps)),
        }
    }
}

impl Clone for Icon {
    /// A clone has the same value.
    fn clone(&self) -> (r: Self)
        ensures
            r@ == self@,
    {
        match self {
            Icon::Name(name) => Icon::Name(name.clone()),
            Icon::Pixmaps(pixmaps) => Icon::Pixmaps(clone_pixmaps(pixmaps)),
        }
    }
}

impl Icon {
    /// The icon name, or the empty string for a raster icon.
    pub fn name_or_default(self) -> (r: String)
        ensures
            r@ == self@.name_or_default(),
    {
        match self {
            Icon::Name(name) => name,
            Icon::Pixmaps(_) => String::new(),
        }
    }

    /// The raster images, or an empty vector for a named icon.
    pub fn pixmaps_or_default(self) -> (r: Vec<Pixmap>)
        ensures
            pixmaps_view(r) == self@.pixmaps_or_default(),
    {
        match self {
            Icon::Name(_) => {
                let r: Vec<Pixmap> = Vec::new();
                proof {
                    assert(pixmaps_view(r) =~= Seq::<PixmapView>::empty());
                }
                r
            },
            Icon::Pixmaps(pixmaps) => pixmaps,
        }
    }
}

impl Default for Icon {
    /// The default icon is the empty name.
    fn default() -> (r: Self)
        ensures
            r@ == IconView::Name(Seq::<char>::empty()),
    {
        Icon::Name(String::new())
    }
}

/// The tooltip of a tray item; it is always replaced whole, never merged.
#[derive(Debug)]
pub struct ToolTip {
    pub icon: Icon,
    pub title: String,
    pub description: String,
}

/// The mathematical value of a `ToolTip`.
pub struct ToolTipView {
    pub icon: IconView,
    pub title: Seq<char>,
    pub description: Seq<char>,
}

impl ToolTipView {
    /// The value of an empty tooltip.
    pub open spec fn spec_default() -> ToolTipView {
        ToolTipView {
            icon: IconView::Name(Seq::empty()),
            title: Seq::empty(),
            description: Seq::empty(),
        }
    }
}

impl View for ToolTip {
    type V = ToolTipView;

    open spec fn view(&self) -> ToolTipView {
        ToolTipView { icon: self.icon@, title: self.title@, description: self.description@ }
    }
}

impl Clone for ToolTip {
    /// A clone has the same value.
    fn clone(&self) -> (r: Self)
        ensures
            r@ == self@,
    {
        ToolTip {
            icon: self.icon.clone(),
            title: self.title.clone(),
            description: self.description.clone(),
        }
    }
}

impl Default for ToolTip {
    /// The default tooltip is entirely empty.
    fn default() -> (r: Self)
        ensures
            r@ == ToolTipView::spec_default(),
    {
        ToolTip { icon: Icon::default(), title: String::new(), description: String::new() }
    }
}

impl ToolTip {
    /// An empty tooltip.
    pub fn new() -> (r: Self)
        ensures
            r@ == ToolTipView::spec_default(),
    {
        ToolTip::default()
    }

    /// Replaces the title, keeping the rest.
    pub fn title(self, title: String) -> (r: Self)
        ensures
            r@ == (ToolTipView { title: title@, ..self@ }),
    {
        ToolTip { icon: self.icon, title, description: self.description }
    }

    /// Replaces the description, keeping the rest.
    pub fn description(self, description: String) -> (r: Self)
        ensures
            r@ == (ToolTipView { description: description@, ..self@ }),
    {
        ToolTip { icon: self.icon, title: self.title, description }
    }

    /// Replaces the icon, keeping the rest.
    pub fn icon(self, icon: Icon) -> (r: Self)
        ensures
            r@ == (ToolTipView { icon: icon@, ..self@ }),
    {
        ToolTip { icon, title: self.title, description: self.description }
    }
}

/// The attention icon and its optional animation name.
#[derive(Debug)]
pub struct Attention {
    pub icon: Icon,
    pub movie_name: String,
}

/// The mathematical value of an `Attention`.
pub struct AttentionView {
    pub icon: IconView,
    pub movie_name: Seq<char>,
}

impl AttentionView {
    /// The value of an empty attention record.
    pub open spec fn spec_default() -> AttentionView {
        AttentionView { icon: IconView::Name(Seq::empty()), movie_name: Seq::empty() }
    }
}

impl View for Attention {
    type V = AttentionView;

    open spec fn view(&self) -> AttentionView {
        AttentionView { icon: self.icon@, movie_name: self.movie_name@ }
    }
}

impl Clone for Attention {
    /// A clone has the same value.
    fn clone(&self) -> (r: Self)
        ensures
            r@ == self@,
    {
        Attention { icon: self.icon.clone(), movie_name: self.movie_name.clone() }
    }
}

impl Default for Attention {
    /// The default attention record is entirely empty.
    fn default() -> (r: Self)
        ensures
            r@ == AttentionView::spec_default(),
    {
        Attention { icon: Icon::default(), movie_name: String::new() }
    }
}

/// The entire observable state of a tray icon.
#[derive(Debug)]
pub struct StatusNotifierItemOptions {
    pub category: Category,
    pub title: String,
    pub status: Status,
    pub window_id: u32,
    pub icon_theme_path: String,
    pub icon: Icon,
    pub overlay: Icon,
    pub attention: Attention,
    pub is_menu: bool,
    pub tooltip: ToolTip,
}

/// The mathematical value of the item options: one record holding every
/// observable field.
pub struct OptionsView {
    pub category: Category,
    pub title: Seq<char>,
    pub status: Status,
    pub window_id: u32,
    pub icon_theme_path: Seq<char>,
    pub icon: IconView,
    pub overlay: IconView,
    pub attention: AttentionView,
    pub is_menu: bool,
    pub tooltip: ToolTipView,
}

impl OptionsView {
    /// The value every option starts from.
    pub open spec fn spec_default() -> OptionsView {
        OptionsView {
            category: Category::ApplicationStatus,
            title: Seq::empty(),
            status: Status::Active,
            window_id: 0,
            icon_theme_path: Seq::empty(),
            icon: IconView::Name(Seq::empty()),
            overlay: IconView::Name(Seq::empty()),
            attention: AttentionView::spec_default(),
            is_menu: false,
            tooltip: ToolTipView::spec_default(),
        }
    }
}

impl View for StatusNotifierItemOptions {
    type V = OptionsView;

    open spec fn view(&self) -> OptionsView {
        OptionsView {
            category: self.category,
            title: self.title@,
            status: self.status,
            window_id: self.window_id,
            icon_theme_path: self.icon_theme_path@,
            icon: self.icon@,
            overlay: self.overlay@,
            attention: self.attention@,
            is_menu: self.is_menu,
            tooltip: self.tooltip@,
        }
    }
}

impl Default for StatusNotifierItemOptions {
    /// The default options: generic category, active status, everything else
    /// empty.
    fn default() -> (r: Self)
        ensures
            r@ == OptionsView::spec_default(),
    {
        StatusNotifierItemOptions {
            category: Category::ApplicationStatus,
            title: String::new(),
            status: Status::Active,
            window_id: 0,
            icon_theme_path: String::new(),
            icon: Icon::default(),
            overlay: Icon::default(),
            attention: Attention::default(),
            is_menu: false,
            tooltip: ToolTip::default(),
        }
    }
}

impl StatusNotifierItemOptions {
    /// Fresh options with every field at its default.
    pub fn new() -> (r: Self)
        ensures
            r@ == OptionsView::spec_default(),
    {
        StatusNotifierItemOptions::default()
    }

    /// Replaces the title, keeping the rest.
    pub fn title(self, title: String) -> (r: Self)
        ensures
            r@ == (OptionsView { title: title@, ..self@ }),
    {
        StatusNotifierItemOptions {
            category: self.category,
            title,
            status: self.status,
            window_id: self.window_id,
            icon_theme_path: self.icon_theme_path,
            icon: self.icon,
            overlay: self.overlay,
            attention: self.attention,
            is_menu: self.is_menu,
            tooltip: self.tooltip,
        }
    }

    /// Replaces the icon, keeping the rest.
    pub fn icon(self, icon: Icon) -> (r: Self)
        ensures
            r@ == (OptionsView { icon: icon@, ..self@ }),
    {
        StatusNotifierItemOptions {
            category: self.category,
            title: self.title,
            status: self.status,
            window_id: self.window_id,
            icon_theme_path: self.icon_theme_path,
            icon,
            overlay: self.overlay,
            attention: self.attention,
            is_menu: self.is_menu,
            tooltip: self.tooltip,
        }
    }

    /// Replaces the tooltip, keeping the rest.
    pub fn tooltip(self, tooltip: ToolTip) -> (r: Self)
        ensures
            r@ == (OptionsView { tooltip: tooltip@, ..self@ }),
    {
        StatusNotifierItemOptions {
            category: self.category,
            title: self.title,
            status: self.status,
            window_id: self.window_id,
            icon_theme_path: self.icon_theme_path,
            icon: self.icon,
            overlay: self.overlay,
            attention: self.attention,
            is_menu: self.is_menu,
            tooltip,
        }
    }
}

/// The typed events that cross from the bus executor into the host event
/// loop; the only data that crosses that boundary.
#[derive(Debug, Clone, PartialEq)]
pub enum StatusNotifierItemEvents {
    /// Primary activation at the given screen position.
    Activate(i32, i32),
    /// Secondary activation at the given screen position.
    SecondaryActivate(i32, i32),
    /// An activation token handed in by the compositor.
    XdgActivationToken(String),
    /// A scroll by the given delta along the named orientation.
    Scroll(i32, String),
    /// An event decoded from the context menu.
    MenuEvent(crate::dbusmenu::DBusMenuEvents),
}

/// The bus-facing item interface object: the single source of truth for the
/// tray metadata. Property reads are pure projections of `options`; inbound
/// method calls push typed events into the bridge.
pub struct StatusNotifierItemInterface {
    /// The item id, as the shell reads it.
    pub id: String,
    /// The observable state every property projects from.
    pub options: StatusNotifierItemOptions,
    /// The object path of the served menu, when one exists.
    pub menu: Option<String>,
    /// The producer half of the event bridge; a missing sender makes every
    /// inbound method a silent no-op.
    pub event_sender: Option<EventSender>,
}

impl StatusNotifierItemInterface {
    /// Builds the interface state for an item with the given numeric id.
    pub fn new(
        item_id: i32,
        options: StatusNotifierItemOptions,
        has_menu: bool,
        event_sender: Option<EventSender>,
    ) -> (r: Self)
        ensures
            r.id@ == spec_decimal(item_id as int),
            r.options == options,
            (match r.menu {
                Some(path) => has_menu && path@ == crate::dbusmenu::DBUS_MENU_PATH@,
                None => !has_menu,
            }),
            r.event_sender == event_sender,
    {
        let menu = if has_menu {
            Some(crate::dbusmenu::DBUS_MENU_PATH.to_owned())
        } else {
            None
        };
        StatusNotifierItemInterface { id: i32_to_decimal(item_id), options, menu, event_sender }
    }

    /// The Category property.
    pub fn category(&self) -> (r: String)
        ensures
            r@ == self.options.category.spec_text(),
    {
        self.options.category.text()
    }

    /// The Id property.
    pub fn id(&self) -> (r: String)
        ensures
            r@ == self.id@,
    {
        self.id.clone()
    }

    /// The Title property.
    pub fn title(&self) -> (r: String)
        ensures
            r@ == self.options@.title,
    {
        self.options.title.clone()
    }

    /// The Status property.
    pub fn status(&self) -> (r: String)
        ensures
            r@ == self.options.status.spec_text(),
    {
        self.options.status.text()
    }

    /// The WindowId property.
    pub fn window_id(&self) -> (r: u32)
        ensures
            r == self.options@.window_id,
    {
        self.options.window_id
    }

    /// The IconThemePath property.
    pub fn icon_theme_path(&self) -> (r: String)
        ensures
            r@ == self.options@.icon_theme_path,
    {
        self.options.icon_theme_path.clone()
    }

    /// The IconName property.
    pub fn icon_name(&self) -> (r: String)
        ensures
            r@ == self.options@.icon.name_or_default(),
    {
        self.options.icon.clone().name_or_default()
    }

    /// The IconPixmap property.
    pub fn icon_pixmap(&self) -> (r: Vec<Pixmap>)
        ensures
            pixmaps_view(r) == self.options@.icon.pixmaps_or_default(),
    {
        self.options.icon.clone().pixmaps_or_default()
    }

    /// The OverlayIconName property.
    pub fn overlay_icon_name(&self) -> (r: String)
        ensures
            r@ == self.options@.overlay.name_or_default(),
    {
        self.options.overlay.clone().name_or_default()
    }

    /// The OverlayIconPixmap property.
    pub fn overlay_icon_pixmap(&self) -> (r: Vec<Pixmap>)
        ensures
            pixmaps_view(r) == self.options@.overlay.pixmaps_or_default(),
    {
        self.options.overlay.clone().pixmaps_or_default()
    }

    /// The AttentionIconName property.
    pub fn attention_icon_name(&self) -> (r: String)
        ensures
            r@ == self.options@.attention.icon.name_or_default(),
    {
        self.options.attention.icon.clone().name_or_default()
    }

    /// The AttentionIconPixmap property.
    pub fn attention_icon_pixmap(&self) -> (r: Vec<Pixmap>)
        ensures
            pixmaps_view(r) == self.options@.attention.icon.pixmaps_or_default(),
    {
        self.options.attention.icon.clone().pixmaps_or_default()
    }

    /// The AttentionMovieName property.
    pub fn attention_movie_name(&self) -> (r: String)
        ensures
            r@ == self.options@.attention.movie_name,
    {
        self.options.attention.movie_name.clone()
    }

    /// The ToolTip property.
    pub fn tooltip(&self) -> (r: ToolTip)
        ensures
            r@ == self.options@.tooltip,
    {
        self.options.tooltip.clone()
    }

    /// The ItemIsMenu property.
    pub fn item_is_menu(&self) -> (r: bool)
        ensures
            r == self.options@.is_menu,
    {
        self.options.is_menu
    }

    /// The Menu property: the path of the served menu, or the root path when
    /// none is served.
    pub fn menu(&self) -> (r: String)
        ensures
            r@ == (match self.menu {
                Some(path) => path@,
                None => "/"@,
            }),
    {
        match &self.menu {
            Some(path) => path.clone(),
            None => "/".to_owned(),
        }
    }

    /// Replaces the title and nothing else.
    pub fn set_title(&mut self, title: String)
        ensures
            final(self).options@ == (OptionsView { title: title@, ..old(self).options@ }),
            final(self).id == old(self).id,
            final(self).menu == old(self).menu,
            final(self).event_sender == old(self).event_sender,
    {
        self.options.title = title;
    }

    /// Replaces the icon and nothing else.
    pub fn set_icon(&mut self, icon: Icon)
        ensures
            final(self).options@ == (OptionsView { icon: icon@, ..old(self).options@ }),
            final(self).id == old(self).id,
            final(self).menu == old(self).menu,
            final(self).event_sender == old(self).event_sender,
    {
        self.options.icon = icon;
    }

    /// Replaces the overlay icon and nothing else.
    pub fn set_overlay(&mut self, overlay: Icon)
        ensures
            final(self).options@ == (OptionsView { overlay: overlay@, ..old(self).options@ }),
            final(self).id == old(self).id,
            final(self).menu == old(self).menu,
            final(self).event_sender == old(self).event_sender,
    {
        self.options.overlay = overlay;
    }

    /// Replaces the attention record and nothing else.
    pub fn set_attention(&mut self, attention: Attention)
        ensures
            final(self).options@ == (OptionsView { attention: attention@, ..old(self).options@ }),
            final(self).id == old(self).id,
            final(self).menu == old(self).menu,
            final(self).event_sender == old(self).event_sender,
    {
        self.options.attention = attention;
    }

    /// Replaces the whole tooltip and nothing else.
    pub fn set_tooltip(&mut self, tooltip: ToolTip)
        ensures
            final(self).options@ == (OptionsView { tooltip: tooltip@, ..old(self).options@ }),
            final(self).id == old(self).id,
            final(self).menu == old(self).menu,
            final(self).event_sender == old(self).event_sender,
    {
        self.options.tooltip = tooltip;
    }

    /// Replaces the tooltip title and nothing else.
    pub fn set_tooltip_title(&mut self, title: String)
        ensures
            final(self).options@ == (OptionsView {
                tooltip: ToolTipView { title: title@, ..old(self).options@.tooltip },
                ..old(self).options@
            }),
            final(self).id == old(self).id,
            final(self).menu == old(self).menu,
            final(self).event_sender == old(self).event_sender,
    {
        self.options.tooltip.title = title;
    }

    /// Replaces the tooltip description and nothing else.
    pub fn set_tooltip_description(&mut self, description: String)
        ensures
            final(self).options@ == (OptionsView {
                tooltip: ToolTipView { description: description@, ..old(self).options@.tooltip },
                ..old(self).options@
            }),
            final(self).id == old(self).id,
            final(self).menu == old(self).menu,
            final(self).event_sender == old(self).event_sender,
    {
        self.options.tooltip.description = description;
    }

    /// Replaces the status and nothing else.
    pub fn set_status(&mut self, status: Status)
        ensures
            final(self).options@ == (OptionsView { status: status, ..old(self).options@ }),
            final(self).id == old(self).id,
            final(self).menu == old(self).menu,
            final(self).event_sender == old(self).event_sender,
    {
        self.options.status = status;
    }

    /// Replaces the category and nothing else.
    pub fn set_category(&mut self, category: Category)
        ensures
            final(self).options@ == (OptionsView { category: category, ..old(self).options@ }),
            final(self).id == old(self).id,
            final(self).menu == old(self).menu,
            final(self).event_sender == old(self).event_sender,
    {
        self.options.category = category;
    }

    /// Inbound ContextMenu call: no callback is registered for it, so it is a
    /// silent no-op by design.
    pub fn context_menu(&self, _x: i32, _y: i32) {
    }

    /// Inbound Activate call: pushes the typed event into the bridge; a
    /// missing sender or a dropped consumer makes it a silent no-op.
    pub fn activate(&self, x: i32, y: i32) {
        if let Some(sender) = &self.event_sender {
            let _ = sender.send(StatusNotifierItemEvents::Activate(x, y));
        }
    }

    /// Inbound SecondaryActivate call: pushes the typed event into the
    /// bridge; a missing sender or a dropped consumer makes it a silent no-op.
    pub fn secondary_activate(&self, x: i32, y: i32) {
        if let Some(sender) = &self.event_sender {
            let _ = sender.send(StatusNotifierItemEvents::SecondaryActivate(x, y));
        }
    }

    /// Inbound Scroll call: pushes the typed event into the bridge; a missing
    /// sender or a dropped consumer makes it a silent no-op.
    pub fn scroll(&self, delta: i32, orientation: String) {
        if let Some(sender) = &self.event_sender {
            let _ = sender.send(StatusNotifierItemEvents::Scroll(delta, orientation));
        }
    }

    /// Inbound ProvideXdgActivationToken call: pushes the typed event into
    /// the bridge; a missing sender or a dropped consumer makes it a silent
    /// no-op.
    pub fn provide_xdg_activation_token(&self, token: String) {
        if let Some(sender) = &self.event_sender {
            let _ = sender.send(StatusNotifierItemEvents::XdgActivationToken(token));
        }
    }
}

/// The well-known bus name for an item: the fixed prefix, the process id,
/// and the item id, joined by dashes.
pub open spec fn spec_bus_name(pid: nat, item_id: int) -> Seq<char> {
    "org.freedesktop.StatusNotifierItem-"@ + spec_udecimal(pid) + "-"@ + spec_decimal(item_id)
}

/// Renders the bus name an item registers under.
pub fn bus_name(pid: u32, item_id: i32) -> (r: String)
    ensures
        r@ == spec_bus_name(pid as nat, item_id as int),
{
    let mut s = "org.freedesktop.StatusNotifierItem-".to_owned();
    s.append(u64_to_decimal(pid as u64).as_str());
    s.append("-");
    s.append(i32_to_decimal(item_id).as_str());
    proof {
        assert(s@ =~= spec_bus_name(pid as nat, item_id as int));
    }
    s
}

} // verus!
