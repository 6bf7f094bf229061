//! The context-menu side of the adapter: the application-owned menu tree,
//! its serialization into the recursive wire layout, and the decoding of
//! activation events.

use vstd::prelude::*;

use crate::bridge::EventSender;
use crate::item::StatusNotifierItemEvents;
use crate::text::str_eq;

verus! {

/// The object path the menu interface is served at.
pub const DBUS_MENU_PATH: &'static str = "/MenuBar";

/// A typed event decoded from a wire menu event.
#[derive(Debug, Clone, PartialEq, Eq, Structural)]
pub enum DBusMenuEvents {
    /// The menu entry with this id was clicked.
    MenuClick(i32),
}

/// One node of the application-owned menu tree. Ids are caller-assigned and
/// unique within one tree; the tree is finite and acyclic, built once before
/// the menu object is constructed.
#[derive(Debug)]
pub struct Submenu {
    pub id: i32,
    pub icon_name: Option<String>,
    pub label: Option<String>,
    pub children: Vec<Submenu>,
}

/// The mathematical value of a menu node.
#[verifier::ext_equal]
pub struct MenuNodeView {
    pub id: i32,
    pub icon_name: Option<Seq<char>>,
    pub label: Option<Seq<char>>,
    pub children: Seq<MenuNodeView>,
}

/// The value of a menu node.
pub open spec fn submenu_view(n: Submenu) -> MenuNodeView
    decreases n,
{
    MenuNodeView {
        id: n.id,
        icon_name: match n.icon_name {
            Option::Some(s) => Option::Some(s@),
            Option::None => Option::None,
        },
        label: match n.label {
            Option::Some(s) => Option::Some(s@),
            Option::None => Option::None,
        },
        children: submenus_view(n.children@),
    }
}

/// The values of a sequence of menu nodes, in order.
pub open spec fn submenus_view(s: Seq<Submenu>) -> Seq<MenuNodeView>
    decreases s,
{
    if s.len() == 0 {
        Seq::empty()
    } else {
        seq![submenu_view(s[0])] + submenus_view(s.drop_first())
    }
}

/// `submenus_view` maps the sequence element by element.
pub proof fn lemma_submenus_view_index(s: Seq<Submenu>)
    ensures
        submenus_view(s).len() == s.len(),
        forall|i: int| 0 <= i < s.len() ==> submenus_view(s)[i] == submenu_view(s[i]),
    decreases s,
{
    if s.len() > 0 {
        lemma_submenus_view_index(s.drop_first());
        assert forall|i: int| 0 <= i < s.len() implies submenus_view(s)[i] == submenu_view(
            s[i],
        ) by {
            if i > 0 {
                assert(s.drop_first()[i - 1] == s[i]);
            }
        }
    }
}

impl View for Submenu {
    type V = MenuNodeView;

    open spec fn view(&self) -> MenuNodeView {
        submenu_view(*self)
    }
}

impl Default for Submenu {
    /// The default node: id 0, nothing set, no children.
    fn default() -> (r: Self)
        ensures
            r@ == (MenuNodeView {
                id: 0,
                icon_name: Option::None,
                label: Option::None,
                children: Seq::empty(),
            }),
    {
        Submenu { id: 0, icon_name: None, label: None, children: Vec::new() }
    }
}

/// Copies a menu node, children included.
fn clone_submenu(n: &Submenu) -> (r: Submenu)
    ensures
        r@ == n@,
    decreases *n,
{
    let icon_name = match &n.icon_name {
        Some(s) => Some(s.clone()),
        None => None,
    };
    let label = match &n.label {
        Some(s) => Some(s.clone()),
        None => None,
    };
    let mut children: Vec<Submenu> = Vec::new();
    let mut i: usize = 0;
    while i < n.children.len()
        invariant
            i <= n.children.len(),
            children@.len() == i,
            forall|j: int| 0 <= j < i ==> children@[j]@ == submenu_view(n.children@[j]),
        decreases n.children.len() - i,
    {
        children.push(clone_submenu(&n.children[i]));
        i = i + 1;
    }
    let r = Submenu { id: n.id, icon_name, label, children };
    proof {
        lemma_submenus_view_index(r.children@);
        lemma_submenus_view_index(n.children@);
        assert(submenus_view(r.children@) =~= submenus_view(n.children@));
        assert(r@ =~= n@);
    }
    r
}

impl Clone for Submenu {
    /// A clone has the same value.
    fn clone(&self) -> (r: Self)
        ensures
            r@ == self@,
    {
        clone_submenu(self)
    }
}

/// A whole context menu: the ordered children of the (implicit) root.
#[derive(Debug)]
pub struct Menu {
    pub children: Vec<Submenu>,
}

/// The mathematical value of a menu.
#[verifier::ext_equal]
pub struct MenuView {
    pub children: Seq<MenuNodeView>,
}

impl View for Menu {
    type V = MenuView;

    open spec fn view(&self) -> MenuView {
        MenuView { children: submenus_view(self.children@) }
    }
}

impl Default for Menu {
    /// The default menu has no entries.
    fn default() -> (r: Self)
        ensures
            r@ == (MenuView { children: Seq::empty() }),
    {
        Menu { children: Vec::new() }
    }
}

/// One property of a wire layout item. Only this closed vocabulary of keys is
/// ever produced, so the open wire dictionary is modeled as a tagged union.
#[derive(Debug, PartialEq)]
pub enum LayoutProperty {
    /// The `icon-name` key.
    IconName(String),
    /// The `label` key.
    Label(String),
    /// The `children-display` key.
    ChildrenDisplay(String),
}

/// The mathematical value of a layout property.
pub enum LayoutPropertyView {
    IconName(Seq<char>),
    Label(Seq<char>),
    ChildrenDisplay(Seq<char>),
}

impl View for LayoutProperty {
    type V = LayoutPropertyView;

    open spec fn view(&self) -> LayoutPropertyView {
        match self {
            LayoutProperty::IconName(s) => LayoutPropertyView::IconName(s@),
            LayoutProperty::Label(s) => LayoutPropertyView::Label(s@),
            LayoutProperty::ChildrenDisplay(s) => LayoutPropertyView::ChildrenDisplay(s@),
        }
    }
}

impl Clone for LayoutProperty {
    /// A clone has the same value.
    fn clone(&self) -> (r: Self)
        ensures
            r == *self,
    {
        match self {
            LayoutProperty::IconName(s) => LayoutProperty::IconName(s.clone()),
            LayoutProperty::Label(s) => LayoutProperty::Label(s.clone()),
            LayoutProperty::ChildrenDisplay(s) => LayoutProperty::ChildrenDisplay(s.clone()),
        }
    }
}

impl LayoutProperty {
    /// The exact dictionary key this property is stored under on the wire.
    pub open spec fn spec_key(&self) -> Seq<char> {
        match self {
            LayoutProperty::IconName(_) => "icon-name"@,
            LayoutProperty::Label(_) => "label"@,
            LayoutProperty::ChildrenDisplay(_) => "children-display"@,
        }
    }

    /// The dictionary key for this property.
    pub fn key(&self) -> (r: &'static str)
        ensures
            r@ == self.spec_key(),
    {
        match self {
            LayoutProperty::IconName(_) => "icon-name",
            LayoutProperty::Label(_) => "label",
            LayoutProperty::ChildrenDisplay(_) => "children-display",
        }
    }
}

/// One node of the recursive wire layout: id, property bag, nested children.
/// Derived from the menu tree, never hand-constructed.
#[derive(Debug, PartialEq)]
pub struct DBusMenuLayoutItem {
    pub id: i32,
    pub properties: Vec<LayoutProperty>,
    pub children: Vec<DBusMenuLayoutItem>,
}

/// The mathematical value of a layout item.
#[verifier::ext_equal]
pub struct LayoutItemView {
    pub id: i32,
    pub properties: Seq<LayoutPropertyView>,
    pub children: Seq<LayoutItemView>,
}

/// The value of a layout item.
pub open spec fn layout_item_view(it: DBusMenuLayoutItem) -> LayoutItemView
    decreases it,
{
    LayoutItemView {
        id: it.id,
        properties: Seq::new(it.properties@.len(), |i: int| it.properties@[i]@),
        children: layout_items_view(it.children@),
    }
}

/// The values of a sequence of layout items, in order.
pub open spec fn layout_items_view(s: Seq<DBusMenuLayoutItem>) -> Seq<LayoutItemView>
    decreases s,
{
    if s.len() == 0 {
        Seq::empty()
    } else {
        seq![layout_item_view(s[0])] + layout_items_view(s.drop_first())
    }
}

/// `layout_items_view` maps the sequence element by element.
pub proof fn lemma_layout_items_view_index(s: Seq<DBusMenuLayoutItem>)
    ensures
        layout_items_view(s).len() == s.len(),
        forall|i: int| 0 <= i < s.len() ==> layout_items_view(s)[i] == layout_item_view(s[i]),
    decreases s,
{
    if s.len() > 0 {
        lemma_layout_items_view_index(s.drop_first());
        assert forall|i: int| 0 <= i < s.len() implies layout_items_view(s)[i] == layout_item_view(
            s[i],
        ) by {
            if i > 0 {
                assert(s.drop_first()[i - 1] == s[i]);
            }
        }
    }
}

impl View for DBusMenuLayoutItem {
    type V = LayoutItemView;

    open spec fn view(&self) -> LayoutItemView {
        layout_item_view(*self)
    }
}

impl Default for DBusMenuLayoutItem {
    /// The default layout item: id 0, no properties, no children.
    fn default() -> (r: Self)
        ensures
            r@ == (LayoutItemView { id: 0, properties: Seq::empty(), children: Seq::empty() }),
    {
        let r = DBusMenuLayoutItem { id: 0, properties: Vec::new(), children: Vec::new() };
        proof {
            assert(r@.properties =~= Seq::<LayoutPropertyView>::empty());
        }
        r
    }
}

/// Copies a layout item, children included.
fn clone_layout_item(it: &DBusMenuLayoutItem) -> (r: DBusMenuLayoutItem)
    ensures
        r@ == it@,
    decreases *it,
{
    let mut properties: Vec<LayoutProperty> = Vec::new();
    let mut i: usize = 0;
    while i < it.properties.len()
        invariant
            i <= it.properties.len(),
            properties@.len() == i,
            forall|j: int| 0 <= j < i ==> properties@[j] == it.properties@[j],
        decreases it.properties.len() - i,
    {
        properties.push(it.properties[i].clone());
        i = i + 1;
    }
    let mut children: Vec<DBusMenuLayoutItem> = Vec::new();
    let mut k: usize = 0;
    while k < it.children.len()
        invariant
            k <= it.children.len(),
            children@.len() == k,
            forall|j: int| 0 <= j < k ==> children@[j]@ == layout_item_view(it.children@[j]),
        decreases it.children.len() - k,
    {
        children.push(clone_layout_item(&it.children[k]));
        k = k + 1;
    }
    let r = DBusMenuLayoutItem { id: it.id, properties, children };
    proof {
        lemma_layout_items_view_index(r.children@);
        lemma_layout_items_view_index(it.children@);
        assert(layout_items_view(r.children@) =~= layout_items_view(it.children@));
        assert(r@.properties =~= it@.properties);
        assert(r@ =~= it@);
    }
    r
}

impl Clone for DBusMenuLayoutItem {
    /// A clone has the same value.
    fn clone(&self) -> (r: Self)
        ensures
            r@ == self@,
    {
        clone_layout_item(self)
    }
}

/// The property bag serialization produces for one node: `icon-name` when an
/// icon is set, `label` when a label is set, and `children-display` =
/// "submenu" exactly when the node has at least one child.
pub open spec fn layout_props_of(n: MenuNodeView) -> Seq<LayoutPropertyView> {
    (match n.icon_name {
        Option::Some(s) => seq![LayoutPropertyView::IconName(s)],
        Option::None => Seq::empty(),
    }) + (match n.label {
        Option::Some(s) => seq![LayoutPropertyView::Label(s)],
        Option::None => Seq::empty(),
    }) + (if n.children.len() > 0 {
        seq![LayoutPropertyView::ChildrenDisplay("submenu"@)]
    } else {
        Seq::empty()
    })
}

/// The wire layout a menu node serializes to: depth first, deterministic,
/// children in input order, no node skipped, reordered or deduplicated.
pub open spec fn layout_of(n: MenuNodeView) -> LayoutItemView
    decreases n,
{
    LayoutItemView { id: n.id, properties: layout_props_of(n), children: layouts_of(n.children) }
}

/// The wire layouts of a sequence of menu nodes, in order.
pub open spec fn layouts_of(s: Seq<MenuNodeView>) -> Seq<LayoutItemView>
    decreases s,
{
    if s.len() == 0 {
        Seq::empty()
    } else {
        seq![layout_of(s[0])] + layouts_of(s.drop_first())
    }
}

/// `layouts_of` maps the sequence element by element.
pub proof fn lemma_layouts_of_index(s: Seq<MenuNodeView>)
    ensures
        layouts_of(s).len() == s.len(),
        forall|i: int| 0 <= i < s.len() ==> layouts_of(s)[i] == layout_of(s[i]),
    decreases s,
{
    if s.len() > 0 {
        lemma_layouts_of_index(s.drop_first());
        assert forall|i: int| 0 <= i < s.len() implies layouts_of(s)[i] == layout_of(s[i]) by {
            if i > 0 {
                assert(s.drop_first()[i - 1] == s[i]);
            }
        }
    }
}

impl Submenu {
    /// Serializes this node into its wire layout form.
    pub fn to_layout(&self) -> (r: DBusMenuLayoutItem)
        ensures
            r@ == layout_of(self@),
        decreases *self,
    {
        let mut properties: Vec<LayoutProperty> = Vec::new();
        if let Some(icon) = &self.icon_name {
            properties.push(LayoutProperty::IconName(icon.clone()));
        }
        if let Some(label) = &self.label {
            properties.push(LayoutProperty::Label(label.clone()));
        }
        if self.children.len() > 0 {
            properties.push(LayoutProperty::ChildrenDisplay("submenu".to_owned()));
        }
        let mut children: Vec<DBusMenuLayoutItem> = Vec::new();
        let mut i: usize = 0;
        while i < self.children.len()
            invariant
                i <= self.children.len(),
                children@.len() == i,
                forall|j: int| 0 <= j < i ==> children@[j]@ == layout_of(
                    submenu_view(self.children@[j]),
                ),
            decreases self.children.len() - i,
        {
            children.push(self.children[i].to_layout());
            i = i + 1;
        }
        let r = DBusMenuLayoutItem { id: self.id, properties, children };
        proof {
            lemma_submenus_view_index(self.children@);
            lemma_layouts_of_index(self@.children);
            lemma_layout_items_view_index(r.children@);
            assert(r@.properties =~= layout_props_of(self@));
            assert(r@.children =~= layouts_of(self@.children));
            assert(r@ =~= layout_of(self@));
        }
        r
    }
}

/// The bus-facing menu interface object: it owns one menu tree, answers
/// layout queries, and decodes activation events into the bridge.
pub struct DBusMenuInterface {
    /// The menu tree this object serves.
    pub menu: Menu,
    /// The producer half of the event bridge; a missing sender makes event
    /// decoding a silent no-op.
    pub event_sender: Option<EventSender>,
}

impl DBusMenuInterface {
    /// The implicit root the whole tree serializes under: id 0, no icon, no
    /// label, the menu's entries as children.
    pub open spec fn root_node(self) -> MenuNodeView {
        MenuNodeView {
            id: 0,
            icon_name: Option::None,
            label: Option::None,
            children: self.menu@.children,
        }
    }

    /// Answers a layout query: the revision (a fixed 0 in this design) and
    /// the serialization of the entire tree from the root. The three
    /// parameters are accepted but not honored; the full tree is always
    /// returned (a documented limitation of this design).
    pub fn get_layout(
        &self,
        _parent_id: i32,
        _recursion_depth: i32,
        _property_names: Vec<String>,
    ) -> (r: (u32, DBusMenuLayoutItem))
        ensures
            r.0 == 0,
            r.1@ == layout_of(self.root_node()),
    {
        let mut properties: Vec<LayoutProperty> = Vec::new();
        if self.menu.children.len() > 0 {
            properties.push(LayoutProperty::ChildrenDisplay("submenu".to_owned()));
        }
        let mut children: Vec<DBusMenuLayoutItem> = Vec::new();
        let mut i: usize = 0;
        while i < self.menu.children.len()
            invariant
                i <= self.menu.children.len(),
                children@.len() == i,
                forall|j: int| 0 <= j < i ==> children@[j]@ == layout_of(
                    submenu_view(self.menu.children@[j]),
                ),
            decreases self.menu.children.len() - i,
        {
            children.push(self.menu.children[i].to_layout());
            i = i + 1;
        }
        let root = DBusMenuLayoutItem { id: 0, properties, children };
        proof {
            lemma_submenus_view_index(self.menu.children@);
            lemma_layouts_of_index(self.root_node().children);
            lemma_layout_items_view_index(root.children@);
            assert(root@.properties =~= layout_props_of(self.root_node()));
            assert(root@.children =~= layouts_of(self.root_node().children));
            assert(root@ =~= layout_of(self.root_node()));
        }
        (0, root)
    }

    /// Handles an inbound Event call: exactly the event id "clicked" pushes
    /// one MenuClick with the same id into the bridge; every other event id
    /// is ignored without error, as is a missing sender or a dropped
    /// consumer.
    pub fn event(&self, id: i32, event_id: String, _timestamp: u32) {
        match decode_event(id, event_id.as_str()) {
            Some(ev) => {
                if let Some(sender) = &self.event_sender {
                    let _ = sender.send(StatusNotifierItemEvents::MenuEvent(ev));
                }
            },
            None => {},
        }
    }

    /// Answers AboutToShow: always false, for every id — no lazy submenu
    /// population is supported.
    pub fn about_to_show(&self, _id: i32) -> (r: bool)
        ensures
            r == false,
    {
        false
    }
}

/// The typed event one wire menu event decodes to: exactly the event id
/// "clicked" yields a click with the same id; every other event id yields
/// nothing.
pub open spec fn spec_decode_event(id: i32, event_id: Seq<char>) -> Option<DBusMenuEvents> {
    if event_id == "clicked"@ {
        Option::Some(DBusMenuEvents::MenuClick(id))
    } else {
        Option::None
    }
}

/// Decodes one wire menu event.
pub fn decode_event(id: i32, event_id: &str) -> (r: Option<DBusMenuEvents>)
    ensures
        r == spec_decode_event(id, event_id@),
{
    if str_eq(event_id, "clicked") {
        Some(DBusMenuEvents::MenuClick(id))
    } else {
        None
    }
}

/// Law: serialization is deterministic — serializing equal trees, or one
/// tree twice, gives structurally identical layouts.
pub proof fn lemma_layout_deterministic(a: MenuNodeView, b: MenuNodeView)
    requires
        a == b,
    ensures
        layout_of(a) == layout_of(b),
{
}

/// Law: a node with no icon, no label and no children serializes to its id,
/// an empty property bag, and no children.
pub proof fn lemma_layout_of_bare_node(n: MenuNodeView)
    requires
        n.icon_name is None,
        n.label is None,
        n.children.len() == 0,
    ensures
        layout_of(n).id == n.id,
        layout_of(n).properties == Seq::<LayoutPropertyView>::empty(),
        layout_of(n).children == Seq::<LayoutItemView>::empty(),
{
    assert(layout_of(n).properties =~= Seq::<LayoutPropertyView>::empty());
    assert(layout_of(n).children =~= Seq::<LayoutItemView>::empty());
}

/// Law: a node with at least one child serializes with the
/// `children-display` = "submenu" marker and a children list of equal length
/// whose entries are the children's serializations, in input order.
pub proof fn lemma_layout_of_parent(n: MenuNodeView)
    requires
        n.children.len() >= 1,
    ensures
        layout_of(n).properties.contains(LayoutPropertyView::ChildrenDisplay("submenu"@)),
        layout_of(n).children.len() == n.children.len(),
        forall|i: int| 0 <= i < n.children.len() ==> layout_of(n).children[i] == layout_of(
            n.children[i],
        ),
{
    lemma_layouts_of_index(n.children);
    let props = layout_of(n).properties;
    assert(props[props.len() - 1] == LayoutPropertyView::ChildrenDisplay("submenu"@));
}

} // verus!
