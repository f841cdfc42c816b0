//! Menus built as data: labels, shortcuts, check/radio/disabled state and an
//! action per item, for a menu bar or a context popup.
//!
//! A menu and its submenus are one tree, kept flat in pre-order: every node
//! carries its nesting depth, and a node one level deeper than the node
//! before it opens that node's submenu. Items take command ids in pre-order
//! from [`COMMAND_BASE`]; every node's owner-draw render id is its position
//! plus one.

pub mod access;
pub mod paint;

use vstd::prelude::*;

use crate::accel::Shortcut;

verus! {

/// First command id assigned to a menu item: above the low ids child
/// controls use, below the accelerator command range.
pub const COMMAND_BASE: u16 = 0x1000;
/// Last id in the reserved menu command range; the next item starts over at
/// [`COMMAND_BASE`].
pub const COMMAND_TOP: u16 = 0xEFFF;
/// How many command ids the reserved range holds.
pub const COMMAND_SPAN: usize = 0xE000;

/// The command id of the item with `rank` items before it.
pub open spec fn command_of(rank: int) -> u16 {
    (COMMAND_BASE + rank % (COMMAND_SPAN as int)) as u16
}

/// One chosen-able item.
pub struct MenuItem<A> {
    /// Its command id.
    pub id: u16,
    /// Display label, with `&` accelerator markers.
    pub label: String,
    /// Shortcut, displayed right-aligned.
    pub shortcut: Option<Shortcut>,
    /// Whether a tick (or radio dot) is shown.
    pub checked: bool,
    /// Whether the tick is a radio dot.
    pub radio: bool,
    /// Whether the item can be chosen.
    pub enabled: bool,
    /// The name [`Menu::set_checked`] finds the item by.
    pub key: Option<String>,
    /// What choosing the item raises.
    pub action: A,
}

/// What one node of the tree is.
pub enum MenuEntry<A> {
    /// An item.
    Item(MenuItem<A>),
    /// A separator line.
    Separator,
    /// A submenu with this label; its nodes follow, one level deeper.
    Submenu(String),
}

/// One node of a menu tree, in pre-order.
pub struct MenuNode<A> {
    /// How many submenus deep the node sits.
    pub depth: usize,
    /// What the node is.
    pub entry: MenuEntry<A>,
}

/// How the native menu was last built.
#[derive(Clone, Copy, Debug, PartialEq, Eq, Structural)]
pub struct BuildMode {
    /// A menu bar, rather than a popup.
    pub bar: bool,
    /// Owner-drawn items, rather than native ones.
    pub owner_draw: bool,
}

/// How many of `nodes` are items.
pub open spec fn count_items<A>(nodes: Seq<MenuNode<A>>) -> nat
    decreases nodes.len(),
{
    if nodes.len() == 0 {
        0
    } else {
        count_items(nodes.drop_last()) + if nodes.last().entry is Item {
            1nat
        } else {
            0nat
        }
    }
}

/// Every item's command id follows from how many items precede it.
#[verifier::opaque]
pub open spec fn ids_follow_rank<A>(nodes: Seq<MenuNode<A>>) -> bool {
    forall|k: int|
        0 <= k < nodes.len() ==> ((#[trigger] nodes[k]).entry matches MenuEntry::Item(item) ==> item.id
            == command_of(count_items(nodes.take(k)) as int))
}

/// The depths describe a tree in pre-order: the first node is top-level,
/// and a node is at most one level deeper than the node before it, which
/// then is the submenu it belongs to.
#[verifier::opaque]
pub open spec fn well_nested<A>(nodes: Seq<MenuNode<A>>) -> bool {
    &&& nodes.len() > 0 ==> nodes[0].depth == 0
    &&& forall|k: int| 0 < k < nodes.len() ==> #[trigger] nodes[k].depth <= nodes[k - 1].depth + 1
    &&& forall|k: int|
        0 < k < nodes.len() && #[trigger] nodes[k].depth == nodes[k - 1].depth + 1 ==> nodes[k
            - 1].entry is Submenu
}

/// Whether `node` is a top-level item made of these parts.
pub open spec fn is_top_item<A>(
    node: MenuNode<A>,
    id: u16,
    label: Seq<char>,
    shortcut: Option<Shortcut>,
    checked: bool,
    radio: bool,
    enabled: bool,
    action: A,
) -> bool {
    &&& node.depth == 0
    &&& node.entry matches MenuEntry::Item(item) && {
        &&& item.id == id
        &&& item.label@ == label
        &&& item.shortcut == shortcut
        &&& item.checked == checked
        &&& item.radio == radio
        &&& item.enabled == enabled
        &&& item.key is None
        &&& item.action == action
    }
}

/// `orig` one level deeper, renumbered to `id` when it is an item.
pub open spec fn moved_node<A>(orig: MenuNode<A>, id: u16) -> MenuNode<A> {
    MenuNode {
        depth: (orig.depth + 1) as usize,
        entry: match orig.entry {
            MenuEntry::Item(item) => MenuEntry::Item(MenuItem { id, ..item }),
            other => other,
        },
    }
}

/// `moved` is `orig` one level deeper, as an item renumbered to `id`.
pub open spec fn renumbered<A>(moved: MenuNode<A>, orig: MenuNode<A>, id: u16) -> bool {
    &&& moved.depth == orig.depth + 1
    &&& moved.entry == match orig.entry {
        MenuEntry::Item(item) => MenuEntry::Item(MenuItem { id, ..item }),
        other => other,
    }
}

/// Whether `node` is an item named `key`.
pub open spec fn has_key<A>(node: MenuNode<A>, key: Seq<char>) -> bool {
    node.entry matches MenuEntry::Item(item) && item.key matches Some(k) && k@ == key
}

/// `node` with its tick set to `checked` (when it is an item).
pub open spec fn with_checked<A>(node: MenuNode<A>, checked: bool) -> MenuNode<A> {
    MenuNode {
        depth: node.depth,
        entry: match node.entry {
            MenuEntry::Item(item) => MenuEntry::Item(MenuItem { checked, ..item }),
            other => other,
        },
    }
}

/// Whether `node` is an enabled item with command id `id`.
pub open spec fn chooses<A>(node: MenuNode<A>, id: u16) -> bool {
    node.entry matches MenuEntry::Item(item) && item.id == id && item.enabled
}

/// The action of `node`, when it is an item.
pub open spec fn action_of<A>(node: MenuNode<A>) -> A
    recommends
        node.entry is Item,
{
    match node.entry {
        MenuEntry::Item(item) => item.action,
        _ => arbitrary(),
    }
}

/// Every enabled item's shortcut with its action, in tree order.
pub open spec fn shortcut_list<A>(nodes: Seq<MenuNode<A>>) -> Seq<(Shortcut, A)>
    decreases nodes.len(),
{
    if nodes.len() == 0 {
        seq![]
    } else {
        let rest = shortcut_list(nodes.drop_last());
        match nodes.last().entry {
            MenuEntry::Item(item) => if item.enabled && item.shortcut is Some {
                rest.push((item.shortcut->0, item.action))
            } else {
                rest
            },
            _ => rest,
        }
    }
}

/// Every item's command id, in tree order.
pub open spec fn command_list<A>(nodes: Seq<MenuNode<A>>) -> Seq<u16>
    decreases nodes.len(),
{
    if nodes.len() == 0 {
        seq![]
    } else {
        let rest = command_list(nodes.drop_last());
        match nodes.last().entry {
            MenuEntry::Item(item) => rest.push(item.id),
            _ => rest,
        }
    }
}

/// How many nodes of `nodes` sit at the top level.
pub open spec fn top_level_count<A>(nodes: Seq<MenuNode<A>>) -> nat
    decreases nodes.len(),
{
    if nodes.len() == 0 {
        0
    } else {
        top_level_count(nodes.drop_last()) + if nodes.last().depth == 0 {
            1nat
        } else {
            0nat
        }
    }
}

/// One node as the owner-draw painter sees it.
pub struct RenderItem<'a> {
    /// Display label, with `&` accelerator markers.
    pub label: &'a str,
    /// Shortcut, displayed right-aligned.
    pub shortcut: Option<Shortcut>,
    /// Whether a tick is shown.
    pub checked: bool,
    /// Whether the tick is a radio dot.
    pub radio: bool,
    /// Whether the item can be chosen.
    pub enabled: bool,
    /// Whether the node opens a submenu that draws a chevron.
    pub submenu: bool,
    /// Whether the node is a separator line.
    pub separator: bool,
    /// Whether the node sits directly on a menu bar.
    pub bar_item: bool,
}

/// Whether `r` describes `node` of a menu last built as `mode`: a node sits
/// on the bar when the menu was built as a bar and the node is top-level,
/// and a submenu on the bar draws no chevron.
pub open spec fn describes<A>(r: RenderItem, node: MenuNode<A>, mode: Option<BuildMode>) -> bool {
    let bar_item = (mode matches Some(m) && m.bar) && node.depth == 0;
    &&& r.bar_item == bar_item
    &&& match node.entry {
        MenuEntry::Item(item) => {
            &&& r.label@ == item.label@
            &&& r.shortcut == item.shortcut
            &&& r.checked == item.checked
            &&& r.radio == item.radio
            &&& r.enabled == item.enabled
            &&& !r.submenu && !r.separator
        },
        MenuEntry::Separator => {
            &&& r.label@.len() == 0
            &&& r.shortcut is None
            &&& !r.checked && !r.radio && !r.enabled && !r.submenu
            &&& r.separator
        },
        MenuEntry::Submenu(label) => {
            &&& r.label@ == label@
            &&& r.shortcut is None
            &&& !r.checked && !r.radio && r.enabled
            &&& r.submenu == !bar_item
            &&& !r.separator
        },
    }
}

/// A menu bar or popup whose items raise actions of type `A`.
pub struct Menu<A> {
    nodes: Vec<MenuNode<A>>,
    items: usize,
    built: Option<BuildMode>,
}

impl<A> View for Menu<A> {
    type V = Seq<MenuNode<A>>;

    closed spec fn view(&self) -> Seq<MenuNode<A>> {
        self.nodes@
    }
}

impl<A> Menu<A> {
    /// The menu's consistency: command ids follow the item ranks, the depths
    /// describe a tree and the item count is kept.
    pub closed spec fn wf(&self) -> bool {
        &&& ids_follow_rank(self.nodes@)
        &&& well_nested(self.nodes@)
        &&& self.items == count_items(self.nodes@)
    }

    /// How the native menu was last built, if it was.
    pub closed spec fn built_as(&self) -> Option<BuildMode> {
        self.built
    }

    /// An empty menu.
    pub fn new() -> (m: Menu<A>)
        ensures
            m.wf(),
            m@.len() == 0,
            m.built_as() is None,
    {
        proof {
            reveal(ids_follow_rank);
            reveal(well_nested);
        }
        Menu { nodes: Vec::new(), items: 0, built: None }
    }

    proof fn lemma_count_items_prefix(nodes: Seq<MenuNode<A>>, k: int)
        requires
            0 <= k <= nodes.len(),
        ensures
            count_items(nodes.take(k)) <= count_items(nodes),
        decreases nodes.len() - k,
    {
        if k < nodes.len() {
            Self::lemma_count_items_prefix(nodes, k + 1);
            assert(nodes.take(k + 1).drop_last() =~= nodes.take(k));
        } else {
            assert(nodes.take(k) =~= nodes);
        }
    }

    /// Appends `node` to `nodes`, keeping the other facts.
    proof fn lemma_push_keeps(nodes: Seq<MenuNode<A>>, node: MenuNode<A>)
        requires
            ids_follow_rank(nodes),
            node.entry matches MenuEntry::Item(item) ==> item.id == command_of(count_items(nodes) as int),
        ensures
            ids_follow_rank(nodes.push(node)),
            count_items(nodes.push(node)) == count_items(nodes) + if node.entry is Item {
                1nat
            } else {
                0nat
            },
    {
        reveal(ids_follow_rank);
        let after = nodes.push(node);
        assert(after.drop_last() =~= nodes);
        assert forall|k: int|
            0 <= k < after.len() && ((#[trigger] after[k]).entry is Item) implies (after[k].entry matches MenuEntry::Item(item)
            && item.id == command_of(count_items(after.take(k)) as int)) by {
            if k < nodes.len() {
                assert(after.take(k) =~= nodes.take(k));
                assert(after[k] == nodes[k]);
            } else {
                assert(after.take(k) =~= nodes);
            }
        }
    }

    /// Appends `node`, which must continue the tree: as deep as the last
    /// node or shallower, or one level deeper right after a submenu.
    fn push_node(self, node: MenuNode<A>) -> (m: Menu<A>)
        requires
            self.wf(),
            self@.len() < usize::MAX,
            self@.len() == 0 ==> node.depth == 0,
            self@.len() > 0 ==> node.depth <= self@.last().depth + 1,
            self@.len() > 0 && node.depth == self@.last().depth + 1 ==> self@.last().entry is Submenu,
            node.entry matches MenuEntry::Item(item) ==> item.id == command_of(count_items(self@) as int),
        ensures
            m.wf(),
            m@ == self@.push(node),
            m.built_as() == self.built_as(),
    {
        let Menu { mut nodes, items, built } = self;
        let is_item = match &node.entry {
            MenuEntry::Item(_) => true,
            _ => false,
        };
        proof {
            Self::lemma_push_keeps(nodes@, node);
            Self::lemma_count_items_len(nodes@);
        }
        let ghost before = nodes@;
        nodes.push(node);
        proof {
            reveal(well_nested);
            let after = nodes@;
            assert forall|k: int| 0 < k < after.len() implies #[trigger] after[k].depth <= after[k - 1].depth + 1 by {
                if k < before.len() {
                    assert(after[k] == before[k]);
                    assert(after[k - 1] == before[k - 1]);
                }
            }
            assert forall|k: int|
                0 < k < after.len() && #[trigger] after[k].depth == after[k - 1].depth + 1 implies after[k
                - 1].entry is Submenu by {
                if k < before.len() {
                    assert(after[k] == before[k]);
                    assert(after[k - 1] == before[k - 1]);
                }
            }
        }
        let items = if is_item {
            items + 1
        } else {
            items
        };
        Menu { nodes, items, built }
    }

    /// Appends a top-level node made of `entry`.
    fn push_top(self, entry: MenuEntry<A>) -> (m: Menu<A>)
        requires
            self.wf(),
            self@.len() < usize::MAX,
            entry matches MenuEntry::Item(item) ==> item.id == command_of(count_items(self@) as int),
        ensures
            m.wf(),
            m@ == self@.push(MenuNode { depth: 0, entry }),
            m.built_as() == self.built_as(),
    {
        self.push_node(MenuNode { depth: 0, entry })
    }

    proof fn lemma_count_items_len(nodes: Seq<MenuNode<A>>)
        ensures
            count_items(nodes) <= nodes.len(),
        decreases nodes.len(),
    {
        if nodes.len() > 0 {
            Self::lemma_count_items_len(nodes.drop_last());
        }
    }

    /// The command id of the next item.
    fn next_id(&self) -> (id: u16)
        requires
            self.wf(),
        ensures
            id == command_of(count_items(self@) as int),
    {
        COMMAND_BASE + (self.items % COMMAND_SPAN) as u16
    }

    fn push_item(
        self,
        label: &str,
        shortcut: Option<Shortcut>,
        checked: bool,
        radio: bool,
        enabled: bool,
        action: A,
    ) -> (m: Menu<A>)
        requires
            self.wf(),
            self@.len() < usize::MAX,
        ensures
            m.wf(),
            m@.len() == self@.len() + 1,
            m@.take(self@.len() as int) == self@,
            is_top_item(
                m@.last(),
                command_of(count_items(self@) as int),
                label@,
                shortcut,
                checked,
                radio,
                enabled,
                action,
            ),
            m.built_as() == self.built_as(),
    {
        let id = self.next_id();
        let item = MenuItem { id, label: label.to_owned(), shortcut, checked, radio, enabled, key: None, action };
        let m = self.push_top(MenuEntry::Item(item));
        assert(m@.take(self@.len() as int) =~= self@);
        m
    }

    /// Appends a normal item that raises `action` when chosen, showing
    /// `shortcut` (if any) as its accelerator text.
    pub fn item(self, label: &str, shortcut: Option<Shortcut>, action: A) -> (m: Menu<A>)
        requires
            self.wf(),
            self@.len() < usize::MAX,
        ensures
            m.wf(),
            m@.len() == self@.len() + 1,
            m@.take(self@.len() as int) == self@,
            is_top_item(m@.last(), command_of(count_items(self@) as int), label@, shortcut, false, false, true, action),
            m.built_as() == self.built_as(),
    {
        self.push_item(label, shortcut, false, false, true, action)
    }

    /// Appends a checkable item, shown with a tick when `checked`.
    pub fn checked_item(self, label: &str, shortcut: Option<Shortcut>, checked: bool, action: A) -> (m: Menu<A>)
        requires
            self.wf(),
            self@.len() < usize::MAX,
        ensures
            m.wf(),
            m@.len() == self@.len() + 1,
            m@.take(self@.len() as int) == self@,
            is_top_item(m@.last(), command_of(count_items(self@) as int), label@, shortcut, checked, false, true, action),
            m.built_as() == self.built_as(),
    {
        self.push_item(label, shortcut, checked, false, true, action)
    }

    /// Appends a radio item, shown with a dot when `checked`.
    pub fn radio_item(self, label: &str, shortcut: Option<Shortcut>, checked: bool, action: A) -> (m: Menu<A>)
        requires
            self.wf(),
            self@.len() < usize::MAX,
        ensures
            m.wf(),
            m@.len() == self@.len() + 1,
            m@.take(self@.len() as int) == self@,
            is_top_item(m@.last(), command_of(count_items(self@) as int), label@, shortcut, checked, true, true, action),
            m.built_as() == self.built_as(),
    {
        self.push_item(label, shortcut, checked, true, true, action)
    }

    /// Appends a disabled (greyed, never chosen) item.
    pub fn disabled_item(self, label: &str, shortcut: Option<Shortcut>, action: A) -> (m: Menu<A>)
        requires
            self.wf(),
            self@.len() < usize::MAX,
        ensures
            m.wf(),
            m@.len() == self@.len() + 1,
            m@.take(self@.len() as int) == self@,
            is_top_item(m@.last(), command_of(count_items(self@) as int), label@, shortcut, false, false, false, action),
            m.built_as() == self.built_as(),
    {
        self.push_item(label, shortcut, false, false, false, action)
    }

    /// Appends a separator line.
    pub fn separator(self) -> (m: Menu<A>)
        requires
            self.wf(),
            self@.len() < usize::MAX,
        ensures
            m.wf(),
            m@.len() == self@.len() + 1,
            m@.take(self@.len() as int) == self@,
            m@.last().depth == 0,
            m@.last().entry is Separator,
            m.built_as() == self.built_as(),
    {
        let m = self.push_top(MenuEntry::Separator);
        assert(m@.take(self@.len() as int) =~= self@);
        m
    }

    /// In a well-nested tree no node is deeper than its position.
    proof fn lemma_depth_bounded(nodes: Seq<MenuNode<A>>, j: int)
        requires
            well_nested(nodes),
            0 <= j < nodes.len(),
        ensures
            nodes[j].depth <= j,
        decreases j,
    {
        reveal(well_nested);
        if j > 0 {
            Self::lemma_depth_bounded(nodes, j - 1);
            assert(nodes[j].depth <= nodes[j - 1].depth + 1);
        }
    }

    /// Appends `node` one level deeper, renumbered to the next command id
    /// when it is an item.
    fn push_deeper(self, node: MenuNode<A>) -> (m: Menu<A>)
        requires
            self.wf(),
            self@.len() < usize::MAX,
            self@.len() > 0,
            node.depth < usize::MAX,
            node.depth <= self@.last().depth,
            node.depth == self@.last().depth ==> self@.last().entry is Submenu,
        ensures
            m.wf(),
            m@ == self@.push(moved_node(node, command_of(count_items(self@) as int))),
            count_items(m@) == count_items(self@) + if node.entry is Item {
                1nat
            } else {
                0nat
            },
            m.built_as() == self.built_as(),
    {
        let id = self.next_id();
        let ghost before = self@;
        proof {
            Self::lemma_count_items_len(self@);
        }
        let MenuNode { depth, entry } = node;
        let moved_entry = match entry {
            MenuEntry::Item(item) => {
                let MenuItem { id: _, label, shortcut, checked, radio, enabled, key, action } = item;
                MenuEntry::Item(MenuItem { id, label, shortcut, checked, radio, enabled, key, action })
            },
            other => other,
        };
        let deeper = depth + 1;
        let m = self.push_node(MenuNode { depth: deeper, entry: moved_entry });
        proof {
            assert(m@.drop_last() =~= before);
        }
        m
    }

    /// Appends an item that opens `menu` as a submenu. Its nodes follow one
    /// level deeper, and its items take the next command ids of this menu.
    #[verifier::rlimit(50)]
    pub fn submenu(self, label: &str, menu: Menu<A>) -> (m: Menu<A>)
        requires
            self.wf(),
            menu.wf(),
            self@.len() + menu@.len() + 1 < usize::MAX,
        ensures
            m.wf(),
            m@.len() == self@.len() + 1 + menu@.len(),
            m@.take(self@.len() as int) == self@,
            m@[self@.len() as int].depth == 0,
            m@[self@.len() as int].entry matches MenuEntry::Submenu(l) && l@ == label@,
            forall|k: int|
                0 <= k < menu@.len() ==> renumbered(
                    #[trigger] m@[self@.len() + 1 + k],
                    menu@[k],
                    command_of((count_items(self@) + count_items(menu@.take(k))) as int),
                ),
            m.built_as() == self.built_as(),
    {
        let ghost first = self@;
        let ghost mode = self.built_as();
        let n0 = self.nodes.len();
        let ghost base: int = count_items(first) as int;
        let mut m = self.push_top(MenuEntry::Submenu(label.to_owned()));
        let Menu { nodes: mut child, items: _, built: _ } = menu;
        let ghost orig = child@;
        let mut k: usize = 0;
        proof {
            assert(orig.take(0) =~= Seq::<MenuNode<A>>::empty());
            assert(child@ =~= orig.subrange(0, orig.len() as int));
            assert(m@.take(first.len() as int) =~= first);
            assert(m@.drop_last() =~= first);
        }
        while child.len() > 0
            invariant
                m.wf(),
                well_nested(orig),
                0 <= k <= orig.len(),
                n0 == first.len(),
                child@ == orig.subrange(k as int, orig.len() as int),
                m@.len() == n0 + 1 + k,
                n0 + 1 + orig.len() < usize::MAX,
                m@.take(n0 as int) == first,
                m@[n0 as int].depth == 0,
                m@[n0 as int].entry matches MenuEntry::Submenu(l) && l@ == label@,
                count_items(m@) == base + count_items(orig.take(k as int)),
                m.built_as() == mode,
                k == 0 ==> m@.last().depth == 0 && m@.last().entry is Submenu,
                k > 0 ==> m@.last() == moved_node(orig[k - 1], command_of(base + count_items(orig.take(k - 1)))),
                forall|j: int|
                    0 <= j < k ==> #[trigger] m@[n0 + 1 + j] == moved_node(
                        orig[j],
                        command_of(base + count_items(orig.take(j))),
                    ),
            decreases child@.len(),
        {
            let node = child.remove(0);
            proof {
                assert(node == orig[k as int]);
                assert(child@ =~= orig.subrange(k as int + 1, orig.len() as int));
                let after = orig.take(k as int + 1);
                assert(after.drop_last() =~= orig.take(k as int));
                reveal(well_nested);
                Self::lemma_depth_bounded(orig, k as int);
                if k > 0 {
                    Self::lemma_depth_bounded(orig, k - 1);
                    assert(orig[k as int].depth <= orig[k - 1].depth + 1);
                } else {
                    assert(orig[0].depth == 0);
                }
            }
            let ghost before_m = m@;
            m = m.push_deeper(node);
            proof {
                assert(m@.take(n0 as int) =~= before_m.take(n0 as int));
                assert(m@[n0 as int] == before_m[n0 as int]);
                assert forall|j: int|
                    0 <= j < k + 1 implies #[trigger] m@[n0 + 1 + j] == moved_node(
                    orig[j],
                    command_of(base + count_items(orig.take(j))),
                ) by {
                    if j < k {
                        assert(m@[n0 + 1 + j] == before_m[n0 + 1 + j]);
                    }
                }
            }
            k = k + 1;
        }
        proof {
            assert(k == orig.len());
            assert forall|j: int|
                0 <= j < orig.len() implies renumbered(
                #[trigger] m@[first.len() + 1 + j],
                orig[j],
                command_of((count_items(first) + count_items(orig.take(j))) as int),
            ) by {
                assert(m@[first.len() + 1 + j] == m@[n0 + 1 + j]);
                Self::lemma_depth_bounded(orig, j);
            }
        }
        m
    }

    /// Names the item just added, so [`set_checked`](Menu::set_checked) can
    /// find it later. Does nothing when the last top-level entry is not an
    /// item.
    #[verifier::rlimit(30)]
    pub fn keyed(self, key: &str) -> (m: Menu<A>)
        requires
            self.wf(),
        ensures
            m.wf(),
            m@.len() == self@.len(),
            m.built_as() == self.built_as(),
            (self@.len() > 0 && self@.last().depth == 0 && self@.last().entry is Item) ==> {
                &&& m@.take(self@.len() - 1) == self@.take(self@.len() - 1)
                &&& m@.last().depth == 0
                &&& (m@.last().entry matches MenuEntry::Item(item) && (self@.last().entry matches MenuEntry::Item(old_item)
                    && item == (MenuItem { key: item.key, ..old_item }) && (item.key matches Some(k) && k@ == key@)))
            },
            !(self@.len() > 0 && self@.last().depth == 0 && self@.last().entry is Item) ==> m@ == self@,
    {
        let Menu { mut nodes, items, built } = self;
        let ghost before = nodes@;
        if nodes.len() == 0 {
            return Menu { nodes, items, built };
        }
        let last = nodes.pop().unwrap();
        let MenuNode { depth, entry } = last;
        let entry = match entry {
            MenuEntry::Item(item) => {
                if depth == 0 {
                    let MenuItem { id, label, shortcut, checked, radio, enabled, key: _, action } = item;
                    MenuEntry::Item(MenuItem { id, label, shortcut, checked, radio, enabled, key: Some(key.to_owned()), action })
                } else {
                    MenuEntry::Item(item)
                }
            },
            other => other,
        };
        let ghost node = MenuNode { depth, entry };
        nodes.push(MenuNode { depth, entry });
        proof {
            let after = nodes@;
            assert(after =~= before.update(before.len() - 1, node));
            Self::lemma_reshape(before, before.len() - 1, node);
            if !(before.len() > 0 && before.last().depth == 0 && before.last().entry is Item) {
                assert(after =~= before);
            }
            assert(after.take(before.len() - 1) =~= before.take(before.len() - 1));
        }
        Menu { nodes, items, built }
    }

    /// Sets the tick of the first item named `key`, searching submenus.
    /// Returns whether such an item exists; nothing else changes.
    pub fn set_checked(&mut self, key: &str, checked: bool) -> (found: bool)
        requires
            old(self).wf(),
        ensures
            final(self).wf(),
            final(self).built_as() == old(self).built_as(),
            found == exists|k: int| 0 <= k < old(self)@.len() && has_key(#[trigger] old(self)@[k], key@),
            found ==> exists|k: int|
                0 <= k < old(self)@.len() && has_key(#[trigger] old(self)@[k], key@) && (forall|j: int|
                    0 <= j < k ==> !has_key(old(self)@[j], key@)) && final(self)@ == old(self)@.update(
                    k,
                    with_checked(old(self)@[k], checked),
                ),
            !found ==> final(self)@ == old(self)@,
    {
        let wanted = key.to_owned();
        let mut k: usize = 0;
        while k < self.nodes.len()
            invariant
                k <= self.nodes@.len(),
                wanted@ == key@,
                old(self).wf(),
                self.nodes@ == old(self)@,
                self.items == old(self).items,
                self.built == old(self).built,
                forall|j: int| 0 <= j < k ==> !has_key(self.nodes@[j], key@),
            decreases self.nodes@.len() - k,
        {
            let hit = match &self.nodes[k].entry {
                MenuEntry::Item(item) => match &item.key {
                    Some(name) => *name == wanted,
                    None => false,
                },
                _ => false,
            };
            if hit {
                let ghost before = self.nodes@;
                let node = self.nodes.remove(k);
                let MenuNode { depth, entry } = node;
                let entry = match entry {
                    MenuEntry::Item(item) => {
                        let MenuItem { id, label, shortcut, checked: _, radio, enabled, key, action } = item;
                        MenuEntry::Item(MenuItem { id, label, shortcut, checked, radio, enabled, key, action })
                    },
                    other => other,
                };
                self.nodes.insert(k, MenuNode { depth, entry });
                proof {
                    let after = self.nodes@;
                    assert(after =~= before.update(k as int, with_checked(before[k as int], checked)));
                    Self::lemma_reshape(before, k as int, with_checked(before[k as int], checked));
                    assert(has_key(before[k as int], key@));
                }
                return true;
            }
            k = k + 1;
        }
        false
    }

    /// Replacing one node by a node of the same depth, kind and command id
    /// keeps the tree consistent and its item count.
    proof fn lemma_reshape(before: Seq<MenuNode<A>>, k: int, node: MenuNode<A>)
        requires
            ids_follow_rank(before),
            well_nested(before),
            0 <= k < before.len(),
            node.depth == before[k].depth,
            node.entry is Item <==> before[k].entry is Item,
            node.entry is Submenu <==> before[k].entry is Submenu,
            node.entry matches MenuEntry::Item(a) ==> (before[k].entry matches MenuEntry::Item(b) && a.id == b.id),
        ensures
            ids_follow_rank(before.update(k, node)),
            well_nested(before.update(k, node)),
            count_items(before.update(k, node)) == count_items(before),
    {
        reveal(ids_follow_rank);
        reveal(well_nested);
        let after = before.update(k, node);
        assert forall|i: int| 0 <= i < after.len() implies ((#[trigger] after[i]).entry is Item <==> before[i].entry is Item) by {
            if i != k {
                assert(after[i] == before[i]);
            }
        }
        assert forall|i: int| 0 <= i <= before.len() implies #[trigger] count_items(after.take(i)) == count_items(before.take(i)) by {
            Self::lemma_same_kinds_count(after, before, i);
        }
        assert(after.take(after.len() as int) =~= after);
        assert(before.take(before.len() as int) =~= before);
        assert(count_items(after.take(after.len() as int)) == count_items(before.take(before.len() as int)));
        assert forall|i: int|
            0 <= i < after.len() implies ((#[trigger] after[i]).entry matches MenuEntry::Item(item) ==> item.id
            == command_of(count_items(after.take(i)) as int)) by {
            assert(count_items(after.take(i)) == count_items(before.take(i)));
            if i != k {
                assert(after[i] == before[i]);
            }
        }
        assert forall|i: int| 0 < i < after.len() implies #[trigger] after[i].depth <= after[i - 1].depth + 1 by {
            assert(before[i].depth <= before[i - 1].depth + 1);
        }
        assert forall|i: int|
            0 < i < after.len() && #[trigger] after[i].depth == after[i - 1].depth + 1 implies after[i
            - 1].entry is Submenu by {
            assert(before[i].depth == before[i - 1].depth + 1);
        }
    }

    /// Two trees whose nodes are of the same kinds count the same items in
    /// every prefix.
    proof fn lemma_same_kinds_count(a: Seq<MenuNode<A>>, b: Seq<MenuNode<A>>, i: int)
        requires
            a.len() == b.len(),
            0 <= i <= a.len(),
            forall|k: int| 0 <= k < a.len() ==> ((#[trigger] a[k]).entry is Item <==> b[k].entry is Item),
        ensures
            count_items(a.take(i)) == count_items(b.take(i)),
        decreases i,
    {
        if i > 0 {
            Self::lemma_same_kinds_count(a, b, i - 1);
            assert(a.take(i).drop_last() =~= a.take(i - 1));
            assert(b.take(i).drop_last() =~= b.take(i - 1));
        }
    }

    /// The action of the first enabled item with command id `id`, searching
    /// submenus; disabled items are never chosen.
    pub fn find_action(&self, id: u16) -> (found: Option<&A>)
        ensures
            match found {
                Some(a) => exists|k: int|
                    0 <= k < self@.len() && chooses(#[trigger] self@[k], id) && action_of(self@[k]) == *a
                        && forall|j: int| 0 <= j < k ==> !chooses(self@[j], id),
                None => forall|k: int| 0 <= k < self@.len() ==> !chooses(#[trigger] self@[k], id),
            },
    {
        let mut k: usize = 0;
        while k < self.nodes.len()
            invariant
                k <= self@.len(),
                self@ == self.nodes@,
                forall|j: int| 0 <= j < k ==> !chooses(#[trigger] self@[j], id),
            decreases self@.len() - k,
        {
            match &self.nodes[k].entry {
                MenuEntry::Item(item) => {
                    if item.id == id && item.enabled {
                        assert(chooses(self@[k as int], id));
                        return Some(&item.action);
                    }
                },
                _ => {},
            }
            k = k + 1;
        }
        None
    }

    /// The owner-draw description of the node with render id `data` (its
    /// position plus one), searching submenus.
    pub fn render(&self, data: usize) -> (r: Option<RenderItem<'_>>)
        ensures
            (data == 0 || data > self@.len()) ==> r is None,
            (0 < data <= self@.len()) ==> (r matches Some(item) && describes(item, self@[data - 1], self.built_as())),
    {
        if data == 0 || data > self.nodes.len() {
            return None;
        }
        let node = &self.nodes[data - 1];
        let bar_item = match self.built {
            Some(mode) => mode.bar,
            None => false,
        } && node.depth == 0;
        let item = match &node.entry {
            MenuEntry::Item(item) => RenderItem {
                label: item.label.as_str(),
                shortcut: item.shortcut,
                checked: item.checked,
                radio: item.radio,
                enabled: item.enabled,
                submenu: false,
                separator: false,
                bar_item,
            },
            MenuEntry::Separator => {
                let empty = "";
                proof {
                    reveal_strlit("");
                }
                RenderItem {
                    label: empty,
                    shortcut: None,
                    checked: false,
                    radio: false,
                    enabled: false,
                    submenu: false,
                    separator: true,
                    bar_item,
                }
            },
            MenuEntry::Submenu(label) => RenderItem {
                label: label.as_str(),
                shortcut: None,
                checked: false,
                radio: false,
                enabled: true,
                submenu: !bar_item,
                separator: false,
                bar_item,
            },
        };
        Some(item)
    }

    /// Every enabled item's shortcut paired with its action, in tree order,
    /// for registering them as accelerators.
    pub fn shortcuts(&self) -> (found: Vec<(Shortcut, &A)>)
        ensures
            found@.len() == shortcut_list(self@).len(),
            forall|i: int|
                0 <= i < found@.len() ==> (#[trigger] found@[i]).0 == shortcut_list(self@)[i].0 && *found@[i].1
                    == shortcut_list(self@)[i].1,
    {
        let mut found: Vec<(Shortcut, &A)> = Vec::new();
        let mut k: usize = 0;
        while k < self.nodes.len()
            invariant
                k <= self@.len(),
                self@ == self.nodes@,
                found@.len() == shortcut_list(self@.take(k as int)).len(),
                forall|i: int|
                    0 <= i < found@.len() ==> (#[trigger] found@[i]).0 == shortcut_list(self@.take(k as int))[i].0
                        && *found@[i].1 == shortcut_list(self@.take(k as int))[i].1,
            decreases self@.len() - k,
        {
            proof {
                let after = self@.take(k as int + 1);
                assert(after.drop_last() =~= self@.take(k as int));
                assert(after.last() == self@[k as int]);
            }
            match &self.nodes[k].entry {
                MenuEntry::Item(item) => {
                    if item.enabled {
                        match item.shortcut {
                            Some(shortcut) => {
                                found.push((shortcut, &item.action));
                            },
                            None => {},
                        }
                    }
                },
                _ => {},
            }
            k = k + 1;
        }
        assert(self@.take(self@.len() as int) =~= self@);
        found
    }

    /// Every command id in this menu and its submenus, in tree order.
    pub fn command_ids(&self) -> (ids: Vec<u16>)
        ensures
            ids@ == command_list(self@),
    {
        let mut ids: Vec<u16> = Vec::new();
        let mut k: usize = 0;
        while k < self.nodes.len()
            invariant
                k <= self@.len(),
                self@ == self.nodes@,
                ids@ == command_list(self@.take(k as int)),
            decreases self@.len() - k,
        {
            proof {
                let after = self@.take(k as int + 1);
                assert(after.drop_last() =~= self@.take(k as int));
                assert(after.last() == self@[k as int]);
            }
            match &self.nodes[k].entry {
                MenuEntry::Item(item) => {
                    ids.push(item.id);
                },
                _ => {},
            }
            k = k + 1;
        }
        assert(self@.take(self@.len() as int) =~= self@);
        ids
    }

    /// Every node's owner-draw render id, in tree order: its position plus
    /// one.
    pub fn data_ids(&self) -> (ids: Vec<usize>)
        ensures
            ids@.len() == self@.len(),
            forall|k: int| 0 <= k < ids@.len() ==> #[trigger] ids@[k] == k + 1,
    {
        let mut ids: Vec<usize> = Vec::new();
        let mut k: usize = 0;
        while k < self.nodes.len()
            invariant
                k <= self@.len(),
                self@ == self.nodes@,
                ids@.len() == k,
                forall|j: int| 0 <= j < k ==> #[trigger] ids@[j] == j + 1,
            decreases self@.len() - k,
        {
            ids.push(k + 1);
            k = k + 1;
        }
        ids
    }

    /// Records how the native menu was just built.
    pub fn mark_built(&mut self, bar: bool, owner_draw: bool)
        requires
            old(self).wf(),
        ensures
            final(self).wf(),
            final(self)@ == old(self)@,
            final(self).built_as() == Some(BuildMode { bar, owner_draw }),
    {
        self.built = Some(BuildMode { bar, owner_draw });
    }

    /// Whether the menu is currently built with owner-drawn items.
    pub fn is_owner_drawn(&self) -> (b: bool)
        ensures
            b == (self.built_as() matches Some(m) && m.owner_draw),
    {
        match self.built {
            Some(mode) => mode.owner_draw,
            None => false,
        }
    }

    /// The number of top-level entries (the items on a bar).
    pub fn bar_len(&self) -> (n: usize)
        ensures
            n == top_level_count(self@),
    {
        let mut n: usize = 0;
        let mut k: usize = 0;
        while k < self.nodes.len()
            invariant
                k <= self@.len(),
                self@ == self.nodes@,
                n == top_level_count(self@.take(k as int)),
                n <= k,
            decreases self@.len() - k,
        {
            proof {
                let after = self@.take(k as int + 1);
                assert(after.drop_last() =~= self@.take(k as int));
                assert(after.last() == self@[k as int]);
            }
            if self.nodes[k].depth == 0 {
                n = n + 1;
            }
            k = k + 1;
        }
        assert(self@.take(self@.len() as int) =~= self@);
        n
    }

    /// Prefix item counts grow with the prefix.
    proof fn lemma_count_prefix_mono(nodes: Seq<MenuNode<A>>, a: int, b: int)
        requires
            0 <= a <= b <= nodes.len(),
        ensures
            count_items(nodes.take(a)) <= count_items(nodes.take(b)),
        decreases b - a,
    {
        if a < b {
            Self::lemma_count_prefix_mono(nodes, a, b - 1);
            assert(nodes.take(b).drop_last() =~= nodes.take(b - 1));
        }
    }

    /// Every item's command id lies in the reserved range
    /// `COMMAND_BASE..=COMMAND_TOP`, so an id outside it (such as `0xFFFF`)
    /// chooses no item and [`Menu::find_action`] finds nothing for it.
    pub proof fn lemma_command_ids_in_range(&self, id: u16)
        requires
            self.wf(),
        ensures
            forall|k: int| 0 <= k < self@.len() ==> ((#[trigger] self@[k]).entry matches MenuEntry::Item(item)
                ==> COMMAND_BASE <= item.id <= COMMAND_TOP),
            (id < COMMAND_BASE || id > COMMAND_TOP) ==> forall|k: int| 0 <= k < self@.len() ==> !chooses(#[trigger] self@[k], id),
    {
        reveal(ids_follow_rank);
        assert forall|k: int| 0 <= k < self@.len() implies ((#[trigger] self@[k]).entry matches MenuEntry::Item(item)
            ==> COMMAND_BASE <= item.id <= COMMAND_TOP) by {
            if self@[k].entry is Item {
                let r = count_items(self@.take(k)) as int;
                assert(0 <= r % (COMMAND_SPAN as int) < COMMAND_SPAN as int);
            }
        }
    }

    /// No two items of a menu with at most `COMMAND_SPAN` items share a
    /// command id, so a chosen command id names exactly one item.
    pub proof fn lemma_command_ids_distinct(&self, i: int, j: int)
        requires
            self.wf(),
            0 <= i < j < self@.len(),
            count_items(self@) <= COMMAND_SPAN,
        ensures
            self@[i].entry matches MenuEntry::Item(a) ==> (self@[j].entry matches MenuEntry::Item(b) ==> a.id != b.id),
    {
        reveal(ids_follow_rank);
        let nodes = self@;
        if nodes[i].entry is Item && nodes[j].entry is Item {
            let ri: int = count_items(nodes.take(i)) as int;
            let rj: int = count_items(nodes.take(j)) as int;
            assert(nodes.take(i + 1).drop_last() =~= nodes.take(i));
            assert(nodes.take(j + 1).drop_last() =~= nodes.take(j));
            Self::lemma_count_prefix_mono(nodes, i + 1, j);
            Self::lemma_count_prefix_mono(nodes, j + 1, nodes.len() as int);
            assert(nodes.take(nodes.len() as int) =~= nodes);
            assert(ri < rj < COMMAND_SPAN);
            assert(ri % (COMMAND_SPAN as int) == ri);
            assert(rj % (COMMAND_SPAN as int) == rj);
        }
    }
}

} // verus!
