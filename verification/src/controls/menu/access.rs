//! A menu described to accessibility: every item a node, submenus nesting,
//! separators skipped. Choosing a leaf raises the item's action directly (no
//! popup is opened, so a client is never blocked in a menu's modal loop).

use vstd::prelude::*;

use crate::accel::Shortcut;
use crate::controls::edit_text::{chars_of, push_char};
use crate::controls::menu::{action_of, chooses, count_items, Menu, MenuEntry, MenuNode, COMMAND_SPAN};

verus! {

/// `s` with its `&` accelerator markers removed, reading left to right
/// after a pending marker when `pending`: a marker keeps the character
/// after it (so `&&` is a literal `&`), and a trailing marker is dropped.
pub open spec fn plain_from(s: Seq<char>, pending: bool) -> Seq<char>
    decreases s.len(),
{
    if s.len() == 0 {
        seq![]
    } else if pending {
        seq![s[0]] + plain_from(s.skip(1), false)
    } else if s[0] == '&' {
        plain_from(s.skip(1), true)
    } else {
        seq![s[0]] + plain_from(s.skip(1), false)
    }
}

/// A label without its `&` accelerator markers (`&&` is a literal `&`).
pub fn plain(label: &str) -> (out: String)
    ensures
        out@ == plain_from(label@, false),
{
    let chars = chars_of(label);
    let n = chars.len();
    let mut out = String::new();
    let mut pending = false;
    let mut i: usize = 0;
    assert(chars@.skip(0) =~= chars@);
    while i < n
        invariant
            n == chars@.len(),
            chars@ == label@,
            i <= n,
            out@ + plain_from(chars@.skip(i as int), pending) == plain_from(label@, false),
        decreases n - i,
    {
        let ghost rest = chars@.skip(i as int);
        let c = chars[i];
        assert(rest[0] == c);
        assert(rest.skip(1) =~= chars@.skip(i + 1));
        if pending {
            push_char(&mut out, c);
            pending = false;
            assert(out@ + plain_from(chars@.skip(i + 1), pending) =~= plain_from(label@, false));
        } else if c == '&' {
            pending = true;
        } else {
            push_char(&mut out, c);
            assert(out@ + plain_from(chars@.skip(i + 1), pending) =~= plain_from(label@, false));
        }
        i = i + 1;
    }
    assert(chars@.skip(n as int) =~= Seq::<char>::empty());
    assert(out@ =~= out@ + plain_from(chars@.skip(n as int), pending));
    out
}

/// One menu node as an accessibility client sees it. The nodes of a menu
/// come in pre-order, each with its nesting depth, so a node one level
/// deeper than the node before it is that node's child.
#[derive(Debug)]
pub struct AccessNode {
    /// How many submenus deep the node sits.
    pub depth: usize,
    /// The label without its `&` markers.
    pub name: String,
    /// Whether the node can be acted on.
    pub enabled: bool,
    /// Whether the node has a default action (an item, not a submenu).
    pub invokable: bool,
    /// The tick state, for an item that can carry one.
    pub checked: Option<bool>,
    /// The shortcut announced as the node's help.
    pub shortcut: Option<Shortcut>,
}

/// Whether `n` describes `node`: an item is invokable, reports its tick
/// when it is ticked, keyed or a radio item, and announces its shortcut; a
/// submenu is enabled and carries neither.
pub open spec fn node_describes<A>(n: AccessNode, node: MenuNode<A>) -> bool {
    &&& n.depth == node.depth
    &&& match node.entry {
        MenuEntry::Item(item) => {
            &&& n.name@ == plain_from(item.label@, false)
            &&& n.enabled == item.enabled
            &&& n.invokable
            &&& n.checked == if item.checked || item.key is Some || item.radio {
                Some(item.checked)
            } else {
                None
            }
            &&& n.shortcut == item.shortcut
        },
        MenuEntry::Submenu(label) => {
            &&& n.name@ == plain_from(label@, false)
            &&& n.enabled
            &&& !n.invokable
            &&& n.checked is None
            &&& n.shortcut is None
        },
        MenuEntry::Separator => false,
    }
}

/// The positions of the nodes of `nodes` that are not separators, in order.
pub open spec fn listed<A>(nodes: Seq<MenuNode<A>>) -> Seq<int>
    decreases nodes.len(),
{
    if nodes.len() == 0 {
        seq![]
    } else {
        let rest = listed(nodes.drop_last());
        if nodes.last().entry is Separator {
            rest
        } else {
            rest.push(nodes.len() - 1)
        }
    }
}

/// The position of the `k`-th node (counting from zero, separators skipped)
/// among the nodes at `depth` of the scope that starts at `start`; the scope
/// ends at the first node shallower than `depth`.
pub open spec fn child_at<A>(nodes: Seq<MenuNode<A>>, start: int, depth: int, k: int) -> Option<int>
    decreases nodes.len() - start,
{
    if start < 0 || start >= nodes.len() || nodes[start].depth < depth {
        None
    } else if nodes[start].depth > depth || nodes[start].entry is Separator {
        child_at(nodes, start + 1, depth, k)
    } else if k == 0 {
        Some(start)
    } else {
        child_at(nodes, start + 1, depth, k - 1)
    }
}

/// The node an accessibility `path` reaches from the scope at `start` and
/// `depth`: each index picks a node among the listed nodes of its level, a
/// submenu opens the next level, and the path ends on an enabled item.
pub open spec fn access_target<A>(nodes: Seq<MenuNode<A>>, start: int, depth: int, path: Seq<usize>) -> Option<int>
    decreases path.len(),
{
    if path.len() == 0 {
        None
    } else {
        match child_at(nodes, start, depth, path[0] as int) {
            None => None,
            Some(i) => if path.len() == 1 {
                if nodes[i].entry matches MenuEntry::Item(item) && item.enabled {
                    Some(i)
                } else {
                    None
                }
            } else if nodes[i].entry is Submenu {
                access_target(nodes, i + 1, depth + 1, path.skip(1))
            } else {
                None
            },
        }
    }
}

/// What `child_at` finds lies in its scope, at its depth, and is no separator.
proof fn lemma_child_at<A>(nodes: Seq<MenuNode<A>>, start: int, depth: int, k: int)
    ensures
        child_at(nodes, start, depth, k) matches Some(i) ==> {
            &&& start <= i < nodes.len()
            &&& nodes[i].depth == depth
            &&& !(nodes[i].entry is Separator)
        },
    decreases nodes.len() - start,
{
    if start < 0 || start >= nodes.len() || nodes[start].depth < depth {
    } else if nodes[start].depth > depth || nodes[start].entry is Separator {
        lemma_child_at(nodes, start + 1, depth, k);
    } else if k == 0 {
    } else {
        lemma_child_at(nodes, start + 1, depth, k - 1);
    }
}

/// What an accessibility path reaches is an enabled item of the menu.
pub proof fn lemma_access_target_is_enabled_item<A>(nodes: Seq<MenuNode<A>>, start: int, depth: int, path: Seq<usize>)
    ensures
        access_target(nodes, start, depth, path) matches Some(i) ==> {
            &&& 0 <= i < nodes.len()
            &&& nodes[i].entry matches MenuEntry::Item(item) && item.enabled
        },
    decreases path.len(),
{
    if path.len() > 0 {
        lemma_child_at(nodes, start, depth, path[0] as int);
        if let Some(i) = child_at(nodes, start, depth, path[0] as int) {
            if path.len() > 1 && nodes[i].entry is Submenu {
                lemma_access_target_is_enabled_item(nodes, i + 1, depth + 1, path.skip(1));
            }
        }
    }
}

impl<A> Menu<A> {
    /// The position of the `k`-th listed node at `depth` in the scope that
    /// starts at `start`.
    fn child_index(&self, start: usize, depth: usize, k: usize) -> (r: Option<usize>)
        requires
            start <= self@.len(),
        ensures
            r matches Some(i) ==> child_at(self@, start as int, depth as int, k as int) == Some(i as int),
            r is None ==> child_at(self@, start as int, depth as int, k as int) is None,
    {
        let n = self.nodes.len();
        let mut j = start;
        let mut left = k;
        while j < n
            invariant
                start <= j <= n,
                n == self@.len(),
                self@ == self.nodes@,
                child_at(self@, start as int, depth as int, k as int) == child_at(self@, j as int, depth as int, left as int),
            decreases n - j,
        {
            let node = &self.nodes[j];
            if node.depth < depth {
                return None;
            }
            let separator = match node.entry {
                MenuEntry::Separator => true,
                _ => false,
            };
            if node.depth == depth && !separator {
                if left == 0 {
                    return Some(j);
                }
                left = left - 1;
            }
            j = j + 1;
        }
        None
    }

    /// The action of the enabled item at `path` (indices among the listed
    /// nodes of each level, submenus opening the next level), if there is one.
    pub fn access_action(&self, path: &Vec<usize>) -> (found: Option<&A>)
        ensures
            match access_target(self@, 0, 0, path@) {
                Some(i) => found matches Some(a) && *a == action_of(self@[i]),
                None => found is None,
            },
    {
        if path.len() == 0 {
            return None;
        }
        let n = self.nodes.len();
        let mut start: usize = 0;
        let mut depth: usize = 0;
        let mut p: usize = 0;
        assert(path@.skip(0) =~= path@);
        loop
            invariant
                p < path@.len(),
                depth <= start <= n,
                n == self@.len(),
                self@ == self.nodes@,
                access_target(self@, 0, 0, path@) == access_target(self@, start as int, depth as int, path@.skip(p as int)),
            decreases path@.len() - p,
        {
            let ghost rest = path@.skip(p as int);
            assert(rest[0] == path@[p as int]);
            let found = self.child_index(start, depth, path[p]);
            proof {
                lemma_child_at(self@, start as int, depth as int, path@[p as int] as int);
            }
            match found {
                None => {
                    return None;
                },
                Some(i) => {
                    let last = p == path.len() - 1;
                    match &self.nodes[i].entry {
                        MenuEntry::Item(item) => {
                            if last && item.enabled {
                                return Some(&item.action);
                            }
                            return None;
                        },
                        MenuEntry::Submenu(_) => {
                            if last {
                                return None;
                            }
                            assert(rest.skip(1) =~= path@.skip(p + 1));
                            start = i + 1;
                            depth = depth + 1;
                            p = p + 1;
                        },
                        MenuEntry::Separator => {
                            return None;
                        },
                    }
                },
            }
        }
    }

    /// The menu's nodes as accessibility nodes, in pre-order, separators
    /// skipped.
    pub fn access_nodes(&self) -> (out: Vec<AccessNode>)
        ensures
            out@.len() == listed(self@).len(),
            forall|k: int| 0 <= k < out@.len() ==> node_describes(#[trigger] out@[k], self@[listed(self@)[k]]),
    {
        let n = self.nodes.len();
        let mut out: Vec<AccessNode> = Vec::new();
        let mut i: usize = 0;
        while i < n
            invariant
                i <= n,
                n == self@.len(),
                self@ == self.nodes@,
                out@.len() == listed(self@.take(i as int)).len(),
                forall|k: int| 0 <= k < out@.len() ==> 0 <= #[trigger] listed(self@.take(i as int))[k] < i,
                forall|k: int|
                    0 <= k < out@.len() ==> node_describes(#[trigger] out@[k], self@[listed(self@.take(i as int))[k]]),
            decreases n - i,
        {
            let ghost before = listed(self@.take(i as int));
            assert(self@.take(i + 1).drop_last() =~= self@.take(i as int));
            let node = &self.nodes[i];
            match &node.entry {
                MenuEntry::Item(item) => {
                    let checkable = item.checked || item.key.is_some() || item.radio;
                    out.push(AccessNode {
                        depth: node.depth,
                        name: plain(item.label.as_str()),
                        enabled: item.enabled,
                        invokable: true,
                        checked: if checkable { Some(item.checked) } else { None },
                        shortcut: item.shortcut,
                    });
                },
                MenuEntry::Submenu(label) => {
                    out.push(AccessNode {
                        depth: node.depth,
                        name: plain(label.as_str()),
                        enabled: true,
                        invokable: false,
                        checked: None,
                        shortcut: None,
                    });
                },
                MenuEntry::Separator => {},
            }
            proof {
                let after = listed(self@.take(i + 1));
                if self@[i as int].entry is Separator {
                    assert(after == before);
                } else {
                    assert(after == before.push(i as int));
                    assert forall|k: int| 0 <= k < out@.len() implies node_describes(#[trigger] out@[k], self@[after[k]]) by {
                        if k < before.len() {
                            assert(after[k] == before[k]);
                        }
                    }
                }
            }
            i = i + 1;
        }
        assert(self@.take(n as int) =~= self@);
        out
    }

    /// Acting on a leaf through accessibility raises the same action as
    /// choosing it from the menu: in a menu of at most `COMMAND_SPAN` items,
    /// the item a path reaches is the only enabled item with its command id.
    pub proof fn lemma_access_matches_command(&self, path: Seq<usize>)
        requires
            self.wf(),
            count_items(self@) <= COMMAND_SPAN,
        ensures
            access_target(self@, 0, 0, path) matches Some(i) ==> (self@[i].entry matches MenuEntry::Item(item) && {
                &&& chooses(self@[i], item.id)
                &&& forall|k: int| 0 <= k < self@.len() && k != i ==> !chooses(#[trigger] self@[k], item.id)
            }),
    {
        lemma_access_target_is_enabled_item(self@, 0, 0, path);
        if let Some(i) = access_target(self@, 0, 0, path) {
            assert forall|k: int| 0 <= k < self@.len() && k != i implies !chooses(#[trigger] self@[k], self@[i].entry->Item_0.id) by {
                if k < i {
                    self.lemma_command_ids_distinct(k, i);
                } else {
                    self.lemma_command_ids_distinct(i, k);
                }
            }
        }
    }
}

} // verus!
