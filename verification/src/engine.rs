//! The renderer's DOM: the node tree that commands build and change, what
//! each node holds, and how dirty the current frame is.

use vstd::prelude::*;
use std::collections::HashMap;
use std::collections::HashSet;
use crate::native_event::DomId;
use crate::api::{RenderCommand, RenderCommandView, StyleMutation};
use crate::style_property::StyleProperty;
use crate::style::{BorderStyle, DivStyle, LayoutOverflow};
use crate::style_value::StyleValue;
use crate::transition_value::TransitionSpec;
use crate::style_record::{record_of, style_record, StyleRecord};

verus! {

broadcast use vstd::std_specs::hash::group_hash_axioms;

/// What a node is.
#[derive(Clone, Copy, Debug, PartialEq, Eq, Structural)]
pub enum NodeKind {
    Element,
    Text,
    Image,
    Input,
    TextArea,
}

/// How much of the next frame must be recomputed: nothing, the paint, or
/// the layout and the paint.
#[derive(Clone, Copy, Debug, PartialEq, Eq, Structural)]
pub enum Dirtiness {
    Clean,
    Paint,
    Layout,
}

/// `d` after a change that needs a repaint.
pub open spec fn paint_dirtied(d: Dirtiness) -> Dirtiness {
    if d == Dirtiness::Clean {
        Dirtiness::Paint
    } else {
        d
    }
}

/// One node of the tree.
#[derive(Debug)]
pub struct DomNode {
    pub kind: NodeKind,
    /// Whether an element was created as an inline `<span>`.
    pub inline: bool,
    pub parent: Option<u32>,
    pub children: Vec<u32>,
    /// The text of a text node, or the value of an input or text area.
    pub value: String,
    pub cursor: u32,
    pub placeholder: String,
    pub focused: bool,
    /// The style changes made to the node, in order.
    pub styles: Vec<StyleMutation>,
    pub transitions: Option<Vec<TransitionSpec>>,
    pub image_source: Option<String>,
}

/// A node as a value.
pub struct NodeView {
    pub kind: NodeKind,
    pub inline: bool,
    pub parent: Option<u32>,
    pub children: Seq<u32>,
    pub value: Seq<char>,
    pub cursor: u32,
    pub placeholder: Seq<char>,
    pub focused: bool,
    pub styles: Seq<StyleMutation>,
    pub transitions: Option<Seq<TransitionSpec>>,
    pub image_source: Option<Seq<char>>,
}

pub open spec fn opt_text(s: Option<String>) -> Option<Seq<char>> {
    match s {
        Some(t) => Some(t@),
        None => None,
    }
}

impl View for DomNode {
    type V = NodeView;

    open spec fn view(&self) -> NodeView {
        NodeView {
            kind: self.kind,
            inline: self.inline,
            parent: self.parent,
            children: self.children@,
            value: self.value@,
            cursor: self.cursor,
            placeholder: self.placeholder@,
            focused: self.focused,
            styles: self.styles@,
            transitions: match self.transitions {
                Some(t) => Some(t@),
                None => None,
            },
            image_source: opt_text(self.image_source),
        }
    }
}

/// Each node of `m` as a value.
pub open spec fn node_views(m: Map<u32, DomNode>) -> Map<u32, NodeView> {
    m.map_values(|n: DomNode| n@)
}

/// The DOM of the renderer.
pub struct DomEngine {
    nodes: HashMap<u32, DomNode>,
    /// Every id of `nodes`, once each.
    order: Vec<u32>,
    root: Option<u32>,
    viewport: Option<u32>,
    next_dom_id: u32,
    dirtiness: Dirtiness,
    terminal_focused: bool,
    frame_invalidated: bool,
}

/// The DOM as a value: each node by its id, the root and viewport, the
/// next id the engine would give out, and what the next frame must redo.
pub struct EngineView {
    pub nodes: Map<u32, NodeView>,
    pub root: Option<u32>,
    pub viewport: Option<u32>,
    pub next_dom_id: u32,
    pub dirtiness: Dirtiness,
    pub terminal_focused: bool,
    /// Whether the next frame must be written whole.
    pub frame_invalidated: bool,
}

impl View for DomEngine {
    type V = EngineView;

    closed spec fn view(&self) -> EngineView {
        EngineView {
            nodes: node_views(self.nodes@),
            root: self.root,
            viewport: self.viewport,
            next_dom_id: self.next_dom_id,
            dirtiness: self.dirtiness,
            terminal_focused: self.terminal_focused,
            frame_invalidated: self.frame_invalidated,
        }
    }
}

/// The tree is consistent: every child of a node is a node whose parent is
/// that node.
pub open spec fn tree_consistent(nodes: Map<u32, NodeView>) -> bool {
    forall|p: u32, i: int|
        #![trigger nodes[p].children[i]]
        nodes.contains_key(p) && 0 <= i < nodes[p].children.len() ==> {
            let c = nodes[p].children[i];
            &&& nodes.contains_key(c)
            &&& nodes[c].parent == Some(p)
        }
}

impl DomEngine {
    /// The engine is well formed: its tree is consistent.
    pub closed spec fn wf(&self) -> bool {
        &&& tree_consistent(self@.nodes)
        &&& self.order@.no_duplicates()
        &&& forall|k: u32| #[trigger] self.nodes@.contains_key(k) <==> self.order@.contains(k)
    }
}

/// `s` without the ids of `r`, in order.
pub open spec fn without(s: Seq<u32>, r: Set<u32>) -> Seq<u32>
    decreases s.len(),
{
    if s.len() == 0 {
        s
    } else {
        let w = without(s.drop_last(), r);
        if r.contains(s.last()) {
            w
        } else {
            w.push(s.last())
        }
    }
}

/// What is left of `s` without `r` holds only ids of `s` outside `r`.
pub proof fn lemma_without_members(s: Seq<u32>, r: Set<u32>)
    ensures
        forall|i: int|
            0 <= i < without(s, r).len() ==> s.contains(#[trigger] without(s, r)[i]) && !r.contains(
                without(s, r)[i],
            ),
        forall|x: u32| s.contains(x) && !r.contains(x) ==> #[trigger] without(s, r).contains(x),
    decreases s.len(),
{
    if s.len() > 0 {
        lemma_without_members(s.drop_last(), r);
        let w = without(s.drop_last(), r);
        assert forall|i: int| 0 <= i < without(s, r).len() implies s.contains(
            #[trigger] without(s, r)[i],
        ) && !r.contains(without(s, r)[i]) by {
            if i < w.len() {
                assert(without(s, r)[i] == w[i]);
                assert(s.drop_last().contains(w[i]));
                let j = choose|j: int| 0 <= j < s.drop_last().len() && s.drop_last()[j] == w[i];
                assert(s[j] == w[i]);
            } else {
                assert(s[s.len() - 1] == without(s, r)[i]);
            }
        }
        assert forall|x: u32| s.contains(x) && !r.contains(x) implies #[trigger] without(
            s,
            r,
        ).contains(x) by {
            let j = choose|j: int| 0 <= j < s.len() && s[j] == x;
            if j < s.len() - 1 {
                assert(s.drop_last()[j] == x);
                assert(s.drop_last().contains(x));
                assert(without(s.drop_last(), r).contains(x));
                let k = choose|k: int| 0 <= k < w.len() && w[k] == x;
                assert(without(s, r)[k] == x);
            } else {
                assert(without(s, r)[without(s, r).len() - 1] == x);
            }
        }
    }
}

/// Leaving out ids that `s` does not hold changes nothing.
pub proof fn lemma_without_disjoint(s: Seq<u32>, r: Set<u32>)
    requires
        forall|i: int| 0 <= i < s.len() ==> !r.contains(#[trigger] s[i]),
    ensures
        without(s, r) == s,
    decreases s.len(),
{
    if s.len() > 0 {
        lemma_without_disjoint(s.drop_last(), r);
        assert(s.drop_last().push(s.last()) =~= s);
    }
}

/// A new vector with the ids of `s` outside `r`.
fn vec_without(s: &Vec<u32>, r: &HashSet<u32>) -> (w: Vec<u32>)
    ensures
        w@ == without(s@, r@),
{
    let mut w: Vec<u32> = Vec::new();
    let mut i: usize = 0;
    while i < s.len()
        invariant
            i <= s.len(),
            w@ == without(s@.take(i as int), r@),
        decreases s.len() - i,
    {
        assert(s@.take(i as int + 1).drop_last() =~= s@.take(i as int));
        let x = s[i];
        if !r.contains(&x) {
            w.push(x);
        }
        i = i + 1;
    }
    assert(s@.take(s.len() as int) =~= s@);
    w
}

/// A new vector with the ids of `s` other than `x`.
fn vec_without_one(s: &Vec<u32>, x: u32) -> (w: Vec<u32>)
    ensures
        w@ == without(s@, set![x]),
{
    let mut w: Vec<u32> = Vec::new();
    let mut i: usize = 0;
    while i < s.len()
        invariant
            i <= s.len(),
            w@ == without(s@.take(i as int), set![x]),
        decreases s.len() - i,
    {
        assert(s@.take(i as int + 1).drop_last() =~= s@.take(i as int));
        let y = s[i];
        if y != x {
            w.push(y);
        }
        i = i + 1;
    }
    assert(s@.take(s.len() as int) =~= s@);
    w
}

/// The index of the first `x` in `s`, or its length when `s` holds none.
pub open spec fn first_index(s: Seq<u32>, x: u32) -> int
    decreases s.len(),
{
    if s.len() == 0 {
        0
    } else if s[0] == x {
        0
    } else {
        1 + first_index(s.drop_first(), x)
    }
}

proof fn lemma_first_index(s: Seq<u32>, x: u32, i: int)
    requires
        0 <= i <= s.len(),
        forall|j: int| 0 <= j < i ==> s[j] != x,
        i == s.len() || s[i] == x,
    ensures
        first_index(s, x) == i,
    decreases i,
{
    if i > 0 {
        lemma_first_index(s.drop_first(), x, i - 1);
    }
}

fn find_first(s: &Vec<u32>, x: u32) -> (r: usize)
    ensures
        r == first_index(s@, x),
        r <= s.len(),
{
    let mut i: usize = 0;
    while i < s.len()
        invariant
            i <= s.len(),
            forall|j: int| 0 <= j < i ==> s@[j] != x,
        decreases s.len() - i,
    {
        if s[i] == x {
            proof {
                lemma_first_index(s@, x, i as int);
            }
            return i;
        }
        i = i + 1;
    }
    proof {
        lemma_first_index(s@, x, i as int);
    }
    i
}


/// A fresh node with no children.
pub open spec fn fresh_node(
    kind: NodeKind,
    inline: bool,
    parent: Option<u32>,
    value: Seq<char>,
    styles: Seq<StyleMutation>,
) -> NodeView {
    NodeView {
        kind,
        inline,
        parent,
        children: Seq::empty(),
        value,
        cursor: 0,
        placeholder: Seq::empty(),
        focused: false,
        styles,
        transitions: None,
        image_source: None,
    }
}

/// The DOM after node `id` is created. An id that is created again gets a
/// fresh node that keeps the place its id had in its parent.
pub open spec fn created(
    v: EngineView,
    id: u32,
    kind: NodeKind,
    inline: bool,
    value: Seq<char>,
    styles: Seq<StyleMutation>,
) -> EngineView {
    let parent = if v.nodes.contains_key(id) {
        v.nodes[id].parent
    } else {
        None
    };
    EngineView {
        nodes: v.nodes.insert(id, fresh_node(kind, inline, parent, value, styles)),
        next_dom_id: if v.next_dom_id > id + 1 {
            v.next_dom_id
        } else {
            (id + 1) as u32
        },
        dirtiness: Dirtiness::Layout,
        ..v
    }
}

/// The DOM with node `id` replaced by `n` and the dirtiness `d`, where `id`
/// is a node; unchanged where it is not.
pub open spec fn edited(v: EngineView, id: u32, n: NodeView, d: Dirtiness) -> EngineView {
    if v.nodes.contains_key(id) {
        EngineView { nodes: v.nodes.insert(id, n), dirtiness: d, ..v }
    } else {
        v
    }
}

/// Whether a node of kind `k` holds a text control's value.
pub open spec fn is_text_control(k: NodeKind) -> bool {
    k == NodeKind::Input || k == NodeKind::TextArea
}

/// Whether changing `property` can move boxes, so that layout is redone.
pub open spec fn reaches_layout(property: StyleProperty) -> bool {
    !(property == StyleProperty::Color || property == StyleProperty::Background || property
        == StyleProperty::BorderColor || property == StyleProperty::PlaceholderColor || property
        == StyleProperty::SelectionBackground || property == StyleProperty::Opacity || property
        == StyleProperty::Visibility || property == StyleProperty::ZIndex || property
        == StyleProperty::FontWeight || property == StyleProperty::FontStyle || property
        == StyleProperty::TextDecorationLine || property == StyleProperty::Cursor || property
        == StyleProperty::ScrollbarColor || property == StyleProperty::ImageRendering)
}

/// The property a style change is about.
pub open spec fn mutated_property(m: StyleMutation) -> StyleProperty {
    match m {
        StyleMutation::Assign(p, _) => p,
        StyleMutation::Reset(p) => p,
    }
}

fn mutation_reaches_layout(m: &StyleMutation) -> (r: bool)
    ensures
        r == reaches_layout(mutated_property(*m)),
{
    let p = match m {
        StyleMutation::Assign(p, _) => *p,
        StyleMutation::Reset(p) => *p,
    };
    !(p == StyleProperty::Color || p == StyleProperty::Background || p == StyleProperty::BorderColor
        || p == StyleProperty::PlaceholderColor || p == StyleProperty::SelectionBackground || p
        == StyleProperty::Opacity || p == StyleProperty::Visibility || p == StyleProperty::ZIndex
        || p == StyleProperty::FontWeight || p == StyleProperty::FontStyle || p
        == StyleProperty::TextDecorationLine || p == StyleProperty::Cursor || p
        == StyleProperty::ScrollbarColor || p == StyleProperty::ImageRendering)
}

/// The DOM after node `id` gets the style change `m`.
pub open spec fn style_mutated(v: EngineView, id: u32, m: StyleMutation) -> EngineView {
    edited(
        v,
        id,
        NodeView { styles: v.nodes[id].styles.push(m), ..v.nodes[id] },
        if reaches_layout(mutated_property(m)) {
            Dirtiness::Layout
        } else {
            paint_dirtied(v.dirtiness)
        },
    )
}

/// The DOM after `set_text`: a text node takes the text; any node marks
/// layout dirty.
pub open spec fn text_set(v: EngineView, id: u32, text: Seq<char>) -> EngineView {
    edited(
        v,
        id,
        if v.nodes[id].kind == NodeKind::Text {
            NodeView { value: text, ..v.nodes[id] }
        } else {
            v.nodes[id]
        },
        Dirtiness::Layout,
    )
}

/// The DOM after an input's value is set: inputs and text areas take it.
pub open spec fn input_value_set(v: EngineView, id: u32, value: Seq<char>, cursor: u32) -> EngineView {
    edited(
        v,
        id,
        if is_text_control(v.nodes[id].kind) {
            NodeView { value, cursor, ..v.nodes[id] }
        } else {
            v.nodes[id]
        },
        Dirtiness::Layout,
    )
}

/// The DOM after a text area's value is set: only text areas take it.
pub open spec fn textarea_value_set(v: EngineView, id: u32, value: Seq<char>, cursor: u32) -> EngineView {
    edited(
        v,
        id,
        if v.nodes[id].kind == NodeKind::TextArea {
            NodeView { value, cursor, ..v.nodes[id] }
        } else {
            v.nodes[id]
        },
        Dirtiness::Layout,
    )
}

/// The DOM after focus is set on a node: a text area takes it, and with
/// `any_control` an input too.
pub open spec fn focus_set(v: EngineView, id: u32, focused: bool, any_control: bool) -> EngineView {
    edited(
        v,
        id,
        if (any_control && is_text_control(v.nodes[id].kind)) || v.nodes[id].kind
            == NodeKind::TextArea {
            NodeView { focused, ..v.nodes[id] }
        } else {
            v.nodes[id]
        },
        paint_dirtied(v.dirtiness),
    )
}

/// The DOM after a placeholder is set on a node: a text area takes it, and
/// with `any_control` an input too.
pub open spec fn placeholder_set(
    v: EngineView,
    id: u32,
    placeholder: Seq<char>,
    any_control: bool,
) -> EngineView {
    edited(
        v,
        id,
        if (any_control && is_text_control(v.nodes[id].kind)) || v.nodes[id].kind
            == NodeKind::TextArea {
            NodeView { placeholder, ..v.nodes[id] }
        } else {
            v.nodes[id]
        },
        paint_dirtied(v.dirtiness),
    )
}

/// The DOM after node `id` is given the transitions `t`.
pub open spec fn transitions_set(v: EngineView, id: u32, t: Seq<TransitionSpec>) -> EngineView {
    edited(v, id, NodeView { transitions: Some(t), ..v.nodes[id] }, v.dirtiness)
}

/// The DOM after node `id` is given the image source `src`.
pub open spec fn image_source_set(v: EngineView, id: u32, src: Seq<char>) -> EngineView {
    edited(v, id, NodeView { image_source: Some(src), ..v.nodes[id] }, Dirtiness::Layout)
}

/// Giving a node a new value with the same parent and children keeps the
/// tree consistent.
proof fn lemma_same_shape(m: Map<u32, NodeView>, id: u32, n: NodeView)
    requires
        tree_consistent(m),
        m.contains_key(id),
        n.parent == m[id].parent,
        n.children == m[id].children,
    ensures
        tree_consistent(m.insert(id, n)),
{
    let m2 = m.insert(id, n);
    assert forall|p: u32, i: int|
        #![trigger m2[p].children[i]]
        m2.contains_key(p) && 0 <= i < m2[p].children.len() implies ({
            let c = m2[p].children[i];
            &&& m2.contains_key(c)
            &&& m2[c].parent == Some(p)
        }) by {
        assert(m2[p].children == m[p].children);
        assert(m[p].children[i] == m2[p].children[i]);
    }
}

impl DomEngine {
    /// An empty DOM: no nodes, ids from 1, nothing to redraw, and a focused
    /// terminal.
    pub fn new() -> (r: DomEngine)
        ensures
            r.wf(),
            r@.nodes == Map::<u32, NodeView>::empty(),
            r@.root is None,
            r@.viewport is None,
            r@.next_dom_id == 1,
            r@.dirtiness == Dirtiness::Clean,
            r@.terminal_focused,
            !r@.frame_invalidated,
    {
        let r = DomEngine {
            nodes: HashMap::new(),
            order: Vec::new(),
            root: None,
            viewport: None,
            next_dom_id: 1,
            dirtiness: Dirtiness::Clean,
            terminal_focused: true,
            frame_invalidated: false,
        };
        assert(r@.nodes =~= Map::<u32, NodeView>::empty());
        r
    }

    fn mark_layout_dirty(&mut self)
        ensures
            final(self).dirtiness == Dirtiness::Layout,
            final(self).nodes == old(self).nodes,
            final(self).order == old(self).order,
            final(self).root == old(self).root,
            final(self).viewport == old(self).viewport,
            final(self).next_dom_id == old(self).next_dom_id,
            final(self).terminal_focused == old(self).terminal_focused,
            final(self).frame_invalidated == old(self).frame_invalidated,
    {
        self.dirtiness = Dirtiness::Layout;
    }

    fn mark_paint_dirty(&mut self)
        ensures
            final(self).dirtiness == paint_dirtied(old(self).dirtiness),
            final(self).nodes == old(self).nodes,
            final(self).order == old(self).order,
            final(self).root == old(self).root,
            final(self).viewport == old(self).viewport,
            final(self).next_dom_id == old(self).next_dom_id,
            final(self).terminal_focused == old(self).terminal_focused,
            final(self).frame_invalidated == old(self).frame_invalidated,
    {
        if self.dirtiness == Dirtiness::Clean {
            self.dirtiness = Dirtiness::Paint;
        }
    }

    /// Creates node `id`, or replaces it with a fresh node if it exists.
    pub fn create(
        &mut self,
        id: u32,
        kind: NodeKind,
        inline: bool,
        value: String,
        styles: Vec<StyleMutation>,
    )
        requires
            old(self).wf(),
            id < u32::MAX,
        ensures
            final(self).wf(),
            final(self)@ == created(old(self)@, id, kind, inline, value@, styles@),
    {
        let existing = self.nodes.get(&id);
        let (parent, fresh) = match existing {
            Some(n) => (n.parent, false),
            None => (None, true),
        };
        let node = DomNode {
            kind,
            inline,
            parent,
            children: Vec::new(),
            value,
            cursor: 0,
            placeholder: String::new(),
            focused: false,
            styles,
            transitions: None,
            image_source: None,
        };
        let ghost old_nodes = self.nodes@;
        let ghost old_order = self.order@;
        self.nodes.insert(id, node);
        if fresh {
            self.order.push(id);
        }
        if self.next_dom_id <= id + 1 {
            self.next_dom_id = id + 1;
        }
        self.dirtiness = Dirtiness::Layout;
        proof {
            assert(node_views(self.nodes@) =~= node_views(old_nodes).insert(id, node@));
            let m = node_views(old_nodes);
            let m2 = m.insert(id, node@);
            assert(tree_consistent(m2)) by {
                assert forall|p: u32, i: int|
                    #![trigger m2[p].children[i]]
                    m2.contains_key(p) && 0 <= i < m2[p].children.len() implies ({
                        let c = m2[p].children[i];
                        &&& m2.contains_key(c)
                        &&& m2[c].parent == Some(p)
                    }) by {
                    assert(p != id);
                    assert(m[p].children[i] == m2[p].children[i]);
                }
            }
            assert forall|k: u32| #[trigger] self.nodes@.contains_key(k) <==> self.order@.contains(
                k,
            ) by {
                if fresh {
                    assert(self.order@ == old_order.push(id));
                    assert(self.order@[self.order@.len() - 1] == id);
                    if k != id && self.order@.contains(k) {
                        let j = choose|j: int| 0 <= j < self.order@.len() && self.order@[j] == k;
                        assert(old_order[j] == k);
                    }
                    if k != id && old_order.contains(k) {
                        let j = choose|j: int| 0 <= j < old_order.len() && old_order[j] == k;
                        assert(self.order@[j] == k);
                    }
                }
            }
            if fresh {
                assert(!old_order.contains(id));
                assert(self.order@.no_duplicates()) by {
                    assert forall|a: int, b: int|
                        0 <= a < b < self.order@.len() implies self.order@[a] != self.order@[b] by {
                        if b == self.order@.len() - 1 {
                            assert(old_order[a] == self.order@[a]);
                        }
                    }
                }
            }
        }
    }

    /// Takes node `id` out of the map.
    fn take(&mut self, id: u32) -> (r: Option<DomNode>)
        ensures
            old(self).nodes@.contains_key(id) ==> r == Some(old(self).nodes@[id]),
            !old(self).nodes@.contains_key(id) ==> r is None,
            final(self).nodes@ == old(self).nodes@.remove(id),
            final(self).order == old(self).order,
            final(self).root == old(self).root,
            final(self).viewport == old(self).viewport,
            final(self).next_dom_id == old(self).next_dom_id,
            final(self).dirtiness == old(self).dirtiness,
            final(self).terminal_focused == old(self).terminal_focused,
            final(self).frame_invalidated == old(self).frame_invalidated,
    {
        self.nodes.remove(&id)
    }

    /// Puts back a node taken out.
    fn put(&mut self, id: u32, n: DomNode, Ghost(before): Ghost<EngineView>, d: Dirtiness)
        requires
            before.nodes.contains_key(id),
            node_views(old(self).nodes@) == before.nodes.remove(id),
            old(self).order@.no_duplicates(),
            forall|k: u32| #[trigger] before.nodes.contains_key(k) <==> old(self).order@.contains(k),
            old(self).root == before.root,
            old(self).viewport == before.viewport,
            old(self).next_dom_id == before.next_dom_id,
            old(self).terminal_focused == before.terminal_focused,
            old(self).frame_invalidated == before.frame_invalidated,
        ensures
            tree_consistent(before.nodes.insert(id, n@)) ==> final(self).wf(),
            final(self).order@.no_duplicates(),
            forall|k: u32| #[trigger] before.nodes.contains_key(k) <==> final(self).order@.contains(k),
            final(self)@ == (EngineView { nodes: before.nodes.insert(id, n@), dirtiness: d, ..before }),
    {
        let ghost taken = self.nodes@;
        self.nodes.insert(id, n);
        self.dirtiness = d;
        proof {
            assert(node_views(self.nodes@) =~= before.nodes.insert(id, n@)) by {
                assert forall|k: u32| k != id implies (#[trigger] taken.contains_key(k)
                    <==> before.nodes.contains_key(k)) by {
                    assert(node_views(taken).contains_key(k) <==> before.nodes.remove(id).contains_key(k));
                }
                assert forall|k: u32| #[trigger] taken.contains_key(k) && k != id implies taken[k]@
                    == before.nodes[k] by {
                    assert(node_views(taken)[k] == before.nodes.remove(id)[k]);
                }
            }
            assert forall|k: u32| #[trigger] self.nodes@.contains_key(k) <==> self.order@.contains(k) by {
                assert(self.nodes@.contains_key(k) <==> node_views(self.nodes@).contains_key(k));
                assert(before.nodes.contains_key(k) <==> before.nodes.insert(id, n@).contains_key(k));
            }
        }
    }

    /// Takes out node `id`, which is a node, keeping what `put` needs.
    fn take_node(&mut self, id: u32) -> (r: DomNode)
        requires
            old(self).wf(),
            old(self)@.nodes.contains_key(id),
        ensures
            r@ == old(self)@.nodes[id],
            node_views(final(self).nodes@) == old(self)@.nodes.remove(id),
            final(self).order == old(self).order,
            final(self).root == old(self).root,
            final(self).viewport == old(self).viewport,
            final(self).next_dom_id == old(self).next_dom_id,
            final(self).dirtiness == old(self).dirtiness,
            final(self).terminal_focused == old(self).terminal_focused,
            final(self).frame_invalidated == old(self).frame_invalidated,
            old(self).order@.no_duplicates(),
            forall|k: u32| #[trigger] old(self)@.nodes.contains_key(k) <==> old(self).order@.contains(k),
    {
        proof {
            assert(self.nodes@.contains_key(id));
            assert forall|k: u32| #[trigger] self@.nodes.contains_key(k) <==> self.order@.contains(k) by {
                assert(self@.nodes.contains_key(k) <==> self.nodes@.contains_key(k));
            }
        }
        let ghost m = self.nodes@;
        let r = self.take(id);
        assert(node_views(self.nodes@) =~= node_views(m).remove(id));
        r.unwrap()
    }

    /// Sets the text of a text node; marks layout dirty where `id` is a node.
    pub fn set_text(&mut self, id: u32, text: String) -> (r: bool)
        requires
            old(self).wf(),
        ensures
            final(self).wf(),
            r == old(self)@.nodes.contains_key(id),
            final(self)@ == text_set(old(self)@, id, text@),
    {
        if !self.contains(id) {
            return false;
        }
        let ghost before = self@;
        let mut n = self.take_node(id);
        if n.kind == NodeKind::Text {
            n.value = text;
        }
        self.put(id, n, Ghost(before), Dirtiness::Layout);
        proof {
            lemma_same_shape(before.nodes, id, n@);
        }
        true
    }

    /// How much of the next frame must be redone.
    pub fn dirtiness(&self) -> (r: Dirtiness)
        ensures
            r == self@.dirtiness,
    {
        self.dirtiness
    }

    /// The root, if there is one.
    pub fn root(&self) -> (r: Option<u32>)
        ensures
            r == self@.root,
    {
        self.root
    }

    /// The viewport, if there is one.
    pub fn viewport(&self) -> (r: Option<u32>)
        ensures
            r == self@.viewport,
    {
        self.viewport
    }

    /// Whether the next frame must be written whole.
    pub fn frame_invalidated(&self) -> (r: bool)
        ensures
            r == self@.frame_invalidated,
    {
        self.frame_invalidated
    }

    /// The children of node `id`, if it is a node.
    pub fn children(&self, id: u32) -> (r: Option<Vec<u32>>)
        ensures
            self@.nodes.contains_key(id) ==> (r matches Some(c) && c@ == self@.nodes[id].children),
            !self@.nodes.contains_key(id) ==> r is None,
    {
        if self.contains(id) {
            Some(self.children_of(id))
        } else {
            None
        }
    }

    /// The parent of node `id`, if it is a node.
    pub fn parent(&self, id: u32) -> (r: Option<Option<u32>>)
        ensures
            self@.nodes.contains_key(id) ==> r == Some(self@.nodes[id].parent),
            !self@.nodes.contains_key(id) ==> r is None,
    {
        match self.nodes.get(&id) {
            Some(n) => Some(n.parent),
            None => None,
        }
    }

    /// Whether `id` is a node.
    pub fn contains(&self, id: u32) -> (r: bool)
        ensures
            r == self@.nodes.contains_key(id),
    {
        self.nodes.contains_key(&id)
    }

    /// Sets the value and cursor of an input or text area.
    pub fn set_input_value(&mut self, id: u32, value: String, cursor: u32) -> (r: bool)
        requires
            old(self).wf(),
        ensures
            final(self).wf(),
            r == old(self)@.nodes.contains_key(id),
            final(self)@ == input_value_set(old(self)@, id, value@, cursor),
    {
        if !self.contains(id) {
            return false;
        }
        let ghost before = self@;
        let mut n = self.take_node(id);
        if n.kind == NodeKind::Input || n.kind == NodeKind::TextArea {
            n.value = value;
            n.cursor = cursor;
        }
        self.put(id, n, Ghost(before), Dirtiness::Layout);
        proof {
            lemma_same_shape(before.nodes, id, n@);
        }
        true
    }

    /// Sets the value and cursor of a text area.
    pub fn set_textarea_value(&mut self, id: u32, value: String, cursor: u32) -> (r: bool)
        requires
            old(self).wf(),
        ensures
            final(self).wf(),
            r == old(self)@.nodes.contains_key(id),
            final(self)@ == textarea_value_set(old(self)@, id, value@, cursor),
    {
        if !self.contains(id) {
            return false;
        }
        let ghost before = self@;
        let mut n = self.take_node(id);
        if n.kind == NodeKind::TextArea {
            n.value = value;
            n.cursor = cursor;
        }
        self.put(id, n, Ghost(before), Dirtiness::Layout);
        proof {
            lemma_same_shape(before.nodes, id, n@);
        }
        true
    }

    /// Sets focus on a text area, or with `any_control` on an input too.
    pub fn set_focused(&mut self, id: u32, focused: bool, any_control: bool) -> (r: bool)
        requires
            old(self).wf(),
        ensures
            final(self).wf(),
            r == old(self)@.nodes.contains_key(id),
            final(self)@ == focus_set(old(self)@, id, focused, any_control),
    {
        if !self.contains(id) {
            return false;
        }
        let ghost before = self@;
        let d = if self.dirtiness == Dirtiness::Clean {
            Dirtiness::Paint
        } else {
            self.dirtiness
        };
        let mut n = self.take_node(id);
        if (any_control && n.kind == NodeKind::Input) || n.kind == NodeKind::TextArea {
            n.focused = focused;
        }
        self.put(id, n, Ghost(before), d);
        proof {
            lemma_same_shape(before.nodes, id, n@);
        }
        true
    }

    /// Sets the placeholder of a text area, or with `any_control` of an
    /// input too.
    pub fn set_placeholder(&mut self, id: u32, placeholder: String, any_control: bool) -> (r: bool)
        requires
            old(self).wf(),
        ensures
            final(self).wf(),
            r == old(self)@.nodes.contains_key(id),
            final(self)@ == placeholder_set(old(self)@, id, placeholder@, any_control),
    {
        if !self.contains(id) {
            return false;
        }
        let ghost before = self@;
        let d = if self.dirtiness == Dirtiness::Clean {
            Dirtiness::Paint
        } else {
            self.dirtiness
        };
        let mut n = self.take_node(id);
        if (any_control && n.kind == NodeKind::Input) || n.kind == NodeKind::TextArea {
            n.placeholder = placeholder;
        }
        self.put(id, n, Ghost(before), d);
        proof {
            lemma_same_shape(before.nodes, id, n@);
        }
        true
    }

    /// Gives node `id` its transitions.
    pub fn set_transition(&mut self, id: u32, transitions: Vec<TransitionSpec>) -> (r: bool)
        requires
            old(self).wf(),
        ensures
            final(self).wf(),
            r == old(self)@.nodes.contains_key(id),
            final(self)@ == transitions_set(old(self)@, id, transitions@),
    {
        if !self.contains(id) {
            return false;
        }
        let ghost before = self@;
        let d = self.dirtiness;
        let mut n = self.take_node(id);
        n.transitions = Some(transitions);
        self.put(id, n, Ghost(before), d);
        proof {
            lemma_same_shape(before.nodes, id, n@);
        }
        true
    }

    /// Gives node `id` the image source `src`.
    pub fn set_image_source(&mut self, id: u32, src: String) -> (r: bool)
        requires
            old(self).wf(),
        ensures
            final(self).wf(),
            r == old(self)@.nodes.contains_key(id),
            final(self)@ == image_source_set(old(self)@, id, src@),
    {
        if !self.contains(id) {
            return false;
        }
        let ghost before = self@;
        let mut n = self.take_node(id);
        n.image_source = Some(src);
        self.put(id, n, Ghost(before), Dirtiness::Layout);
        proof {
            lemma_same_shape(before.nodes, id, n@);
        }
        true
    }

    /// Makes the style change `m` to node `id`.
    pub fn mutate_style(&mut self, id: u32, m: StyleMutation) -> (r: bool)
        requires
            old(self).wf(),
        ensures
            final(self).wf(),
            r == old(self)@.nodes.contains_key(id),
            final(self)@ == style_mutated(old(self)@, id, m),
    {
        if !self.contains(id) {
            return false;
        }
        let ghost before = self@;
        let d = if mutation_reaches_layout(&m) {
            Dirtiness::Layout
        } else if self.dirtiness == Dirtiness::Clean {
            Dirtiness::Paint
        } else {
            self.dirtiness
        };
        let mut n = self.take_node(id);
        n.styles.push(m);
        self.put(id, n, Ghost(before), d);
        proof {
            lemma_same_shape(before.nodes, id, n@);
        }
        true
    }
}


/// `nodes` with `child` taken out of its parent's children, where it has a
/// parent that is a node.
pub open spec fn unlinked(nodes: Map<u32, NodeView>, child: u32) -> Map<u32, NodeView> {
    match nodes[child].parent {
        Some(p) => if nodes.contains_key(p) {
            nodes.insert(
                p,
                NodeView { children: without(nodes[p].children, set![child]), ..nodes[p] },
            )
        } else {
            nodes
        },
        None => nodes,
    }
}

/// `nodes` with `child` moved under `parent`, whose children become
/// `children`.
pub open spec fn adopted(
    nodes: Map<u32, NodeView>,
    child: u32,
    parent: u32,
    children: Seq<u32>,
) -> Map<u32, NodeView> {
    let n2 = nodes.insert(child, NodeView { parent: Some(parent), ..nodes[child] });
    n2.insert(parent, NodeView { children, ..n2[parent] })
}

/// `s` with `child` moved before the first `before`, or to the end.
pub open spec fn inserted_before(s: Seq<u32>, child: u32, before: u32) -> Seq<u32> {
    let t = without(s, set![child]);
    t.insert(first_index(t, before), child)
}

/// The DOM after `append_child`: the child leaves its old parent and
/// becomes the last child of `parent`.
pub open spec fn appended(v: EngineView, parent: u32, child: u32) -> EngineView {
    if v.nodes.contains_key(parent) && v.nodes.contains_key(child) {
        let n1 = unlinked(v.nodes, child);
        EngineView {
            nodes: adopted(n1, child, parent, n1[parent].children.push(child)),
            dirtiness: Dirtiness::Layout,
            ..v
        }
    } else {
        v
    }
}

/// The DOM after `insert_child_before`: the child leaves its old parent and
/// is put before `before` among the children of `parent` (at the end where
/// `before` is not among them).
pub open spec fn inserted(v: EngineView, parent: u32, child: u32, before: u32) -> EngineView {
    if v.nodes.contains_key(parent) && v.nodes.contains_key(child) && v.nodes.contains_key(before) {
        let n1 = unlinked(v.nodes, child);
        EngineView {
            nodes: adopted(n1, child, parent, inserted_before(n1[parent].children, child, before)),
            dirtiness: Dirtiness::Layout,
            ..v
        }
    } else {
        v
    }
}

/// The DOM after `detach_node`: the root stops being the root; any other
/// node with a parent leaves it.
pub open spec fn detached(v: EngineView, node: u32) -> EngineView {
    if !v.nodes.contains_key(node) {
        v
    } else if v.root == Some(node) {
        EngineView { root: None, dirtiness: Dirtiness::Layout, ..v }
    } else if v.nodes[node].parent is Some {
        let n1 = unlinked(v.nodes, node);
        EngineView {
            nodes: n1.insert(node, NodeView { parent: None, ..n1[node] }),
            dirtiness: Dirtiness::Layout,
            ..v
        }
    } else {
        v
    }
}

/// Whether `detach_node` does anything.
pub open spec fn detaches(v: EngineView, node: u32) -> bool {
    v.nodes.contains_key(node) && (v.root == Some(node) || v.nodes[node].parent is Some)
}

/// After `unlinked`, the tree is still consistent and no node lists `child`.
proof fn lemma_unlinked(nodes: Map<u32, NodeView>, child: u32)
    requires
        tree_consistent(nodes),
        nodes.contains_key(child),
    ensures
        tree_consistent(unlinked(nodes, child)),
        unlinked(nodes, child).dom() == nodes.dom(),
        forall|q: u32| #[trigger] unlinked(nodes, child).contains_key(q) ==> unlinked(nodes, child)[q].parent == nodes[q].parent,
        forall|q: u32, i: int|
            unlinked(nodes, child).contains_key(q) && 0 <= i < unlinked(nodes, child)[q].children.len()
                ==> #[trigger] unlinked(nodes, child)[q].children[i] != child,
{
    let n1 = unlinked(nodes, child);
    match nodes[child].parent {
        Some(p) => {
            if nodes.contains_key(p) {
                lemma_without_members(nodes[p].children, set![child]);
                assert forall|q: u32, i: int|
                    n1.contains_key(q) && 0 <= i < n1[q].children.len() implies #[trigger] n1[q].children[i] != child by {
                    if q != p {
                        assert(nodes[q].children[i] == n1[q].children[i]);
                    }
                }
                assert forall|q: u32, i: int|
                    #![trigger n1[q].children[i]]
                    n1.contains_key(q) && 0 <= i < n1[q].children.len() implies ({
                        let c = n1[q].children[i];
                        &&& n1.contains_key(c)
                        &&& n1[c].parent == Some(q)
                    }) by {
                    if q == p {
                        let c = n1[q].children[i];
                        assert(nodes[p].children.contains(c));
                        let j = choose|j: int| 0 <= j < nodes[p].children.len() && nodes[p].children[j] == c;
                        assert(nodes[p].children[j] == c);
                    } else {
                        assert(nodes[q].children[i] == n1[q].children[i]);
                    }
                }
                assert(n1.dom() =~= nodes.dom());
            } else {
                assert forall|q: u32, i: int|
                    nodes.contains_key(q) && 0 <= i < nodes[q].children.len() implies #[trigger] nodes[q].children[i] != child by {
                    let c = nodes[q].children[i];
                    if c == child {
                        assert(nodes[c].parent == Some(q));
                    }
                }
            }
        },
        None => {
            assert forall|q: u32, i: int|
                nodes.contains_key(q) && 0 <= i < nodes[q].children.len() implies #[trigger] nodes[q].children[i] != child by {
                let c = nodes[q].children[i];
                if c == child {
                    assert(nodes[c].parent == Some(q));
                }
            }
        },
    }
}

/// Adopting a child that no node lists keeps the tree consistent, where
/// the new children of the parent are the child or old children.
proof fn lemma_adopted(nodes: Map<u32, NodeView>, child: u32, parent: u32, children: Seq<u32>)
    requires
        tree_consistent(nodes),
        nodes.contains_key(child),
        nodes.contains_key(parent),
        forall|q: u32, i: int|
            nodes.contains_key(q) && 0 <= i < nodes[q].children.len() ==> #[trigger] nodes[q].children[i] != child,
        forall|i: int|
            0 <= i < children.len() ==> #[trigger] children[i] == child || nodes[parent].children.contains(
                children[i],
            ),
    ensures
        tree_consistent(adopted(nodes, child, parent, children)),
        adopted(nodes, child, parent, children).dom() == nodes.dom(),
{
    let n2 = nodes.insert(child, NodeView { parent: Some(parent), ..nodes[child] });
    let n3 = adopted(nodes, child, parent, children);
    assert(n2[parent].children == nodes[parent].children);
    assert forall|q: u32, i: int|
        #![trigger n3[q].children[i]]
        n3.contains_key(q) && 0 <= i < n3[q].children.len() implies ({
            let c = n3[q].children[i];
            &&& n3.contains_key(c)
            &&& n3[c].parent == Some(q)
        }) by {
        let c = n3[q].children[i];
        if q == parent {
            if c != child {
                let j = choose|j: int| 0 <= j < nodes[parent].children.len() && nodes[parent].children[j] == c;
                assert(nodes[parent].children[j] == c);
            }
        } else {
            assert(n3[q].children == nodes[q].children);
            assert(nodes[q].children[i] == c);
        }
    }
    assert(n3.dom() =~= nodes.dom());
}

proof fn lemma_insert_members(s: Seq<u32>, child: u32, before: u32)
    ensures
        forall|i: int|
            0 <= i < inserted_before(s, child, before).len() ==> #[trigger] inserted_before(s, child, before)[i] == child
                || s.contains(inserted_before(s, child, before)[i]),
{
    let t = without(s, set![child]);
    lemma_without_members(s, set![child]);
    assert(0 <= first_index(t, before) <= t.len()) by {
        lemma_first_index_bounds(t, before);
    }
    assert forall|i: int|
        0 <= i < inserted_before(s, child, before).len() implies #[trigger] inserted_before(s, child, before)[i] == child
            || s.contains(inserted_before(s, child, before)[i]) by {
        let k = first_index(t, before);
        if i < k {
            assert(inserted_before(s, child, before)[i] == t[i]);
        } else if i > k {
            assert(inserted_before(s, child, before)[i] == t[i - 1]);
        }
    }
}

proof fn lemma_first_index_bounds(s: Seq<u32>, x: u32)
    ensures
        0 <= first_index(s, x) <= s.len(),
    decreases s.len(),
{
    if s.len() > 0 && s[0] != x {
        lemma_first_index_bounds(s.drop_first(), x);
    }
}

impl DomEngine {
    /// Takes `child` out of its parent's children.
    fn unlink(&mut self, child: u32)
        requires
            old(self).wf(),
            old(self)@.nodes.contains_key(child),
        ensures
            final(self).wf(),
            final(self)@ == (EngineView { nodes: unlinked(old(self)@.nodes, child), ..old(self)@ }),
    {
        let ghost before = self@;
        proof {
            lemma_unlinked(before.nodes, child);
        }
        let parent = match self.nodes.get(&child) {
            Some(n) => n.parent,
            None => None,
        };
        assert(parent == before.nodes[child].parent);
        match parent {
            Some(p) => {
                if self.contains(p) {
                    let d = self.dirtiness;
                    let mut pn = self.take_node(p);
                    pn.children = vec_without_one(&pn.children, child);
                    self.put(p, pn, Ghost(before), d);
                }
            },
            None => {},
        }
        assert(self@ == (EngineView { nodes: unlinked(before.nodes, child), ..before }));
    }

    /// Sets the parent of node `id`.
    fn set_parent(&mut self, id: u32, parent: Option<u32>)
        requires
            old(self).wf(),
            old(self)@.nodes.contains_key(id),
        ensures
            final(self)@ == (EngineView {
                nodes: old(self)@.nodes.insert(id, NodeView { parent, ..old(self)@.nodes[id] }),
                ..old(self)@
            }),
            tree_consistent(final(self)@.nodes) ==> final(self).wf(),
    {
        let ghost before = self@;
        let d = self.dirtiness;
        let mut n = self.take_node(id);
        n.parent = parent;
        self.put(id, n, Ghost(before), d);
    }

    /// Sets the children of node `id`.
    fn set_children(&mut self, id: u32, children: Vec<u32>)
        requires
            old(self).wf(),
            old(self)@.nodes.contains_key(id),
        ensures
            final(self)@ == (EngineView {
                nodes: old(self)@.nodes.insert(id, NodeView { children: children@, ..old(self)@.nodes[id] }),
                ..old(self)@
            }),
            tree_consistent(final(self)@.nodes) ==> final(self).wf(),
    {
        let ghost before = self@;
        let d = self.dirtiness;
        let mut n = self.take_node(id);
        n.children = children;
        self.put(id, n, Ghost(before), d);
    }

    /// A copy of the children of node `id`.
    fn children_of(&self, id: u32) -> (r: Vec<u32>)
        requires
            self@.nodes.contains_key(id),
        ensures
            r@ == self@.nodes[id].children,
    {
        let n = self.nodes.get(&id).unwrap();
        let mut r: Vec<u32> = Vec::new();
        let mut i: usize = 0;
        while i < n.children.len()
            invariant
                i <= n.children.len(),
                r@ == n.children@.take(i as int),
            decreases n.children.len() - i,
        {
            assert(n.children@.take(i as int + 1) =~= n.children@.take(i as int).push(n.children@[i as int]));
            r.push(n.children[i]);
            i = i + 1;
        }
        assert(n.children@.take(i as int) =~= n.children@);
        r
    }

    /// Makes `child` the last child of `parent`.
    pub fn append_child(&mut self, parent: u32, child: u32) -> (r: bool)
        requires
            old(self).wf(),
        ensures
            final(self).wf(),
            r == (old(self)@.nodes.contains_key(parent) && old(self)@.nodes.contains_key(child)),
            final(self)@ == appended(old(self)@, parent, child),
    {
        if !self.contains(parent) || !self.contains(child) {
            return false;
        }
        let ghost before = self@;
        self.unlink(child);
        let ghost n1 = self@.nodes;
        self.set_parent(child, Some(parent));
        let mut kids = self.children_of(parent);
        kids.push(child);
        proof {
            lemma_unlinked(before.nodes, child);
            assert forall|i: int| 0 <= i < kids@.len() implies #[trigger] kids@[i] == child
                || n1[parent].children.contains(kids@[i]) by {
                if i < kids@.len() - 1 {
                    assert(n1[parent].children[i] == kids@[i]);
                }
            }
            lemma_adopted(n1, child, parent, kids@);
        }
        self.set_children(parent, kids);
        self.mark_layout_dirty();
        true
    }

    /// Puts `child` before `before` among the children of `parent`.
    pub fn insert_child_before(&mut self, parent: u32, child: u32, before: u32) -> (r: bool)
        requires
            old(self).wf(),
        ensures
            final(self).wf(),
            r == (old(self)@.nodes.contains_key(parent) && old(self)@.nodes.contains_key(child)
                && old(self)@.nodes.contains_key(before)),
            final(self)@ == inserted(old(self)@, parent, child, before),
    {
        if !self.contains(parent) || !self.contains(child) || !self.contains(before) {
            return false;
        }
        let ghost start = self@;
        self.unlink(child);
        let ghost n1 = self@.nodes;
        self.set_parent(child, Some(parent));
        let kids = self.children_of(parent);
        let mut siblings = vec_without_one(&kids, child);
        let index = find_first(&siblings, before);
        siblings.insert(index, child);
        proof {
            lemma_unlinked(start.nodes, child);
            lemma_insert_members(n1[parent].children, child, before);
            lemma_adopted(n1, child, parent, siblings@);
        }
        self.set_children(parent, siblings);
        self.mark_layout_dirty();
        true
    }

    /// Detaches `node`: the root stops being the root; another node leaves
    /// its parent.
    pub fn detach_node(&mut self, node: u32) -> (r: bool)
        requires
            old(self).wf(),
        ensures
            final(self).wf(),
            r == detaches(old(self)@, node),
            final(self)@ == detached(old(self)@, node),
    {
        if !self.contains(node) {
            return false;
        }
        if self.root == Some(node) {
            self.root = None;
            self.mark_layout_dirty();
            return true;
        }
        let has_parent = match self.nodes.get(&node) {
            Some(n) => n.parent.is_some(),
            None => false,
        };
        if !has_parent {
            return false;
        }
        let ghost start = self@;
        self.unlink(node);
        proof {
            lemma_unlinked(start.nodes, node);
            let n1 = self@.nodes;
            let n2 = n1.insert(node, NodeView { parent: None, ..n1[node] });
            assert(tree_consistent(n2)) by {
                assert forall|q: u32, i: int|
                    #![trigger n2[q].children[i]]
                    n2.contains_key(q) && 0 <= i < n2[q].children.len() implies ({
                        let c = n2[q].children[i];
                        &&& n2.contains_key(c)
                        &&& n2[c].parent == Some(q)
                    }) by {
                    assert(n1[q].children[i] == n2[q].children[i]);
                }
            }
        }
        self.set_parent(node, None);
        self.mark_layout_dirty();
        true
    }

    /// Makes `root` the root.
    pub fn set_root(&mut self, root: u32) -> (r: bool)
        requires
            old(self).wf(),
        ensures
            final(self).wf(),
            r == old(self)@.nodes.contains_key(root),
            final(self)@ == (if r {
                EngineView { root: Some(root), dirtiness: Dirtiness::Layout, ..old(self)@ }
            } else {
                old(self)@
            }),
    {
        if !self.contains(root) {
            return false;
        }
        self.root = Some(root);
        self.mark_layout_dirty();
        true
    }

    /// Records whether the terminal has focus; a change needs a repaint.
    pub fn set_terminal_focused(&mut self, focused: bool)
        requires
            old(self).wf(),
        ensures
            final(self).wf(),
            final(self)@ == (if old(self)@.terminal_focused == focused {
                old(self)@
            } else {
                EngineView {
                    terminal_focused: focused,
                    dirtiness: paint_dirtied(old(self)@.dirtiness),
                    ..old(self)@
                }
            }),
    {
        if self.terminal_focused != focused {
            self.terminal_focused = focused;
            self.mark_paint_dirty();
        }
    }

    /// Drops the last frame, so that the next is written whole.
    pub fn invalidate_frame(&mut self)
        requires
            old(self).wf(),
        ensures
            final(self).wf(),
            final(self)@ == (EngineView {
                frame_invalidated: true,
                dirtiness: paint_dirtied(old(self)@.dirtiness),
                ..old(self)@
            }),
    {
        self.frame_invalidated = true;
        self.mark_paint_dirty();
    }

    /// Records that a frame was laid out, painted and written: nothing is
    /// dirty, and the next frame is written as a difference from it.
    pub fn frame_written(&mut self)
        requires
            old(self).wf(),
        ensures
            final(self).wf(),
            final(self)@ == (EngineView {
                dirtiness: Dirtiness::Clean,
                frame_invalidated: false,
                ..old(self)@
            }),
    {
        self.dirtiness = Dirtiness::Clean;
        self.frame_invalidated = false;
    }

    /// Whether a frame tick draws a frame: a running transition needs a
    /// repaint, and anything dirty needs a frame.
    pub fn prepare_frame_tick(&mut self, transitions_active: bool) -> (r: bool)
        requires
            old(self).wf(),
        ensures
            final(self).wf(),
            final(self)@ == (if transitions_active {
                EngineView { dirtiness: paint_dirtied(old(self)@.dirtiness), ..old(self)@ }
            } else {
                old(self)@
            }),
            r == (final(self)@.dirtiness != Dirtiness::Clean),
    {
        if transitions_active {
            self.mark_paint_dirty();
        }
        self.dirtiness != Dirtiness::Clean
    }

    /// Marks the frame as needing a repaint.
    pub fn request_repaint(&mut self)
        requires
            old(self).wf(),
        ensures
            final(self).wf(),
            final(self)@ == (EngineView { dirtiness: paint_dirtied(old(self)@.dirtiness), ..old(self)@ }),
    {
        self.mark_paint_dirty();
    }

    /// Marks the layout as needing to be redone.
    pub fn request_layout(&mut self)
        requires
            old(self).wf(),
        ensures
            final(self).wf(),
            final(self)@ == (EngineView { dirtiness: Dirtiness::Layout, ..old(self)@ }),
    {
        self.mark_layout_dirty();
    }
}


/// Every child of a node of `s` is in `s`.
pub open spec fn closed_under_children(nodes: Map<u32, NodeView>, s: Set<u32>) -> bool {
    forall|p: u32, i: int|
        #![trigger s.contains(p), nodes[p].children[i]]
        s.contains(p) && nodes.contains_key(p) && 0 <= i < nodes[p].children.len() ==> s.contains(
            nodes[p].children[i],
        )
}

/// `s` holds each of `roots` that is a node.
pub open spec fn holds_roots(nodes: Map<u32, NodeView>, roots: Seq<u32>, s: Set<u32>) -> bool {
    forall|i: int| 0 <= i < roots.len() && nodes.contains_key(roots[i]) ==> s.contains(#[trigger] roots[i])
}

/// `s` is what destroying `roots` removes: the smallest set of nodes that
/// holds the roots that are nodes and every child of its nodes.
pub open spec fn is_destroyed_set(nodes: Map<u32, NodeView>, roots: Seq<u32>, s: Set<u32>) -> bool {
    &&& forall|x: u32| #[trigger] s.contains(x) ==> nodes.contains_key(x)
    &&& holds_roots(nodes, roots, s)
    &&& closed_under_children(nodes, s)
    &&& forall|t: Set<u32>|
        #![trigger closed_under_children(nodes, t), holds_roots(nodes, roots, t)]
        closed_under_children(nodes, t) && holds_roots(nodes, roots, t) ==> s.subset_of(t)
}

/// The nodes that destroying `roots` removes: the roots that are nodes and
/// all their descendants.
pub open spec fn destroyed_set(nodes: Map<u32, NodeView>, roots: Seq<u32>) -> Set<u32> {
    choose|s: Set<u32>| is_destroyed_set(nodes, roots, s)
}

/// The DOM after the nodes of `r` are removed: the others forget them as
/// children, and a removed root or viewport is unset.
pub open spec fn removed(v: EngineView, r: Set<u32>) -> EngineView {
    EngineView {
        nodes: Map::new(
            |k: u32| v.nodes.contains_key(k) && !r.contains(k),
            |k: u32| NodeView { children: without(v.nodes[k].children, r), ..v.nodes[k] },
        ),
        root: match v.root {
            Some(x) => if r.contains(x) {
                None
            } else {
                Some(x)
            },
            None => None,
        },
        viewport: match v.viewport {
            Some(x) => if r.contains(x) {
                None
            } else {
                Some(x)
            },
            None => None,
        },
        dirtiness: Dirtiness::Layout,
        ..v
    }
}

/// The DOM after destroying `roots` and their descendants; unchanged where
/// none of `roots` is a node.
pub open spec fn destroyed(v: EngineView, roots: Seq<u32>) -> EngineView {
    let r = destroyed_set(v.nodes, roots);
    if r == Set::<u32>::empty() {
        v
    } else {
        removed(v, r)
    }
}

proof fn lemma_destroyed_set_is(nodes: Map<u32, NodeView>, roots: Seq<u32>, s: Set<u32>)
    requires
        is_destroyed_set(nodes, roots, s),
    ensures
        destroyed_set(nodes, roots) == s,
{
    let c = destroyed_set(nodes, roots);
    assert(is_destroyed_set(nodes, roots, c));
    assert(c.subset_of(s));
    assert(s.subset_of(c));
    assert(c =~= s);
}

proof fn lemma_without_no_duplicates(s: Seq<u32>, r: Set<u32>)
    requires
        s.no_duplicates(),
    ensures
        without(s, r).no_duplicates(),
    decreases s.len(),
{
    if s.len() > 0 {
        let d = s.drop_last();
        assert(d.no_duplicates());
        lemma_without_no_duplicates(d, r);
        lemma_without_members(d, r);
        if !r.contains(s.last()) {
            let w = without(d, r);
            assert(!d.contains(s.last()));
            assert forall|a: int, b: int| 0 <= a < b < w.push(s.last()).len() implies w.push(
                s.last(),
            )[a] != w.push(s.last())[b] by {
                if b == w.len() {
                    assert(d.contains(w[a]));
                }
            }
        }
    }
}

impl DomEngine {
    /// The nodes that destroying `roots` removes, and whether there is any.
    fn collect_destroyed(&self, roots: &Vec<u32>) -> (r: (HashSet<u32>, bool))
        requires
            self.wf(),
        ensures
            is_destroyed_set(self@.nodes, roots@, r.0@),
            r.1 == !(r.0@ == Set::<u32>::empty()),
    {
        let ghost nodes = self@.nodes;
        let mut stack: Vec<u32> = Vec::new();
        let mut i: usize = 0;
        while i < roots.len()
            invariant
                self.wf(),
                nodes == self@.nodes,
                i <= roots.len(),
                forall|j: int| 0 <= j < stack@.len() ==> nodes.contains_key(#[trigger] stack@[j]),
                forall|j: int|
                    0 <= j < i && nodes.contains_key(roots@[j]) ==> stack@.contains(#[trigger] roots@[j]),
                forall|t: Set<u32>|
                    #![trigger closed_under_children(nodes, t), holds_roots(nodes, roots@, t)]
                    closed_under_children(nodes, t) && holds_roots(nodes, roots@, t) ==> forall|j: int|
                        0 <= j < stack@.len() ==> t.contains(#[trigger] stack@[j]),
            decreases roots.len() - i,
        {
            let x = roots[i];
            let ghost prev = stack@;
            if self.contains(x) {
                stack.push(x);
                proof {
                    assert(stack@[stack@.len() - 1] == x);
                    assert forall|j: int|
                        0 <= j < i + 1 && nodes.contains_key(roots@[j]) implies stack@.contains(
                        #[trigger] roots@[j],
                    ) by {
                        if j < i {
                            assert(prev.contains(roots@[j]));
                            let m = choose|m: int| 0 <= m < prev.len() && prev[m] == roots@[j];
                            assert(stack@[m] == roots@[j]);
                        }
                    }
                }
            }
            i = i + 1;
        }
        let mut removed: HashSet<u32> = HashSet::new();
        let mut any = false;
        proof {
            assert(nodes.dom().finite()) by {
                assert(self.nodes@.dom().finite());
                assert(nodes.dom() =~= self.nodes@.dom());
            }
        }
        loop
            invariant
                self.wf(),
                nodes == self@.nodes,
                nodes.dom().finite(),
                removed@.finite(),
                forall|x: u32| #[trigger] removed@.contains(x) ==> nodes.contains_key(x),
                forall|j: int| 0 <= j < stack@.len() ==> nodes.contains_key(#[trigger] stack@[j]),
                forall|j: int|
                    0 <= j < roots@.len() && nodes.contains_key(roots@[j]) ==> stack@.contains(
                        #[trigger] roots@[j],
                    ) || removed@.contains(roots@[j]),
                forall|p: u32, k: int|
                    #![trigger removed@.contains(p), nodes[p].children[k]]
                    removed@.contains(p) && 0 <= k < nodes[p].children.len() ==> removed@.contains(
                        nodes[p].children[k],
                    ) || stack@.contains(nodes[p].children[k]),
                forall|t: Set<u32>|
                    #![trigger closed_under_children(nodes, t), holds_roots(nodes, roots@, t)]
                    closed_under_children(nodes, t) && holds_roots(nodes, roots@, t) ==> removed@.subset_of(t)
                        && forall|j: int| 0 <= j < stack@.len() ==> t.contains(#[trigger] stack@[j]),
                any == !(removed@ == Set::<u32>::empty()),
            ensures
                stack@.len() == 0,
            decreases nodes.dom().len() - removed@.len(), stack@.len(),
        {
            proof {
                vstd::set_lib::lemma_len_subset(removed@, nodes.dom());
            }
            let ghost before_pop = stack@;
            let top = stack.pop();
            let x = match top {
                None => break,
                Some(x) => x,
            };
            let ghost rest = stack@;
            if removed.contains(&x) {
                proof {
                    assert(before_pop == rest.push(x));
                    assert forall|y: u32| before_pop.contains(y) implies (#[trigger] rest.contains(y)
                        || removed@.contains(y)) by {
                        if y != x {
                            let j = choose|j: int| 0 <= j < before_pop.len() && before_pop[j] == y;
                            assert(rest[j] == y);
                        }
                    }
                    assert forall|j: int|
                        0 <= j < roots@.len() && nodes.contains_key(roots@[j]) implies stack@.contains(
                            #[trigger] roots@[j],
                        ) || removed@.contains(roots@[j]) by {
                        if !removed@.contains(roots@[j]) {
                            assert(before_pop.contains(roots@[j]));
                        }
                    }
                    assert forall|p: u32, k: int|
                        #![trigger removed@.contains(p), nodes[p].children[k]]
                        removed@.contains(p) && 0 <= k < nodes[p].children.len() implies removed@.contains(
                            nodes[p].children[k],
                        ) || stack@.contains(nodes[p].children[k]) by {
                        if !removed@.contains(nodes[p].children[k]) {
                            assert(before_pop.contains(nodes[p].children[k]));
                        }
                    }
                    assert forall|t: Set<u32>|
                        #![trigger closed_under_children(nodes, t), holds_roots(nodes, roots@, t)]
                        closed_under_children(nodes, t) && holds_roots(nodes, roots@, t) implies removed@.subset_of(t)
                            && forall|j: int| 0 <= j < stack@.len() ==> t.contains(#[trigger] stack@[j]) by {
                        assert forall|j: int| 0 <= j < stack@.len() implies t.contains(#[trigger] stack@[j]) by {
                            assert(before_pop[j] == stack@[j]);
                        }
                    }
                }
                continue;
            }
            let ghost old_removed = removed@;
            proof {
                assert(before_pop == rest.push(x));
                assert(before_pop[before_pop.len() - 1] == x);
                assert forall|t: Set<u32>|
                    #![trigger closed_under_children(nodes, t), holds_roots(nodes, roots@, t)]
                    closed_under_children(nodes, t) && holds_roots(nodes, roots@, t) implies t.contains(x)
                        && forall|j: int| 0 <= j < rest.len() ==> t.contains(#[trigger] rest[j]) by {
                    assert(t.contains(before_pop[before_pop.len() - 1]));
                    assert forall|j: int| 0 <= j < rest.len() implies t.contains(#[trigger] rest[j]) by {
                        assert(before_pop[j] == rest[j]);
                    }
                }
            }
            removed.insert(x);
            any = true;
            let kids = self.children_of(x);
            let mut k: usize = 0;
            while k < kids.len()
                invariant
                    self.wf(),
                    nodes == self@.nodes,
                    nodes.contains_key(x),
                    kids@ == nodes[x].children,
                    k <= kids.len(),
                    stack@ == rest + kids@.take(k as int),
                    forall|j: int| 0 <= j < rest.len() ==> nodes.contains_key(#[trigger] rest[j]),
                    forall|t: Set<u32>|
                        #![trigger closed_under_children(nodes, t), holds_roots(nodes, roots@, t)]
                        closed_under_children(nodes, t) && holds_roots(nodes, roots@, t) ==> t.contains(x)
                            && forall|j: int| 0 <= j < rest.len() ==> t.contains(#[trigger] rest[j]),
                decreases kids.len() - k,
            {
                stack.push(kids[k]);
                proof {
                    assert(kids@.take(k as int + 1) =~= kids@.take(k as int).push(kids@[k as int]));
                }
                k = k + 1;
            }
            proof {
                assert(kids@.take(k as int) =~= kids@);
                let st = stack@;
                assert forall|j: int| 0 <= j < st.len() implies nodes.contains_key(#[trigger] st[j]) by {
                    if j >= rest.len() {
                        assert(st[j] == nodes[x].children[j - rest.len()]);
                    } else {
                        assert(st[j] == rest[j]);
                    }
                }
                assert forall|y: u32| rest.push(x).contains(y) implies (#[trigger] st.contains(y)
                    || removed@.contains(y)) by {
                    if y != x {
                        let j = choose|j: int| 0 <= j < rest.push(x).len() && rest.push(x)[j] == y;
                        assert(rest[j] == y);
                        assert(st[j] == y);
                    }
                }
                assert forall|j: int|
                    0 <= j < roots@.len() && nodes.contains_key(roots@[j]) implies stack@.contains(
                        #[trigger] roots@[j],
                    ) || removed@.contains(roots@[j]) by {
                    if !old_removed.contains(roots@[j]) {
                        assert(before_pop.contains(roots@[j]));
                    }
                }
                assert forall|p: u32, m: int|
                    #![trigger removed@.contains(p), nodes[p].children[m]]
                    removed@.contains(p) && 0 <= m < nodes[p].children.len() implies removed@.contains(
                        nodes[p].children[m],
                    ) || stack@.contains(nodes[p].children[m]) by {
                    let c = nodes[p].children[m];
                    if p == x {
                        assert(st[rest.len() + m] == c);
                    } else if !old_removed.contains(c) {
                        assert(old_removed.contains(p));
                        assert(before_pop.contains(c));
                    }
                }
                assert forall|t: Set<u32>|
                    #![trigger closed_under_children(nodes, t), holds_roots(nodes, roots@, t)]
                    closed_under_children(nodes, t) && holds_roots(nodes, roots@, t) implies removed@.subset_of(t)
                        && forall|j: int| 0 <= j < st.len() ==> t.contains(#[trigger] st[j]) by {
                    assert(t.contains(x));
                    assert forall|j: int| 0 <= j < st.len() implies t.contains(#[trigger] st[j]) by {
                        if j >= rest.len() {
                            assert(st[j] == nodes[x].children[j - rest.len()]);
                        } else {
                            assert(st[j] == rest[j]);
                        }
                    }
                }
                assert(removed@.contains(x));
                assert(removed@ == old_removed.insert(x));
                assert(removed@.len() == old_removed.len() + 1);
                vstd::set_lib::lemma_len_subset(removed@, nodes.dom());
            }
        }
        proof {
            assert(stack@.len() == 0);
            assert(holds_roots(nodes, roots@, removed@));
            assert(closed_under_children(nodes, removed@));
        }
        (removed, any)
    }
}


proof fn lemma_push_contains(s: Seq<u32>, k: u32, q: u32)
    ensures
        s.push(k).contains(q) <==> (s.contains(q) || q == k),
{
    if s.push(k).contains(q) && q != k {
        let j = choose|j: int| 0 <= j < s.push(k).len() && s.push(k)[j] == q;
        assert(s[j] == q);
    }
    if s.contains(q) {
        let j = choose|j: int| 0 <= j < s.len() && s[j] == q;
        assert(s.push(k)[j] == q);
    }
    if q == k {
        assert(s.push(k)[s.len() as int] == q);
    }
}

proof fn lemma_removed_consistent(nodes: Map<u32, NodeView>, r: Set<u32>)
    requires
        tree_consistent(nodes),
    ensures
        tree_consistent(
            Map::new(
                |k: u32| nodes.contains_key(k) && !r.contains(k),
                |k: u32| NodeView { children: without(nodes[k].children, r), ..nodes[k] },
            ),
        ),
{
    let m = Map::new(
        |k: u32| nodes.contains_key(k) && !r.contains(k),
        |k: u32| NodeView { children: without(nodes[k].children, r), ..nodes[k] },
    );
    assert forall|q: u32, i: int|
        #![trigger m[q].children[i]]
        m.contains_key(q) && 0 <= i < m[q].children.len() implies ({
            let c = m[q].children[i];
            &&& m.contains_key(c)
            &&& m[c].parent == Some(q)
        }) by {
        lemma_without_members(nodes[q].children, r);
        let c = m[q].children[i];
        assert(nodes[q].children.contains(c));
        let j = choose|j: int| 0 <= j < nodes[q].children.len() && nodes[q].children[j] == c;
        assert(nodes[q].children[j] == c);
    }
}

impl DomEngine {
    /// Destroys each of `roots` that is a node, with all its descendants;
    /// says whether anything was destroyed.
    pub fn destroy_nodes(&mut self, roots: &Vec<u32>) -> (r: bool)
        requires
            old(self).wf(),
        ensures
            final(self).wf(),
            is_destroyed_set(old(self)@.nodes, roots@, destroyed_set(old(self)@.nodes, roots@)),
            r == !(destroyed_set(old(self)@.nodes, roots@) == Set::<u32>::empty()),
            final(self)@ == destroyed(old(self)@, roots@),
    {
        let (gone, any) = self.collect_destroyed(roots);
        proof {
            lemma_destroyed_set_is(self@.nodes, roots@, gone@);
        }
        if !any {
            return false;
        }
        let ghost before = self@;
        let ghost old_map = self.nodes@;
        let ghost old_order = self.order@;
        proof {
            assert forall|k: u32| #[trigger] old_map.contains_key(k) <==> self.order@.contains(k) by {
                assert(old_map.contains_key(k) <==> before.nodes.contains_key(k));
            }
        }
        let n = self.order.len();
        let mut i: usize = 0;
        while i < n
            invariant
                self.order@ == old_order,
                n == self.order@.len(),
                self.order@.no_duplicates(),
                forall|k: u32| #[trigger] old_map.contains_key(k) <==> self.order@.contains(k),
                i <= n,
                forall|k: u32| #[trigger] self.nodes@.contains_key(k) <==> (old_map.contains_key(k)
                    && !(self.order@.take(i as int).contains(k) && gone@.contains(k))),
                forall|k: u32| #[trigger] self.nodes@.contains_key(k) ==> self.nodes@[k]@ == (if self.order@.take(
                    i as int,
                ).contains(k) {
                    NodeView { children: without(old_map[k]@.children, gone@), ..old_map[k]@ }
                } else {
                    old_map[k]@
                }),
                self.root == before.root,
                self.viewport == before.viewport,
                self.next_dom_id == before.next_dom_id,
                self.dirtiness == before.dirtiness,
                self.terminal_focused == before.terminal_focused,
                self.frame_invalidated == before.frame_invalidated,
            decreases n - i,
        {
            let k = self.order[i];
            let ghost prev = self.nodes@;
            proof {
                assert(self.order@.take(i as int + 1) =~= self.order@.take(i as int).push(k));
                assert(!self.order@.take(i as int).contains(k)) by {
                    if self.order@.take(i as int).contains(k) {
                        let j = choose|j: int| 0 <= j < i && self.order@.take(i as int)[j] == k;
                        assert(self.order@[j] == self.order@[i as int]);
                    }
                }
                assert(self.order@.contains(k));
            }
            proof {
                assert(prev.contains_key(k));
                assert(prev[k]@ == old_map[k]@);
            }
            if gone.contains(&k) {
                self.nodes.remove(&k);
                assert(self.nodes@ == prev.remove(k));
            } else {
                let t = self.nodes.remove(&k);
                let mut nd = t.unwrap();
                nd.children = vec_without(&nd.children, &gone);
                self.nodes.insert(k, nd);
                assert(self.nodes@ == prev.insert(k, nd));
                assert(nd@ == NodeView { children: without(old_map[k]@.children, gone@), ..old_map[k]@ });
            }
            i = i + 1;
            proof {
                assert forall|q: u32| q != k implies (#[trigger] prev.contains_key(q) <==> (old_map.contains_key(q)
                    && !(self.order@.take(i - 1).contains(q) && gone@.contains(q)))) by {}
                assert forall|q: u32| q != k && #[trigger] prev.contains_key(q) implies prev[q]@ == (if self.order@.take(
                    i - 1,
                ).contains(q) {
                    NodeView { children: without(old_map[q]@.children, gone@), ..old_map[q]@ }
                } else {
                    old_map[q]@
                }) by {}
                assert(self.order@.take(i as int) == self.order@.take(i - 1).push(k));
                assert forall|q: u32| #[trigger] self.nodes@.contains_key(q) <==> (old_map.contains_key(q)
                    && !(self.order@.take(i as int).contains(q) && gone@.contains(q))) by {
                    lemma_push_contains(self.order@.take(i - 1), k, q);
                }
                assert forall|q: u32| #[trigger] self.nodes@.contains_key(q) implies self.nodes@[q]@ == (if self.order@.take(
                    i as int,
                ).contains(q) {
                    NodeView { children: without(old_map[q]@.children, gone@), ..old_map[q]@ }
                } else {
                    old_map[q]@
                }) by {
                    lemma_push_contains(self.order@.take(i - 1), k, q);
                    if q != k {
                        assert(prev.contains_key(q));
                    }
                }
            }
        }
        proof {
            assert(self.order@.take(n as int) =~= self.order@);
            lemma_removed_consistent(before.nodes, gone@);
            assert(node_views(self.nodes@) =~= removed(before, gone@).nodes);
        }
        let kept = vec_without(&self.order, &gone);
        proof {
            lemma_without_members(self.order@, gone@);
            lemma_without_no_duplicates(self.order@, gone@);
        }
        self.order = kept;
        match self.root {
            Some(x) => {
                if gone.contains(&x) {
                    self.root = None;
                }
            },
            None => {},
        }
        match self.viewport {
            Some(x) => {
                if gone.contains(&x) {
                    self.viewport = None;
                }
            },
            None => {},
        }
        self.dirtiness = Dirtiness::Layout;
        proof {
            assert forall|k: u32| #[trigger] self.nodes@.contains_key(k) <==> self.order@.contains(k) by {
                assert(self.nodes@.contains_key(k) <==> node_views(self.nodes@).contains_key(k));
            }
        }
        true
    }

    /// Destroys `node` and its descendants.
    pub fn destroy_node(&mut self, node: u32) -> (r: bool)
        requires
            old(self).wf(),
        ensures
            final(self).wf(),
            r == old(self)@.nodes.contains_key(node),
            final(self)@ == destroyed(old(self)@, seq![node]),
    {
        let roots = vec![node];
        assert(roots@ =~= seq![node]);
        let r = self.destroy_nodes(&roots);
        proof {
            let nodes = old(self)@.nodes;
            let g = destroyed_set(nodes, seq![node]);
            if nodes.contains_key(node) {
                assert(seq![node][0] == node);
                assert(holds_roots(nodes, seq![node], g));
                assert(g.contains(seq![node][0]));
            } else {
                let e = Set::<u32>::empty();
                assert(closed_under_children(nodes, e));
                assert(holds_roots(nodes, seq![node], e));
                assert(g.subset_of(e));
                assert(g =~= e);
            }
        }
        r
    }
}


/// How much of a frame `d` says must be redone: 0 for nothing, 1 for the
/// paint, 2 for the layout too.
pub open spec fn dirt_rank(d: Dirtiness) -> int {
    match d {
        Dirtiness::Clean => 0,
        Dirtiness::Paint => 1,
        Dirtiness::Layout => 2,
    }
}

/// No DOM command makes less of the next frame dirty than it was.
pub proof fn lemma_dom_step_keeps_dirt(v: EngineView, c: RenderCommandView)
    ensures
        dirt_rank(dom_step(v, c).dirtiness) >= dirt_rank(v.dirtiness),
{
}

/// Destroying nodes leaves none of them, and no remaining node lists one
/// of them as a child.
pub proof fn lemma_destroyed_forgets(v: EngineView, roots: Seq<u32>)
    ensures
        forall|k: u32| #[trigger] destroyed(v, roots).nodes.contains_key(k) ==> !destroyed_set(
            v.nodes,
            roots,
        ).contains(k),
        forall|k: u32, i: int|
            destroyed(v, roots).nodes.contains_key(k) && 0 <= i < destroyed(v, roots).nodes[k].children.len()
                ==> !destroyed_set(v.nodes, roots).contains(#[trigger] destroyed(v, roots).nodes[k].children[i]),
{
    let r = destroyed_set(v.nodes, roots);
    if r == Set::<u32>::empty() {
    } else {
        assert forall|k: u32, i: int|
            destroyed(v, roots).nodes.contains_key(k) && 0 <= i < destroyed(v, roots).nodes[k].children.len()
                implies !r.contains(#[trigger] destroyed(v, roots).nodes[k].children[i]) by {
            lemma_without_members(v.nodes[k].children, r);
        }
    }
}

/// The DOM after one DOM command.
pub open spec fn dom_step(v: EngineView, c: RenderCommandView) -> EngineView {
    match c {
        RenderCommandView::CreateElementWithId { id, inline, styles } => created(
            v,
            id.0,
            NodeKind::Element,
            inline,
            Seq::empty(),
            styles,
        ),
        RenderCommandView::CreateTextWithId { id, text } => created(
            v,
            id.0,
            NodeKind::Text,
            false,
            text@,
            Seq::empty(),
        ),
        RenderCommandView::CreateImageWithId { id, styles } => created(
            v,
            id.0,
            NodeKind::Image,
            false,
            Seq::empty(),
            styles,
        ),
        RenderCommandView::CreateInputWithId { id, styles } => created(
            v,
            id.0,
            NodeKind::Input,
            false,
            Seq::empty(),
            styles,
        ),
        RenderCommandView::CreateTextAreaWithId { id, styles } => created(
            v,
            id.0,
            NodeKind::TextArea,
            false,
            Seq::empty(),
            styles,
        ),
        RenderCommandView::SetText { node, text } => text_set(v, node.0, text@),
        RenderCommandView::SetImageSource { node, src } => image_source_set(v, node.0, src@),
        RenderCommandView::SetInputValue { node, value, cursor } => input_value_set(
            v,
            node.0,
            value@,
            cursor,
        ),
        RenderCommandView::SetInputFocused { node, focused } => focus_set(v, node.0, focused, true),
        RenderCommandView::SetInputPlaceholder { node, placeholder } => placeholder_set(
            v,
            node.0,
            placeholder@,
            true,
        ),
        RenderCommandView::SetTextAreaValue { node, value, cursor } => textarea_value_set(
            v,
            node.0,
            value@,
            cursor,
        ),
        RenderCommandView::SetTextAreaFocused { node, focused } => focus_set(
            v,
            node.0,
            focused,
            false,
        ),
        RenderCommandView::SetTextAreaPlaceholder { node, placeholder } => placeholder_set(
            v,
            node.0,
            placeholder@,
            false,
        ),
        RenderCommandView::SetRoot { root } => if v.nodes.contains_key(root.0) {
            EngineView { root: Some(root.0), dirtiness: Dirtiness::Layout, ..v }
        } else {
            v
        },
        RenderCommandView::AppendChild { parent, child } => appended(v, parent.0, child.0),
        RenderCommandView::InsertChildBefore { parent, child, before } => inserted(
            v,
            parent.0,
            child.0,
            before.0,
        ),
        RenderCommandView::DetachNode { node } => detached(v, node.0),
        RenderCommandView::DestroyNode { node } => destroyed(v, seq![node.0]),
        RenderCommandView::MutateStyle { node, mutation } => style_mutated(v, node.0, mutation),
        RenderCommandView::SetTransition { node, transitions } => transitions_set(
            v,
            node.0,
            transitions,
        ),
    }
}

/// A DOM command the engine can apply: a created id leaves room for the
/// next id.
pub open spec fn dom_command_fits(c: RenderCommandView) -> bool {
    match c {
        RenderCommandView::CreateElementWithId { id, .. } => id.0 < u32::MAX,
        RenderCommandView::CreateTextWithId { id, .. } => id.0 < u32::MAX,
        RenderCommandView::CreateImageWithId { id, .. } => id.0 < u32::MAX,
        RenderCommandView::CreateInputWithId { id, .. } => id.0 < u32::MAX,
        RenderCommandView::CreateTextAreaWithId { id, .. } => id.0 < u32::MAX,
        _ => true,
    }
}

/// The DOM after the destroys that wait in `pending`, if any.
pub open spec fn flushed(v: EngineView, pending: Seq<u32>) -> EngineView {
    if pending.len() > 0 {
        destroyed(v, pending)
    } else {
        v
    }
}

/// The DOM after the commands `cmds` of a batch, with the destroys of
/// `pending` waiting: destroys wait until the next other command, or the
/// end of the batch, and are then applied together.
pub open spec fn batch_applied(v: EngineView, cmds: Seq<RenderCommand>, pending: Seq<u32>) -> EngineView
    decreases cmds.len(),
{
    if cmds.len() == 0 {
        flushed(v, pending)
    } else {
        match cmds[0] {
            RenderCommand::DestroyNode { node } => batch_applied(
                v,
                cmds.drop_first(),
                pending.push(node.0),
            ),
            _ => batch_applied(dom_step(flushed(v, pending), cmds[0]@), cmds.drop_first(), seq![]),
        }
    }
}

/// What the renderer knows of the terminal: its size in cells.
#[derive(Clone, Copy, Debug, PartialEq, Eq, Structural)]
pub struct EngineLoopState {
    pub width: usize,
    pub height: usize,
}

/// What handling a text selection mouse event asked for.
#[derive(Clone, Debug)]
pub enum SelectionAction {
    Unchanged,
    Redraw,
    CopyToClipboard(String),
}

/// A command to the renderer.
#[derive(Debug)]
pub enum EngineCommand {
    /// DOM commands applied in order; destroys wait for the next other
    /// command.
    Batch { commands: Vec<RenderCommand> },
    /// One DOM command.
    Dom { command: RenderCommand },
    SetViewport { viewport: DomId },
    SetRenderSize { width: usize, height: usize },
    SetTerminalFocused { focused: bool },
    InvalidateFrame,
    /// A selection mouse event was handled with this outcome.
    SelectionHandled { action: SelectionAction },
    Shutdown,
}

/// A command the engine can apply: each DOM command in it fits.
pub open spec fn command_fits(c: EngineCommand) -> bool {
    match c {
        EngineCommand::Batch { commands } => forall|i: int|
            0 <= i < commands@.len() ==> dom_command_fits(#[trigger] commands@[i]@),
        EngineCommand::Dom { command } => dom_command_fits(command@),
        _ => true,
    }
}

/// The change that makes a viewport clip what overflows it.
pub open spec fn viewport_style() -> StyleMutation {
    StyleMutation::Assign(StyleProperty::Overflow, StyleValue::Overflow(LayoutOverflow::Hidden))
}

/// The DOM after `viewport` becomes the viewport: it clips what overflows
/// it, and layout is redone.
pub open spec fn viewport_set(v: EngineView, viewport: u32) -> EngineView {
    if v.nodes.contains_key(viewport) {
        EngineView {
            nodes: v.nodes.insert(
                viewport,
                NodeView { styles: v.nodes[viewport].styles.push(viewport_style()), ..v.nodes[viewport] },
            ),
            viewport: Some(viewport),
            dirtiness: Dirtiness::Layout,
            ..v
        }
    } else {
        v
    }
}

impl DomEngine {
    /// Makes `viewport` the viewport.
    pub fn set_viewport(&mut self, viewport: u32) -> (r: bool)
        requires
            old(self).wf(),
        ensures
            final(self).wf(),
            r == old(self)@.nodes.contains_key(viewport),
            final(self)@ == viewport_set(old(self)@, viewport),
    {
        if !self.contains(viewport) {
            return false;
        }
        let ghost before = self@;
        let mut n = self.take_node(viewport);
        n.styles.push(
            StyleMutation::Assign(StyleProperty::Overflow, StyleValue::Overflow(LayoutOverflow::Hidden)),
        );
        self.put(viewport, n, Ghost(before), Dirtiness::Layout);
        proof {
            lemma_same_shape(before.nodes, viewport, n@);
        }
        self.viewport = Some(viewport);
        true
    }
}

impl DomEngine {
    /// Applies one DOM command.
    pub fn apply_dom(&mut self, c: RenderCommand)
        requires
            old(self).wf(),
            dom_command_fits(c@),
        ensures
            final(self).wf(),
            final(self)@ == dom_step(old(self)@, c@),
    {
        match c {
            RenderCommand::CreateElementWithId { id, inline, styles } => {
                self.create(id.0, NodeKind::Element, inline, String::new(), styles);
            },
            RenderCommand::CreateTextWithId { id, text } => {
                self.create(id.0, NodeKind::Text, false, text, Vec::new());
            },
            RenderCommand::CreateImageWithId { id, styles } => {
                self.create(id.0, NodeKind::Image, false, String::new(), styles);
            },
            RenderCommand::CreateInputWithId { id, styles } => {
                self.create(id.0, NodeKind::Input, false, String::new(), styles);
            },
            RenderCommand::CreateTextAreaWithId { id, styles } => {
                self.create(id.0, NodeKind::TextArea, false, String::new(), styles);
            },
            RenderCommand::SetText { node, text } => {
                self.set_text(node.0, text);
            },
            RenderCommand::SetImageSource { node, src } => {
                self.set_image_source(node.0, src);
            },
            RenderCommand::SetInputValue { node, value, cursor } => {
                self.set_input_value(node.0, value, cursor);
            },
            RenderCommand::SetInputFocused { node, focused } => {
                self.set_focused(node.0, focused, true);
            },
            RenderCommand::SetInputPlaceholder { node, placeholder } => {
                self.set_placeholder(node.0, placeholder, true);
            },
            RenderCommand::SetTextAreaValue { node, value, cursor } => {
                self.set_textarea_value(node.0, value, cursor);
            },
            RenderCommand::SetTextAreaFocused { node, focused } => {
                self.set_focused(node.0, focused, false);
            },
            RenderCommand::SetTextAreaPlaceholder { node, placeholder } => {
                self.set_placeholder(node.0, placeholder, false);
            },
            RenderCommand::SetRoot { root } => {
                self.set_root(root.0);
            },
            RenderCommand::AppendChild { parent, child } => {
                self.append_child(parent.0, child.0);
            },
            RenderCommand::InsertChildBefore { parent, child, before } => {
                self.insert_child_before(parent.0, child.0, before.0);
            },
            RenderCommand::DetachNode { node } => {
                self.detach_node(node.0);
            },
            RenderCommand::DestroyNode { node } => {
                self.destroy_node(node.0);
            },
            RenderCommand::MutateStyle { node, mutation } => {
                self.mutate_style(node.0, mutation);
            },
            RenderCommand::SetTransition { node, transitions } => {
                self.set_transition(node.0, transitions);
            },
        }
    }

    /// Applies the commands of a batch in order; destroys wait until the
    /// next other command, or the end, and are applied together.
    pub fn apply_batch(&mut self, commands: Vec<RenderCommand>)
        requires
            old(self).wf(),
            forall|i: int| 0 <= i < commands@.len() ==> dom_command_fits(#[trigger] commands@[i]@),
        ensures
            final(self).wf(),
            final(self)@ == batch_applied(old(self)@, commands@, seq![]),
    {
        let ghost all = commands@;
        let ghost start = self@;
        let mut pending: Vec<u32> = Vec::new();
        proof {
            assert(all.skip(0) =~= all);
        }
        for c in it: commands.into_iter()
            invariant
                self.wf(),
                it.seq() == all,
                forall|i: int| 0 <= i < all.len() ==> dom_command_fits(#[trigger] all[i]@),
                batch_applied(start, all, seq![]) == batch_applied(self@, all.skip(it.index() as int), pending@),
        {
            let ghost rest = all.skip(it.index() as int);
            proof {
                assert(rest[0] == c);
                assert(rest.drop_first() =~= all.skip(it.index() + 1));
            }
            match c {
                RenderCommand::DestroyNode { node } => {
                    pending.push(node.0);
                },
                other => {
                    if pending.len() > 0 {
                        self.destroy_nodes(&pending);
                        pending = Vec::new();
                    }
                    self.apply_dom(other);
                    proof {
                        assert(pending@ =~= seq![]);
                    }
                },
            }
        }
        proof {
            assert(all.skip(all.len() as int) =~= Seq::<RenderCommand>::empty());
        }
        if pending.len() > 0 {
            self.destroy_nodes(&pending);
        }
    }
}

/// Applies one command to the renderer's DOM and terminal size; says
/// whether the renderer goes on (every command but `Shutdown`).
pub fn apply_command(engine: &mut DomEngine, state: &mut EngineLoopState, command: EngineCommand) -> (r: bool)
    requires
        old(engine).wf(),
        command_fits(command),
    ensures
        final(engine).wf(),
        r == !(command is Shutdown),
        command matches EngineCommand::SetRenderSize { width, height } ==> ({
            let changed = old(state).width != width || old(state).height != height;
            &&& final(state).width == width
            &&& final(state).height == height
            &&& final(engine)@ == (if changed {
                EngineView { dirtiness: Dirtiness::Layout, ..old(engine)@ }
            } else {
                old(engine)@
            })
        }),
        !(command is SetRenderSize) ==> *final(state) == *old(state),
        command matches EngineCommand::Batch { commands } ==> final(engine)@ == batch_applied(
            old(engine)@,
            commands@,
            seq![],
        ),
        command matches EngineCommand::Dom { command } ==> final(engine)@ == dom_step(
            old(engine)@,
            command@,
        ),
        command matches EngineCommand::SetViewport { viewport } ==> final(engine)@ == viewport_set(
            old(engine)@,
            viewport.0,
        ),
        command matches EngineCommand::SetTerminalFocused { focused } ==> final(engine)@ == (if old(
            engine,
        )@.terminal_focused == focused {
            old(engine)@
        } else {
            EngineView {
                terminal_focused: focused,
                dirtiness: paint_dirtied(old(engine)@.dirtiness),
                ..old(engine)@
            }
        }),
        command is InvalidateFrame ==> final(engine)@ == (EngineView {
            frame_invalidated: true,
            dirtiness: paint_dirtied(old(engine)@.dirtiness),
            ..old(engine)@
        }),
        command matches EngineCommand::SelectionHandled { action } ==> final(engine)@ == (if action is Unchanged {
            old(engine)@
        } else {
            EngineView { dirtiness: paint_dirtied(old(engine)@.dirtiness), ..old(engine)@ }
        }),
        command is Shutdown ==> final(engine)@ == old(engine)@,
{
    match command {
        EngineCommand::Batch { commands } => {
            engine.apply_batch(commands);
        },
        EngineCommand::Dom { command } => {
            engine.apply_dom(command);
        },
        EngineCommand::SetViewport { viewport } => {
            engine.set_viewport(viewport.0);
        },
        EngineCommand::SetRenderSize { width, height } => {
            if state.width != width || state.height != height {
                state.width = width;
                state.height = height;
                engine.request_layout();
            }
        },
        EngineCommand::SetTerminalFocused { focused } => {
            engine.set_terminal_focused(focused);
        },
        EngineCommand::InvalidateFrame => {
            engine.invalidate_frame();
        },
        EngineCommand::SelectionHandled { action } => {
            match action {
                SelectionAction::Unchanged => {},
                _ => {
                    engine.request_repaint();
                },
            }
        },
        EngineCommand::Shutdown => {
            return false;
        },
    }
    true
}


/// `s` after the style change `m`, as far as the box style painting reads:
/// a border style set on all sides or one side, or reset to none; any other
/// change leaves it.
pub open spec fn border_mutated(s: DivStyle, m: StyleMutation) -> DivStyle {
    match m {
        StyleMutation::Assign(p, StyleValue::Border(b)) => match p {
            StyleProperty::Border => DivStyle {
                border_top: b,
                border_right: b,
                border_bottom: b,
                border_left: b,
            },
            StyleProperty::BorderTop => DivStyle { border_top: b, ..s },
            StyleProperty::BorderRight => DivStyle { border_right: b, ..s },
            StyleProperty::BorderBottom => DivStyle { border_bottom: b, ..s },
            StyleProperty::BorderLeft => DivStyle { border_left: b, ..s },
            _ => s,
        },
        StyleMutation::Reset(p) => match p {
            StyleProperty::Border => DivStyle {
                border_top: BorderStyle::NoBorder,
                border_right: BorderStyle::NoBorder,
                border_bottom: BorderStyle::NoBorder,
                border_left: BorderStyle::NoBorder,
            },
            StyleProperty::BorderTop => DivStyle { border_top: BorderStyle::NoBorder, ..s },
            StyleProperty::BorderRight => DivStyle { border_right: BorderStyle::NoBorder, ..s },
            StyleProperty::BorderBottom => DivStyle { border_bottom: BorderStyle::NoBorder, ..s },
            StyleProperty::BorderLeft => DivStyle { border_left: BorderStyle::NoBorder, ..s },
            _ => s,
        },
        _ => s,
    }
}

/// The box style after the style changes `styles`, in order, from the
/// default.
pub open spec fn div_style_of(styles: Seq<StyleMutation>) -> DivStyle
    decreases styles.len(),
{
    if styles.len() == 0 {
        DivStyle {
            border_top: BorderStyle::NoBorder,
            border_right: BorderStyle::NoBorder,
            border_bottom: BorderStyle::NoBorder,
            border_left: BorderStyle::NoBorder,
        }
    } else {
        border_mutated(div_style_of(styles.drop_last()), styles.last())
    }
}

/// Makes the style change `m` to the box style `style`.
pub fn apply_style_mutation(style: &mut DivStyle, m: &StyleMutation)
    ensures
        *final(style) == border_mutated(*old(style), *m),
{
    match m {
        StyleMutation::Assign(p, StyleValue::Border(b)) => {
            let b = *b;
            match p {
                StyleProperty::Border => {
                    style.border_top = b;
                    style.border_right = b;
                    style.border_bottom = b;
                    style.border_left = b;
                },
                StyleProperty::BorderTop => style.border_top = b,
                StyleProperty::BorderRight => style.border_right = b,
                StyleProperty::BorderBottom => style.border_bottom = b,
                StyleProperty::BorderLeft => style.border_left = b,
                _ => {},
            }
        },
        StyleMutation::Reset(p) => {
            match p {
                StyleProperty::Border => {
                    style.border_top = BorderStyle::NoBorder;
                    style.border_right = BorderStyle::NoBorder;
                    style.border_bottom = BorderStyle::NoBorder;
                    style.border_left = BorderStyle::NoBorder;
                },
                StyleProperty::BorderTop => style.border_top = BorderStyle::NoBorder,
                StyleProperty::BorderRight => style.border_right = BorderStyle::NoBorder,
                StyleProperty::BorderBottom => style.border_bottom = BorderStyle::NoBorder,
                StyleProperty::BorderLeft => style.border_left = BorderStyle::NoBorder,
                _ => {},
            }
        },
        _ => {},
    }
}

impl DomEngine {
    /// Which style change last set each field of node `id`'s style.
    pub fn style_record(&self, id: u32) -> (r: Option<StyleRecord>)
        ensures
            self@.nodes.contains_key(id) ==> (r matches Some(s) && s@ == record_of(
                self@.nodes[id].styles,
            )),
            !self@.nodes.contains_key(id) ==> r is None,
    {
        match self.nodes.get(&id) {
            Some(n) => Some(style_record(&n.styles)),
            None => None,
        }
    }

    /// The box style of node `id`, from its style changes.
    pub fn div_style(&self, id: u32) -> (r: Option<DivStyle>)
        ensures
            self@.nodes.contains_key(id) ==> r == Some(div_style_of(self@.nodes[id].styles)),
            !self@.nodes.contains_key(id) ==> r is None,
    {
        let n = match self.nodes.get(&id) {
            Some(n) => n,
            None => return None,
        };
        let mut style = DivStyle {
            border_top: BorderStyle::NoBorder,
            border_right: BorderStyle::NoBorder,
            border_bottom: BorderStyle::NoBorder,
            border_left: BorderStyle::NoBorder,
        };
        let mut i: usize = 0;
        while i < n.styles.len()
            invariant
                i <= n.styles.len(),
                style == div_style_of(n.styles@.take(i as int)),
            decreases n.styles.len() - i,
        {
            proof {
                assert(n.styles@.take(i as int + 1).drop_last() =~= n.styles@.take(i as int));
            }
            apply_style_mutation(&mut style, &n.styles[i]);
            i = i + 1;
        }
        proof {
            assert(n.styles@.take(i as int) =~= n.styles@);
        }
        Some(style)
    }
}

} // verus!
