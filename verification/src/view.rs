//! The arrangement of views inside a window: a tree whose leaves show
//! buffers and whose inner nodes split their area among their children.

use crate::auth::{fresh_uuid, is_uuid_text};
use crate::launcher::optional_text;
use vstd::prelude::*;
use vstd::string::*;

verus! {

/// The direction in which a node lays out its children.
#[derive(Debug, Clone, Copy, PartialEq, Eq, Structural)]
pub enum SplitDirection {
    /// Side by side.
    Horizontal,
    /// One above the other.
    Vertical,
}

/// How much room a child gets.
#[derive(Debug, Clone, Copy, PartialEq, Eq, Structural)]
pub enum LayoutSize {
    /// This many pixels.
    Fixed(u32),
    /// Whatever is left.
    Stretch,
}

/// A node of the view tree.
#[derive(Debug)]
pub enum ViewNode {
    /// A view, and the buffer it shows.
    Leaf { id: String, buffer_id: Option<String> },
    /// A split of the area among children.
    Parent { direction: SplitDirection, children: Vec<ViewNode>, sizes: Vec<LayoutSize> },
    /// A node with nothing in it, as a tree that was sent over may hold.
    Empty,
}

/// A `ViewNode` as mathematical values.
pub enum ViewNodeView {
    Leaf { id: Seq<char>, buffer_id: Option<Seq<char>> },
    Parent { direction: SplitDirection, children: Seq<ViewNodeView>, sizes: Seq<LayoutSize> },
    Empty,
}

/// What a node holds, as mathematical values.
pub open spec fn node_view(node: ViewNode) -> ViewNodeView
    decreases node,
{
    match node {
        ViewNode::Leaf { id, buffer_id } => ViewNodeView::Leaf {
            id: id@,
            buffer_id: optional_text(buffer_id),
        },
        ViewNode::Parent { direction, children, sizes } => ViewNodeView::Parent {
            direction,
            children: Seq::new(
                children@.len(),
                |i: int|
                    if 0 <= i < children@.len() {
                        node_view(children@[i])
                    } else {
                        ViewNodeView::Empty
                    },
            ),
            sizes: sizes@,
        },
        ViewNode::Empty => ViewNodeView::Empty,
    }
}

impl View for ViewNode {
    type V = ViewNodeView;

    open spec fn view(&self) -> ViewNodeView {
        node_view(*self)
    }
}

impl Clone for ViewNode {
    /// A second tree that holds the same.
    fn clone(&self) -> (copy: Self)
        ensures
            copy@ == self@,
        decreases self,
    {
        match self {
            ViewNode::Leaf { id, buffer_id } => {
                let buffer = match buffer_id {
                    Some(b) => Some(b.clone()),
                    None => None,
                };
                ViewNode::Leaf { id: id.clone(), buffer_id: buffer }
            },
            ViewNode::Parent { direction, children, sizes } => {
                let mut copies: Vec<ViewNode> = Vec::new();
                let n = children.len();
                let mut i: usize = 0;
                while i < n
                    invariant
                        i <= n,
                        n == children@.len(),
                        copies@.len() == i,
                        *self matches ViewNode::Parent { children: c, .. } && c == children,
                        forall|k: int| 0 <= k < i ==> (#[trigger] copies@[k])@ == children@[k]@,
                    decreases n - i,
                {
                    copies.push(children[i].clone());
                    i = i + 1;
                }
                let mut kept: Vec<LayoutSize> = Vec::new();
                let m = sizes.len();
                let mut j: usize = 0;
                while j < m
                    invariant
                        j <= m,
                        m == sizes@.len(),
                        kept@ == sizes@.take(j as int),
                    decreases m - j,
                {
                    kept.push(sizes[j]);
                    assert(kept@ =~= sizes@.take(j + 1));
                    j = j + 1;
                }
                assert(sizes@.take(m as int) =~= sizes@);
                let copy = ViewNode::Parent { direction: *direction, children: copies, sizes: kept };
                assert(copy@ == self@) by {
                    let a = copy@->Parent_children;
                    let b = self@->Parent_children;
                    assert(a =~= b);
                }
                copy
            },
            ViewNode::Empty => ViewNode::Empty,
        }
    }
}

/// The view tree of one window, and the view that has the focus.
#[derive(Debug)]
pub struct ViewTree {
    pub root: ViewNode,
    pub active_view_id: Option<String>,
}

impl ViewTree {
    /// The tree is a single view `id` that shows no buffer and has the focus.
    pub open spec fn is_single_view(&self, id: Seq<char>) -> bool {
        &&& self.root matches ViewNode::Leaf { id: leaf, buffer_id }
        &&& leaf@ == id
        &&& buffer_id is None
        &&& self.active_view_id matches Some(active)
        &&& active@ == id
    }

    /// The tree of a new window whose only view is `id`.
    pub fn with_initial_view(id: String) -> (tree: Self)
        ensures
            tree.is_single_view(id@),
    {
        let active = id.clone();
        ViewTree { root: ViewNode::Leaf { id, buffer_id: None }, active_view_id: Some(active) }
    }

    /// The tree of a new window: a single view under a fresh identifier,
    /// which shows no buffer and has the focus.
    pub fn new() -> (tree: Self)
        ensures
            exists|id: Seq<char>| is_uuid_text(id) && #[trigger] tree.is_single_view(id),
    {
        let id = fresh_uuid();
        let ghost text = id@;
        let tree = Self::with_initial_view(id);
        assert(tree.is_single_view(text));
        tree
    }
}

impl Default for ViewTree {
    fn default() -> (tree: Self)
        ensures
            exists|id: Seq<char>| is_uuid_text(id) && #[trigger] tree.is_single_view(id),
    {
        ViewTree::new()
    }
}

// ---------------------------------------------------------------------------
// Rendering
// ---------------------------------------------------------------------------

/// What a view tree looks like on screen, as a description that a window
/// toolkit can draw. Every widget fills the room it is given.
#[derive(Debug)]
pub enum Widget {
    /// A box with text, and this much room around the text.
    Panel { text: String, padding: u16 },
    /// Widgets side by side, this far apart.
    Row { children: Vec<Widget>, spacing: u16 },
    /// Widgets one above the other, this far apart.
    Column { children: Vec<Widget>, spacing: u16 },
}

/// The room around the text of a view.
pub const LEAF_PADDING: u16 = 10;

/// The room between the children of a split.
pub const SPLIT_SPACING: u16 = 2;

/// The text shown in place of a node with nothing in it.
pub open spec fn empty_text() -> Seq<char> {
    "Empty Layout"@
}

/// How the standard library writes an optional string for debugging.
pub uninterp spec fn debug_text(value: Option<Seq<char>>) -> Seq<char>;

/// Trusted: formats `value` with `{:?}`, that is with
/// `<Option<String> as core::fmt::Debug>::fmt`. The text depends on the value
/// alone.
#[verifier::external_body]
fn format_debug(value: &Option<String>) -> (s: String)
    ensures
        s@ == debug_text(optional_text(*value)),
{
    format!("{:?}", value)
}

/// The text shown for the view `id` that shows `buffer_id`.
pub open spec fn leaf_text(id: Seq<char>, buffer_id: Option<Seq<char>>) -> Seq<char> {
    "View ID: "@ + id + "\nBuffer: "@ + debug_text(buffer_id)
}

/// `widget` is the picture of `node`: a leaf is a padded panel with the
/// view's identifier and buffer, a horizontal split is a row and a vertical
/// split a column of the pictures of its children, in order, and a node with
/// nothing in it is a bare panel that says so.
pub open spec fn renders(node: ViewNode, widget: Widget) -> bool
    decreases node,
{
    match node {
        ViewNode::Leaf { id, buffer_id } => {
            &&& widget matches Widget::Panel { text, padding }
            &&& text@ == leaf_text(id@, optional_text(buffer_id))
            &&& padding == LEAF_PADDING
        },
        ViewNode::Parent { direction, children, sizes } => {
            let drawn = match widget {
                Widget::Row { children: drawn, spacing } => Some((drawn, spacing)),
                Widget::Column { children: drawn, spacing } => Some((drawn, spacing)),
                Widget::Panel { .. } => None,
            };
            &&& (direction == SplitDirection::Horizontal ==> widget is Row)
            &&& (direction == SplitDirection::Vertical ==> widget is Column)
            &&& drawn matches Some((drawn, spacing))
            &&& spacing == SPLIT_SPACING
            &&& drawn@.len() == children@.len()
            &&& forall|i: int|
                0 <= i < children@.len() ==> renders(children@[i], #[trigger] drawn@[i])
        },
        ViewNode::Empty => {
            &&& widget matches Widget::Panel { text, padding }
            &&& text@ == empty_text()
            &&& padding == 0
        },
    }
}

/// Draws a view tree.
pub fn render_view_tree(node: &ViewNode) -> (widget: Widget)
    ensures
        renders(*node, widget),
    decreases node,
{
    match node {
        ViewNode::Leaf { id, buffer_id } => {
            let mut text = String::from_str("View ID: ");
            text.append(id.as_str());
            text.append("\nBuffer: ");
            let buffer = format_debug(buffer_id);
            text.append(buffer.as_str());
            Widget::Panel { text, padding: LEAF_PADDING }
        },
        ViewNode::Parent { direction, children, sizes: _ } => {
            let mut drawn: Vec<Widget> = Vec::new();
            let n = children.len();
            let mut i: usize = 0;
            while i < n
                invariant
                    i <= n,
                    n == children@.len(),
                    drawn@.len() == i,
                    *node matches ViewNode::Parent { children: c, .. } && c == children,
                    forall|k: int| 0 <= k < i ==> renders(children@[k], #[trigger] drawn@[k]),
                decreases n - i,
            {
                let child = render_view_tree(&children[i]);
                drawn.push(child);
                i = i + 1;
            }
            match direction {
                SplitDirection::Horizontal => Widget::Row { children: drawn, spacing: SPLIT_SPACING },
                SplitDirection::Vertical => Widget::Column {
                    children: drawn,
                    spacing: SPLIT_SPACING,
                },
            }
        },
        ViewNode::Empty => Widget::Panel { text: String::from_str("Empty Layout"), padding: 0 },
    }
}

} // verus!
