//! Rendering a syntax tree as a tree of view nodes.
//!
//! Rendering reads the tree and nothing else. A list item with a checkbox
//! becomes a control that knows its document and its line, so that a change
//! of the control can be sent as a request of its own.

use crate::syntax::{gfm_tree, parse_gfm, trees_of, SyntaxNode, SyntaxTree};
use crate::update_server::{ArgsView, UpdateCheckboxStatusArgs};
use vstd::prelude::*;
use vstd::string::StringExecFns;

verus! {

/// The lowest rank of a heading in the view.
pub const MAX_HEADING_LEVEL: u8 = 6;

/// The checkbox of a list item in the view.
#[derive(Debug, PartialEq, Eq)]
pub struct Checkbox {
    checked: bool,
    file_path: String,
    line_number: Option<usize>,
}

/// A checkbox as plain values.
pub struct CheckboxView {
    pub checked: bool,
    pub file_path: Seq<char>,
    pub line_number: Option<nat>,
}

impl View for Checkbox {
    type V = CheckboxView;

    closed spec fn view(&self) -> CheckboxView {
        CheckboxView {
            checked: self.checked,
            file_path: self.file_path@,
            line_number: match self.line_number {
                Some(n) => Some(n as nat),
                None => None,
            },
        }
    }
}

impl CheckboxView {
    /// The request that the checkbox sends when it is put in the state
    /// `is_checked`; none where the line of the item is not known.
    pub open spec fn request(self, is_checked: bool) -> Option<ArgsView> {
        match self.line_number {
            Some(line_number) => Some(
                ArgsView { file_path: self.file_path, line_number, is_checked },
            ),
            None => None,
        }
    }
}

impl Checkbox {
    /// The checkbox of the item on line `line_number` of `file_path`.
    pub fn new(checked: bool, file_path: String, line_number: Option<usize>) -> (checkbox: Self)
        ensures
            checkbox@ == (CheckboxView {
                checked,
                file_path: file_path@,
                line_number: match line_number {
                    Some(n) => Some(n as nat),
                    None => None,
                },
            }),
    {
        Checkbox { checked, file_path, line_number }
    }

    /// Whether the box is shown as checked.
    pub fn checked(&self) -> (checked: bool)
        ensures
            checked == self@.checked,
    {
        self.checked
    }

    /// The document of the item.
    pub fn file_path(&self) -> (path: &str)
        ensures
            path@ == self@.file_path,
    {
        self.file_path.as_str()
    }

    /// The line of the item, counted from one, where it is known.
    pub fn line_number(&self) -> (line: Option<usize>)
        ensures
            match line {
                Some(n) => self@.line_number == Some(n as nat),
                None => self@.line_number is None,
            },
    {
        self.line_number
    }

    /// The request to send when the control has been put in the state
    /// `is_checked`. It names that state, not a change of state.
    pub fn on_change(&self, is_checked: bool) -> (request: Option<UpdateCheckboxStatusArgs>)
        ensures
            match self@.request(is_checked) {
                Some(args) => request is Some && request->0@ == args,
                None => request is None,
            },
    {
        match self.line_number {
            Some(line_number) => Some(
                UpdateCheckboxStatusArgs::new(
                    String::from_str(self.file_path.as_str()),
                    line_number,
                    is_checked,
                ),
            ),
            None => None,
        }
    }

    /// The request that a click on the control sends: the opposite of the
    /// state shown.
    pub fn toggle(&self) -> (request: Option<UpdateCheckboxStatusArgs>)
        ensures
            match self@.request(!self@.checked) {
                Some(args) => request is Some && request->0@ == args,
                None => request is None,
            },
    {
        self.on_change(!self.checked)
    }
}

/// A node of the view.
#[derive(Debug, PartialEq, Eq)]
pub enum ViewNode {
    /// Nodes in a row, with nothing around them.
    Fragment(Vec<ViewNode>),
    /// A paragraph.
    Paragraph(Vec<ViewNode>),
    /// A heading of rank `level`, one to six.
    Heading { level: u8, text: String },
    /// A list, numbered or not.
    List { ordered: bool, items: Vec<ViewNode> },
    /// An item of a list, with its checkbox where it has one.
    ListItem { checkbox: Option<Checkbox>, children: Vec<ViewNode> },
    /// Literal text.
    Text(String),
    /// Nothing.
    Empty,
}

/// A view as plain values.
pub enum ViewTree {
    Fragment(Seq<ViewTree>),
    Paragraph(Seq<ViewTree>),
    Heading { level: u8, text: Seq<char> },
    List { ordered: bool, items: Seq<ViewTree> },
    ListItem { checkbox: Option<CheckboxView>, children: Seq<ViewTree> },
    Text(Seq<char>),
    Empty,
}

/// The view that `node` stands for.
pub open spec fn view_of(node: ViewNode) -> ViewTree
    decreases node,
{
    match node {
        ViewNode::Fragment(children) => ViewTree::Fragment(views_of(children@)),
        ViewNode::Paragraph(children) => ViewTree::Paragraph(views_of(children@)),
        ViewNode::Heading { level, text } => ViewTree::Heading { level, text: text@ },
        ViewNode::List { ordered, items } => ViewTree::List { ordered, items: views_of(items@) },
        ViewNode::ListItem { checkbox, children } => ViewTree::ListItem {
            checkbox: match checkbox {
                Some(c) => Some(c@),
                None => None,
            },
            children: views_of(children@),
        },
        ViewNode::Text(value) => ViewTree::Text(value@),
        ViewNode::Empty => ViewTree::Empty,
    }
}

/// The views that `nodes` stand for, in order.
pub open spec fn views_of(nodes: Seq<ViewNode>) -> Seq<ViewTree>
    decreases nodes,
{
    if nodes.len() == 0 {
        Seq::empty()
    } else {
        views_of(nodes.drop_last()).push(view_of(nodes.last()))
    }
}

impl View for ViewNode {
    type V = ViewTree;

    open spec fn view(&self) -> ViewTree {
        view_of(*self)
    }
}

/// The rank at which a heading of rank `depth` is shown: `depth` itself from
/// one to six, and the nearest of the two outside.
pub open spec fn heading_level(depth: u8) -> u8 {
    if depth < 1 {
        1
    } else if depth > MAX_HEADING_LEVEL {
        MAX_HEADING_LEVEL
    } else {
        depth
    }
}

/// The text that `node` holds itself: its value for a text node, nothing for
/// any other.
pub open spec fn own_text(node: SyntaxTree) -> Seq<char> {
    match node {
        SyntaxTree::Text(value) => value,
        _ => Seq::empty(),
    }
}

/// The text of the text nodes among `children`, in order. What lies deeper
/// is not looked at.
pub open spec fn direct_text(children: Seq<SyntaxTree>) -> Seq<char>
    decreases children.len(),
{
    if children.len() == 0 {
        Seq::empty()
    } else {
        direct_text(children.drop_last()) + own_text(children.last())
    }
}

/// The view of a syntax tree of the document `file_path`.
pub open spec fn render(node: SyntaxTree, file_path: Seq<char>) -> ViewTree
    decreases node,
{
    match node {
        SyntaxTree::Root(children) => ViewTree::Fragment(render_all(children, file_path)),
        SyntaxTree::Paragraph(children) => ViewTree::Paragraph(render_all(children, file_path)),
        SyntaxTree::Heading { depth, children } => ViewTree::Heading {
            level: heading_level(depth),
            text: direct_text(children),
        },
        SyntaxTree::List { ordered, children } => ViewTree::List {
            ordered,
            items: render_all(children, file_path),
        },
        SyntaxTree::ListItem { checked, line, children } => ViewTree::ListItem {
            checkbox: match checked {
                Some(state) => Some(CheckboxView { checked: state, file_path, line_number: line }),
                None => None,
            },
            children: render_all(children, file_path),
        },
        SyntaxTree::Text(value) => ViewTree::Text(value),
        SyntaxTree::Other => ViewTree::Empty,
    }
}

/// The views of `nodes`, one for each and in the same order.
pub open spec fn render_all(nodes: Seq<SyntaxTree>, file_path: Seq<char>) -> Seq<ViewTree>
    decreases nodes,
{
    if nodes.len() == 0 {
        Seq::empty()
    } else {
        render_all(nodes.drop_last(), file_path).push(render(nodes.last(), file_path))
    }
}

/// A heading is shown at a rank from one to six: at its own where that lies
/// in this range, and at the sixth where its own is lower still.
pub proof fn law_heading_level(depth: u8)
    ensures
        1 <= heading_level(depth) <= MAX_HEADING_LEVEL,
        1 <= depth <= MAX_HEADING_LEVEL ==> heading_level(depth) == depth,
        depth > MAX_HEADING_LEVEL ==> heading_level(depth) == MAX_HEADING_LEVEL,
{
}

/// Rendering keeps the number and the order of the nodes.
pub proof fn law_render_keeps_order(nodes: Seq<SyntaxTree>, file_path: Seq<char>)
    ensures
        render_all(nodes, file_path).len() == nodes.len(),
        forall|i: int|
            0 <= i < nodes.len() ==> (#[trigger] render_all(nodes, file_path)[i]) == render(
                nodes[i],
                file_path,
            ),
    decreases nodes.len(),
{
    if nodes.len() > 0 {
        law_render_keeps_order(nodes.drop_last(), file_path);
    }
}

/// `node` with every checkbox of an item that begins on line `line` put in
/// the state `checked`.
pub open spec fn tree_with_state(node: SyntaxTree, line: nat, checked: bool) -> SyntaxTree
    decreases node,
{
    match node {
        SyntaxTree::Root(children) => SyntaxTree::Root(trees_with_state(children, line, checked)),
        SyntaxTree::Paragraph(children) => SyntaxTree::Paragraph(
            trees_with_state(children, line, checked),
        ),
        SyntaxTree::Heading { depth, children } => SyntaxTree::Heading {
            depth,
            children: trees_with_state(children, line, checked),
        },
        SyntaxTree::List { ordered, children } => SyntaxTree::List {
            ordered,
            children: trees_with_state(children, line, checked),
        },
        SyntaxTree::ListItem { checked: state, line: at, children } => SyntaxTree::ListItem {
            checked: if state is Some && at == Some(line) {
                Some(checked)
            } else {
                state
            },
            line: at,
            children: trees_with_state(children, line, checked),
        },
        SyntaxTree::Text(_) => node,
        SyntaxTree::Other => node,
    }
}

/// `nodes`, each changed as by `tree_with_state`.
pub open spec fn trees_with_state(nodes: Seq<SyntaxTree>, line: nat, checked: bool) -> Seq<
    SyntaxTree,
>
    decreases nodes,
{
    if nodes.len() == 0 {
        Seq::empty()
    } else {
        trees_with_state(nodes.drop_last(), line, checked).push(
            tree_with_state(nodes.last(), line, checked),
        )
    }
}

/// `view` with every checkbox that is bound to line `line` shown in the
/// state `checked`.
pub open spec fn view_with_state(view: ViewTree, line: nat, checked: bool) -> ViewTree
    decreases view,
{
    match view {
        ViewTree::Fragment(children) => ViewTree::Fragment(
            views_with_state(children, line, checked),
        ),
        ViewTree::Paragraph(children) => ViewTree::Paragraph(
            views_with_state(children, line, checked),
        ),
        ViewTree::List { ordered, items } => ViewTree::List {
            ordered,
            items: views_with_state(items, line, checked),
        },
        ViewTree::ListItem { checkbox, children } => ViewTree::ListItem {
            checkbox: match checkbox {
                Some(c) => Some(
                    if c.line_number == Some(line) {
                        CheckboxView { checked, file_path: c.file_path, line_number: c.line_number }
                    } else {
                        c
                    },
                ),
                None => None,
            },
            children: views_with_state(children, line, checked),
        },
        ViewTree::Heading { .. } => view,
        ViewTree::Text(_) => view,
        ViewTree::Empty => view,
    }
}

/// `views`, each changed as by `view_with_state`.
pub open spec fn views_with_state(views: Seq<ViewTree>, line: nat, checked: bool) -> Seq<ViewTree>
    decreases views,
{
    if views.len() == 0 {
        Seq::empty()
    } else {
        views_with_state(views.drop_last(), line, checked).push(
            view_with_state(views.last(), line, checked),
        )
    }
}

proof fn lemma_own_text_with_state(node: SyntaxTree, line: nat, checked: bool)
    ensures
        own_text(tree_with_state(node, line, checked)) == own_text(node),
{
}

proof fn lemma_direct_text_with_state(children: Seq<SyntaxTree>, line: nat, checked: bool)
    ensures
        direct_text(trees_with_state(children, line, checked)) == direct_text(children),
        trees_with_state(children, line, checked).len() == children.len(),
    decreases children.len(),
{
    if children.len() > 0 {
        lemma_direct_text_with_state(children.drop_last(), line, checked);
        let changed = trees_with_state(children, line, checked);
        assert(changed.drop_last() == trees_with_state(children.drop_last(), line, checked));
        lemma_own_text_with_state(children.last(), line, checked);
    }
}

/// Where the items of one line have another state in the tree, the checkboxes
/// of that line have that state in the view, and the view is otherwise the
/// same.
pub proof fn law_render_with_state(
    node: SyntaxTree,
    file_path: Seq<char>,
    line: nat,
    checked: bool,
)
    ensures
        render(tree_with_state(node, line, checked), file_path) == view_with_state(
            render(node, file_path),
            line,
            checked,
        ),
    decreases node,
{
    match node {
        SyntaxTree::Root(children) => law_render_all_with_state(
            children,
            file_path,
            line,
            checked,
        ),
        SyntaxTree::Paragraph(children) => law_render_all_with_state(
            children,
            file_path,
            line,
            checked,
        ),
        SyntaxTree::Heading { children, .. } => lemma_direct_text_with_state(
            children,
            line,
            checked,
        ),
        SyntaxTree::List { children, .. } => law_render_all_with_state(
            children,
            file_path,
            line,
            checked,
        ),
        SyntaxTree::ListItem { children, .. } => law_render_all_with_state(
            children,
            file_path,
            line,
            checked,
        ),
        SyntaxTree::Text(_) => {},
        SyntaxTree::Other => {},
    }
}

/// The same of a row of nodes.
pub proof fn law_render_all_with_state(
    nodes: Seq<SyntaxTree>,
    file_path: Seq<char>,
    line: nat,
    checked: bool,
)
    ensures
        render_all(trees_with_state(nodes, line, checked), file_path) == views_with_state(
            render_all(nodes, file_path),
            line,
            checked,
        ),
    decreases nodes,
{
    if nodes.len() > 0 {
        law_render_all_with_state(nodes.drop_last(), file_path, line, checked);
        law_render_with_state(nodes.last(), file_path, line, checked);
        let changed = trees_with_state(nodes, line, checked);
        let views = render_all(nodes, file_path);
        assert(changed.drop_last() == trees_with_state(nodes.drop_last(), line, checked));
        assert(views.drop_last() == render_all(nodes.drop_last(), file_path));
    }
}

/// The text of the text nodes among `children`, in order.
pub fn get_text_from_children(children: &Vec<SyntaxNode>) -> (text: String)
    ensures
        text@ == direct_text(trees_of(children@)),
{
    let mut text = String::new();
    let mut i: usize = 0;
    while i < children.len()
        invariant
            i <= children.len(),
            text@ == direct_text(trees_of(children@.take(i as int))),
        decreases children.len() - i,
    {
        proof {
            let upto = children@.take(i + 1);
            assert(upto.drop_last() == children@.take(i as int));
            assert(trees_of(upto).drop_last() == trees_of(upto.drop_last()));
            assert(trees_of(upto).last() == children@[i as int]@);
        }
        if let SyntaxNode::Text(value) = &children[i] {
            text.append(value.as_str());
        }
        i = i + 1;
    }
    assert(children@.take(children@.len() as int) == children@);
    text
}

/// Renders syntax trees.
pub struct MarkdownRenderer;

impl MarkdownRenderer {
    /// Renders `node`, a node of the syntax tree of the document `file_path`.
    ///
    /// The root, paragraphs and lists render their children in order. A
    /// heading shows the text of its own text nodes. A list item with a
    /// checkbox gets a control for it. Text is taken as it is, and every
    /// other construct renders as nothing.
    pub fn render_node(&self, node: &SyntaxNode, file_path: &str) -> (view: ViewNode)
        ensures
            view@ == render(node@, file_path@),
        decreases node,
    {
        match node {
            SyntaxNode::Root(children) => ViewNode::Fragment(
                self.render_children(children, file_path),
            ),
            SyntaxNode::Paragraph(children) => ViewNode::Paragraph(
                self.render_children(children, file_path),
            ),
            SyntaxNode::Heading { depth, children } => {
                let level: u8 = if *depth < 1 {
                    1
                } else if *depth > MAX_HEADING_LEVEL {
                    MAX_HEADING_LEVEL
                } else {
                    *depth
                };
                ViewNode::Heading { level, text: get_text_from_children(children) }
            },
            SyntaxNode::List { ordered, children } => ViewNode::List {
                ordered: *ordered,
                items: self.render_children(children, file_path),
            },
            SyntaxNode::ListItem { checked, line, children } => {
                let checkbox = match checked {
                    Some(state) => Some(Checkbox::new(*state, String::from_str(file_path), *line)),
                    None => None,
                };
                ViewNode::ListItem { checkbox, children: self.render_children(children, file_path) }
            },
            SyntaxNode::Text(value) => ViewNode::Text(String::from_str(value.as_str())),
            SyntaxNode::Other => ViewNode::Empty,
        }
    }

    fn render_children(&self, children: &Vec<SyntaxNode>, file_path: &str) -> (views: Vec<
        ViewNode,
    >)
        ensures
            views_of(views@) == render_all(trees_of(children@), file_path@),
        decreases children,
    {
        let mut views: Vec<ViewNode> = Vec::new();
        let mut i: usize = 0;
        while i < children.len()
            invariant
                i <= children.len(),
                views_of(views@) == render_all(trees_of(children@.take(i as int)), file_path@),
            decreases children.len() - i,
        {
            let view = self.render_node(&children[i], file_path);
            proof {
                let upto = children@.take(i + 1);
                assert(upto.drop_last() == children@.take(i as int));
                assert(trees_of(upto).drop_last() == trees_of(upto.drop_last()));
                assert(views@.push(view).drop_last() == views@);
            }
            views.push(view);
            i = i + 1;
        }
        assert(children@.take(children@.len() as int) == children@);
        views
    }

    /// Parses the markdown text `content` of the document `file_path` and
    /// renders its syntax tree. Where the parser refuses the text, its
    /// message comes back.
    pub fn render_document(&self, content: &str, file_path: &str) -> (rendered: Result<
        ViewNode,
        String,
    >)
        ensures
            match gfm_tree(content@) {
                Ok(tree) => rendered is Ok && rendered->Ok_0@ == render(tree, file_path@),
                Err(message) => rendered is Err && rendered->Err_0@ == message,
            },
    {
        match parse_gfm(content) {
            Ok(node) => Ok(self.render_node(&node, file_path)),
            Err(message) => Err(message),
        }
    }
}

} // verus!
