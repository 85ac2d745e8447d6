//! The syntax tree of a markdown document, as far as rendering reads it.

use markdown::mdast::Node;
use vstd::prelude::*;

verus! {

/// A node of the syntax tree of a document.
#[derive(Debug, PartialEq, Eq)]
pub enum SyntaxNode {
    /// The whole document.
    Root(Vec<SyntaxNode>),
    /// A paragraph.
    Paragraph(Vec<SyntaxNode>),
    /// A heading of the given rank.
    Heading { depth: u8, children: Vec<SyntaxNode> },
    /// A list, numbered or not.
    List { ordered: bool, children: Vec<SyntaxNode> },
    /// An item of a list. `checked` tells the state of its checkbox, where it
    /// has one; `line` is the line of the document on which the item begins,
    /// counted from one.
    ListItem { checked: Option<bool>, line: Option<usize>, children: Vec<SyntaxNode> },
    /// Literal text.
    Text(String),
    /// Any other construct.
    Other,
}

/// A syntax tree as plain values.
pub enum SyntaxTree {
    Root(Seq<SyntaxTree>),
    Paragraph(Seq<SyntaxTree>),
    Heading { depth: u8, children: Seq<SyntaxTree> },
    List { ordered: bool, children: Seq<SyntaxTree> },
    ListItem { checked: Option<bool>, line: Option<nat>, children: Seq<SyntaxTree> },
    Text(Seq<char>),
    Other,
}

/// The tree that `node` stands for.
pub open spec fn tree_of(node: SyntaxNode) -> SyntaxTree
    decreases node,
{
    match node {
        SyntaxNode::Root(children) => SyntaxTree::Root(trees_of(children@)),
        SyntaxNode::Paragraph(children) => SyntaxTree::Paragraph(trees_of(children@)),
        SyntaxNode::Heading { depth, children } => SyntaxTree::Heading {
            depth,
            children: trees_of(children@),
        },
        SyntaxNode::List { ordered, children } => SyntaxTree::List {
            ordered,
            children: trees_of(children@),
        },
        SyntaxNode::ListItem { checked, line, children } => SyntaxTree::ListItem {
            checked,
            line: match line {
                Some(n) => Some(n as nat),
                None => None,
            },
            children: trees_of(children@),
        },
        SyntaxNode::Text(value) => SyntaxTree::Text(value@),
        SyntaxNode::Other => SyntaxTree::Other,
    }
}

/// The trees that `nodes` stand for, in order.
pub open spec fn trees_of(nodes: Seq<SyntaxNode>) -> Seq<SyntaxTree>
    decreases nodes,
{
    if nodes.len() == 0 {
        Seq::empty()
    } else {
        trees_of(nodes.drop_last()).push(tree_of(nodes.last()))
    }
}

impl View for SyntaxNode {
    type V = SyntaxTree;

    open spec fn view(&self) -> SyntaxTree {
        tree_of(*self)
    }
}

/// `markdown::mdast::Node`, a node as the parser makes it. Proofs see
/// nothing of what it holds.
#[verifier::external_type_specification]
#[verifier::external_body]
pub struct ExNode(Node);

/// What `markdown::to_mdast` makes of a text under the options of
/// `markdown::ParseOptions::gfm`: the syntax tree, or the message of the
/// parser's complaint. Nothing is assumed of it but that it is the same for
/// the same text.
pub uninterp spec fn gfm_tree(content: Seq<char>) -> Result<SyntaxTree, Seq<char>>;

/// Copies a node of `markdown::mdast` and, through `Node::children`, the
/// nodes below it. The constructs that rendering knows keep the fields it
/// reads, the line being the one where `Node::position` starts; every other
/// construct becomes `Other`. Not verified; nothing is claimed of the copy.
#[verifier::external_body]
fn lower(node: &Node) -> SyntaxNode {
    let children = node.children().map(|c| c.iter().map(lower).collect()).unwrap_or_default();
    match node {
        Node::Root(_) => SyntaxNode::Root(children),
        Node::Paragraph(_) => SyntaxNode::Paragraph(children),
        Node::Heading(n) => SyntaxNode::Heading { depth: n.depth, children },
        Node::List(n) => SyntaxNode::List { ordered: n.ordered, children },
        Node::ListItem(n) => {
            let line = node.position().map(|p| p.start.line);
            SyntaxNode::ListItem { checked: n.checked, line, children }
        },
        Node::Text(n) => SyntaxNode::Text(n.value.clone()),
        _ => SyntaxNode::Other,
    }
}

/// Calls `markdown::to_mdast` with the options of `markdown::ParseOptions::gfm`
/// and copies the tree it gives. Not verified; the contract only gives the
/// answer its name, which is sound because the parser works on the text
/// alone.
#[verifier::external_body]
pub(crate) fn parse_gfm(content: &str) -> (parsed: Result<SyntaxNode, String>)
    ensures
        match parsed {
            Ok(node) => gfm_tree(content@) == Ok::<SyntaxTree, Seq<char>>(node@),
            Err(message) => gfm_tree(content@) == Err::<SyntaxTree, Seq<char>>(message@),
        },
{
    match markdown::to_mdast(content, &markdown::ParseOptions::gfm()) {
        Ok(node) => Ok(lower(&node)),
        Err(message) => Err(message.to_string()),
    }
}

} // verus!
