//! The markup model: an element tree with tag names, attributes and text.
//! Every component in this library is a pure function from its props to a
//! value of this model; a host rendering engine outside the library turns
//! the tree into displayed output.

use vstd::prelude::*;

verus! {

broadcast use
    vstd::std_specs::vec::axiom_vec_index_decreases,
    vstd::std_specs::vec::axiom_vec_decreases_to_view,
    vstd::seq::axiom_seq_index_decreases;

/// One attribute of a markup element: a name and a verbatim value.
pub struct Attr {
    pub name: String,
    pub value: String,
}

/// A markup fragment: either a text leaf or an element with a tag name,
/// an ordered attribute list and an ordered child list.
pub enum Node {
    Text(String),
    Elem { tag: String, attrs: Vec<Attr>, children: Vec<Node> },
}

/// The mathematical shape of an attribute.
#[verifier::ext_equal]
pub struct AttrView {
    pub name: Seq<char>,
    pub value: Seq<char>,
}

/// The mathematical shape of a markup fragment.
#[verifier::ext_equal]
pub enum NodeView {
    Text(Seq<char>),
    Elem { tag: Seq<char>, attrs: Seq<AttrView>, children: Seq<NodeView> },
}

impl View for Attr {
    type V = AttrView;

    open spec fn view(&self) -> AttrView {
        AttrView { name: self.name@, value: self.value@ }
    }
}

/// The shapes of a sequence of attributes, in order.
pub open spec fn attr_views(attrs: Seq<Attr>) -> Seq<AttrView> {
    attrs.map_values(|a: Attr| a@)
}

/// The shapes of a sequence of markup fragments, in order.
pub open spec fn node_views(ns: Seq<Node>) -> Seq<NodeView>
    decreases ns,
{
    Seq::new(
        ns.len(),
        |i: int|
            if 0 <= i < ns.len() {
                ns[i]@
            } else {
                NodeView::Text(Seq::empty())
            },
    )
}

impl View for Node {
    type V = NodeView;

    open spec fn view(&self) -> NodeView
        decreases self,
    {
        match self {
            Node::Text(s) => NodeView::Text(s@),
            Node::Elem { tag, attrs, children } => NodeView::Elem {
                tag: tag@,
                attrs: attr_views(attrs@),
                children: node_views(children@),
            },
        }
    }
}

/// The shape of an element with the given tag, attributes and children.
pub open spec fn spec_elem(
    tag: Seq<char>,
    attrs: Seq<AttrView>,
    children: Seq<NodeView>,
) -> NodeView {
    NodeView::Elem { tag, attrs, children }
}

/// The shape of one attribute with the given name and value.
pub open spec fn spec_attr(name: Seq<char>, value: Seq<char>) -> AttrView {
    AttrView { name, value }
}

/// The tag of an element shape; the empty sequence for a text leaf.
pub open spec fn elem_tag(n: NodeView) -> Seq<char> {
    match n {
        NodeView::Elem { tag, .. } => tag,
        NodeView::Text(_) => Seq::empty(),
    }
}

/// The attributes of an element shape; empty for a text leaf.
pub open spec fn elem_attrs(n: NodeView) -> Seq<AttrView> {
    match n {
        NodeView::Elem { attrs, .. } => attrs,
        NodeView::Text(_) => Seq::empty(),
    }
}

/// The children of an element shape; empty for a text leaf.
pub open spec fn elem_children(n: NodeView) -> Seq<NodeView> {
    match n {
        NodeView::Elem { children, .. } => children,
        NodeView::Text(_) => Seq::empty(),
    }
}

/// The characters of a text leaf; the empty sequence for an element.
pub open spec fn text_of(n: NodeView) -> Seq<char> {
    match n {
        NodeView::Text(s) => s,
        NodeView::Elem { .. } => Seq::empty(),
    }
}

/// Whether the fragment is an element carrying an attribute with the given
/// name and value.
pub open spec fn has_attr(n: NodeView, name: Seq<char>, value: Seq<char>) -> bool {
    exists|i: int|
        0 <= i < elem_attrs(n).len() && elem_attrs(n)[i].name == name && elem_attrs(n)[i].value
            == value
}

/// Whether the fragment is an element carrying an attribute with the given
/// name, whatever its value.
pub open spec fn has_attr_named(n: NodeView, name: Seq<char>) -> bool {
    exists|i: int| 0 <= i < elem_attrs(n).len() && elem_attrs(n)[i].name == name
}

/// Whether no element anywhere in the fragment is an anchor or carries an
/// activation target: the fragment offers no way to navigate away.
pub open spec fn has_no_activation(n: NodeView) -> bool
    decreases n,
{
    match n {
        NodeView::Text(_) => true,
        NodeView::Elem { tag, attrs, children } => {
            &&& tag != "a"@
            &&& !has_attr_named(n, "href"@)
            &&& forall|i: int| 0 <= i < children.len() ==> has_no_activation(#[trigger] children[i])
        },
    }
}

/// Builds a text leaf from a borrowed string.
pub fn text(s: &str) -> (n: Node)
    ensures
        n@ == NodeView::Text(s@),
{
    Node::Text(s.to_owned())
}

/// Builds a text leaf that owns its string.
pub fn text_owned(s: String) -> (n: Node)
    ensures
        n@ == NodeView::Text(s@),
{
    Node::Text(s)
}

/// Builds one attribute from borrowed name and value strings.
pub fn attr(name: &str, value: &str) -> (a: Attr)
    ensures
        a@ == spec_attr(name@, value@),
{
    Attr { name: name.to_owned(), value: value.to_owned() }
}

/// Builds a one-element attribute list.
pub fn attrs1(a0: Attr) -> (v: Vec<Attr>)
    ensures
        v@ == seq![a0],
{
    let mut v: Vec<Attr> = Vec::new();
    v.push(a0);
    proof {
        assert(v@ =~= seq![a0]);
    }
    v
}

/// Builds a two-element attribute list.
pub fn attrs2(a0: Attr, a1: Attr) -> (v: Vec<Attr>)
    ensures
        v@ == seq![a0, a1],
{
    let mut v: Vec<Attr> = Vec::new();
    v.push(a0);
    v.push(a1);
    proof {
        assert(v@ =~= seq![a0, a1]);
    }
    v
}

/// Builds a four-element attribute list.
pub fn attrs4(a0: Attr, a1: Attr, a2: Attr, a3: Attr) -> (v: Vec<Attr>)
    ensures
        v@ == seq![a0, a1, a2, a3],
{
    let mut v: Vec<Attr> = Vec::new();
    v.push(a0);
    v.push(a1);
    v.push(a2);
    v.push(a3);
    proof {
        assert(v@ =~= seq![a0, a1, a2, a3]);
    }
    v
}

/// Builds a one-element child list.
pub fn nodes1(n0: Node) -> (v: Vec<Node>)
    ensures
        v@ == seq![n0],
{
    let mut v: Vec<Node> = Vec::new();
    v.push(n0);
    proof {
        assert(v@ =~= seq![n0]);
    }
    v
}

/// Builds a two-element child list.
pub fn nodes2(n0: Node, n1: Node) -> (v: Vec<Node>)
    ensures
        v@ == seq![n0, n1],
{
    let mut v: Vec<Node> = Vec::new();
    v.push(n0);
    v.push(n1);
    proof {
        assert(v@ =~= seq![n0, n1]);
    }
    v
}

/// Builds a three-element child list.
pub fn nodes3(n0: Node, n1: Node, n2: Node) -> (v: Vec<Node>)
    ensures
        v@ == seq![n0, n1, n2],
{
    let mut v: Vec<Node> = Vec::new();
    v.push(n0);
    v.push(n1);
    v.push(n2);
    proof {
        assert(v@ =~= seq![n0, n1, n2]);
    }
    v
}

/// Builds an element with the given tag, attributes and children.
pub fn elem(tag: &str, attrs: Vec<Attr>, children: Vec<Node>) -> (n: Node)
    ensures
        n@ == spec_elem(tag@, attr_views(attrs@), node_views(children@)),
{
    Node::Elem { tag: tag.to_owned(), attrs, children }
}

} // verus!
