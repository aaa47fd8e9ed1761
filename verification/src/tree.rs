//! The element tree produced by a parse.
//!
//! An element is either a literal text leaf or a container: a structural
//! node carrying a construct type, an ordered sequence of child elements
//! and an argument mapping parsed from the construct's head. The tree is a
//! strict ownership hierarchy: a container owns its children outright, so
//! there are no cross-links and no cycles.

use vstd::prelude::*;

verus! {

/// Semantic type of a container node, one per construct family member.
#[derive(Clone, Copy, PartialEq, Eq, Debug, Structural)]
pub enum ContainerType {
    Bold,
    Italics,
    Span,
}

/// One named argument from a construct's head, e.g. `style="..."`.
#[derive(Debug, PartialEq)]
pub struct Argument {
    pub name: String,
    pub value: String,
}

/// Mathematical image of an argument.
pub ghost struct ArgumentView {
    pub name: Seq<char>,
    pub value: Seq<char>,
}

impl View for Argument {
    type V = ArgumentView;

    open spec fn view(&self) -> ArgumentView {
        ArgumentView { name: self.name@, value: self.value@ }
    }
}

/// A structural node: construct type, children, and head arguments.
#[derive(Debug, PartialEq)]
pub struct Container {
    pub ctype: ContainerType,
    pub children: Vec<Element>,
    pub arguments: Vec<Argument>,
}

/// One node of the element tree.
#[derive(Debug, PartialEq)]
pub enum Element {
    /// Literal, unparsed content.
    Text(String),
    /// A structural node with nested content.
    Container(Container),
}

/// Mathematical image of an element, used in every contract about trees.
pub ghost enum ElementView {
    Text { text: Seq<char> },
    Container { ctype: ContainerType, children: Seq<ElementView>, arguments: Seq<ArgumentView> },
}

/// The view of one element: text stays text, a container's children and
/// arguments are viewed child by child in order.
pub open spec fn element_view(e: Element) -> ElementView
    decreases e,
{
    match e {
        Element::Text(s) => ElementView::Text { text: s@ },
        Element::Container(c) => ElementView::Container {
            ctype: c.ctype,
            children: elements_view(c.children@),
            arguments: c.arguments@.map(|i: int, a: Argument| a@),
        },
    }
}

/// The view of an element sequence, child by child in order.
pub open spec fn elements_view(elements: Seq<Element>) -> Seq<ElementView>
    decreases elements,
{
    if elements.len() == 0 {
        Seq::empty()
    } else {
        seq![element_view(elements[0])] + elements_view(
            elements.subrange(1, elements.len() as int),
        )
    }
}

impl View for Element {
    type V = ElementView;

    open spec fn view(&self) -> ElementView {
        element_view(*self)
    }
}

/// Viewing distributes over appending one element at the back.
pub broadcast proof fn lemma_elements_view_push(elements: Seq<Element>, e: Element)
    ensures
        #[trigger] elements_view(elements.push(e)) == elements_view(elements).push(
            element_view(e),
        ),
    decreases elements.len(),
{
    reveal_with_fuel(elements_view, 3);
    if elements.len() == 0 {
        assert(elements.push(e)[0] == e);
        assert(elements.push(e).subrange(1, 1) =~= Seq::<Element>::empty());
        assert(elements_view(elements.push(e)) =~= elements_view(elements).push(
            element_view(e),
        ));
    } else {
        lemma_elements_view_push(elements.subrange(1, elements.len() as int), e);
        assert(elements.push(e).subrange(1, elements.push(e).len() as int) =~= elements.subrange(
            1,
            elements.len() as int,
        ).push(e));
        assert(elements.push(e)[0] == elements[0]);
        assert(elements_view(elements.push(e)) == seq![element_view(elements[0])]
            + elements_view(elements.subrange(1, elements.len() as int)).push(element_view(e)));
        assert(elements_view(elements.push(e)) =~= elements_view(elements).push(
            element_view(e),
        ));
    }
}

impl Container {
    /// Assembles a container node, as construct rules do.
    pub fn new(ctype: ContainerType, children: Vec<Element>, arguments: Vec<Argument>) -> (c:
        Container)
        ensures
            c.ctype == ctype,
            c.children == children,
            c.arguments == arguments,
    {
        Container { ctype, children, arguments }
    }
}

} // verus!
