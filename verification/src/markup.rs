//! Elements of the `svg` crate, seen through what they hold.
//!
//! Verus does not look inside an `Element`. What the rest of the library
//! knows of one is stated here, in the contracts of five small functions
//! that call the crate. Those contracts are taken from the crate's source
//! and believed, not proved; everything built on them is proved.

use svg::node::element::Element;
use vstd::prelude::*;

verus! {

/// `svg::node::element::Element`: a tag name, attributes and child nodes.
/// It is carried through as it is; `element_tag`, `element_attributes` and
/// `element_children` name what it holds.
#[verifier::external_type_specification]
#[verifier::external_body]
pub struct ExElement(Element);

/// The name of an element's tag.
pub uninterp spec fn element_tag(element: Element) -> Seq<char>;

/// The attributes of an element: each name with its value.
pub uninterp spec fn element_attributes(element: Element) -> Map<Seq<char>, Seq<char>>;

/// The children of an element, in order. Each is the text it is written as,
/// with `true` for a text node and `false` for an element.
pub uninterp spec fn element_children(element: Element) -> Seq<(bool, Seq<char>)>;

/// The text that `svg::node::element::Element` is written as by its
/// `Display`, for an element with this tag, these attributes and these
/// children.
pub uninterp spec fn element_rendering(
    tag: Seq<char>,
    attributes: Map<Seq<char>, Seq<char>>,
    children: Seq<(bool, Seq<char>)>,
) -> Seq<char>;

/// What stands for one character of a text node in the document.
pub open spec fn escaped_char(c: char) -> Seq<char> {
    if c == '&' {
        "&amp;"@
    } else if c == '<' {
        "&lt;"@
    } else if c == '>' {
        "&gt;"@
    } else {
        seq![c]
    }
}

/// The text of a text node as the document holds it: the ampersand and the
/// two angle brackets are replaced by their entities.
pub open spec fn escaped_text(content: Seq<char>) -> Seq<char>
    decreases content.len(),
{
    if content.len() == 0 {
        Seq::<char>::empty()
    } else {
        escaped_text(content.drop_last()) + escaped_char(content.last())
    }
}

/// What an element holds.
pub struct Markup {
    pub tag: Seq<char>,
    pub attributes: Map<Seq<char>, Seq<char>>,
    pub children: Seq<(bool, Seq<char>)>,
}

impl Markup {
    /// An element without attributes or children.
    pub open spec fn empty(tag: Seq<char>) -> Markup {
        Markup { tag, attributes: Map::empty(), children: Seq::empty() }
    }

    /// This element with the attribute `name` set to `value`.
    pub open spec fn with(self, name: Seq<char>, value: Seq<char>) -> Markup {
        Markup { attributes: self.attributes.insert(name, value), ..self }
    }

    /// This element with one more child element.
    pub open spec fn child(self, element: Markup) -> Markup {
        Markup { children: self.children.push((false, element.text())), ..self }
    }

    /// This element with one more text node.
    pub open spec fn content(self, content: Seq<char>) -> Markup {
        Markup { children: self.children.push((true, escaped_text(content))), ..self }
    }

    /// The text this element is written as.
    pub open spec fn text(self) -> Seq<char> {
        element_rendering(self.tag, self.attributes, self.children)
    }
}

/// What `element` holds.
pub open spec fn markup_of(element: Element) -> Markup {
    Markup {
        tag: element_tag(element),
        attributes: element_attributes(element),
        children: element_children(element),
    }
}

/// Calls `svg::node::element::Element::new`, which makes an element with
/// the given tag name, no attributes and no children.
#[verifier::external_body]
pub(crate) fn new_element(tag: &str) -> (element: Element)
    ensures
        element_tag(element) == tag@,
        element_attributes(element) == Markup::empty(tag@).attributes,
        element_children(element) == Markup::empty(tag@).children,
{
    Element::new(tag)
}

/// Calls `svg::node::Node::assign` on an element, which sets the attribute
/// `name` to `value`, in place of an earlier value of that name, and leaves
/// the tag and the children as they are.
#[verifier::external_body]
pub(crate) fn assign_attribute(element: &mut Element, name: &str, value: &str)
    ensures
        element_tag(*final(element)) == element_tag(*old(element)),
        element_attributes(*final(element)) == element_attributes(*old(element)).insert(
            name@,
            value@,
        ),
        element_children(*final(element)) == element_children(*old(element)),
{
    svg::node::Node::assign(element, name, value)
}

/// Calls `svg::node::Node::append` on an element with another element,
/// which becomes its last child and leaves the rest as it is. The parent
/// writes the child as the child is written on its own.
#[verifier::external_body]
pub(crate) fn append_element(element: &mut Element, child: Element)
    ensures
        element_tag(*final(element)) == element_tag(*old(element)),
        element_attributes(*final(element)) == element_attributes(*old(element)),
        element_children(*final(element)) == element_children(*old(element)).push(
            (
                false,
                element_rendering(
                    element_tag(child),
                    element_attributes(child),
                    element_children(child),
                ),
            ),
        ),
{
    svg::node::Node::append(element, child)
}

/// Calls `svg::node::Node::append` on an element with a new
/// `svg::node::Text`, which becomes its last child and leaves the rest as it
/// is. A text node is written as its content with `&`, `<` and `>` replaced
/// by `&amp;`, `&lt;` and `&gt;`.
#[verifier::external_body]
pub(crate) fn append_text(element: &mut Element, content: &str)
    ensures
        element_tag(*final(element)) == element_tag(*old(element)),
        element_attributes(*final(element)) == element_attributes(*old(element)),
        element_children(*final(element)) == element_children(*old(element)).push(
            (true, escaped_text(content@)),
        ),
{
    svg::node::Node::append(element, svg::node::Text::new(content))
}

/// Calls `to_string` on an element, which writes it as the `Display` of
/// `svg::node::element::Element` does: a function of its tag, its
/// attributes and its children.
#[verifier::external_body]
pub(crate) fn render_element(element: &Element) -> (text: String)
    ensures
        text@ == element_rendering(
            element_tag(*element),
            element_attributes(*element),
            element_children(*element),
        ),
{
    element.to_string()
}

} // verus!
