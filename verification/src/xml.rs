//! The parts of an XML document that the element parsers read, held as plain
//! values, and the reading of attribute values as numbers and booleans.
use vstd::prelude::*;

use crate::number::parse_unsigned;
use crate::text::{str_eq, str_to_chars, trim, trim_bounds, chars_to_string};

verus! {

/// An attribute of an XML element.
#[derive(Debug, PartialEq, Eq, Clone)]
pub struct XmlAttribute {
    /// The attribute's local name.
    pub name: String,
    /// The attribute's value, as written (after XML unescaping).
    pub value: String,
}

/// A node of an XML document: an element, or text, a comment and the like.
#[derive(Debug, PartialEq, Eq)]
pub struct XmlNode {
    /// Whether the node is an element.
    pub is_element: bool,
    /// The element's local name; empty for other nodes.
    pub tag_name: String,
    /// The element's attributes, in document order.
    pub attributes: Vec<XmlAttribute>,
    /// The node's text: for an element, its first child when that child is
    /// text; for a text node, its text.
    pub text: Option<String>,
    /// The child nodes, in document order.
    pub children: Vec<XmlNode>,
}

/// The value of an [`XmlNode`].
pub struct XmlNodeModel {
    pub is_element: bool,
    pub tag_name: Seq<char>,
    pub attributes: Seq<(Seq<char>, Seq<char>)>,
    pub text: Option<Seq<char>>,
    pub children: Seq<XmlNodeModel>,
}

/// The value of a node, with its subtree.
pub open spec fn xml_node_model(n: XmlNode) -> XmlNodeModel
    decreases n,
{
    XmlNodeModel {
        is_element: n.is_element,
        tag_name: n.tag_name@,
        attributes: Seq::new(
            n.attributes.len() as nat,
            |i: int| (n.attributes@[i].name@, n.attributes@[i].value@),
        ),
        text: match n.text {
            Some(t) => Some(t@),
            None => None,
        },
        children: Seq::new(
            n.children.len() as nat,
            |i: int|
                if 0 <= i < n.children.len() {
                    xml_node_model(n.children@[i])
                } else {
                    XmlNodeModel {
                        is_element: false,
                        tag_name: Seq::empty(),
                        attributes: Seq::empty(),
                        text: None,
                        children: Seq::empty(),
                    }
                },
        ),
    }
}

impl View for XmlNode {
    type V = XmlNodeModel;

    open spec fn view(&self) -> XmlNodeModel {
        xml_node_model(*self)
    }
}

/// A copy of `n`, with its subtree.
fn clone_node(n: &XmlNode) -> (r: XmlNode)
    ensures
        r@ == n@,
    decreases *n,
{
    let mut attributes: Vec<XmlAttribute> = Vec::new();
    let mut i: usize = 0;
    while i < n.attributes.len()
        invariant
            i <= n.attributes@.len(),
            attributes@.len() == i,
            forall|j: int|
                0 <= j < i ==> (#[trigger] attributes@[j]).name@ == n.attributes@[j].name@
                    && attributes@[j].value@ == n.attributes@[j].value@,
        decreases n.attributes@.len() - i,
    {
        let a = &n.attributes[i];
        attributes.push(XmlAttribute { name: a.name.clone(), value: a.value.clone() });
        i = i + 1;
    }
    let mut children: Vec<XmlNode> = Vec::new();
    let mut k: usize = 0;
    let ghost g = *n;
    while k < n.children.len()
        invariant
            g == *n,
            k <= n.children@.len(),
            children@.len() == k,
            forall|j: int| 0 <= j < k ==> (#[trigger] children@[j])@ == n.children@[j]@,
        decreases n.children@.len() - k,
    {
        proof {
            assert(decreases_to!(g => g.children));
            assert(decreases_to!(g.children => g.children@));
            assert(decreases_to!(g.children@ => g.children@[k as int]));
        }
        children.push(clone_node(&n.children[k]));
        k = k + 1;
    }
    let text = match &n.text {
        Some(t) => Some(t.clone()),
        None => None,
    };
    let r = XmlNode {
        is_element: n.is_element,
        tag_name: n.tag_name.clone(),
        attributes,
        text,
        children,
    };
    assert(r@.attributes =~= n@.attributes);
    assert(r@.children =~= n@.children);
    r
}

impl Clone for XmlNode {
    fn clone(&self) -> (r: Self)
        ensures
            r@ == self@,
    {
        clone_node(self)
    }
}

/// An attribute value that cannot be read as what its field holds.
#[derive(Debug, PartialEq, Eq, Clone)]
pub enum XmlValueError {
    /// A required attribute is absent; holds the attribute's name.
    MissingField(String),
    /// An attribute is neither `true` nor `false`; holds the attribute's name.
    InvalidBool(String),
    /// An attribute is not an integer in the field's range; holds the
    /// attribute's name.
    InvalidInteger(String),
}

/// The value of an [`XmlValueError`].
pub enum XmlErrorModel {
    MissingField(Seq<char>),
    InvalidBool(Seq<char>),
    InvalidInteger(Seq<char>),
}

impl View for XmlValueError {
    type V = XmlErrorModel;

    open spec fn view(&self) -> XmlErrorModel {
        match self {
            XmlValueError::MissingField(n) => XmlErrorModel::MissingField(n@),
            XmlValueError::InvalidBool(n) => XmlErrorModel::InvalidBool(n@),
            XmlValueError::InvalidInteger(n) => XmlErrorModel::InvalidInteger(n@),
        }
    }
}

/// The value of the first attribute named `name` among `attrs`.
pub open spec fn attribute_value(attrs: Seq<XmlAttribute>, name: Seq<char>) -> Option<Seq<char>>
    decreases attrs.len(),
{
    if attrs.len() == 0 {
        None
    } else if attrs[0].name@ == name {
        Some(attrs[0].value@)
    } else {
        attribute_value(attrs.drop_first(), name)
    }
}

impl XmlNode {
    /// The value of the node's first attribute named `name`.
    pub fn attribute(&self, name: &str) -> (r: Option<&String>)
        ensures
            match r {
                Some(v) => attribute_value(self.attributes@, name@) == Some(v@),
                None => attribute_value(self.attributes@, name@) is None,
            },
    {
        let mut i: usize = 0;
        assert(self.attributes@.skip(0) =~= self.attributes@);
        while i < self.attributes.len()
            invariant
                i <= self.attributes@.len(),
                attribute_value(self.attributes@, name@) == attribute_value(
                    self.attributes@.skip(i as int),
                    name@,
                ),
            decreases self.attributes@.len() - i,
        {
            let a = &self.attributes[i];
            assert(self.attributes@.skip(i as int).drop_first() =~= self.attributes@.skip(i + 1));
            if str_eq(a.name.as_str(), name) {
                return Some(&a.value);
            }
            i = i + 1;
        }
        None
    }
}

/// `true` or `false`, as `bool::from_str` reads them; nothing else.
pub open spec fn parse_bool(s: Seq<char>) -> Option<bool> {
    if s == "true"@ {
        Some(true)
    } else if s == "false"@ {
        Some(false)
    } else {
        None
    }
}

/// Reads `s` as `bool::from_str` does.
pub fn parse_bool_text(s: &str) -> (r: Option<bool>)
    ensures
        r == parse_bool(s@),
{
    if str_eq(s, "true") {
        Some(true)
    } else if str_eq(s, "false") {
        Some(false)
    } else {
        None
    }
}

/// `s` without leading and trailing whitespace.
pub fn trim_text(s: &str) -> (r: String)
    ensures
        r@ == trim(s@),
{
    let v = str_to_chars(s);
    proof {
        assert(v@.subrange(0, v@.len() as int) =~= s@);
    }
    let (a, b) = trim_bounds(&v, 0, v.len());
    chars_to_string(&v, a, b)
}

/// What an attribute holding a `bool` reads as: the value, trimmed, read by
/// `bool::from_str`.
pub open spec fn attribute_bool(v: Seq<char>) -> Option<bool> {
    parse_bool(trim(v))
}

/// What an attribute holding an unsigned integer whose largest value is `max`
/// reads as: the value, trimmed, read in decimal by `from_str`.
pub open spec fn attribute_unsigned(v: Seq<char>, max: nat) -> Option<nat> {
    parse_unsigned(trim(v), 10, max)
}

/// Reads an attribute value holding a `bool`, as [`attribute_bool`] says.
pub fn read_bool_attribute(v: &str) -> (r: Option<bool>)
    ensures
        r == attribute_bool(v@),
{
    let t = trim_text(v);
    parse_bool_text(t.as_str())
}

/// Reads an attribute value holding an unsigned integer of at most `max`, as
/// [`attribute_unsigned`] says.
pub fn read_unsigned_attribute(v: &str, max: u64) -> (r: Option<u64>)
    ensures
        match r {
            Some(n) => attribute_unsigned(v@, max as nat) == Some(n as nat),
            None => attribute_unsigned(v@, max as nat) is None,
        },
{
    let c = str_to_chars(v);
    proof {
        assert(c@.subrange(0, c@.len() as int) =~= v@);
    }
    let (a, b) = trim_bounds(&c, 0, c.len());
    crate::number::parse_unsigned_chars(&c, a, b, 10, max)
}

} // verus!
