//! A plain tree of XML elements, read with `xmltree`, and the lookups the
//! readers of `.glif` and key binding files make on it.
use vstd::prelude::*;
use crate::text::str_eq;

verus! {

#[verifier::external_type_specification]
#[verifier::external_body]
pub struct ExXmlTreeElement(xmltree::Element);

/// A node below an element.
pub enum XmlNode {
    Element(XmlElement),
    Comment(String),
    CData(String),
    Text(String),
    ProcessingInstruction(String, Option<String>),
}

/// An XML element: its name, its attributes (in ascending order of their
/// names) and its children in document order.
pub struct XmlElement {
    pub name: String,
    pub attributes: Vec<(String, String)>,
    pub children: Vec<XmlNode>,
}

/// The tree that `xmltree` reads from a text, or `None` where it refuses the
/// text.
pub uninterp spec fn spec_parse_xml(text: Seq<char>) -> Option<XmlElement>;

/// Moves an `xmltree` element into the plain tree, node for node.
#[verifier::external_body]
fn element_from_xmltree(e: xmltree::Element) -> XmlElement {
    XmlElement {
        name: e.name,
        attributes: e.attributes.into_iter().collect(),
        children: e.children.into_iter().map(|n| match n {
            xmltree::XMLNode::Element(c) => XmlNode::Element(element_from_xmltree(c)),
            xmltree::XMLNode::Comment(s) => XmlNode::Comment(s),
            xmltree::XMLNode::CData(s) => XmlNode::CData(s),
            xmltree::XMLNode::Text(s) => XmlNode::Text(s),
            xmltree::XMLNode::ProcessingInstruction(a, b) => XmlNode::ProcessingInstruction(a, b),
        }).collect(),
    }
}

/// `xmltree::Element::parse` on the bytes of `text`: the root element of the
/// document, or `None` where `xmltree` reports an error. What the tree holds
/// is named, not spelled out: it is a function of the text alone.
#[verifier::external_body]
pub(crate) fn parse_xml(text: &str) -> (r: Option<XmlElement>)
    ensures
        r == spec_parse_xml(text@),
{
    match xmltree::Element::parse(text.as_bytes()) {
        Ok(e) => Some(element_from_xmltree(e)),
        Err(_) => None,
    }
}

/// `n` is an element called `name`.
pub open spec fn is_element_named(n: XmlNode, name: Seq<char>) -> bool {
    n matches XmlNode::Element(e) && e.name@ == name
}

/// The child elements called `name`, in document order.
pub open spec fn named_children(ch: Seq<XmlNode>, name: Seq<char>) -> Seq<XmlElement>
    decreases ch.len(),
{
    if ch.len() == 0 {
        Seq::empty()
    } else {
        let rest = named_children(ch.drop_first(), name);
        match ch[0] {
            XmlNode::Element(e) => if e.name@ == name {
                seq![e] + rest
            } else {
                rest
            },
            _ => rest,
        }
    }
}

/// The first child element called `name`.
pub open spec fn first_named_child(ch: Seq<XmlNode>, name: Seq<char>) -> Option<XmlElement> {
    let ns = named_children(ch, name);
    if ns.len() > 0 {
        Some(ns[0])
    } else {
        None
    }
}

/// The value of the first attribute called `key`.
pub open spec fn attr_value(attrs: Seq<(String, String)>, key: Seq<char>) -> Option<String>
    decreases attrs.len(),
{
    if attrs.len() == 0 {
        None
    } else if attrs[0].0@ == key {
        Some(attrs[0].1)
    } else {
        attr_value(attrs.drop_first(), key)
    }
}

/// Element selection distributes over concatenation.
pub proof fn lemma_named_children_concat(a: Seq<XmlNode>, b: Seq<XmlNode>, name: Seq<char>)
    ensures
        named_children(a + b, name) == named_children(a, name) + named_children(b, name),
    decreases a.len(),
{
    if a.len() == 0 {
        assert(a + b =~= b);
        assert(named_children(a, name) + named_children(b, name) =~= named_children(b, name));
    } else {
        lemma_named_children_concat(a.drop_first(), b, name);
        assert((a + b).drop_first() =~= a.drop_first() + b);
        assert((a + b)[0] == a[0]);
        let ra = named_children(a.drop_first(), name);
        let rb = named_children(b, name);
        match a[0] {
            XmlNode::Element(e) => if e.name@ == name {
                assert(seq![e] + (ra + rb) =~= (seq![e] + ra) + rb);
            },
            _ => {},
        }
    }
}

/// A single node holds one element of a given name or none.
proof fn lemma_named_children_single(x: XmlNode, name: Seq<char>)
    ensures
        named_children(seq![x], name) == (if is_element_named(x, name) {
            seq![x->Element_0]
        } else {
            Seq::<XmlElement>::empty()
        }),
{
    assert(seq![x].drop_first() =~= Seq::<XmlNode>::empty());
    assert(named_children(Seq::<XmlNode>::empty(), name) =~= Seq::<XmlElement>::empty());
    match x {
        XmlNode::Element(e) => if e.name@ == name {
            assert(seq![e] + Seq::<XmlElement>::empty() =~= seq![e]);
        },
        _ => {},
    }
}

/// Without an element of that name, nothing is selected.
proof fn lemma_named_children_none(s: Seq<XmlNode>, name: Seq<char>)
    requires
        forall|k: int| 0 <= k < s.len() ==> !is_element_named(#[trigger] s[k], name),
    ensures
        named_children(s, name).len() == 0,
    decreases s.len(),
{
    if s.len() > 0 {
        assert(!is_element_named(s[0], name));
        assert forall|k: int| 0 <= k < s.drop_first().len() implies !is_element_named(
            #[trigger] s.drop_first()[k],
            name,
        ) by {
            assert(s.drop_first()[k] == s[k + 1]);
        }
        lemma_named_children_none(s.drop_first(), name);
    }
}

/// Removing the first element called `name` removes the first selected
/// element of that name and leaves the selections of other names as they
/// were.
proof fn lemma_remove_first_named(ch: Seq<XmlNode>, i: int, name: Seq<char>, other: Seq<char>)
    requires
        0 <= i < ch.len(),
        is_element_named(ch[i], name),
        forall|k: int| 0 <= k < i ==> !is_element_named(#[trigger] ch[k], name),
    ensures
        named_children(ch, name).len() > 0,
        named_children(ch, name)[0] == ch[i]->Element_0,
        named_children(ch.remove(i), name) == named_children(ch, name).drop_first(),
        other != name ==> named_children(ch.remove(i), other) == named_children(ch, other),
{
    let pre = ch.subrange(0, i);
    let post = ch.subrange(i + 1, ch.len() as int);
    assert(ch =~= pre + (seq![ch[i]] + post));
    assert(ch.remove(i) =~= pre + post);
    lemma_named_children_concat(pre, seq![ch[i]] + post, name);
    lemma_named_children_concat(seq![ch[i]], post, name);
    lemma_named_children_concat(pre, post, name);
    lemma_named_children_single(ch[i], name);
    assert forall|k: int| 0 <= k < pre.len() implies !is_element_named(#[trigger] pre[k], name) by {
        assert(pre[k] == ch[k]);
    }
    lemma_named_children_none(pre, name);
    assert(named_children(pre, name) =~= Seq::<XmlElement>::empty());
    let e = ch[i]->Element_0;
    assert(named_children(ch, name) =~= seq![e] + named_children(post, name));
    assert(named_children(ch.remove(i), name) =~= named_children(post, name));
    assert((seq![e] + named_children(post, name)).drop_first() =~= named_children(post, name));
    if other != name {
        lemma_named_children_concat(pre, seq![ch[i]] + post, other);
        lemma_named_children_concat(seq![ch[i]], post, other);
        lemma_named_children_concat(pre, post, other);
        lemma_named_children_single(ch[i], other);
        assert(named_children(seq![ch[i]], other) =~= Seq::<XmlElement>::empty());
        assert(named_children(ch, other) =~= named_children(pre, other) + named_children(
            post,
            other,
        ));
    }
}

impl XmlElement {
    /// Reads an XML document and gives back its root element, or `None`
    /// when the text is not well-formed XML.
    pub fn parse(text: &str) -> (r: Option<XmlElement>)
        ensures
            r == spec_parse_xml(text@),
    {
        parse_xml(text)
    }

    /// The value of the attribute called `key`, if the element has one.
    pub fn attribute(&self, key: &str) -> (r: Option<String>)
        ensures
            r == attr_value(self.attributes@, key@),
    {
        let n = self.attributes.len();
        let mut i: usize = 0;
        assert(self.attributes@.subrange(0, n as int) =~= self.attributes@);
        while i < n
            invariant
                n == self.attributes@.len(),
                i <= n,
                attr_value(self.attributes@, key@) == attr_value(
                    self.attributes@.subrange(i as int, n as int),
                    key@,
                ),
            decreases n - i,
        {
            let ghost rest = self.attributes@.subrange(i as int, n as int);
            assert(rest.drop_first() =~= self.attributes@.subrange(i + 1, n as int));
            assert(rest[0] == self.attributes@[i as int]);
            if str_eq(self.attributes[i].0.as_str(), key) {
                return Some(self.attributes[i].1.clone());
            }
            i = i + 1;
        }
        None
    }

    /// Removes the first child element called `name` and hands it back.
    pub fn take_child(&mut self, name: &str) -> (r: Option<XmlElement>)
        ensures
            r == first_named_child(old(self).children@, name@),
            final(self).name == old(self).name,
            final(self).attributes == old(self).attributes,
            named_children(final(self).children@, name@) == (if r is Some {
                named_children(old(self).children@, name@).drop_first()
            } else {
                named_children(old(self).children@, name@)
            }),
            forall|other: Seq<char>|
                other != name@ ==> #[trigger] named_children(final(self).children@, other)
                    == named_children(old(self).children@, other),
    {
        let n = self.children.len();
        let mut i: usize = 0;
        while i < n
            invariant
                *self == *old(self),
                n == self.children@.len(),
                i <= n,
                forall|k: int| 0 <= k < i ==> !is_element_named(#[trigger] self.children@[k], name@),
            decreases n - i,
        {
            let found = match &self.children[i] {
                XmlNode::Element(e) => str_eq(e.name.as_str(), name),
                _ => false,
            };
            if found {
                let ghost before = self.children@;
                proof {
                    assert forall|other: Seq<char>| other != name@ implies #[trigger] named_children(
                        before.remove(i as int),
                        other,
                    ) == named_children(before, other) by {
                        lemma_remove_first_named(before, i as int, name@, other);
                    }
                    lemma_remove_first_named(before, i as int, name@, name@);
                }
                let node = self.children.remove(i);
                match node {
                    XmlNode::Element(e) => {
                        return Some(e);
                    },
                    _ => {
                        proof {
                            assert(false);
                        }
                        return None;
                    },
                }
            }
            i = i + 1;
        }
        proof {
            lemma_named_children_none(self.children@, name@);
        }
        None
    }
}

} // verus!
