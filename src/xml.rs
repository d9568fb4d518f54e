//! A flat model of a parsed XML document and queries over it.
use vstd::prelude::*;

verus! {

/// One attribute of an element: its local name and its value.
#[derive(Debug)]
pub struct XmlAttribute {
    pub name: String,
    pub value: String,
}

/// One node of a document. Nodes are stored in document order; `parent` is the
/// index of the enclosing node, absent for the document root.
#[derive(Debug)]
pub struct XmlNode {
    pub is_element: bool,
    pub name: String,
    pub namespace: Option<String>,
    pub attributes: Vec<XmlAttribute>,
    /// For an element, the text of its first child when that child is text.
    pub text: Option<String>,
    pub parent: Option<usize>,
}

/// A parsed document: every node, the root first, in document order.
#[derive(Debug)]
pub struct XmlDocument {
    pub nodes: Vec<XmlNode>,
}

/// The nodes that roxmltree yields for `text`, or none where it rejects the text.
pub uninterp spec fn xml_nodes_of(text: Seq<char>) -> Option<Seq<XmlNode>>;

/// Relies on roxmltree's `Document::parse`, which reads the whole text into a
/// tree or returns its error; the nodes are taken over in document order.
#[verifier::external_body]
pub(crate) fn parse_xml(text: &str) -> (r: Result<XmlDocument, roxmltree::Error>)
    ensures
        match r {
            Ok(d) => xml_nodes_of(text@) == Some(d.nodes@),
            Err(_) => xml_nodes_of(text@) is None,
        },
{
    let doc = roxmltree::Document::parse(text)?;
    let nodes = doc.descendants().map(|n| XmlNode {
        is_element: n.is_element(),
        name: n.tag_name().name().to_string(),
        namespace: n.tag_name().namespace().map(str::to_string),
        attributes: n.attributes().map(|a| XmlAttribute { name: a.name().to_string(), value: a.value().to_string() }).collect(),
        text: n.text().map(str::to_string),
        parent: n.parent().map(|p| p.id().get_usize()),
    }).collect();
    Ok(XmlDocument { nodes })
}

/// Whether node `j` is an element directly inside node `p`, called `name`, in
/// some namespace or in none as `namespaced` says.
pub open spec fn is_named_child(doc: Seq<XmlNode>, p: int, j: int, name: Seq<char>, namespaced: bool) -> bool {
    &&& doc[j].is_element
    &&& doc[j].parent == Some(p as usize)
    &&& doc[j].name@ == name
    &&& (doc[j].namespace is Some) == namespaced
}

/// The indices below `end` of the children of `p` that `is_named_child` picks,
/// in document order.
pub open spec fn named_children_below(doc: Seq<XmlNode>, p: int, name: Seq<char>, namespaced: bool, end: int) -> Seq<usize>
    decreases end,
{
    if end <= 0 {
        Seq::empty()
    } else {
        let prev = named_children_below(doc, p, name, namespaced, end - 1);
        if is_named_child(doc, p, end - 1, name, namespaced) {
            prev.push((end - 1) as usize)
        } else {
            prev
        }
    }
}

/// The children of `p` called `name`, in document order.
pub open spec fn named_children(doc: Seq<XmlNode>, p: int, name: Seq<char>, namespaced: bool) -> Seq<usize> {
    named_children_below(doc, p, name, namespaced, doc.len() as int)
}

/// The first child of `p` called `name` in no namespace.
pub open spec fn first_child(doc: Seq<XmlNode>, p: int, name: Seq<char>) -> Option<usize> {
    let c = named_children(doc, p, name, false);
    if c.len() > 0 {
        Some(c[0])
    } else {
        None
    }
}

/// The text of a node, empty where it has none.
pub open spec fn text_of(n: XmlNode) -> Seq<char> {
    match n.text {
        Some(t) => t@,
        None => Seq::empty(),
    }
}

/// The text of the first child of `p` called `name`, if there is such a child.
pub open spec fn child_text(doc: Seq<XmlNode>, p: int, name: Seq<char>) -> Option<Seq<char>> {
    match first_child(doc, p, name) {
        Some(j) => Some(text_of(doc[j as int])),
        None => None,
    }
}

/// The value of the first attribute among `attrs[from..]` called `name`.
pub open spec fn attribute_from(attrs: Seq<XmlAttribute>, name: Seq<char>, from: int) -> Option<Seq<char>>
    decreases attrs.len() - from,
{
    if from < 0 || from >= attrs.len() {
        None
    } else if attrs[from].name@ == name {
        Some(attrs[from].value@)
    } else {
        attribute_from(attrs, name, from + 1)
    }
}

/// The value of the first attribute of `n` called `name`.
pub open spec fn attribute_of(n: XmlNode, name: Seq<char>) -> Option<Seq<char>> {
    attribute_from(n.attributes@, name, 0)
}

/// The view of an optional string.
pub open spec fn opt_view(o: Option<String>) -> Option<Seq<char>> {
    match o {
        Some(s) => Some(s@),
        None => None,
    }
}

/// Children that a name picks are listed in strictly increasing document order.
pub proof fn lemma_named_children_ordered(doc: Seq<XmlNode>, p: int, name: Seq<char>, namespaced: bool, end: int)
    requires
        end <= doc.len() <= usize::MAX,
    ensures
        forall|a: int, b: int|
            0 <= a < b < named_children_below(doc, p, name, namespaced, end).len() ==>
                named_children_below(doc, p, name, namespaced, end)[a] < named_children_below(doc, p, name, namespaced, end)[b],
        forall|a: int|
            0 <= a < named_children_below(doc, p, name, namespaced, end).len() ==> {
                let j = #[trigger] named_children_below(doc, p, name, namespaced, end)[a];
                &&& j < end
                &&& is_named_child(doc, p, j as int, name, namespaced)
            },
    decreases end,
{
    if end > 0 {
        lemma_named_children_ordered(doc, p, name, namespaced, end - 1);
        let prev = named_children_below(doc, p, name, namespaced, end - 1);
        let cur = named_children_below(doc, p, name, namespaced, end);
        assert forall|a: int| 0 <= a < prev.len() implies cur[a] == prev[a] && prev[a] < end - 1 by {
            let _ = prev[a];
        }
        if is_named_child(doc, p, end - 1, name, namespaced) {
            assert(cur == prev.push((end - 1) as usize));
            assert(cur[prev.len() as int] == end - 1);
        } else {
            assert(cur == prev);
        }
        assert forall|a: int, b: int| 0 <= a < b < cur.len() implies cur[a] < cur[b] by {
            if b < prev.len() {
                assert(cur[a] == prev[a] && cur[b] == prev[b]);
            } else {
                assert(cur[a] == prev[a]);
            }
        }
        assert forall|a: int| 0 <= a < cur.len() implies {
            let j = #[trigger] cur[a];
            &&& j < end
            &&& is_named_child(doc, p, j as int, name, namespaced)
        } by {
            if a < prev.len() {
                assert(cur[a] == prev[a]);
            }
        }
    }
}

/// Whether two strings hold the same characters.
pub fn str_eq(a: &str, b: &str) -> (r: bool)
    ensures
        r == (a@ == b@),
{
    let n = a.unicode_len();
    if n != b.unicode_len() {
        return false;
    }
    let mut i: usize = 0;
    while i < n
        invariant
            n == a@.len() == b@.len(),
            i <= n,
            forall|k: int| 0 <= k < i ==> a@[k] == b@[k],
        decreases n - i,
    {
        if a.get_char(i) != b.get_char(i) {
            return false;
        }
        i = i + 1;
    }
    assert(a@ =~= b@);
    true
}

impl XmlDocument {
    /// The indices of the children of node `p` called `name`, in document order.
    pub fn children_named(&self, p: usize, name: &str, namespaced: bool) -> (r: Vec<usize>)
        ensures
            r@ == named_children(self.nodes@, p as int, name@, namespaced),
    {
        let mut r: Vec<usize> = Vec::new();
        let mut j: usize = 0;
        while j < self.nodes.len()
            invariant
                j <= self.nodes@.len(),
                r@ == named_children_below(self.nodes@, p as int, name@, namespaced, j as int),
            decreases self.nodes@.len() - j,
        {
            let n = &self.nodes[j];
            let ns = match &n.namespace {
                Some(_) => true,
                None => false,
            };
            if n.is_element && n.parent == Some(p) && str_eq(n.name.as_str(), name) && ns == namespaced {
                r.push(j);
            }
            j = j + 1;
        }
        r
    }

    /// The first child of node `p` called `name` in no namespace.
    pub fn first_child(&self, p: usize, name: &str) -> (r: Option<usize>)
        ensures
            r == first_child(self.nodes@, p as int, name@),
            r matches Some(j) ==> j < self.nodes@.len(),
    {
        let c = self.children_named(p, name, false);
        let total = self.nodes.len();
        proof {
            lemma_named_children_ordered(self.nodes@, p as int, name@, false, total as int);
        }
        if c.len() > 0 {
            Some(c[0])
        } else {
            None
        }
    }

    /// The text of the first child of node `p` called `name`, if there is one.
    pub fn child_text(&self, p: usize, name: &str) -> (r: Option<String>)
        ensures
            opt_view(r) == child_text(self.nodes@, p as int, name@),
    {
        match self.first_child(p, name) {
            Some(j) => Some(node_text(&self.nodes[j])),
            None => None,
        }
    }
}

/// The text of a node, empty where it has none.
pub fn node_text(n: &XmlNode) -> (r: String)
    ensures
        r@ == text_of(*n),
{
    match &n.text {
        Some(t) => t.clone(),
        None => String::new(),
    }
}

/// The value of the first attribute of `n` called `name`.
pub fn attribute(n: &XmlNode, name: &str) -> (r: Option<String>)
    ensures
        opt_view(r) == attribute_of(*n, name@),
{
    let mut i: usize = 0;
    while i < n.attributes.len()
        invariant
            i <= n.attributes@.len(),
            attribute_of(*n, name@) == attribute_from(n.attributes@, name@, i as int),
        decreases n.attributes@.len() - i,
    {
        if str_eq(n.attributes[i].name.as_str(), name) {
            return Some(n.attributes[i].value.clone());
        }
        i = i + 1;
    }
    None
}

} // verus!
