//! The markup tree that every component renders: an element with a tag name,
//! plain attributes, a class list and child nodes, or a text node.

use vstd::prelude::*;

use vstd::string::StringExecFns;

use crate::classes::{class_views, ext_views};

verus! {

/// A plain attribute on a markup element.
#[derive(Debug)]
pub struct Attr {
    pub name: String,
    pub value: String,
}

/// The mathematical model of an attribute: its name and value as
/// character sequences.
pub struct AttrModel {
    pub name: Seq<char>,
    pub value: Seq<char>,
}

/// A rendered markup node: an element carrying a tag name, attributes,
/// a class list and children, or a run of text.
#[derive(Debug)]
pub enum Node {
    Element { tag: String, attrs: Vec<Attr>, classes: Vec<String>, children: Vec<Node> },
    Text(String),
}

/// The mathematical model of a markup node, with every string replaced by
/// its character sequence.
#[verifier::ext_equal]
pub enum NodeModel {
    Element {
        tag: Seq<char>,
        attrs: Seq<AttrModel>,
        classes: Seq<Seq<char>>,
        children: Seq<NodeModel>,
    },
    Text(Seq<char>),
}

impl Attr {
    pub open spec fn model(self) -> AttrModel {
        AttrModel { name: self.name@, value: self.value@ }
    }
}

/// The models of a sequence of attributes, in order.
pub open spec fn attr_models_of(attrs: Seq<Attr>) -> Seq<AttrModel> {
    attrs.map_values(|a: Attr| a.model())
}

impl Node {
    /// The model of a node, abstracting every string to its character
    /// sequence.
    pub open spec fn model(self) -> NodeModel
        decreases self,
        via Self::model_decreases
    {
        match self {
            Node::Element { tag, attrs, classes, children } => NodeModel::Element {
                tag: tag@,
                attrs: attr_models_of(attrs@),
                classes: class_views(classes@),
                children: models_of(children@),
            },
            Node::Text(s) => NodeModel::Text(s@),
        }
    }

    #[via_fn]
    proof fn model_decreases(self) {
        if self is Element {
            assert(decreases_to!(self => self->children));
            assert(decreases_to!(self->children => self->children@));
        }
    }
}

/// The models of a sequence of nodes, in order.
pub open spec fn models_of(nodes: Seq<Node>) -> Seq<NodeModel>
    decreases nodes,
{
    if nodes.len() == 0 {
        Seq::empty()
    } else {
        models_of(nodes.drop_last()).push(nodes.last().model())
    }
}

/// What `models_of` yields: one model per node, in order.
pub broadcast proof fn lemma_models_of(nodes: Seq<Node>)
    ensures
        (#[trigger] models_of(nodes)).len() == nodes.len(),
        forall|i: int| 0 <= i < nodes.len() ==> models_of(nodes)[i] == nodes[i].model(),
    decreases nodes.len(),
{
    if nodes.len() > 0 {
        lemma_models_of(nodes.drop_last());
    }
}

/// Clone a vector of nodes; the models of the copies equal the originals'.
#[verifier::loop_isolation(false)]
pub fn clone_nodes(nodes: &Vec<Node>) -> (r: Vec<Node>)
    ensures
        models_of(r@) == models_of(nodes@),
{
    let mut out: Vec<Node> = Vec::new();
    let mut i: usize = 0;
    while i < nodes.len()
        invariant
            i <= nodes.len(),
            out@.len() == i as int,
            forall|j: int| 0 <= j < i as int ==> out@[j].model() == nodes@[j].model(),
        decreases nodes.len() - i,
    {
        out.push(clone_node(&nodes[i]));
        i = i + 1;
    }
    proof {
        broadcast use lemma_models_of;

        assert(models_of(out@) =~= models_of(nodes@));
    }
    out
}

/// Clone one node; the model of the copy equals the original's.
#[verifier::loop_isolation(false)]
pub fn clone_node(node: &Node) -> (r: Node)
    ensures
        r.model() == node.model(),
    decreases *node,
{
    match node {
        Node::Text(s) => Node::Text(s.clone()),
        Node::Element { tag, attrs, classes, children } => {
            let mut out_attrs: Vec<Attr> = Vec::new();
            let mut i: usize = 0;
            while i < attrs.len()
                invariant
                    i <= attrs.len(),
                    out_attrs@.len() == i as int,
                    forall|j: int| 0 <= j < i as int ==> out_attrs@[j].model() == attrs@[j].model(),
                decreases attrs.len() - i,
            {
                out_attrs.push(Attr { name: attrs[i].name.clone(), value: attrs[i].value.clone() });
                i = i + 1;
            }
            let mut out_classes: Vec<String> = Vec::new();
            let mut k: usize = 0;
            while k < classes.len()
                invariant
                    k <= classes.len(),
                    out_classes@.len() == k as int,
                    forall|j: int| 0 <= j < k as int ==> out_classes@[j]@ == classes@[j]@,
                decreases classes.len() - k,
            {
                out_classes.push(classes[k].clone());
                k = k + 1;
            }
            let mut out_children: Vec<Node> = Vec::new();
            let mut m: usize = 0;
            while m < children.len()
                invariant
                    m <= children.len(),
                    out_children@.len() == m as int,
                    forall|j: int| 0 <= j < m as int ==> out_children@[j].model()
                        == children@[j].model(),
                decreases children.len() - m,
            {
                proof {
                    assert(decreases_to!(*node => node->children));
                    assert(decreases_to!(node->children => node->children@));
                    assert(decreases_to!(node->children@ => node->children@[m as int]));
                    assert(children@ == node->children@);
                }
                out_children.push(clone_node(&children[m]));
                m = m + 1;
            }
            let r = Node::Element {
                tag: tag.clone(),
                attrs: out_attrs,
                classes: out_classes,
                children: out_children,
            };
            proof {
                broadcast use lemma_models_of;

                assert(models_of(out_children@) =~= models_of(children@));
                assert(attr_models_of(out_attrs@) =~= attr_models_of(attrs@));
                assert(class_views(out_classes@) =~= class_views(classes@));
                assert(r.model() =~~= node.model());
            }
            r
        },
    }
}

/// The view of an optional text, with absence as the empty text.
pub open spec fn opt_text(s: Option<String>) -> Seq<char> {
    match s {
        Option::Some(t) => t@,
        Option::None => Seq::empty(),
    }
}

/// An optional text as an owned string, with absence as the empty string.
pub fn opt_string(s: &Option<String>) -> (r: String)
    ensures
        r@ == opt_text(*s),
{
    match s {
        Option::Some(t) => t.clone(),
        Option::None => String::new(),
    }
}

/// Build a text node.
pub fn text(content: &str) -> (r: Node)
    ensures
        r.model() == NodeModel::Text(content@),
{
    Node::Text(content.to_owned())
}

/// Build a plain attribute.
pub fn attr(name: &str, value: String) -> (r: Attr)
    ensures
        r.model() == (AttrModel { name: name@, value: value@ }),
{
    Attr { name: name.to_owned(), value }
}

/// Build a boolean attribute, carrying the flag as its value text.
pub fn flag_attr(name: &str, on: bool) -> (r: Attr)
    ensures
        r.model() == (AttrModel {
            name: name@,
            value: if on {
                "true"@
            } else {
                "false"@
            },
        }),
{
    let value = if on {
        "true".to_owned()
    } else {
        "false".to_owned()
    };
    Attr { name: name.to_owned(), value }
}

/// Build an element node from its parts.
pub fn element(tag: &str, classes: Vec<String>, attrs: Vec<Attr>, children: Vec<Node>) -> (r: Node)
    ensures
        r.model() == (NodeModel::Element {
            tag: tag@,
            attrs: attr_models_of(attrs@),
            classes: class_views(classes@),
            children: models_of(children@),
        }),
{
    Node::Element { tag: tag.to_owned(), attrs, classes, children }
}

/// Build an element node that carries no attributes.
pub fn plain_element(tag: &str, classes: Vec<String>, children: Vec<Node>) -> (r: Node)
    ensures
        r.model() == (NodeModel::Element {
            tag: tag@,
            attrs: Seq::empty(),
            classes: class_views(classes@),
            children: models_of(children@),
        }),
{
    let r = Node::Element { tag: tag.to_owned(), attrs: Vec::new(), classes, children };
    proof {
        assert(attr_models_of(Seq::<Attr>::empty()) =~= Seq::<AttrModel>::empty());
    }
    r
}

/// The decimal digit character for `d`.
pub open spec fn digit_char(d: nat) -> char
    recommends
        d < 10,
{
    if d == 0 {
        '0'
    } else if d == 1 {
        '1'
    } else if d == 2 {
        '2'
    } else if d == 3 {
        '3'
    } else if d == 4 {
        '4'
    } else if d == 5 {
        '5'
    } else if d == 6 {
        '6'
    } else if d == 7 {
        '7'
    } else if d == 8 {
        '8'
    } else {
        '9'
    }
}

/// The decimal text of `n`, without leading zeroes.
pub open spec fn decimal_digits(n: nat) -> Seq<char>
    decreases n,
{
    if n < 10 {
        seq![digit_char(n)]
    } else {
        decimal_digits(n / 10) + seq![digit_char(n % 10)]
    }
}

/// One decimal digit as text.
fn digit_text(d: u32) -> (r: String)
    requires
        d < 10,
    ensures
        r@ == seq![digit_char(d as nat)],
{
    let r = match d {
        0 => "0".to_owned(),
        1 => "1".to_owned(),
        2 => "2".to_owned(),
        3 => "3".to_owned(),
        4 => "4".to_owned(),
        5 => "5".to_owned(),
        6 => "6".to_owned(),
        7 => "7".to_owned(),
        8 => "8".to_owned(),
        _ => "9".to_owned(),
    };
    proof {
        reveal_strlit("0");
        reveal_strlit("1");
        reveal_strlit("2");
        reveal_strlit("3");
        reveal_strlit("4");
        reveal_strlit("5");
        reveal_strlit("6");
        reveal_strlit("7");
        reveal_strlit("8");
        reveal_strlit("9");
        assert(r@ =~= seq![digit_char(d as nat)]);
    }
    r
}

/// The decimal text of `n`.
pub fn u32_text(n: u32) -> (r: String)
    ensures
        r@ == decimal_digits(n as nat),
    decreases n,
{
    if n < 10 {
        digit_text(n)
    } else {
        let q: u32 = n / 10;
        let d: u32 = n % 10;
        u32_text(q).concat(digit_text(d).as_str())
    }
}

/// The texts joined by the separator: nothing for an empty list, and one
/// separator between each two neighbours otherwise.
pub open spec fn joined(vals: Seq<Seq<char>>, sep: Seq<char>) -> Seq<char>
    decreases vals.len(),
{
    if vals.len() == 0 {
        Seq::empty()
    } else if vals.len() == 1 {
        vals[0]
    } else {
        joined(vals.drop_last(), sep) + sep + vals.last()
    }
}

/// Join the given texts with the separator.
#[verifier::loop_isolation(false)]
pub fn join_with(vals: &Vec<String>, sep: &str) -> (r: String)
    ensures
        r@ == joined(class_views(vals@), sep@),
{
    let mut r = String::new();
    let mut i: usize = 0;
    while i < vals.len()
        invariant
            i <= vals.len(),
            r@ == joined(class_views(vals@.take(i as int)), sep@),
        decreases vals.len() - i,
    {
        if i > 0 {
            r.append(sep);
        }
        r.append(vals[i].as_str());
        proof {
            let prev = class_views(vals@.take(i as int));
            let next = class_views(vals@.take(i + 1 as int));
            assert(next.drop_last() =~= prev);
            assert(next.last() == vals@[i as int]@);
        }
        i = i + 1;
    }
    proof {
        assert(vals@.take(vals@.len() as int) =~= vals@);
    }
    r
}

/// Whether two attribute lists carry the same models.
#[verifier::loop_isolation(false)]
fn attrs_eq(a: &Vec<Attr>, b: &Vec<Attr>) -> (r: bool)
    ensures
        r == (attr_models_of(a@) == attr_models_of(b@)),
{
    if a.len() != b.len() {
        proof {
            assert(attr_models_of(a@).len() == a@.len());
            assert(attr_models_of(b@).len() == b@.len());
        }
        return false;
    }
    let mut i: usize = 0;
    while i < a.len()
        invariant
            i <= a.len(),
            a@.len() == b@.len(),
            forall|j: int| 0 <= j < i as int ==> a@[j].model() == b@[j].model(),
        decreases a.len() - i,
    {
        if !(a[i].name.eq(&b[i].name) && a[i].value.eq(&b[i].value)) {
            proof {
                assert(attr_models_of(a@)[i as int] != attr_models_of(b@)[i as int]);
            }
            return false;
        }
        i = i + 1;
    }
    proof {
        assert(attr_models_of(a@) =~= attr_models_of(b@));
    }
    true
}

/// Whether two class lists carry the same views.
#[verifier::loop_isolation(false)]
fn strings_eq(a: &Vec<String>, b: &Vec<String>) -> (r: bool)
    ensures
        r == (class_views(a@) == class_views(b@)),
{
    if a.len() != b.len() {
        proof {
            assert(class_views(a@).len() == a@.len());
            assert(class_views(b@).len() == b@.len());
        }
        return false;
    }
    let mut i: usize = 0;
    while i < a.len()
        invariant
            i <= a.len(),
            a@.len() == b@.len(),
            forall|j: int| 0 <= j < i as int ==> a@[j]@ == b@[j]@,
        decreases a.len() - i,
    {
        if !a[i].eq(&b[i]) {
            proof {
                assert(class_views(a@)[i as int] != class_views(b@)[i as int]);
            }
            return false;
        }
        i = i + 1;
    }
    proof {
        assert(class_views(a@) =~= class_views(b@));
    }
    true
}

/// Whether two nodes carry the same model: the same shape with the same
/// texts throughout.
#[verifier::loop_isolation(false)]
pub fn node_eq(a: &Node, b: &Node) -> (r: bool)
    ensures
        r == (a.model() == b.model()),
    decreases *a,
{
    match (a, b) {
        (Node::Text(x), Node::Text(y)) => {
            let r = x.eq(y);
            proof {
                if x@ == y@ {
                    assert(a.model() =~= b.model());
                }
            }
            r
        },
        (
            Node::Element { tag: t1, attrs: a1, classes: c1, children: k1 },
            Node::Element { tag: t2, attrs: a2, classes: c2, children: k2 },
        ) => {
            let tags = t1.eq(t2);
            let ats = attrs_eq(a1, a2);
            let cls = strings_eq(c1, c2);
            proof {
                assert(decreases_to!(*a => a->children));
                assert(k1@ == a->children@);
            }
            let kids = nodes_eq(k1, k2);
            let r = tags && ats && cls && kids;
            proof {
                if r {
                    assert(a.model() =~= b.model());
                }
            }
            r
        },
        _ => false,
    }
}

/// Whether two node lists carry the same models, in the same order.
#[verifier::loop_isolation(false)]
pub fn nodes_eq(a: &Vec<Node>, b: &Vec<Node>) -> (r: bool)
    ensures
        r == (models_of(a@) == models_of(b@)),
    decreases *a,
{
    proof {
        broadcast use lemma_models_of;

    }
    if a.len() != b.len() {
        return false;
    }
    let mut i: usize = 0;
    while i < a.len()
        invariant
            i <= a.len(),
            a@.len() == b@.len(),
            forall|j: int| 0 <= j < i as int ==> a@[j].model() == b@[j].model(),
        decreases a.len() - i,
    {
        proof {
            assert(decreases_to!(*a => a@));
            assert(decreases_to!(a@ => a@[i as int]));
        }
        if !node_eq(&a[i], &b[i]) {
            proof {
                assert(models_of(a@)[i as int] != models_of(b@)[i as int]);
            }
            return false;
        }
        i = i + 1;
    }
    proof {
        assert(models_of(a@) =~= models_of(b@));
    }
    true
}

/// Whether two optional text lists are equal as values: both absent, or both
/// present with the same texts in the same order. An absent list and an
/// empty one differ.
pub open spec fn opt_texts_eq(a: Option<Vec<String>>, b: Option<Vec<String>>) -> bool {
    match (a, b) {
        (Option::None, Option::None) => true,
        (Option::Some(x), Option::Some(y)) => class_views(x@) == class_views(y@),
        _ => false,
    }
}

/// Compare two optional text lists as values.
pub fn opt_strings_eq(a: &Option<Vec<String>>, b: &Option<Vec<String>>) -> (r: bool)
    ensures
        r == opt_texts_eq(*a, *b),
{
    match (a, b) {
        (Option::None, Option::None) => true,
        (Option::Some(x), Option::Some(y)) => strings_eq(x, y),
        _ => false,
    }
}

} // verus!
