//! An imposing hero banner to showcase something.

use vstd::prelude::*;

use crate::classes::{
    base_class, class_views, composed, count_class, ext_views, flag_class, lemma_count_concat,
    lemma_count_occurrence, lemma_flag_class_count, lemma_opt_mod_count, opt_mod, push_class,
    push_extension, push_opt_mod, ModifierClass,
};
use crate::markup::{clone_node, models_of, plain_element, Node, NodeModel};
use crate::render::Render;

verus! {

/// The four sizes available for heroes.
#[derive(Clone, Copy, Debug, PartialEq, Eq, Structural)]
pub enum HeroSize {
    Medium,
    Large,
    Fullheight,
    FullheightWithNavbar,
}

impl ModifierClass for HeroSize {
    open spec fn class(&self) -> Seq<char> {
        match self {
            HeroSize::Medium => "is-medium"@,
            HeroSize::Large => "is-large"@,
            HeroSize::Fullheight => "is-fullheight"@,
            HeroSize::FullheightWithNavbar => "is-fullheight-with-navbar"@,
        }
    }

    fn class_text(&self) -> (r: String) {
        match self {
            HeroSize::Medium => "is-medium".to_owned(),
            HeroSize::Large => "is-large".to_owned(),
            HeroSize::Fullheight => "is-fullheight".to_owned(),
            HeroSize::FullheightWithNavbar => "is-fullheight-with-navbar".to_owned(),
        }
    }
}

/// The configuration of a hero banner.
pub struct HeroProps {
    /// Extra classes for the hero container.
    pub classes: Option<Vec<String>>,
    /// The contents of the hero-head section.
    pub head: Option<Node>,
    /// Optional classes to add to the hero-head container.
    pub head_classes: Option<Vec<String>>,
    /// The contents of the hero-body section.
    pub body: Node,
    /// Optional classes to add to the hero-body container.
    pub body_classes: Option<Vec<String>>,
    /// The contents of the hero-foot section.
    pub foot: Option<Node>,
    /// Optional classes to add to the hero-foot container.
    pub foot_classes: Option<Vec<String>>,
    /// With a fixed navbar, have the hero occupy the viewport height minus
    /// the navbar height.
    pub fixed_nav: bool,
    /// Generate a subtle gradient for the hero.
    pub bold: bool,
    /// The size for this hero.
    pub size: Option<HeroSize>,
}

impl HeroProps {
    /// The composed class list: `hero`, the extension classes, then one
    /// modifier per selected option, in property order.
    pub open spec fn spec_classes(self) -> Seq<Seq<char>> {
        composed(
            "hero"@,
            ext_views(self.classes),
            flag_class(self.fixed_nav, "is-fullheight-with-navbar"@) + flag_class(
                self.bold,
                "is-bold"@,
            ) + opt_mod(self.size),
        )
    }

    /// The head section: one `div.hero-head` when head content is given,
    /// nothing otherwise.
    pub open spec fn head_models(self) -> Seq<NodeModel> {
        match self.head {
            Option::Some(h) => seq![
                NodeModel::Element {
                    tag: "div"@,
                    attrs: Seq::empty(),
                    classes: seq!["hero-head"@] + ext_views(self.head_classes),
                    children: seq![h.model()],
                },
            ],
            Option::None => Seq::empty(),
        }
    }

    /// The body section: always one `div.hero-body`.
    pub open spec fn body_model(self) -> NodeModel {
        NodeModel::Element {
            tag: "div"@,
            attrs: Seq::empty(),
            classes: seq!["hero-body"@] + ext_views(self.body_classes),
            children: seq![self.body.model()],
        }
    }

    /// The foot section: one `div.hero-foot` when foot content is given,
    /// nothing otherwise.
    pub open spec fn foot_models(self) -> Seq<NodeModel> {
        match self.foot {
            Option::Some(f) => seq![
                NodeModel::Element {
                    tag: "div"@,
                    attrs: Seq::empty(),
                    classes: seq!["hero-foot"@] + ext_views(self.foot_classes),
                    children: seq![f.model()],
                },
            ],
            Option::None => Seq::empty(),
        }
    }
}

/// An imposing hero banner to showcase something.
pub struct Hero {
    pub props: HeroProps,
}

impl HeroProps {
    /// A configuration with the mandatory body content and every optional
    /// field at its default.
    pub fn new(body: Node) -> (r: Self)
        ensures
            r.body == body,
            r.classes is None,
            r.head is None,
            r.head_classes is None,
            r.body_classes is None,
            r.foot is None,
            r.foot_classes is None,
            !r.fixed_nav,
            !r.bold,
            r.size is None,
    {
        HeroProps {
            classes: None,
            head: None,
            head_classes: None,
            body,
            body_classes: None,
            foot: None,
            foot_classes: None,
            fixed_nav: false,
            bold: false,
            size: None,
        }
    }
}

impl Hero {
    pub fn create(props: HeroProps) -> (r: Self)
        ensures
            r.props == props,
    {
        Hero { props }
    }

    pub fn update(&mut self, _msg: ()) -> (rerender: bool)
        ensures
            !rerender,
            *final(self) == *old(self),
    {
        false
    }
}

/// Build one hero section: the given base class plus its extension classes,
/// around the given content.
fn hero_section(base: &str, ext: &Option<Vec<String>>, content: &Node) -> (r: Node)
    ensures
        r.model() == (NodeModel::Element {
            tag: "div"@,
            attrs: Seq::empty(),
            classes: seq![base@] + ext_views(*ext),
            children: seq![content.model()],
        }),
{
    let mut classes = base_class(base);
    push_extension(&mut classes, ext);
    let mut kids: Vec<Node> = Vec::new();
    kids.push(clone_node(content));
    proof {
        broadcast use crate::markup::lemma_models_of;

        assert(class_views(classes@) =~= seq![base@] + ext_views(*ext));
        assert(models_of(kids@) =~= seq![content.model()]);
    }
    plain_element("div", classes, kids)
}

impl Render for Hero {
    open spec fn spec_view(&self) -> NodeModel {
        NodeModel::Element {
            tag: "section"@,
            attrs: Seq::empty(),
            classes: self.props.spec_classes(),
            children: self.props.head_models() + seq![self.props.body_model()]
                + self.props.foot_models(),
        }
    }

    fn view(&self) -> (r: Node) {
        let mut classes = base_class("hero");
        push_extension(&mut classes, &self.props.classes);
        if self.props.fixed_nav {
            push_class(&mut classes, "is-fullheight-with-navbar");
        }
        if self.props.bold {
            push_class(&mut classes, "is-bold");
        }
        push_opt_mod(&mut classes, &self.props.size);
        let mut kids: Vec<Node> = Vec::new();
        if let Option::Some(head) = &self.props.head {
            kids.push(hero_section("hero-head", &self.props.head_classes, head));
        }
        kids.push(hero_section("hero-body", &self.props.body_classes, &self.props.body));
        if let Option::Some(foot) = &self.props.foot {
            kids.push(hero_section("hero-foot", &self.props.foot_classes, foot));
        }
        proof {
            broadcast use crate::markup::lemma_models_of;

            assert(class_views(classes@) =~= self.props.spec_classes());
            assert(models_of(kids@) =~= self.spec_view()->children);
        }
        plain_element("section", classes, kids)
    }
}

/// For every combination of the modifier options: the composed class list
/// holds the base class `hero` exactly once, the extension classes verbatim
/// directly after it, and each modifier class once per option that derives
/// it — the navbar-height class can come from the fixed-navbar flag and
/// from the size selection, and those contributions add — provided the
/// caller's extension classes repeat none of them.
#[verifier::rlimit(100)]
pub proof fn lemma_hero_class_counts(p: HeroProps)
    requires
        !ext_views(p.classes).contains("hero"@),
        !ext_views(p.classes).contains("is-bold"@),
        forall|z: HeroSize| !ext_views(p.classes).contains(z.class()),
    ensures
        count_class(p.spec_classes(), "hero"@) == 1,
        p.spec_classes().subrange(1, 1 + ext_views(p.classes).len() as int) == ext_views(p.classes),
        count_class(p.spec_classes(), "is-bold"@) == if p.bold {
            1int
        } else {
            0int
        },
        count_class(p.spec_classes(), "is-fullheight-with-navbar"@) == (if p.fixed_nav {
            1int
        } else {
            0int
        }) + (if p.size == Option::Some(HeroSize::FullheightWithNavbar) {
            1int
        } else {
            0int
        }),
        forall|z: HeroSize|
            count_class(p.spec_classes(), z.class()) == (if p.size == Option::Some(z) {
                1int
            } else {
                0int
            }) + (if z == HeroSize::FullheightWithNavbar && p.fixed_nav {
                1int
            } else {
                0int
            }),
{
    reveal_strlit("hero");
    reveal_strlit("is-fullheight-with-navbar");
    reveal_strlit("is-bold");
    reveal_strlit("is-medium");
    reveal_strlit("is-large");
    reveal_strlit("is-fullheight");
    assert("hero"@.len() == 4);
    assert("is-fullheight-with-navbar"@.len() == 25);
    assert("is-bold"@.len() == 7);
    assert("is-medium"@.len() == 9);
    assert("is-large"@.len() == 8);
    assert("is-fullheight"@.len() == 13);
    let base = seq!["hero"@];
    let ext = ext_views(p.classes);
    let m1 = flag_class(p.fixed_nav, "is-fullheight-with-navbar"@);
    let m2 = flag_class(p.bold, "is-bold"@);
    let m3 = opt_mod(p.size);
    assert(base =~= flag_class(true, "hero"@));
    assert forall|c: Seq<char>|
        #[trigger] count_class(p.spec_classes(), c) == count_class(base, c) + count_class(ext, c)
            + count_class(m1, c) + count_class(m2, c) + count_class(m3, c) by {
        lemma_count_concat(base + ext + m1 + m2, m3, c);
        lemma_count_concat(base + ext + m1, m2, c);
        lemma_count_concat(base + ext, m1, c);
        lemma_count_concat(base, ext, c);
        assert(p.spec_classes() =~= base + ext + m1 + m2 + m3);
    }
    lemma_flag_class_count(true, "hero"@, "hero"@);
    lemma_flag_class_count(p.fixed_nav, "is-fullheight-with-navbar"@, "hero"@);
    lemma_flag_class_count(p.bold, "is-bold"@, "hero"@);
    lemma_opt_mod_count(p.size, "hero"@);
    lemma_count_occurrence(ext, "hero"@);
    lemma_flag_class_count(true, "hero"@, "is-bold"@);
    lemma_flag_class_count(p.fixed_nav, "is-fullheight-with-navbar"@, "is-bold"@);
    lemma_flag_class_count(p.bold, "is-bold"@, "is-bold"@);
    lemma_opt_mod_count(p.size, "is-bold"@);
    lemma_count_occurrence(ext, "is-bold"@);
    lemma_flag_class_count(true, "hero"@, "is-fullheight-with-navbar"@);
    lemma_flag_class_count(p.fixed_nav, "is-fullheight-with-navbar"@, "is-fullheight-with-navbar"@);
    lemma_flag_class_count(p.bold, "is-bold"@, "is-fullheight-with-navbar"@);
    lemma_opt_mod_count(p.size, "is-fullheight-with-navbar"@);
    lemma_count_occurrence(ext, "is-fullheight-with-navbar"@);
    assert(HeroSize::FullheightWithNavbar.class() == "is-fullheight-with-navbar"@);
    assert(!ext_views(p.classes).contains("is-fullheight-with-navbar"@));
    if let Option::Some(x) = p.size {
        assert(x.class() == "is-fullheight-with-navbar"@ ==> x == HeroSize::FullheightWithNavbar)
            by {
            assert(x.class() == "is-fullheight-with-navbar"@ ==> x.class().len() == 25);
        }
    }
    assert forall|z: HeroSize|
        count_class(p.spec_classes(), z.class()) == (if p.size == Option::Some(z) {
            1int
        } else {
            0int
        }) + (if z == HeroSize::FullheightWithNavbar && p.fixed_nav {
            1int
        } else {
            0int
        }) by {
    lemma_flag_class_count(true, "hero"@, z.class());
    lemma_flag_class_count(p.fixed_nav, "is-fullheight-with-navbar"@, z.class());
    lemma_flag_class_count(p.bold, "is-bold"@, z.class());
    lemma_opt_mod_count(p.size, z.class());
    lemma_count_occurrence(ext, z.class());
    }
    crate::classes::lemma_composed_extension_verbatim("hero"@, ext, m1 + m2 + m3);
    assert(p.spec_classes() == composed("hero"@, ext, m1 + m2 + m3));
}

} // verus!
