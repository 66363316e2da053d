//! Responsive horizontal navigation tabs.

use vstd::prelude::*;

use crate::classes::{
    base_class, class_views, composed, count_class, ext_views, flag_class, lemma_count_concat,
    lemma_count_occurrence, lemma_flag_class_count, lemma_opt_mod_count, opt_mod, push_class,
    push_extension, push_opt_mod, ModifierClass,
};
use crate::markup::{clone_nodes, models_of, plain_element, Node, NodeModel};
use crate::render::Render;
use crate::{Alignment, Size};

verus! {

/// The configuration of a tab bar.
pub struct TabsProps {
    pub children: Vec<Node>,
    pub classes: Option<Vec<String>>,
    /// The alignment of this component.
    pub alignment: Option<Alignment>,
    /// The size of this component.
    pub size: Option<Size>,
    /// Add a more classic style with borders to this component.
    pub boxed: bool,
    /// Add the "radio button" style to the elements of this component.
    pub toggle: bool,
    /// Make the tab elements of this component rounded.
    pub rounded: bool,
    /// Make this component fullwidth.
    pub fullwidth: bool,
}

impl TabsProps {
    /// The composed class list: `tabs`, the extension classes, then one
    /// modifier per selected option, in property order.
    pub open spec fn spec_classes(self) -> Seq<Seq<char>> {
        composed(
            "tabs"@,
            ext_views(self.classes),
            opt_mod(self.alignment) + opt_mod(self.size) + flag_class(self.boxed, "is-boxed"@)
                + flag_class(self.toggle, "is-toggle"@) + flag_class(self.rounded, "is-rounded"@)
                + flag_class(self.fullwidth, "is-fullwidth"@),
        )
    }
}

/// Simple responsive horizontal navigation tabs, with different styles.
pub struct Tabs {
    pub props: TabsProps,
}

impl Tabs {
    pub fn create(props: TabsProps) -> (r: Self)
        ensures
            r.props == props,
    {
        Tabs { props }
    }

    pub fn update(&mut self, _msg: ()) -> (rerender: bool)
        ensures
            !rerender,
            *final(self) == *old(self),
    {
        false
    }
}

impl Render for Tabs {
    open spec fn spec_view(&self) -> NodeModel {
        NodeModel::Element {
            tag: "div"@,
            attrs: Seq::empty(),
            classes: self.props.spec_classes(),
            children: seq![
                NodeModel::Element {
                    tag: "ul"@,
                    attrs: Seq::empty(),
                    classes: Seq::empty(),
                    children: models_of(self.props.children@),
                },
            ],
        }
    }

    fn view(&self) -> (r: Node) {
        let mut classes = base_class("tabs");
        push_extension(&mut classes, &self.props.classes);
        push_opt_mod(&mut classes, &self.props.alignment);
        push_opt_mod(&mut classes, &self.props.size);
        if self.props.boxed {
            push_class(&mut classes, "is-boxed");
        }
        if self.props.toggle {
            push_class(&mut classes, "is-toggle");
        }
        if self.props.rounded {
            push_class(&mut classes, "is-rounded");
        }
        if self.props.fullwidth {
            push_class(&mut classes, "is-fullwidth");
        }
        let list = plain_element("ul", Vec::new(), clone_nodes(&self.props.children));
        let mut kids: Vec<Node> = Vec::new();
        kids.push(list);
        proof {
            broadcast use crate::markup::lemma_models_of;

            assert(class_views(classes@) =~= self.props.spec_classes());
            assert(class_views(Seq::<String>::empty()) =~= Seq::<Seq<char>>::empty());
            assert(models_of(kids@) =~= self.spec_view()->children);
        }
        plain_element("div", classes, kids)
    }
}

/// For every combination of the modifier options: the composed class list
/// holds the base class `tabs` exactly once, the extension classes verbatim
/// directly after it, and each modifier class exactly once when its option
/// is set and not at all when it is unset — provided the caller's extension
/// classes repeat none of them.
#[verifier::rlimit(100)]
pub proof fn lemma_tabs_class_counts(p: TabsProps)
    requires
        !ext_views(p.classes).contains("tabs"@),
        !ext_views(p.classes).contains("is-boxed"@),
        !ext_views(p.classes).contains("is-toggle"@),
        !ext_views(p.classes).contains("is-rounded"@),
        !ext_views(p.classes).contains("is-fullwidth"@),
        forall|a: Alignment| !ext_views(p.classes).contains(a.class()),
        forall|z: Size| !ext_views(p.classes).contains(z.class()),
    ensures
        count_class(p.spec_classes(), "tabs"@) == 1,
        p.spec_classes().subrange(1, 1 + ext_views(p.classes).len() as int) == ext_views(p.classes),
        forall|a: Alignment|
            count_class(p.spec_classes(), a.class()) == if p.alignment == Option::Some(a) {
                1int
            } else {
                0int
            },
        forall|z: Size|
            count_class(p.spec_classes(), z.class()) == if p.size == Option::Some(z) {
                1int
            } else {
                0int
            },
        count_class(p.spec_classes(), "is-boxed"@) == if p.boxed {
            1int
        } else {
            0int
        },
        count_class(p.spec_classes(), "is-toggle"@) == if p.toggle {
            1int
        } else {
            0int
        },
        count_class(p.spec_classes(), "is-rounded"@) == if p.rounded {
            1int
        } else {
            0int
        },
        count_class(p.spec_classes(), "is-fullwidth"@) == if p.fullwidth {
            1int
        } else {
            0int
        },
{
    reveal_strlit("tabs");
    reveal_strlit("is-boxed");
    reveal_strlit("is-toggle");
    reveal_strlit("is-rounded");
    reveal_strlit("is-fullwidth");
    reveal_strlit("is-left");
    reveal_strlit("is-centered");
    reveal_strlit("is-right");
    reveal_strlit("is-small");
    reveal_strlit("is-normal");
    reveal_strlit("is-medium");
    reveal_strlit("is-large");
    assert("tabs"@.len() == 4);
    assert("is-boxed"@.len() == 8);
    assert("is-toggle"@.len() == 9);
    assert("is-rounded"@.len() == 10);
    assert("is-fullwidth"@.len() == 12);
    assert("is-left"@.len() == 7);
    assert("is-centered"@.len() == 11);
    assert("is-right"@.len() == 8);
    assert("is-small"@.len() == 8);
    assert("is-normal"@.len() == 9);
    assert("is-medium"@.len() == 9);
    assert("is-large"@.len() == 8);
    assert("is-boxed"@[3] == 'b' && "is-right"@[3] == 'r' && "is-small"@[3] == 's'
        && "is-large"@[3] == 'l');
    assert("is-toggle"@[3] == 't' && "is-normal"@[3] == 'n' && "is-medium"@[3] == 'm');
    let base = seq!["tabs"@];
    let ext = ext_views(p.classes);
    let m1 = opt_mod(p.alignment);
    let m2 = opt_mod(p.size);
    let m3 = flag_class(p.boxed, "is-boxed"@);
    let m4 = flag_class(p.toggle, "is-toggle"@);
    let m5 = flag_class(p.rounded, "is-rounded"@);
    let m6 = flag_class(p.fullwidth, "is-fullwidth"@);
    assert(base =~= flag_class(true, "tabs"@));
    assert forall|c: Seq<char>|
        #[trigger] count_class(p.spec_classes(), c) == count_class(base, c) + count_class(ext, c)
            + count_class(m1, c) + count_class(m2, c) + count_class(m3, c) + count_class(m4, c)
            + count_class(m5, c) + count_class(m6, c) by {
        lemma_count_concat(base + ext + m1 + m2 + m3 + m4 + m5, m6, c);
        lemma_count_concat(base + ext + m1 + m2 + m3 + m4, m5, c);
        lemma_count_concat(base + ext + m1 + m2 + m3, m4, c);
        lemma_count_concat(base + ext + m1 + m2, m3, c);
        lemma_count_concat(base + ext + m1, m2, c);
        lemma_count_concat(base + ext, m1, c);
        lemma_count_concat(base, ext, c);
        assert(p.spec_classes() =~= base + ext + m1 + m2 + m3 + m4 + m5 + m6);
    }
    lemma_flag_class_count(true, "tabs"@, "tabs"@);
    lemma_opt_mod_count(p.alignment, "tabs"@);
    lemma_opt_mod_count(p.size, "tabs"@);
    lemma_flag_class_count(p.boxed, "is-boxed"@, "tabs"@);
    lemma_flag_class_count(p.toggle, "is-toggle"@, "tabs"@);
    lemma_flag_class_count(p.rounded, "is-rounded"@, "tabs"@);
    lemma_flag_class_count(p.fullwidth, "is-fullwidth"@, "tabs"@);
    lemma_count_occurrence(ext, "tabs"@);
    lemma_flag_class_count(true, "tabs"@, "is-boxed"@);
    lemma_opt_mod_count(p.alignment, "is-boxed"@);
    lemma_opt_mod_count(p.size, "is-boxed"@);
    lemma_flag_class_count(p.boxed, "is-boxed"@, "is-boxed"@);
    lemma_flag_class_count(p.toggle, "is-toggle"@, "is-boxed"@);
    lemma_flag_class_count(p.rounded, "is-rounded"@, "is-boxed"@);
    lemma_flag_class_count(p.fullwidth, "is-fullwidth"@, "is-boxed"@);
    lemma_count_occurrence(ext, "is-boxed"@);
    lemma_flag_class_count(true, "tabs"@, "is-toggle"@);
    lemma_opt_mod_count(p.alignment, "is-toggle"@);
    lemma_opt_mod_count(p.size, "is-toggle"@);
    lemma_flag_class_count(p.boxed, "is-boxed"@, "is-toggle"@);
    lemma_flag_class_count(p.toggle, "is-toggle"@, "is-toggle"@);
    lemma_flag_class_count(p.rounded, "is-rounded"@, "is-toggle"@);
    lemma_flag_class_count(p.fullwidth, "is-fullwidth"@, "is-toggle"@);
    lemma_count_occurrence(ext, "is-toggle"@);
    lemma_flag_class_count(true, "tabs"@, "is-rounded"@);
    lemma_opt_mod_count(p.alignment, "is-rounded"@);
    lemma_opt_mod_count(p.size, "is-rounded"@);
    lemma_flag_class_count(p.boxed, "is-boxed"@, "is-rounded"@);
    lemma_flag_class_count(p.toggle, "is-toggle"@, "is-rounded"@);
    lemma_flag_class_count(p.rounded, "is-rounded"@, "is-rounded"@);
    lemma_flag_class_count(p.fullwidth, "is-fullwidth"@, "is-rounded"@);
    lemma_count_occurrence(ext, "is-rounded"@);
    lemma_flag_class_count(true, "tabs"@, "is-fullwidth"@);
    lemma_opt_mod_count(p.alignment, "is-fullwidth"@);
    lemma_opt_mod_count(p.size, "is-fullwidth"@);
    lemma_flag_class_count(p.boxed, "is-boxed"@, "is-fullwidth"@);
    lemma_flag_class_count(p.toggle, "is-toggle"@, "is-fullwidth"@);
    lemma_flag_class_count(p.rounded, "is-rounded"@, "is-fullwidth"@);
    lemma_flag_class_count(p.fullwidth, "is-fullwidth"@, "is-fullwidth"@);
    lemma_count_occurrence(ext, "is-fullwidth"@);
    assert forall|a: Alignment|
        count_class(p.spec_classes(), a.class()) == if p.alignment == Option::Some(a) {
            1int
        } else {
            0int
        } by {
        lemma_flag_class_count(true, "tabs"@, a.class());
        lemma_opt_mod_count(p.alignment, a.class());
        lemma_opt_mod_count(p.size, a.class());
        lemma_flag_class_count(p.boxed, "is-boxed"@, a.class());
        lemma_flag_class_count(p.toggle, "is-toggle"@, a.class());
        lemma_flag_class_count(p.rounded, "is-rounded"@, a.class());
        lemma_flag_class_count(p.fullwidth, "is-fullwidth"@, a.class());
        lemma_count_occurrence(ext, a.class());
    }
    assert forall|z: Size|
        count_class(p.spec_classes(), z.class()) == if p.size == Option::Some(z) {
            1int
        } else {
            0int
        } by {
        lemma_flag_class_count(true, "tabs"@, z.class());
        lemma_opt_mod_count(p.alignment, z.class());
        lemma_opt_mod_count(p.size, z.class());
        lemma_flag_class_count(p.boxed, "is-boxed"@, z.class());
        lemma_flag_class_count(p.toggle, "is-toggle"@, z.class());
        lemma_flag_class_count(p.rounded, "is-rounded"@, z.class());
        lemma_flag_class_count(p.fullwidth, "is-fullwidth"@, z.class());
        lemma_count_occurrence(ext, z.class());
    }
    crate::classes::lemma_composed_extension_verbatim(
        "tabs"@,
        ext,
        m1 + m2 + m3 + m4 + m5 + m6,
    );
    assert(p.spec_classes() == composed("tabs"@, ext, m1 + m2 + m3 + m4 + m5 + m6));
}

impl Default for TabsProps {
    /// The default configuration: every optional field unset.
    fn default() -> (r: Self)
        ensures
            r.children@ == Seq::<Node>::empty(),
            r.classes is None,
            r.alignment is None,
            r.size is None,
            !r.boxed,
            !r.toggle,
            !r.rounded,
            !r.fullwidth,
    {
        TabsProps {
            children: Vec::new(),
            classes: None,
            alignment: None,
            size: None,
            boxed: false,
            toggle: false,
            rounded: false,
            fullwidth: false,
        }
    }
}

} // verus!
