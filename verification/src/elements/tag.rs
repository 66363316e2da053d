//! A small tag label, and the container that groups tags together.

use vstd::prelude::*;

use crate::classes::{
    base_class, class_views, composed, count_class, ext_views, flag_class, lemma_count_concat,
    lemma_count_occurrence, lemma_flag_class_count, lemma_opt_mod_count, opt_mod, push_class,
    push_extension, push_opt_mod, ModifierClass,
};
use crate::markup::{clone_nodes, models_of, plain_element, Node, NodeModel};
use crate::render::{Render, RenderHandler, Rendered};
use crate::Size;

verus! {

/// The configuration of a tag label. The click handler is the host's own
/// value, carried untouched.
pub struct TagProps<H> {
    pub children: Vec<Node>,
    pub classes: Option<Vec<String>>,
    /// The markup tag to use for this component; `span` is customary.
    pub tag: String,
    /// The click handler for this component, forwarded untouched to the
    /// rendered element.
    pub onclick: H,
    /// Make this tag rounded.
    pub rounded: bool,
    /// Turn this tag into a delete button.
    pub delete: bool,
    /// The size for this component.
    pub size: Option<Size>,
}

impl<H> TagProps<H> {
    /// The composed class list: `tag`, the extension classes, then one
    /// modifier per selected option, in property order.
    pub open spec fn spec_classes(self) -> Seq<Seq<char>> {
        composed(
            "tag"@,
            ext_views(self.classes),
            flag_class(self.rounded, "is-rounded"@) + flag_class(self.delete, "is-delete"@)
                + opt_mod(self.size),
        )
    }
}

/// A small tag label to insert anywhere.
pub struct Tag<H> {
    pub props: TagProps<H>,
}

impl<H> Tag<H> {
    pub fn create(props: TagProps<H>) -> (r: Self)
        ensures
            r.props == props,
    {
        Tag { props }
    }

    pub fn update(&mut self, _msg: ()) -> (rerender: bool)
        ensures
            !rerender,
            *final(self) == *old(self),
    {
        false
    }
}

impl<H> RenderHandler<H> for Tag<H> {
    open spec fn spec_view(&self) -> NodeModel {
        NodeModel::Element {
            tag: self.props.tag@,
            attrs: Seq::empty(),
            classes: self.props.spec_classes(),
            children: models_of(self.props.children@),
        }
    }

    open spec fn spec_handler(&self) -> H {
        self.props.onclick
    }

    fn view(self) -> (r: Rendered<H>) {
        let mut classes = base_class("tag");
        push_extension(&mut classes, &self.props.classes);
        if self.props.rounded {
            push_class(&mut classes, "is-rounded");
        }
        if self.props.delete {
            push_class(&mut classes, "is-delete");
        }
        push_opt_mod(&mut classes, &self.props.size);
        proof {
            assert(class_views(classes@) =~= self.props.spec_classes());
        }
        let node = plain_element(
            self.props.tag.as_str(),
            classes,
            clone_nodes(&self.props.children),
        );
        Rendered { node, handler: self.props.onclick }
    }
}

/// The configuration of a tag container.
pub struct TagsProps {
    pub children: Vec<Node>,
    pub classes: Option<Vec<String>>,
    /// Attach the contained tags together.
    pub has_addons: bool,
}

impl TagsProps {
    /// The composed class list: `tags`, the extension classes, then the
    /// addons modifier.
    pub open spec fn spec_classes(self) -> Seq<Seq<char>> {
        composed(
            "tags"@,
            ext_views(self.classes),
            flag_class(self.has_addons, "has-addons"@),
        )
    }
}

/// A container for a list of tags.
pub struct Tags {
    pub props: TagsProps,
}

impl Tags {
    pub fn create(props: TagsProps) -> (r: Self)
        ensures
            r.props == props,
    {
        Tags { props }
    }

    pub fn update(&mut self, _msg: ()) -> (rerender: bool)
        ensures
            !rerender,
            *final(self) == *old(self),
    {
        false
    }
}

impl Render for Tags {
    open spec fn spec_view(&self) -> NodeModel {
        NodeModel::Element {
            tag: "div"@,
            attrs: Seq::empty(),
            classes: self.props.spec_classes(),
            children: models_of(self.props.children@),
        }
    }

    fn view(&self) -> (r: Node) {
        let mut classes = base_class("tags");
        push_extension(&mut classes, &self.props.classes);
        if self.props.has_addons {
            push_class(&mut classes, "has-addons");
        }
        proof {
            assert(class_views(classes@) =~= self.props.spec_classes());
        }
        plain_element("div", classes, clone_nodes(&self.props.children))
    }
}

/// For every combination of the modifier options: the composed class list
/// holds the base class `tag` exactly once, the extension classes verbatim
/// directly after it, and each modifier class exactly once when its option is
/// set and not at all when it is unset — provided the caller's extension
/// classes repeat none of them.
pub proof fn lemma_tag_class_counts<H>(p: TagProps<H>)
    requires
        !ext_views(p.classes).contains("tag"@),
        !ext_views(p.classes).contains("is-rounded"@),
        !ext_views(p.classes).contains("is-delete"@),
        forall|z: Size| !ext_views(p.classes).contains(z.class()),
    ensures
        count_class(p.spec_classes(), "tag"@) == 1,
        p.spec_classes().subrange(1, 1 + ext_views(p.classes).len() as int) == ext_views(p.classes),
        count_class(p.spec_classes(), "is-rounded"@) == if p.rounded {
            1int
        } else {
            0int
        },
        count_class(p.spec_classes(), "is-delete"@) == if p.delete {
            1int
        } else {
            0int
        },
        forall|z: Size|
            count_class(p.spec_classes(), z.class()) == if p.size == Option::Some(z) {
                1int
            } else {
                0int
            },
{
    reveal_strlit("tag");
    reveal_strlit("is-rounded");
    reveal_strlit("is-delete");
    reveal_strlit("is-small");
    reveal_strlit("is-normal");
    reveal_strlit("is-medium");
    reveal_strlit("is-large");
    let base = seq!["tag"@];
    let ext = ext_views(p.classes);
    let m1 = flag_class(p.rounded, "is-rounded"@);
    let m2 = flag_class(p.delete, "is-delete"@);
    let m3 = opt_mod(p.size);
    assert(base =~= flag_class(true, "tag"@));
    assert forall|c: Seq<char>|
        #[trigger] count_class(p.spec_classes(), c) == count_class(base, c) + count_class(ext, c)
            + count_class(m1, c) + count_class(m2, c) + count_class(m3, c) by {
        lemma_count_concat(base + ext + m1 + m2, m3, c);
        lemma_count_concat(base + ext + m1, m2, c);
        lemma_count_concat(base + ext, m1, c);
        lemma_count_concat(base, ext, c);
        assert(p.spec_classes() =~= base + ext + m1 + m2 + m3);
    }
    lemma_flag_class_count(true, "tag"@, "tag"@);
    lemma_flag_class_count(p.rounded, "is-rounded"@, "tag"@);
    lemma_flag_class_count(p.delete, "is-delete"@, "tag"@);
    lemma_opt_mod_count(p.size, "tag"@);
    lemma_count_occurrence(ext, "tag"@);
    lemma_flag_class_count(true, "tag"@, "is-rounded"@);
    lemma_flag_class_count(p.rounded, "is-rounded"@, "is-rounded"@);
    lemma_flag_class_count(p.delete, "is-delete"@, "is-rounded"@);
    lemma_opt_mod_count(p.size, "is-rounded"@);
    lemma_count_occurrence(ext, "is-rounded"@);
    assert("tag"@.len() == 3);
    assert("is-rounded"@.len() == 10);
    assert("is-delete"@.len() == 9);
    lemma_flag_class_count(true, "tag"@, "is-delete"@);
    lemma_flag_class_count(p.rounded, "is-rounded"@, "is-delete"@);
    lemma_flag_class_count(p.delete, "is-delete"@, "is-delete"@);
    lemma_opt_mod_count(p.size, "is-delete"@);
    lemma_count_occurrence(ext, "is-delete"@);
    assert("is-small"@.len() == 8);
    assert("is-normal"@.len() == 9);
    assert("is-medium"@.len() == 9);
    assert("is-large"@.len() == 8);
    assert("is-small"@[3] == 's' && "is-large"@[3] == 'l');
    assert("is-normal"@[3] == 'n' && "is-medium"@[3] == 'm');
    assert forall|z: Size|
        count_class(p.spec_classes(), z.class()) == if p.size == Option::Some(z) {
            1int
        } else {
            0int
        } by {
        lemma_flag_class_count(true, "tag"@, z.class());
        lemma_flag_class_count(p.rounded, "is-rounded"@, z.class());
        lemma_flag_class_count(p.delete, "is-delete"@, z.class());
        lemma_opt_mod_count(p.size, z.class());
        lemma_count_occurrence(ext, z.class());
        assert(count_class(base, z.class()) == 0);
        assert(count_class(m1, z.class()) == 0);
        assert(count_class(m2, z.class()) == 0);
    }
    crate::classes::lemma_composed_extension_verbatim(
        "tag"@,
        ext,
        m1 + m2 + m3,
    );
    assert(p.spec_classes() == composed("tag"@, ext, m1 + m2 + m3));
}

impl Default for TagsProps {
    /// The default configuration: every optional field unset.
    fn default() -> (r: Self)
        ensures
            r.children@ == Seq::<Node>::empty(),
            r.classes is None,
            !r.has_addons,
    {
        TagsProps {
            children: Vec::new(),
            classes: None,
            has_addons: false,
        }
    }
}

} // verus!
