//! A wrapper for generated content.

use vstd::prelude::*;

use crate::classes::{base_class, class_views, composed, ext_views, push_extension};
use crate::markup::{clone_nodes, models_of, plain_element, Node, NodeModel};
use crate::render::Render;

verus! {

/// The configuration of a content container.
pub struct ContentProps {
    pub children: Vec<Node>,
    pub classes: Option<Vec<String>>,
    /// The markup tag to use for this component; `div` is customary.
    pub tag: String,
}

impl ContentProps {
    /// The composed class list: `content`, the extension classes, then one
    /// modifier per selected option, in property order.
    pub open spec fn spec_classes(self) -> Seq<Seq<char>> {
        composed("content"@, ext_views(self.classes), Seq::empty())
    }
}

/// A single component to wrap generated content, where only markup tags are available.
pub struct Content {
    pub props: ContentProps,
}

impl Content {
    pub fn create(props: ContentProps) -> (r: Self)
        ensures
            r.props == props,
    {
        Content { props }
    }

    pub fn update(&mut self, _msg: ()) -> (rerender: bool)
        ensures
            !rerender,
            *final(self) == *old(self),
    {
        false
    }
}

impl Render for Content {
    open spec fn spec_view(&self) -> NodeModel {
        NodeModel::Element {
            tag: self.props.tag@,
            attrs: Seq::empty(),
            classes: self.props.spec_classes(),
            children: models_of(self.props.children@),
        }
    }

    fn view(&self) -> (r: Node) {
        let mut classes = base_class("content");
        push_extension(&mut classes, &self.props.classes);
        proof {
            assert(class_views(classes@) =~= self.props.spec_classes());
        }
        plain_element(self.props.tag.as_str(), classes, clone_nodes(&self.props.children))
    }
}
/// With a tag override, the rendered root element's tag equals the
/// override, not the customary default.
pub proof fn lemma_content_tag_override(c: Content)
    ensures
        c.spec_view() matches NodeModel::Element { tag, .. } && tag == c.props.tag@,
{
}

impl Default for ContentProps {
    /// The default configuration: every optional field unset.
    fn default() -> (r: Self)
        ensures
            r.children@ == Seq::<Node>::empty(),
            r.classes is None,
            r.tag@ == "div"@,
    {
        ContentProps {
            children: Vec::new(),
            classes: None,
            tag: "div".to_owned(),
        }
    }
}

} // verus!
