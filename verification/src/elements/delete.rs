//! A versatile delete cross.

use vstd::prelude::*;

use crate::classes::{base_class, class_views, composed, ext_views, push_extension};
use crate::markup::{clone_nodes, models_of, plain_element, Node, NodeModel};
use crate::render::{RenderHandler, Rendered};

verus! {

/// The configuration of a delete cross. The click handler is the host's own
/// value, carried untouched.
pub struct DeleteProps<H> {
    pub children: Vec<Node>,
    pub classes: Option<Vec<String>>,
    /// The markup tag to use for this component; `button` is customary.
    pub tag: String,
    /// The click handler for this component, forwarded untouched to the
    /// rendered element.
    pub onclick: H,
}

impl<H> DeleteProps<H> {
    /// The composed class list: `delete`, the extension classes, then one
    /// modifier per selected option, in property order.
    pub open spec fn spec_classes(self) -> Seq<Seq<char>> {
        composed("delete"@, ext_views(self.classes), Seq::empty())
    }
}

/// A versatile delete cross.
pub struct Delete<H> {
    pub props: DeleteProps<H>,
}

impl<H> Delete<H> {
    pub fn create(props: DeleteProps<H>) -> (r: Self)
        ensures
            r.props == props,
    {
        Delete { props }
    }

    pub fn update(&mut self, _msg: ()) -> (rerender: bool)
        ensures
            !rerender,
            *final(self) == *old(self),
    {
        false
    }
}

impl<H> RenderHandler<H> for Delete<H> {
    open spec fn spec_view(&self) -> NodeModel {
        NodeModel::Element {
            tag: self.props.tag@,
            attrs: Seq::empty(),
            classes: self.props.spec_classes(),
            children: models_of(self.props.children@),
        }
    }

    open spec fn spec_handler(&self) -> H {
        self.props.onclick
    }

    fn view(self) -> (r: Rendered<H>) {
        let mut classes = base_class("delete");
        push_extension(&mut classes, &self.props.classes);
        proof {
            assert(class_views(classes@) =~= self.props.spec_classes());
        }
        let node = plain_element(
            self.props.tag.as_str(),
            classes,
            clone_nodes(&self.props.children),
        );
        Rendered { node, handler: self.props.onclick }
    }
}
/// With a tag override, the rendered root element's tag equals the
/// override, not the customary default.
pub proof fn lemma_delete_tag_override<H>(c: Delete<H>)
    ensures
        c.spec_view() matches NodeModel::Element { tag, .. } && tag == c.props.tag@,
{
}

} // verus!
