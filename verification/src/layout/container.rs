//! A simple horizontal centering container.

use vstd::prelude::*;

use crate::classes::{
    base_class, class_views, composed, ext_views, flag_class, push_class, push_extension,
};
use crate::markup::{clone_nodes, models_of, plain_element, Node, NodeModel};
use crate::render::Render;

verus! {

/// The configuration of a centering container.
pub struct ContainerProps {
    pub children: Vec<Node>,
    pub classes: Option<Vec<String>>,
    /// Add a margin to the left and right sides of the container.
    pub fluid: bool,
}

impl ContainerProps {
    /// The composed class list: `container`, the extension classes, then one
    /// modifier per selected option, in property order.
    pub open spec fn spec_classes(self) -> Seq<Seq<char>> {
        composed("container"@, ext_views(self.classes), flag_class(self.fluid, "is-fluid"@))
    }
}

/// A simple container to center your content horizontally.
pub struct Container {
    pub props: ContainerProps,
}

impl Container {
    pub fn create(props: ContainerProps) -> (r: Self)
        ensures
            r.props == props,
    {
        Container { props }
    }

    pub fn update(&mut self, _msg: ()) -> (rerender: bool)
        ensures
            !rerender,
            *final(self) == *old(self),
    {
        false
    }
}

impl Render for Container {
    open spec fn spec_view(&self) -> NodeModel {
        NodeModel::Element {
            tag: "div"@,
            attrs: Seq::empty(),
            classes: self.props.spec_classes(),
            children: models_of(self.props.children@),
        }
    }

    fn view(&self) -> (r: Node) {
        let mut classes = base_class("container");
        push_extension(&mut classes, &self.props.classes);
        if self.props.fluid {
            push_class(&mut classes, "is-fluid");
        }
        proof {
            assert(class_views(classes@) =~= self.props.spec_classes());
        }
        plain_element("div", classes, clone_nodes(&self.props.children))
    }
}

impl Default for ContainerProps {
    /// The default configuration: every optional field unset.
    fn default() -> (r: Self)
        ensures
            r.children@ == Seq::<Node>::empty(),
            r.classes is None,
            !r.fluid,
    {
        ContainerProps {
            children: Vec::new(),
            classes: None,
            fluid: false,
        }
    }
}

} // verus!
