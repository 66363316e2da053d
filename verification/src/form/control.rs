//! A wrapper around form controls.

use vstd::prelude::*;

use crate::classes::{
    base_class, class_views, composed, ext_views, flag_class, push_class, push_extension,
};
use crate::markup::{clone_nodes, models_of, plain_element, Node, NodeModel};
use crate::render::Render;

verus! {

/// The configuration of a form control wrapper.
pub struct ControlProps {
    pub children: Vec<Node>,
    pub classes: Option<Vec<String>>,
    /// The markup tag to use for this component; `div` is customary.
    pub tag: String,
    /// A modifier to have the controlled element fill up the remaining space.
    pub expanded: bool,
}

impl ControlProps {
    /// The composed class list: `control`, the extension classes, then one
    /// modifier per selected option, in property order.
    pub open spec fn spec_classes(self) -> Seq<Seq<char>> {
        composed("control"@, ext_views(self.classes), flag_class(self.expanded, "is-expanded"@))
    }
}

/// A container with which you can wrap the form controls.
pub struct Control {
    pub props: ControlProps,
}

impl Control {
    pub fn create(props: ControlProps) -> (r: Self)
        ensures
            r.props == props,
    {
        Control { props }
    }

    pub fn update(&mut self, _msg: ()) -> (rerender: bool)
        ensures
            !rerender,
            *final(self) == *old(self),
    {
        false
    }
}

impl Render for Control {
    open spec fn spec_view(&self) -> NodeModel {
        NodeModel::Element {
            tag: self.props.tag@,
            attrs: Seq::empty(),
            classes: self.props.spec_classes(),
            children: models_of(self.props.children@),
        }
    }

    fn view(&self) -> (r: Node) {
        let mut classes = base_class("control");
        push_extension(&mut classes, &self.props.classes);
        if self.props.expanded {
            push_class(&mut classes, "is-expanded");
        }
        proof {
            assert(class_views(classes@) =~= self.props.spec_classes());
        }
        plain_element(self.props.tag.as_str(), classes, clone_nodes(&self.props.children))
    }
}

impl Default for ControlProps {
    /// The default configuration: every optional field unset.
    fn default() -> (r: Self)
        ensures
            r.children@ == Seq::<Node>::empty(),
            r.classes is None,
            r.tag@ == "div"@,
            !r.expanded,
    {
        ControlProps {
            children: Vec::new(),
            classes: None,
            tag: "div".to_owned(),
            expanded: false,
        }
    }
}

} // verus!
