//! A container for icon fonts.

use vstd::prelude::*;

use crate::classes::{
    base_class, class_views, composed, ext_views, opt_mod, push_extension, push_opt_mod,
};
use crate::markup::{clone_nodes, models_of, plain_element, Node, NodeModel};
use crate::render::{RenderHandler, Rendered};
use crate::{Alignment, Size};

verus! {

/// The configuration of an icon container. The click handler is the host's
/// own value, carried untouched.
pub struct IconProps<H> {
    pub children: Vec<Node>,
    pub classes: Option<Vec<String>>,
    /// The click handler for this component, forwarded untouched to the
    /// rendered element.
    pub onclick: H,
    /// The size of this component; to help prevent page jumps during load.
    pub size: Option<Size>,
    /// The alignment of this icon, often used within form controls.
    pub alignment: Option<Alignment>,
}

impl<H> IconProps<H> {
    /// The composed class list: `icon`, the extension classes, then one
    /// modifier per selected option, in property order.
    pub open spec fn spec_classes(self) -> Seq<Seq<char>> {
        composed("icon"@, ext_views(self.classes), opt_mod(self.size) + opt_mod(self.alignment))
    }
}

/// A container for any type of icon font.
pub struct Icon<H> {
    pub props: IconProps<H>,
}

impl<H> Icon<H> {
    pub fn create(props: IconProps<H>) -> (r: Self)
        ensures
            r.props == props,
    {
        Icon { props }
    }

    pub fn update(&mut self, _msg: ()) -> (rerender: bool)
        ensures
            !rerender,
            *final(self) == *old(self),
    {
        false
    }
}

impl<H> RenderHandler<H> for Icon<H> {
    open spec fn spec_view(&self) -> NodeModel {
        NodeModel::Element {
            tag: "span"@,
            attrs: Seq::empty(),
            classes: self.props.spec_classes(),
            children: models_of(self.props.children@),
        }
    }

    open spec fn spec_handler(&self) -> H {
        self.props.onclick
    }

    fn view(self) -> (r: Rendered<H>) {
        let mut classes = base_class("icon");
        push_extension(&mut classes, &self.props.classes);
        push_opt_mod(&mut classes, &self.props.size);
        push_opt_mod(&mut classes, &self.props.alignment);
        proof {
            assert(class_views(classes@) =~= self.props.spec_classes());
        }
        let node = plain_element("span", classes, clone_nodes(&self.props.children));
        Rendered { node, handler: self.props.onclick }
    }
}

} // verus!
