//! A simple responsive page footer.

use vstd::prelude::*;

use crate::classes::{base_class, class_views, composed, ext_views, push_extension};
use crate::markup::{clone_nodes, models_of, plain_element, Node, NodeModel};
use crate::render::Render;

verus! {

/// The configuration of a page footer.
pub struct FooterProps {
    pub children: Vec<Node>,
    pub classes: Option<Vec<String>>,
}

impl FooterProps {
    /// The composed class list: `footer`, the extension classes, then one
    /// modifier per selected option, in property order.
    pub open spec fn spec_classes(self) -> Seq<Seq<char>> {
        composed("footer"@, ext_views(self.classes), Seq::empty())
    }
}

/// A simple responsive footer which can include anything.
pub struct Footer {
    pub props: FooterProps,
}

impl Footer {
    pub fn create(props: FooterProps) -> (r: Self)
        ensures
            r.props == props,
    {
        Footer { props }
    }

    pub fn update(&mut self, _msg: ()) -> (rerender: bool)
        ensures
            !rerender,
            *final(self) == *old(self),
    {
        false
    }
}

impl Render for Footer {
    open spec fn spec_view(&self) -> NodeModel {
        NodeModel::Element {
            tag: "footer"@,
            attrs: Seq::empty(),
            classes: self.props.spec_classes(),
            children: models_of(self.props.children@),
        }
    }

    fn view(&self) -> (r: Node) {
        let mut classes = base_class("footer");
        push_extension(&mut classes, &self.props.classes);
        proof {
            assert(class_views(classes@) =~= self.props.spec_classes());
        }
        plain_element("footer", classes, clone_nodes(&self.props.children))
    }
}

impl Default for FooterProps {
    /// The default configuration: every optional field unset.
    fn default() -> (r: Self)
        ensures
            r.children@ == Seq::<Node>::empty(),
            r.classes is None,
    {
        FooterProps {
            children: Vec::new(),
            classes: None,
        }
    }
}

} // verus!
