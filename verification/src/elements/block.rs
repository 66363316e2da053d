//! The most basic spacer block.

use vstd::prelude::*;

use crate::classes::{base_class, class_views, composed, ext_views, push_extension};
use crate::markup::{clone_nodes, models_of, plain_element, Node, NodeModel};
use crate::render::Render;

verus! {

/// The configuration of a basic spacer block.
pub struct BlockProps {
    pub children: Vec<Node>,
    pub classes: Option<Vec<String>>,
}

impl BlockProps {
    /// The composed class list: `block`, the extension classes, then one
    /// modifier per selected option, in property order.
    pub open spec fn spec_classes(self) -> Seq<Seq<char>> {
        composed("block"@, ext_views(self.classes), Seq::empty())
    }
}

/// The most basic spacer block.
pub struct Block {
    pub props: BlockProps,
}

impl Block {
    pub fn create(props: BlockProps) -> (r: Self)
        ensures
            r.props == props,
    {
        Block { props }
    }

    pub fn update(&mut self, _msg: ()) -> (rerender: bool)
        ensures
            !rerender,
            *final(self) == *old(self),
    {
        false
    }
}

impl Render for Block {
    open spec fn spec_view(&self) -> NodeModel {
        NodeModel::Element {
            tag: "div"@,
            attrs: Seq::empty(),
            classes: self.props.spec_classes(),
            children: models_of(self.props.children@),
        }
    }

    fn view(&self) -> (r: Node) {
        let mut classes = base_class("block");
        push_extension(&mut classes, &self.props.classes);
        proof {
            assert(class_views(classes@) =~= self.props.spec_classes());
        }
        plain_element("div", classes, clone_nodes(&self.props.children))
    }
}

impl Default for BlockProps {
    /// The default configuration: every optional field unset.
    fn default() -> (r: Self)
        ensures
            r.children@ == Seq::<Node>::empty(),
            r.classes is None,
    {
        BlockProps {
            children: Vec::new(),
            classes: None,
        }
    }
}

} // verus!
