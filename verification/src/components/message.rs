//! Colored message blocks.

use vstd::prelude::*;

use crate::classes::{base_class, class_views, composed, ext_views, push_extension};
use crate::markup::{clone_nodes, models_of, plain_element, Node, NodeModel};
use crate::render::Render;

verus! {

/// The configuration of a message block.
pub struct MessageProps {
    pub children: Vec<Node>,
    pub classes: Option<Vec<String>>,
}

impl MessageProps {
    /// The composed class list: `message`, the extension classes, then one
    /// modifier per selected option, in property order.
    pub open spec fn spec_classes(self) -> Seq<Seq<char>> {
        composed("message"@, ext_views(self.classes), Seq::empty())
    }
}

/// Colored message blocks, to emphasize part of your page.
pub struct Message {
    pub props: MessageProps,
}

impl Message {
    pub fn create(props: MessageProps) -> (r: Self)
        ensures
            r.props == props,
    {
        Message { props }
    }

    pub fn update(&mut self, _msg: ()) -> (rerender: bool)
        ensures
            !rerender,
            *final(self) == *old(self),
    {
        false
    }
}

impl Render for Message {
    open spec fn spec_view(&self) -> NodeModel {
        NodeModel::Element {
            tag: "article"@,
            attrs: Seq::empty(),
            classes: self.props.spec_classes(),
            children: models_of(self.props.children@),
        }
    }

    fn view(&self) -> (r: Node) {
        let mut classes = base_class("message");
        push_extension(&mut classes, &self.props.classes);
        proof {
            assert(class_views(classes@) =~= self.props.spec_classes());
        }
        plain_element("article", classes, clone_nodes(&self.props.children))
    }
}
/// The configuration of a message header.
pub struct MessageHeaderProps {
    pub children: Vec<Node>,
    pub classes: Option<Vec<String>>,
}

impl MessageHeaderProps {
    /// The composed class list: `message-header`, the extension classes, then one
    /// modifier per selected option, in property order.
    pub open spec fn spec_classes(self) -> Seq<Seq<char>> {
        composed("message-header"@, ext_views(self.classes), Seq::empty())
    }
}

/// An optional message header that can hold a title and a delete element.
pub struct MessageHeader {
    pub props: MessageHeaderProps,
}

impl MessageHeader {
    pub fn create(props: MessageHeaderProps) -> (r: Self)
        ensures
            r.props == props,
    {
        MessageHeader { props }
    }

    pub fn update(&mut self, _msg: ()) -> (rerender: bool)
        ensures
            !rerender,
            *final(self) == *old(self),
    {
        false
    }
}

impl Render for MessageHeader {
    open spec fn spec_view(&self) -> NodeModel {
        NodeModel::Element {
            tag: "div"@,
            attrs: Seq::empty(),
            classes: self.props.spec_classes(),
            children: models_of(self.props.children@),
        }
    }

    fn view(&self) -> (r: Node) {
        let mut classes = base_class("message-header");
        push_extension(&mut classes, &self.props.classes);
        proof {
            assert(class_views(classes@) =~= self.props.spec_classes());
        }
        plain_element("div", classes, clone_nodes(&self.props.children))
    }
}
/// The configuration of a message body.
pub struct MessageBodyProps {
    pub children: Vec<Node>,
    pub classes: Option<Vec<String>>,
}

impl MessageBodyProps {
    /// The composed class list: `message-body`, the extension classes, then one
    /// modifier per selected option, in property order.
    pub open spec fn spec_classes(self) -> Seq<Seq<char>> {
        composed("message-body"@, ext_views(self.classes), Seq::empty())
    }
}

/// A container for the body of a message.
pub struct MessageBody {
    pub props: MessageBodyProps,
}

impl MessageBody {
    pub fn create(props: MessageBodyProps) -> (r: Self)
        ensures
            r.props == props,
    {
        MessageBody { props }
    }

    pub fn update(&mut self, _msg: ()) -> (rerender: bool)
        ensures
            !rerender,
            *final(self) == *old(self),
    {
        false
    }
}

impl Render for MessageBody {
    open spec fn spec_view(&self) -> NodeModel {
        NodeModel::Element {
            tag: "div"@,
            attrs: Seq::empty(),
            classes: self.props.spec_classes(),
            children: models_of(self.props.children@),
        }
    }

    fn view(&self) -> (r: Node) {
        let mut classes = base_class("message-body");
        push_extension(&mut classes, &self.props.classes);
        proof {
            assert(class_views(classes@) =~= self.props.spec_classes());
        }
        plain_element("div", classes, clone_nodes(&self.props.children))
    }
}

impl Default for MessageProps {
    /// The default configuration: every optional field unset.
    fn default() -> (r: Self)
        ensures
            r.children@ == Seq::<Node>::empty(),
            r.classes is None,
    {
        MessageProps {
            children: Vec::new(),
            classes: None,
        }
    }
}
impl Default for MessageHeaderProps {
    /// The default configuration: every optional field unset.
    fn default() -> (r: Self)
        ensures
            r.children@ == Seq::<Node>::empty(),
            r.classes is None,
    {
        MessageHeaderProps {
            children: Vec::new(),
            classes: None,
        }
    }
}
impl Default for MessageBodyProps {
    /// The default configuration: every optional field unset.
    fn default() -> (r: Self)
        ensures
            r.children@ == Seq::<Node>::empty(),
            r.classes is None,
    {
        MessageBodyProps {
            children: Vec::new(),
            classes: None,
        }
    }
}

} // verus!
