//! The media object layout and its sections.

use vstd::prelude::*;

use crate::classes::{base_class, class_views, composed, ext_views, push_extension};
use crate::markup::{clone_nodes, models_of, plain_element, Node, NodeModel};
use crate::render::Render;

verus! {

/// The configuration of a media object.
pub struct MediaProps {
    pub children: Vec<Node>,
    pub classes: Option<Vec<String>>,
    /// The markup tag to use for this component; `div` is customary.
    pub tag: String,
}

impl MediaProps {
    /// The composed class list: `media`, the extension classes, then one
    /// modifier per selected option, in property order.
    pub open spec fn spec_classes(self) -> Seq<Seq<char>> {
        composed("media"@, ext_views(self.classes), Seq::empty())
    }
}

/// A UI element for repeatable and nestable content.
pub struct Media {
    pub props: MediaProps,
}

impl Media {
    pub fn create(props: MediaProps) -> (r: Self)
        ensures
            r.props == props,
    {
        Media { props }
    }

    pub fn update(&mut self, _msg: ()) -> (rerender: bool)
        ensures
            !rerender,
            *final(self) == *old(self),
    {
        false
    }
}

impl Render for Media {
    open spec fn spec_view(&self) -> NodeModel {
        NodeModel::Element {
            tag: self.props.tag@,
            attrs: Seq::empty(),
            classes: self.props.spec_classes(),
            children: models_of(self.props.children@),
        }
    }

    fn view(&self) -> (r: Node) {
        let mut classes = base_class("media");
        push_extension(&mut classes, &self.props.classes);
        proof {
            assert(class_views(classes@) =~= self.props.spec_classes());
        }
        plain_element(self.props.tag.as_str(), classes, clone_nodes(&self.props.children))
    }
}
/// The configuration of the left side of a media object.
pub struct MediaLeftProps {
    pub children: Vec<Node>,
    pub classes: Option<Vec<String>>,
    /// The markup tag to use for this component; `div` is customary.
    pub tag: String,
}

impl MediaLeftProps {
    /// The composed class list: `media-left`, the extension classes, then one
    /// modifier per selected option, in property order.
    pub open spec fn spec_classes(self) -> Seq<Seq<char>> {
        composed("media-left"@, ext_views(self.classes), Seq::empty())
    }
}

/// Elements to be grouped to the left of the media container.
pub struct MediaLeft {
    pub props: MediaLeftProps,
}

impl MediaLeft {
    pub fn create(props: MediaLeftProps) -> (r: Self)
        ensures
            r.props == props,
    {
        MediaLeft { props }
    }

    pub fn update(&mut self, _msg: ()) -> (rerender: bool)
        ensures
            !rerender,
            *final(self) == *old(self),
    {
        false
    }
}

impl Render for MediaLeft {
    open spec fn spec_view(&self) -> NodeModel {
        NodeModel::Element {
            tag: self.props.tag@,
            attrs: Seq::empty(),
            classes: self.props.spec_classes(),
            children: models_of(self.props.children@),
        }
    }

    fn view(&self) -> (r: Node) {
        let mut classes = base_class("media-left");
        push_extension(&mut classes, &self.props.classes);
        proof {
            assert(class_views(classes@) =~= self.props.spec_classes());
        }
        plain_element(self.props.tag.as_str(), classes, clone_nodes(&self.props.children))
    }
}
/// The configuration of the right side of a media object.
pub struct MediaRightProps {
    pub children: Vec<Node>,
    pub classes: Option<Vec<String>>,
    /// The markup tag to use for this component; `div` is customary.
    pub tag: String,
}

impl MediaRightProps {
    /// The composed class list: `media-right`, the extension classes, then one
    /// modifier per selected option, in property order.
    pub open spec fn spec_classes(self) -> Seq<Seq<char>> {
        composed("media-right"@, ext_views(self.classes), Seq::empty())
    }
}

/// Elements to be grouped to the right of the media container.
pub struct MediaRight {
    pub props: MediaRightProps,
}

impl MediaRight {
    pub fn create(props: MediaRightProps) -> (r: Self)
        ensures
            r.props == props,
    {
        MediaRight { props }
    }

    pub fn update(&mut self, _msg: ()) -> (rerender: bool)
        ensures
            !rerender,
            *final(self) == *old(self),
    {
        false
    }
}

impl Render for MediaRight {
    open spec fn spec_view(&self) -> NodeModel {
        NodeModel::Element {
            tag: self.props.tag@,
            attrs: Seq::empty(),
            classes: self.props.spec_classes(),
            children: models_of(self.props.children@),
        }
    }

    fn view(&self) -> (r: Node) {
        let mut classes = base_class("media-right");
        push_extension(&mut classes, &self.props.classes);
        proof {
            assert(class_views(classes@) =~= self.props.spec_classes());
        }
        plain_element(self.props.tag.as_str(), classes, clone_nodes(&self.props.children))
    }
}
/// The configuration of the body of a media object.
pub struct MediaContentProps {
    pub children: Vec<Node>,
    pub classes: Option<Vec<String>>,
    /// The markup tag to use for this component; `div` is customary.
    pub tag: String,
}

impl MediaContentProps {
    /// The composed class list: `media-content`, the extension classes, then one
    /// modifier per selected option, in property order.
    pub open spec fn spec_classes(self) -> Seq<Seq<char>> {
        composed("media-content"@, ext_views(self.classes), Seq::empty())
    }
}

/// Elements to be grouped as the center body of the media container.
pub struct MediaContent {
    pub props: MediaContentProps,
}

impl MediaContent {
    pub fn create(props: MediaContentProps) -> (r: Self)
        ensures
            r.props == props,
    {
        MediaContent { props }
    }
}

impl Render for MediaContent {
    open spec fn spec_view(&self) -> NodeModel {
        NodeModel::Element {
            tag: self.props.tag@,
            attrs: Seq::empty(),
            classes: self.props.spec_classes(),
            children: models_of(self.props.children@),
        }
    }

    fn view(&self) -> (r: Node) {
        let mut classes = base_class("media-content");
        push_extension(&mut classes, &self.props.classes);
        proof {
            assert(class_views(classes@) =~= self.props.spec_classes());
        }
        plain_element(self.props.tag.as_str(), classes, clone_nodes(&self.props.children))
    }
}
/// With a tag override, the rendered root element's tag equals the
/// override, not the customary default.
pub proof fn lemma_media_tag_override(c: Media)
    ensures
        c.spec_view() matches NodeModel::Element { tag, .. } && tag == c.props.tag@,
{
}

impl Default for MediaProps {
    /// The default configuration: every optional field unset.
    fn default() -> (r: Self)
        ensures
            r.children@ == Seq::<Node>::empty(),
            r.classes is None,
            r.tag@ == "div"@,
    {
        MediaProps {
            children: Vec::new(),
            classes: None,
            tag: "div".to_owned(),
        }
    }
}
impl Default for MediaLeftProps {
    /// The default configuration: every optional field unset.
    fn default() -> (r: Self)
        ensures
            r.children@ == Seq::<Node>::empty(),
            r.classes is None,
            r.tag@ == "div"@,
    {
        MediaLeftProps {
            children: Vec::new(),
            classes: None,
            tag: "div".to_owned(),
        }
    }
}
impl Default for MediaRightProps {
    /// The default configuration: every optional field unset.
    fn default() -> (r: Self)
        ensures
            r.children@ == Seq::<Node>::empty(),
            r.classes is None,
            r.tag@ == "div"@,
    {
        MediaRightProps {
            children: Vec::new(),
            classes: None,
            tag: "div".to_owned(),
        }
    }
}
impl Default for MediaContentProps {
    /// The default configuration: every optional field unset.
    fn default() -> (r: Self)
        ensures
            r.children@ == Seq::<Node>::empty(),
            r.classes is None,
            r.tag@ == "div"@,
    {
        MediaContentProps {
            children: Vec::new(),
            classes: None,
            tag: "div".to_owned(),
        }
    }
}

} // verus!
