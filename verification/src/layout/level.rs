//! A multi-purpose horizontal level and its items.

use vstd::prelude::*;

use crate::classes::{base_class, class_views, composed, ext_views, push_extension};
use crate::markup::{clone_nodes, models_of, plain_element, Node, NodeModel};
use crate::render::Render;

verus! {

/// The configuration of a horizontal level.
pub struct LevelProps {
    pub children: Vec<Node>,
    pub classes: Option<Vec<String>>,
    /// The markup tag to use for this component; `nav` is customary.
    pub tag: String,
}

impl LevelProps {
    /// The composed class list: `level`, the extension classes, then one
    /// modifier per selected option, in property order.
    pub open spec fn spec_classes(self) -> Seq<Seq<char>> {
        composed("level"@, ext_views(self.classes), Seq::empty())
    }
}

/// A multi-purpose horizontal level, which can contain almost any other element.
pub struct Level {
    pub props: LevelProps,
}

impl Level {
    pub fn create(props: LevelProps) -> (r: Self)
        ensures
            r.props == props,
    {
        Level { props }
    }

    pub fn update(&mut self, _msg: ()) -> (rerender: bool)
        ensures
            !rerender,
            *final(self) == *old(self),
    {
        false
    }
}

impl Render for Level {
    open spec fn spec_view(&self) -> NodeModel {
        NodeModel::Element {
            tag: self.props.tag@,
            attrs: Seq::empty(),
            classes: self.props.spec_classes(),
            children: models_of(self.props.children@),
        }
    }

    fn view(&self) -> (r: Node) {
        let mut classes = base_class("level");
        push_extension(&mut classes, &self.props.classes);
        proof {
            assert(class_views(classes@) =~= self.props.spec_classes());
        }
        plain_element(self.props.tag.as_str(), classes, clone_nodes(&self.props.children))
    }
}
/// The configuration of the left side of a level.
pub struct LevelLeftProps {
    pub children: Vec<Node>,
    pub classes: Option<Vec<String>>,
    /// The markup tag to use for this component; `div` is customary.
    pub tag: String,
}

impl LevelLeftProps {
    /// The composed class list: `level-left`, the extension classes, then one
    /// modifier per selected option, in property order.
    pub open spec fn spec_classes(self) -> Seq<Seq<char>> {
        composed("level-left"@, ext_views(self.classes), Seq::empty())
    }
}

/// A container for level elements to be grouped to the left of the container.
pub struct LevelLeft {
    pub props: LevelLeftProps,
}

impl LevelLeft {
    pub fn create(props: LevelLeftProps) -> (r: Self)
        ensures
            r.props == props,
    {
        LevelLeft { props }
    }

    pub fn update(&mut self, _msg: ()) -> (rerender: bool)
        ensures
            !rerender,
            *final(self) == *old(self),
    {
        false
    }
}

impl Render for LevelLeft {
    open spec fn spec_view(&self) -> NodeModel {
        NodeModel::Element {
            tag: self.props.tag@,
            attrs: Seq::empty(),
            classes: self.props.spec_classes(),
            children: models_of(self.props.children@),
        }
    }

    fn view(&self) -> (r: Node) {
        let mut classes = base_class("level-left");
        push_extension(&mut classes, &self.props.classes);
        proof {
            assert(class_views(classes@) =~= self.props.spec_classes());
        }
        plain_element(self.props.tag.as_str(), classes, clone_nodes(&self.props.children))
    }
}
/// The configuration of the right side of a level.
pub struct LevelRightProps {
    pub children: Vec<Node>,
    pub classes: Option<Vec<String>>,
    /// The markup tag to use for this component; `div` is customary.
    pub tag: String,
}

impl LevelRightProps {
    /// The composed class list: `level-right`, the extension classes, then one
    /// modifier per selected option, in property order.
    pub open spec fn spec_classes(self) -> Seq<Seq<char>> {
        composed("level-right"@, ext_views(self.classes), Seq::empty())
    }
}

/// A container for level elements to be grouped to the right of the container.
pub struct LevelRight {
    pub props: LevelRightProps,
}

impl LevelRight {
    pub fn create(props: LevelRightProps) -> (r: Self)
        ensures
            r.props == props,
    {
        LevelRight { props }
    }

    pub fn update(&mut self, _msg: ()) -> (rerender: bool)
        ensures
            !rerender,
            *final(self) == *old(self),
    {
        false
    }
}

impl Render for LevelRight {
    open spec fn spec_view(&self) -> NodeModel {
        NodeModel::Element {
            tag: self.props.tag@,
            attrs: Seq::empty(),
            classes: self.props.spec_classes(),
            children: models_of(self.props.children@),
        }
    }

    fn view(&self) -> (r: Node) {
        let mut classes = base_class("level-right");
        push_extension(&mut classes, &self.props.classes);
        proof {
            assert(class_views(classes@) =~= self.props.spec_classes());
        }
        plain_element(self.props.tag.as_str(), classes, clone_nodes(&self.props.children))
    }
}
/// The configuration of one level item.
pub struct LevelItemProps {
    pub children: Vec<Node>,
    pub classes: Option<Vec<String>>,
    /// The markup tag to use for this component; `div` is customary.
    pub tag: String,
}

impl LevelItemProps {
    /// The composed class list: `level-item`, the extension classes, then one
    /// modifier per selected option, in property order.
    pub open spec fn spec_classes(self) -> Seq<Seq<char>> {
        composed("level-item"@, ext_views(self.classes), Seq::empty())
    }
}

/// An individual element of a level container.
pub struct LevelItem {
    pub props: LevelItemProps,
}

impl LevelItem {
    pub fn create(props: LevelItemProps) -> (r: Self)
        ensures
            r.props == props,
    {
        LevelItem { props }
    }

    pub fn update(&mut self, _msg: ()) -> (rerender: bool)
        ensures
            !rerender,
            *final(self) == *old(self),
    {
        false
    }
}

impl Render for LevelItem {
    open spec fn spec_view(&self) -> NodeModel {
        NodeModel::Element {
            tag: self.props.tag@,
            attrs: Seq::empty(),
            classes: self.props.spec_classes(),
            children: models_of(self.props.children@),
        }
    }

    fn view(&self) -> (r: Node) {
        let mut classes = base_class("level-item");
        push_extension(&mut classes, &self.props.classes);
        proof {
            assert(class_views(classes@) =~= self.props.spec_classes());
        }
        plain_element(self.props.tag.as_str(), classes, clone_nodes(&self.props.children))
    }
}
/// With a tag override, the rendered root element's tag equals the
/// override, not the customary default.
pub proof fn lemma_level_tag_override(c: Level)
    ensures
        c.spec_view() matches NodeModel::Element { tag, .. } && tag == c.props.tag@,
{
}

impl Default for LevelProps {
    /// The default configuration: every optional field unset.
    fn default() -> (r: Self)
        ensures
            r.children@ == Seq::<Node>::empty(),
            r.classes is None,
            r.tag@ == "nav"@,
    {
        LevelProps {
            children: Vec::new(),
            classes: None,
            tag: "nav".to_owned(),
        }
    }
}
impl Default for LevelLeftProps {
    /// The default configuration: every optional field unset.
    fn default() -> (r: Self)
        ensures
            r.children@ == Seq::<Node>::empty(),
            r.classes is None,
            r.tag@ == "div"@,
    {
        LevelLeftProps {
            children: Vec::new(),
            classes: None,
            tag: "div".to_owned(),
        }
    }
}
impl Default for LevelRightProps {
    /// The default configuration: every optional field unset.
    fn default() -> (r: Self)
        ensures
            r.children@ == Seq::<Node>::empty(),
            r.classes is None,
            r.tag@ == "div"@,
    {
        LevelRightProps {
            children: Vec::new(),
            classes: None,
            tag: "div".to_owned(),
        }
    }
}
impl Default for LevelItemProps {
    /// The default configuration: every optional field unset.
    fn default() -> (r: Self)
        ensures
            r.children@ == Seq::<Node>::empty(),
            r.classes is None,
            r.tag@ == "div"@,
    {
        LevelItemProps {
            children: Vec::new(),
            classes: None,
            tag: "div".to_owned(),
        }
    }
}

} // verus!
