//! The composable card container and its sections.

use vstd::prelude::*;

use crate::classes::{base_class, class_views, composed, ext_views, push_extension};
use crate::markup::{clone_nodes, models_of, plain_element, Node, NodeModel};
use crate::render::Render;

verus! {

/// The configuration of a card container.
pub struct CardProps {
    pub children: Vec<Node>,
    pub classes: Option<Vec<String>>,
}

impl CardProps {
    /// The composed class list: `card`, the extension classes, then one
    /// modifier per selected option, in property order.
    pub open spec fn spec_classes(self) -> Seq<Seq<char>> {
        composed("card"@, ext_views(self.classes), Seq::empty())
    }
}

/// An all-around flexible and composable component; this is the card container.
pub struct Card {
    pub props: CardProps,
}

impl Card {
    pub fn create(props: CardProps) -> (r: Self)
        ensures
            r.props == props,
    {
        Card { props }
    }

    pub fn update(&mut self, _msg: ()) -> (rerender: bool)
        ensures
            !rerender,
            *final(self) == *old(self),
    {
        false
    }
}

impl Render for Card {
    open spec fn spec_view(&self) -> NodeModel {
        NodeModel::Element {
            tag: "div"@,
            attrs: Seq::empty(),
            classes: self.props.spec_classes(),
            children: models_of(self.props.children@),
        }
    }

    fn view(&self) -> (r: Node) {
        let mut classes = base_class("card");
        push_extension(&mut classes, &self.props.classes);
        proof {
            assert(class_views(classes@) =~= self.props.spec_classes());
        }
        plain_element("div", classes, clone_nodes(&self.props.children))
    }
}
/// The configuration of a card header.
pub struct CardHeaderProps {
    pub children: Vec<Node>,
    pub classes: Option<Vec<String>>,
}

impl CardHeaderProps {
    /// The composed class list: `card-header`, the extension classes, then one
    /// modifier per selected option, in property order.
    pub open spec fn spec_classes(self) -> Seq<Seq<char>> {
        composed("card-header"@, ext_views(self.classes), Seq::empty())
    }
}

/// A container for card header content; rendered as a horizontal bar with a shadow.
pub struct CardHeader {
    pub props: CardHeaderProps,
}

impl CardHeader {
    pub fn create(props: CardHeaderProps) -> (r: Self)
        ensures
            r.props == props,
    {
        CardHeader { props }
    }

    pub fn update(&mut self, _msg: ()) -> (rerender: bool)
        ensures
            !rerender,
            *final(self) == *old(self),
    {
        false
    }
}

impl Render for CardHeader {
    open spec fn spec_view(&self) -> NodeModel {
        NodeModel::Element {
            tag: "header"@,
            attrs: Seq::empty(),
            classes: self.props.spec_classes(),
            children: models_of(self.props.children@),
        }
    }

    fn view(&self) -> (r: Node) {
        let mut classes = base_class("card-header");
        push_extension(&mut classes, &self.props.classes);
        proof {
            assert(class_views(classes@) =~= self.props.spec_classes());
        }
        plain_element("header", classes, clone_nodes(&self.props.children))
    }
}
/// The configuration of a card image section.
pub struct CardImageProps {
    pub children: Vec<Node>,
    pub classes: Option<Vec<String>>,
}

impl CardImageProps {
    /// The composed class list: `card-image`, the extension classes, then one
    /// modifier per selected option, in property order.
    pub open spec fn spec_classes(self) -> Seq<Seq<char>> {
        composed("card-image"@, ext_views(self.classes), Seq::empty())
    }
}

/// A fullwidth container for a responsive image.
pub struct CardImage {
    pub props: CardImageProps,
}

impl CardImage {
    pub fn create(props: CardImageProps) -> (r: Self)
        ensures
            r.props == props,
    {
        CardImage { props }
    }

    pub fn update(&mut self, _msg: ()) -> (rerender: bool)
        ensures
            !rerender,
            *final(self) == *old(self),
    {
        false
    }
}

impl Render for CardImage {
    open spec fn spec_view(&self) -> NodeModel {
        NodeModel::Element {
            tag: "div"@,
            attrs: Seq::empty(),
            classes: self.props.spec_classes(),
            children: models_of(self.props.children@),
        }
    }

    fn view(&self) -> (r: Node) {
        let mut classes = base_class("card-image");
        push_extension(&mut classes, &self.props.classes);
        proof {
            assert(class_views(classes@) =~= self.props.spec_classes());
        }
        plain_element("div", classes, clone_nodes(&self.props.children))
    }
}
/// The configuration of a card body.
pub struct CardContentProps {
    pub children: Vec<Node>,
    pub classes: Option<Vec<String>>,
}

impl CardContentProps {
    /// The composed class list: `card-content`, the extension classes, then one
    /// modifier per selected option, in property order.
    pub open spec fn spec_classes(self) -> Seq<Seq<char>> {
        composed("card-content"@, ext_views(self.classes), Seq::empty())
    }
}

/// A container for any other content as the body of the card.
pub struct CardContent {
    pub props: CardContentProps,
}

impl CardContent {
    pub fn create(props: CardContentProps) -> (r: Self)
        ensures
            r.props == props,
    {
        CardContent { props }
    }

    pub fn update(&mut self, _msg: ()) -> (rerender: bool)
        ensures
            !rerender,
            *final(self) == *old(self),
    {
        false
    }
}

impl Render for CardContent {
    open spec fn spec_view(&self) -> NodeModel {
        NodeModel::Element {
            tag: "div"@,
            attrs: Seq::empty(),
            classes: self.props.spec_classes(),
            children: models_of(self.props.children@),
        }
    }

    fn view(&self) -> (r: Node) {
        let mut classes = base_class("card-content");
        push_extension(&mut classes, &self.props.classes);
        proof {
            assert(class_views(classes@) =~= self.props.spec_classes());
        }
        plain_element("div", classes, clone_nodes(&self.props.children))
    }
}
/// The configuration of a card footer.
pub struct CardFooterProps {
    pub children: Vec<Node>,
    pub classes: Option<Vec<String>>,
}

impl CardFooterProps {
    /// The composed class list: `card-footer`, the extension classes, then one
    /// modifier per selected option, in property order.
    pub open spec fn spec_classes(self) -> Seq<Seq<char>> {
        composed("card-footer"@, ext_views(self.classes), Seq::empty())
    }
}

/// A container for card footer content; rendered as a horizontal list of controls.
pub struct CardFooter {
    pub props: CardFooterProps,
}

impl CardFooter {
    pub fn create(props: CardFooterProps) -> (r: Self)
        ensures
            r.props == props,
    {
        CardFooter { props }
    }

    pub fn update(&mut self, _msg: ()) -> (rerender: bool)
        ensures
            !rerender,
            *final(self) == *old(self),
    {
        false
    }
}

impl Render for CardFooter {
    open spec fn spec_view(&self) -> NodeModel {
        NodeModel::Element {
            tag: "footer"@,
            attrs: Seq::empty(),
            classes: self.props.spec_classes(),
            children: models_of(self.props.children@),
        }
    }

    fn view(&self) -> (r: Node) {
        let mut classes = base_class("card-footer");
        push_extension(&mut classes, &self.props.classes);
        proof {
            assert(class_views(classes@) =~= self.props.spec_classes());
        }
        plain_element("footer", classes, clone_nodes(&self.props.children))
    }
}

impl Default for CardProps {
    /// The default configuration: every optional field unset.
    fn default() -> (r: Self)
        ensures
            r.children@ == Seq::<Node>::empty(),
            r.classes is None,
    {
        CardProps {
            children: Vec::new(),
            classes: None,
        }
    }
}
impl Default for CardHeaderProps {
    /// The default configuration: every optional field unset.
    fn default() -> (r: Self)
        ensures
            r.children@ == Seq::<Node>::empty(),
            r.classes is None,
    {
        CardHeaderProps {
            children: Vec::new(),
            classes: None,
        }
    }
}
impl Default for CardImageProps {
    /// The default configuration: every optional field unset.
    fn default() -> (r: Self)
        ensures
            r.children@ == Seq::<Node>::empty(),
            r.classes is None,
    {
        CardImageProps {
            children: Vec::new(),
            classes: None,
        }
    }
}
impl Default for CardContentProps {
    /// The default configuration: every optional field unset.
    fn default() -> (r: Self)
        ensures
            r.children@ == Seq::<Node>::empty(),
            r.classes is None,
    {
        CardContentProps {
            children: Vec::new(),
            classes: None,
        }
    }
}
impl Default for CardFooterProps {
    /// The default configuration: every optional field unset.
    fn default() -> (r: Self)
        ensures
            r.children@ == Seq::<Node>::empty(),
            r.classes is None,
    {
        CardFooterProps {
            children: Vec::new(),
            classes: None,
        }
    }
}

} // verus!
