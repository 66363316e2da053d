//! A vertical navigation menu, its lists and its labels.

use vstd::prelude::*;

use crate::classes::{base_class, class_views, composed, ext_views, push_extension};
use crate::markup::{clone_nodes, models_of, text, plain_element, Node, NodeModel};
use crate::render::Render;

verus! {

/// The configuration of a vertical menu.
pub struct MenuProps {
    pub children: Vec<Node>,
    pub classes: Option<Vec<String>>,
}

impl MenuProps {
    /// The composed class list: `menu`, the extension classes, then one
    /// modifier per selected option, in property order.
    pub open spec fn spec_classes(self) -> Seq<Seq<char>> {
        composed("menu"@, ext_views(self.classes), Seq::empty())
    }
}

/// A simple menu, for any type of vertical navigation.
pub struct Menu {
    pub props: MenuProps,
}

impl Menu {
    pub fn create(props: MenuProps) -> (r: Self)
        ensures
            r.props == props,
    {
        Menu { props }
    }

    pub fn update(&mut self, _msg: ()) -> (rerender: bool)
        ensures
            !rerender,
            *final(self) == *old(self),
    {
        false
    }
}

impl Render for Menu {
    open spec fn spec_view(&self) -> NodeModel {
        NodeModel::Element {
            tag: "aside"@,
            attrs: Seq::empty(),
            classes: self.props.spec_classes(),
            children: models_of(self.props.children@),
        }
    }

    fn view(&self) -> (r: Node) {
        let mut classes = base_class("menu");
        push_extension(&mut classes, &self.props.classes);
        proof {
            assert(class_views(classes@) =~= self.props.spec_classes());
        }
        plain_element("aside", classes, clone_nodes(&self.props.children))
    }
}
/// The configuration of a menu list.
pub struct MenuListProps {
    pub children: Vec<Node>,
    pub classes: Option<Vec<String>>,
}

impl MenuListProps {
    /// The composed class list: `menu-list`, the extension classes, then one
    /// modifier per selected option, in property order.
    pub open spec fn spec_classes(self) -> Seq<Seq<char>> {
        composed("menu-list"@, ext_views(self.classes), Seq::empty())
    }
}

/// A container for menu list `li` elements.
pub struct MenuList {
    pub props: MenuListProps,
}

impl MenuList {
    pub fn create(props: MenuListProps) -> (r: Self)
        ensures
            r.props == props,
    {
        MenuList { props }
    }

    pub fn update(&mut self, _msg: ()) -> (rerender: bool)
        ensures
            !rerender,
            *final(self) == *old(self),
    {
        false
    }
}

impl Render for MenuList {
    open spec fn spec_view(&self) -> NodeModel {
        NodeModel::Element {
            tag: "ul"@,
            attrs: Seq::empty(),
            classes: self.props.spec_classes(),
            children: models_of(self.props.children@),
        }
    }

    fn view(&self) -> (r: Node) {
        let mut classes = base_class("menu-list");
        push_extension(&mut classes, &self.props.classes);
        proof {
            assert(class_views(classes@) =~= self.props.spec_classes());
        }
        plain_element("ul", classes, clone_nodes(&self.props.children))
    }
}
/// The configuration of a menu label.
pub struct MenuLabelProps {
    pub classes: Option<Vec<String>>,
    /// The text of the label.
    pub text: String,
}

impl MenuLabelProps {
    /// The composed class list: `menu-label`, the extension classes, then one
    /// modifier per selected option, in property order.
    pub open spec fn spec_classes(self) -> Seq<Seq<char>> {
        composed("menu-label"@, ext_views(self.classes), Seq::empty())
    }
}

/// A label for a section of the menu.
pub struct MenuLabel {
    pub props: MenuLabelProps,
}

impl MenuLabel {
    pub fn create(props: MenuLabelProps) -> (r: Self)
        ensures
            r.props == props,
    {
        MenuLabel { props }
    }

    pub fn update(&mut self, _msg: ()) -> (rerender: bool)
        ensures
            !rerender,
            *final(self) == *old(self),
    {
        false
    }
}

impl Render for MenuLabel {
    open spec fn spec_view(&self) -> NodeModel {
        NodeModel::Element {
            tag: "p"@,
            attrs: Seq::empty(),
            classes: self.props.spec_classes(),
            children: seq![NodeModel::Text(self.props.text@)],
        }
    }

    fn view(&self) -> (r: Node) {
        let mut classes = base_class("menu-label");
        push_extension(&mut classes, &self.props.classes);
        proof {
            assert(class_views(classes@) =~= self.props.spec_classes());
        }
        let mut kids: Vec<Node> = Vec::new();
        kids.push(text(self.props.text.as_str()));
        proof {
            broadcast use crate::markup::lemma_models_of;

            assert(models_of(kids@) =~= seq![NodeModel::Text(self.props.text@)]);
        }
        plain_element("p", classes, kids)
    }
}

impl Default for MenuProps {
    /// The default configuration: every optional field unset.
    fn default() -> (r: Self)
        ensures
            r.children@ == Seq::<Node>::empty(),
            r.classes is None,
    {
        MenuProps {
            children: Vec::new(),
            classes: None,
        }
    }
}
impl Default for MenuListProps {
    /// The default configuration: every optional field unset.
    fn default() -> (r: Self)
        ensures
            r.children@ == Seq::<Node>::empty(),
            r.classes is None,
    {
        MenuListProps {
            children: Vec::new(),
            classes: None,
        }
    }
}
impl Default for MenuLabelProps {
    /// The default configuration: every optional field unset.
    fn default() -> (r: Self)
        ensures
            r.classes is None,
            r.text@ == Seq::<char>::empty(),
    {
        MenuLabelProps {
            classes: None,
            text: String::new(),
        }
    }
}

} // verus!
