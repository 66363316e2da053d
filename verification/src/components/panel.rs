//! A composable panel, for compact controls.

use vstd::prelude::*;

use crate::classes::{
    base_class, class_views, composed, ext_views, flag_class, push_class, push_extension,
};
use crate::markup::{clone_node, clone_nodes, models_of, plain_element, Node, NodeModel};
use crate::render::{Render, RenderHandler, Rendered};

verus! {

/// The configuration of a panel.
pub struct PanelProps {
    pub children: Vec<Node>,
    pub classes: Option<Vec<String>>,
    /// The content of this panel's heading; it is automatically wrapped in a
    /// `p.panel-heading`.
    pub heading: Node,
}

impl PanelProps {
    /// The composed class list: `panel` followed by the extension classes.
    pub open spec fn spec_classes(self) -> Seq<Seq<char>> {
        composed("panel"@, ext_views(self.classes), Seq::empty())
    }
}

/// A composable panel, for compact controls.
pub struct Panel {
    pub props: PanelProps,
}

impl Panel {
    pub fn create(props: PanelProps) -> (r: Self)
        ensures
            r.props == props,
    {
        Panel { props }
    }

    pub fn update(&mut self, _msg: ()) -> (rerender: bool)
        ensures
            !rerender,
            *final(self) == *old(self),
    {
        false
    }
}

impl Render for Panel {
    open spec fn spec_view(&self) -> NodeModel {
        NodeModel::Element {
            tag: "nav"@,
            attrs: Seq::empty(),
            classes: self.props.spec_classes(),
            children: seq![
                NodeModel::Element {
                    tag: "p"@,
                    attrs: Seq::empty(),
                    classes: seq!["panel-heading"@],
                    children: seq![self.props.heading.model()],
                },
            ] + models_of(self.props.children@),
        }
    }

    fn view(&self) -> (r: Node) {
        let mut classes = base_class("panel");
        push_extension(&mut classes, &self.props.classes);
        let mut heading_kids: Vec<Node> = Vec::new();
        heading_kids.push(clone_node(&self.props.heading));
        let heading = plain_element("p", base_class("panel-heading"), heading_kids);
        let mut kids: Vec<Node> = Vec::new();
        kids.push(heading);
        let mut rest = clone_nodes(&self.props.children);
        kids.append(&mut rest);
        proof {
            broadcast use crate::markup::lemma_models_of;

            assert(class_views(classes@) =~= self.props.spec_classes());
            assert(models_of(heading_kids@) =~= seq![self.props.heading.model()]);
            assert(models_of(kids@) =~~= self.spec_view()->children);
        }
        plain_element("nav", classes, kids)
    }
}

/// The configuration of a panel tab bar.
pub struct PanelTabsProps {
    pub children: Vec<Node>,
}

/// A container for the navigation tabs of a panel.
pub struct PanelTabs {
    pub props: PanelTabsProps,
}

impl PanelTabs {
    pub fn create(props: PanelTabsProps) -> (r: Self)
        ensures
            r.props == props,
    {
        PanelTabs { props }
    }

    pub fn update(&mut self, _msg: ()) -> (rerender: bool)
        ensures
            !rerender,
            *final(self) == *old(self),
    {
        false
    }
}

impl Render for PanelTabs {
    open spec fn spec_view(&self) -> NodeModel {
        NodeModel::Element {
            tag: "p"@,
            attrs: Seq::empty(),
            classes: seq!["panel-tabs"@],
            children: models_of(self.props.children@),
        }
    }

    fn view(&self) -> (r: Node) {
        plain_element("p", base_class("panel-tabs"), clone_nodes(&self.props.children))
    }
}

/// The configuration of one panel element. The click handler is the host's
/// own value, carried untouched.
pub struct PanelBlockProps<H> {
    pub children: Vec<Node>,
    /// The markup tag to use for this component; `div` is customary.
    pub tag: String,
    /// Make this element the active / highlighted element.
    pub active: bool,
    /// The click handler for this element, forwarded untouched to the
    /// rendered element.
    pub onclick: H,
}

impl<H> PanelBlockProps<H> {
    /// The composed class list: `panel-block`, then the active modifier.
    pub open spec fn spec_classes(self) -> Seq<Seq<char>> {
        composed("panel-block"@, Seq::empty(), flag_class(self.active, "is-active"@))
    }
}

/// An individual element of the panel.
pub struct PanelBlock<H> {
    pub props: PanelBlockProps<H>,
}

impl<H> PanelBlock<H> {
    pub fn create(props: PanelBlockProps<H>) -> (r: Self)
        ensures
            r.props == props,
    {
        PanelBlock { props }
    }

    pub fn update(&mut self, _msg: ()) -> (rerender: bool)
        ensures
            !rerender,
            *final(self) == *old(self),
    {
        false
    }
}

impl<H> RenderHandler<H> for PanelBlock<H> {
    open spec fn spec_view(&self) -> NodeModel {
        NodeModel::Element {
            tag: self.props.tag@,
            attrs: Seq::empty(),
            classes: self.props.spec_classes(),
            children: models_of(self.props.children@),
        }
    }

    open spec fn spec_handler(&self) -> H {
        self.props.onclick
    }

    fn view(self) -> (r: Rendered<H>) {
        let mut classes = base_class("panel-block");
        if self.props.active {
            push_class(&mut classes, "is-active");
        }
        proof {
            assert(class_views(classes@) =~= self.props.spec_classes());
        }
        let node = plain_element(
            self.props.tag.as_str(),
            classes,
            clone_nodes(&self.props.children),
        );
        Rendered { node, handler: self.props.onclick }
    }
}

impl Default for PanelProps {
    /// The default configuration: every optional field unset.
    fn default() -> (r: Self)
        ensures
            r.children@ == Seq::<Node>::empty(),
            r.classes is None,
            r.heading.model() == NodeModel::Text(Seq::<char>::empty()),
    {
        PanelProps {
            children: Vec::new(),
            classes: None,
            heading: Node::Text(String::new()),
        }
    }
}
impl Default for PanelTabsProps {
    /// The default configuration: every optional field unset.
    fn default() -> (r: Self)
        ensures
            r.children@ == Seq::<Node>::empty(),
    {
        PanelTabsProps {
            children: Vec::new(),
        }
    }
}

} // verus!
