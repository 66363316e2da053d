//! A breadcrumb trail to improve navigation.

use vstd::prelude::*;

use crate::classes::{
    base_class, class_views, composed, ext_views, opt_mod, push_extension, push_opt_mod,
    ModifierClass,
};
use crate::markup::{
    attr, attr_models_of, clone_nodes, models_of, plain_element, Attr, AttrModel, Node, NodeModel,
};
use crate::render::Render;
use crate::Alignment;

verus! {

/// The three sizes available for a breadcrumb.
#[derive(Clone, Copy, Debug, PartialEq, Eq, Structural)]
pub enum BreadcrumbSize {
    Small,
    Medium,
    Large,
}

impl ModifierClass for BreadcrumbSize {
    open spec fn class(&self) -> Seq<char> {
        match self {
            BreadcrumbSize::Small => "are-small"@,
            BreadcrumbSize::Medium => "are-medium"@,
            BreadcrumbSize::Large => "are-large"@,
        }
    }

    fn class_text(&self) -> (r: String) {
        match self {
            BreadcrumbSize::Small => "are-small".to_owned(),
            BreadcrumbSize::Medium => "are-medium".to_owned(),
            BreadcrumbSize::Large => "are-large".to_owned(),
        }
    }
}

/// The four alternative separators between breadcrumb segments.
#[derive(Clone, Copy, Debug, PartialEq, Eq, Structural)]
pub enum BreadcrumbSeparator {
    Arrow,
    Bullet,
    Dot,
    Succeeds,
}

impl ModifierClass for BreadcrumbSeparator {
    open spec fn class(&self) -> Seq<char> {
        match self {
            BreadcrumbSeparator::Arrow => "has-arrow-separator"@,
            BreadcrumbSeparator::Bullet => "has-bullet-separator"@,
            BreadcrumbSeparator::Dot => "has-dot-separator"@,
            BreadcrumbSeparator::Succeeds => "has-succeeds-separator"@,
        }
    }

    fn class_text(&self) -> (r: String) {
        match self {
            BreadcrumbSeparator::Arrow => "has-arrow-separator".to_owned(),
            BreadcrumbSeparator::Bullet => "has-bullet-separator".to_owned(),
            BreadcrumbSeparator::Dot => "has-dot-separator".to_owned(),
            BreadcrumbSeparator::Succeeds => "has-succeeds-separator".to_owned(),
        }
    }
}

/// The configuration of a breadcrumb trail.
pub struct BreadcrumbProps {
    /// The `li` child elements of this breadcrumb.
    pub children: Vec<Node>,
    pub classes: Option<Vec<String>>,
    /// The size of this component.
    pub size: Option<BreadcrumbSize>,
    /// The alignment of this component.
    pub alignment: Option<Alignment>,
    /// The separator type to use between breadcrumb segments.
    pub separator: Option<BreadcrumbSeparator>,
}

impl BreadcrumbProps {
    /// The composed class list: `breadcrumb`, the extension classes, then one
    /// modifier per selected option, in property order.
    pub open spec fn spec_classes(self) -> Seq<Seq<char>> {
        composed(
            "breadcrumb"@,
            ext_views(self.classes),
            opt_mod(self.size) + opt_mod(self.alignment) + opt_mod(self.separator),
        )
    }
}

/// A simple breadcrumb component to improve your navigation experience.
pub struct Breadcrumb {
    pub props: BreadcrumbProps,
}

impl Breadcrumb {
    pub fn create(props: BreadcrumbProps) -> (r: Self)
        ensures
            r.props == props,
    {
        Breadcrumb { props }
    }

    pub fn update(&mut self, _msg: ()) -> (rerender: bool)
        ensures
            !rerender,
            *final(self) == *old(self),
    {
        false
    }
}

impl Render for Breadcrumb {
    open spec fn spec_view(&self) -> NodeModel {
        NodeModel::Element {
            tag: "nav"@,
            attrs: seq![AttrModel { name: "aria-label"@, value: "breadcrumbs"@ }],
            classes: self.props.spec_classes(),
            children: seq![
                NodeModel::Element {
                    tag: "ul"@,
                    attrs: Seq::empty(),
                    classes: Seq::empty(),
                    children: models_of(self.props.children@),
                },
            ],
        }
    }

    fn view(&self) -> (r: Node) {
        let mut classes = base_class("breadcrumb");
        push_extension(&mut classes, &self.props.classes);
        push_opt_mod(&mut classes, &self.props.size);
        push_opt_mod(&mut classes, &self.props.alignment);
        push_opt_mod(&mut classes, &self.props.separator);
        let list = plain_element("ul", Vec::new(), clone_nodes(&self.props.children));
        let mut kids: Vec<Node> = Vec::new();
        kids.push(list);
        let mut attrs: Vec<Attr> = Vec::new();
        attrs.push(attr("aria-label", "breadcrumbs".to_owned()));
        proof {
            broadcast use crate::markup::lemma_models_of;

            assert(class_views(classes@) =~= self.props.spec_classes());
            assert(class_views(Seq::<String>::empty()) =~= Seq::<Seq<char>>::empty());
            assert(models_of(kids@) =~= self.spec_view()->children);
            assert(attr_models_of(attrs@) =~= self.spec_view()->attrs);
        }
        crate::markup::element("nav", classes, attrs, kids)
    }
}

impl Default for BreadcrumbProps {
    /// The default configuration: every optional field unset.
    fn default() -> (r: Self)
        ensures
            r.children@ == Seq::<Node>::empty(),
            r.classes is None,
            r.size is None,
            r.alignment is None,
            r.separator is None,
    {
        BreadcrumbProps {
            children: Vec::new(),
            classes: None,
            size: None,
            alignment: None,
            separator: None,
        }
    }
}

} // verus!
