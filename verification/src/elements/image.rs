//! A container for responsive images.

use vstd::prelude::*;

use crate::classes::{
    base_class, class_views, composed, ext_views, opt_mod, push_extension, push_opt_mod, ModifierClass,
};
use crate::markup::{clone_nodes, models_of, plain_element, Node, NodeModel};
use crate::render::Render;

verus! {

/// The available placeholder sizes and ratios for figures.
#[derive(Clone, Copy, Debug, PartialEq, Eq, Structural)]
pub enum ImageSize {
    Is16x16,
    Is24x24,
    Is32x32,
    Is48x48,
    Is64x64,
    Is96x96,
    Is128x128,
    IsSquare,
    Is1by1,
    Is5by4,
    Is4by3,
    Is3by2,
    Is5by3,
    Is16by9,
    Is2by1,
    Is3by1,
    Is4by5,
    Is3by4,
    Is2by3,
    Is3by5,
    Is9by16,
    Is1by2,
    Is1by3,
}

impl ModifierClass for ImageSize {
    open spec fn class(&self) -> Seq<char> {
        match self {
            ImageSize::Is16x16 => "is-16x16"@,
            ImageSize::Is24x24 => "is-24x24"@,
            ImageSize::Is32x32 => "is-32x32"@,
            ImageSize::Is48x48 => "is-48x48"@,
            ImageSize::Is64x64 => "is-64x64"@,
            ImageSize::Is96x96 => "is-96x96"@,
            ImageSize::Is128x128 => "is-128x128"@,
            ImageSize::IsSquare => "is-Square"@,
            ImageSize::Is1by1 => "is-1by1"@,
            ImageSize::Is5by4 => "is-5by4"@,
            ImageSize::Is4by3 => "is-4by3"@,
            ImageSize::Is3by2 => "is-3by2"@,
            ImageSize::Is5by3 => "is-5by3"@,
            ImageSize::Is16by9 => "is-16by9"@,
            ImageSize::Is2by1 => "is-2by1"@,
            ImageSize::Is3by1 => "is-3by1"@,
            ImageSize::Is4by5 => "is-4by5"@,
            ImageSize::Is3by4 => "is-3by4"@,
            ImageSize::Is2by3 => "is-2by3"@,
            ImageSize::Is3by5 => "is-3by5"@,
            ImageSize::Is9by16 => "is-9by16"@,
            ImageSize::Is1by2 => "is-1by2"@,
            ImageSize::Is1by3 => "is-1by3"@,
        }
    }

    fn class_text(&self) -> (r: String) {
        match self {
            ImageSize::Is16x16 => "is-16x16".to_owned(),
            ImageSize::Is24x24 => "is-24x24".to_owned(),
            ImageSize::Is32x32 => "is-32x32".to_owned(),
            ImageSize::Is48x48 => "is-48x48".to_owned(),
            ImageSize::Is64x64 => "is-64x64".to_owned(),
            ImageSize::Is96x96 => "is-96x96".to_owned(),
            ImageSize::Is128x128 => "is-128x128".to_owned(),
            ImageSize::IsSquare => "is-Square".to_owned(),
            ImageSize::Is1by1 => "is-1by1".to_owned(),
            ImageSize::Is5by4 => "is-5by4".to_owned(),
            ImageSize::Is4by3 => "is-4by3".to_owned(),
            ImageSize::Is3by2 => "is-3by2".to_owned(),
            ImageSize::Is5by3 => "is-5by3".to_owned(),
            ImageSize::Is16by9 => "is-16by9".to_owned(),
            ImageSize::Is2by1 => "is-2by1".to_owned(),
            ImageSize::Is3by1 => "is-3by1".to_owned(),
            ImageSize::Is4by5 => "is-4by5".to_owned(),
            ImageSize::Is3by4 => "is-3by4".to_owned(),
            ImageSize::Is2by3 => "is-2by3".to_owned(),
            ImageSize::Is3by5 => "is-3by5".to_owned(),
            ImageSize::Is9by16 => "is-9by16".to_owned(),
            ImageSize::Is1by2 => "is-1by2".to_owned(),
            ImageSize::Is1by3 => "is-1by3".to_owned(),
        }
    }
}
/// The configuration of a responsive image container.
pub struct ImageProps {
    pub children: Vec<Node>,
    pub classes: Option<Vec<String>>,
    /// The size of this component.
    pub size: Option<ImageSize>,
}

impl ImageProps {
    /// The composed class list: `image`, the extension classes, then one
    /// modifier per selected option, in property order.
    pub open spec fn spec_classes(self) -> Seq<Seq<char>> {
        composed("image"@, ext_views(self.classes), opt_mod(self.size))
    }
}

/// A container for responsive images.
pub struct Image {
    pub props: ImageProps,
}

impl Image {
    pub fn create(props: ImageProps) -> (r: Self)
        ensures
            r.props == props,
    {
        Image { props }
    }

    pub fn update(&mut self, _msg: ()) -> (rerender: bool)
        ensures
            !rerender,
            *final(self) == *old(self),
    {
        false
    }
}

impl Render for Image {
    open spec fn spec_view(&self) -> NodeModel {
        NodeModel::Element {
            tag: "figure"@,
            attrs: Seq::empty(),
            classes: self.props.spec_classes(),
            children: models_of(self.props.children@),
        }
    }

    fn view(&self) -> (r: Node) {
        let mut classes = base_class("image");
        push_extension(&mut classes, &self.props.classes);
        push_opt_mod(&mut classes, &self.props.size);
        proof {
            assert(class_views(classes@) =~= self.props.spec_classes());
        }
        plain_element("figure", classes, clone_nodes(&self.props.children))
    }
}

impl Default for ImageProps {
    /// The default configuration: every optional field unset.
    fn default() -> (r: Self)
        ensures
            r.children@ == Seq::<Node>::empty(),
            r.classes is None,
            r.size is None,
    {
        ImageProps {
            children: Vec::new(),
            classes: None,
            size: None,
        }
    }
}

} // verus!
