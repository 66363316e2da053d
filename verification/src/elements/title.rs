//! Title and subtitle headings.

use vstd::prelude::*;

use crate::classes::{
    base_class, class_views, composed, ext_views, flag_class, opt_mod, push_class, push_extension,
    push_opt_mod, ModifierClass,
};
use crate::markup::{clone_nodes, models_of, plain_element, Node, NodeModel};
use crate::render::Render;

verus! {

/// The six sizes available for titles and subtitles.
#[derive(Clone, Copy, Debug, PartialEq, Eq, Structural)]
pub enum HeaderSize {
    Is1,
    Is2,
    Is3,
    Is4,
    Is5,
    Is6,
}

impl ModifierClass for HeaderSize {
    open spec fn class(&self) -> Seq<char> {
        match self {
            HeaderSize::Is1 => "is-1"@,
            HeaderSize::Is2 => "is-2"@,
            HeaderSize::Is3 => "is-3"@,
            HeaderSize::Is4 => "is-4"@,
            HeaderSize::Is5 => "is-5"@,
            HeaderSize::Is6 => "is-6"@,
        }
    }

    fn class_text(&self) -> (r: String) {
        match self {
            HeaderSize::Is1 => "is-1".to_owned(),
            HeaderSize::Is2 => "is-2".to_owned(),
            HeaderSize::Is3 => "is-3".to_owned(),
            HeaderSize::Is4 => "is-4".to_owned(),
            HeaderSize::Is5 => "is-5".to_owned(),
            HeaderSize::Is6 => "is-6".to_owned(),
        }
    }
}
/// The configuration of a title heading.
pub struct TitleProps {
    pub children: Vec<Node>,
    pub classes: Option<Vec<String>>,
    /// The markup tag to use for this component; `h3` is customary.
    pub tag: String,
    /// The size of this component.
    pub size: Option<HeaderSize>,
    /// Maintain the normal spacing between titles and subtitles.
    pub is_spaced: bool,
}

impl TitleProps {
    /// The composed class list: `title`, the extension classes, then one
    /// modifier per selected option, in property order.
    pub open spec fn spec_classes(self) -> Seq<Seq<char>> {
        composed("title"@, ext_views(self.classes), opt_mod(self.size) + flag_class(self.is_spaced, "is-spaced"@))
    }
}

/// A simple heading to add depth to your page.
pub struct Title {
    pub props: TitleProps,
}

impl Title {
    pub fn create(props: TitleProps) -> (r: Self)
        ensures
            r.props == props,
    {
        Title { props }
    }

    pub fn update(&mut self, _msg: ()) -> (rerender: bool)
        ensures
            !rerender,
            *final(self) == *old(self),
    {
        false
    }
}

impl Render for Title {
    open spec fn spec_view(&self) -> NodeModel {
        NodeModel::Element {
            tag: self.props.tag@,
            attrs: Seq::empty(),
            classes: self.props.spec_classes(),
            children: models_of(self.props.children@),
        }
    }

    fn view(&self) -> (r: Node) {
        let mut classes = base_class("title");
        push_extension(&mut classes, &self.props.classes);
        push_opt_mod(&mut classes, &self.props.size);
        if self.props.is_spaced {
            push_class(&mut classes, "is-spaced");
        }
        proof {
            assert(class_views(classes@) =~= self.props.spec_classes());
        }
        plain_element(self.props.tag.as_str(), classes, clone_nodes(&self.props.children))
    }
}
/// The configuration of a subtitle heading.
pub struct SubtitleProps {
    pub children: Vec<Node>,
    pub classes: Option<Vec<String>>,
    /// The markup tag to use for this component; `h3` is customary.
    pub tag: String,
    /// The size of this component.
    pub size: Option<HeaderSize>,
}

impl SubtitleProps {
    /// The composed class list: `subtitle`, the extension classes, then one
    /// modifier per selected option, in property order.
    pub open spec fn spec_classes(self) -> Seq<Seq<char>> {
        composed("subtitle"@, ext_views(self.classes), opt_mod(self.size))
    }
}

/// A simple heading to add depth to your page.
pub struct Subtitle {
    pub props: SubtitleProps,
}

impl Subtitle {
    pub fn create(props: SubtitleProps) -> (r: Self)
        ensures
            r.props == props,
    {
        Subtitle { props }
    }

    pub fn update(&mut self, _msg: ()) -> (rerender: bool)
        ensures
            !rerender,
            *final(self) == *old(self),
    {
        false
    }
}

impl Render for Subtitle {
    open spec fn spec_view(&self) -> NodeModel {
        NodeModel::Element {
            tag: self.props.tag@,
            attrs: Seq::empty(),
            classes: self.props.spec_classes(),
            children: models_of(self.props.children@),
        }
    }

    fn view(&self) -> (r: Node) {
        let mut classes = base_class("subtitle");
        push_extension(&mut classes, &self.props.classes);
        push_opt_mod(&mut classes, &self.props.size);
        proof {
            assert(class_views(classes@) =~= self.props.spec_classes());
        }
        plain_element(self.props.tag.as_str(), classes, clone_nodes(&self.props.children))
    }
}
/// With a tag override, the rendered root element's tag equals the
/// override, not the customary default.
pub proof fn lemma_title_tag_override(c: Title)
    ensures
        c.spec_view() matches NodeModel::Element { tag, .. } && tag == c.props.tag@,
{
}

impl Default for TitleProps {
    /// The default configuration: every optional field unset.
    fn default() -> (r: Self)
        ensures
            r.children@ == Seq::<Node>::empty(),
            r.classes is None,
            r.tag@ == "h3"@,
            r.size is None,
            !r.is_spaced,
    {
        TitleProps {
            children: Vec::new(),
            classes: None,
            tag: "h3".to_owned(),
            size: None,
            is_spaced: false,
        }
    }
}
impl Default for SubtitleProps {
    /// The default configuration: every optional field unset.
    fn default() -> (r: Self)
        ensures
            r.children@ == Seq::<Node>::empty(),
            r.classes is None,
            r.tag@ == "h3"@,
            r.size is None,
    {
        SubtitleProps {
            children: Vec::new(),
            classes: None,
            tag: "h3".to_owned(),
            size: None,
        }
    }
}

} // verus!
