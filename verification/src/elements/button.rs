//! Button elements and button-styled inputs.

use vstd::prelude::*;

use crate::classes::{
    base_class, class_views, composed, contains_class, ext_views, flag_class, opt_mod, push_class,
    push_extension, push_opt_mod, ModifierClass,
};
use crate::markup::{
    attr, attr_models_of, clone_nodes, element, flag_attr, models_of, plain_element, Attr,
    AttrModel, Node, NodeModel,
};
use crate::markup::{opt_string, opt_text};
use crate::render::{Render, RenderHandler, Rendered};

verus! {

/// The three sizes available for a button group.
#[derive(Clone, Copy, Debug, PartialEq, Eq, Structural)]
pub enum ButtonGroupSize {
    Small,
    Medium,
    Large,
}

impl ModifierClass for ButtonGroupSize {
    open spec fn class(&self) -> Seq<char> {
        match self {
            ButtonGroupSize::Small => "are-small"@,
            ButtonGroupSize::Medium => "are-medium"@,
            ButtonGroupSize::Large => "are-large"@,
        }
    }

    fn class_text(&self) -> (r: String) {
        match self {
            ButtonGroupSize::Small => "are-small".to_owned(),
            ButtonGroupSize::Medium => "are-medium".to_owned(),
            ButtonGroupSize::Large => "are-large".to_owned(),
        }
    }
}
/// The configuration of a button group.
pub struct ButtonsProps {
    pub children: Vec<Node>,
    pub classes: Option<Vec<String>>,
    /// The size for all buttons within this group.
    pub size: Option<ButtonGroupSize>,
}

impl ButtonsProps {
    /// The composed class list: `buttons`, the extension classes, then one
    /// modifier per selected option, in property order.
    pub open spec fn spec_classes(self) -> Seq<Seq<char>> {
        composed("buttons"@, ext_views(self.classes), opt_mod(self.size))
    }
}

/// A container for a group of buttons.
pub struct Buttons {
    pub props: ButtonsProps,
}

impl Buttons {
    pub fn create(props: ButtonsProps) -> (r: Self)
        ensures
            r.props == props,
    {
        Buttons { props }
    }

    pub fn update(&mut self, _msg: ()) -> (rerender: bool)
        ensures
            !rerender,
            *final(self) == *old(self),
    {
        false
    }
}

impl Render for Buttons {
    open spec fn spec_view(&self) -> NodeModel {
        NodeModel::Element {
            tag: "div"@,
            attrs: Seq::empty(),
            classes: self.props.spec_classes(),
            children: models_of(self.props.children@),
        }
    }

    fn view(&self) -> (r: Node) {
        let mut classes = base_class("buttons");
        push_extension(&mut classes, &self.props.classes);
        push_opt_mod(&mut classes, &self.props.size);
        proof {
            assert(class_views(classes@) =~= self.props.spec_classes());
        }
        plain_element("div", classes, clone_nodes(&self.props.children))
    }
}
/// The configuration of a button. The click handler is the host's own
/// value, carried untouched.
pub struct ButtonProps<H> {
    pub children: Vec<Node>,
    pub classes: Option<Vec<String>>,
    /// The click handler for this component, forwarded untouched to the
    /// rendered element.
    pub onclick: H,
    /// Render a loading spinner within this component.
    pub loading: bool,
    /// Make this component static.
    pub is_static: bool,
    /// Disable this component.
    pub disabled: bool,
}

impl<H> ButtonProps<H> {
    /// The composed class list: `button`, the extension classes, then one
    /// modifier per selected option, in property order.
    pub open spec fn spec_classes(self) -> Seq<Seq<char>> {
        composed("button"@, ext_views(self.classes), flag_class(self.loading, "is-loading"@) + flag_class(self.is_static, "is-static"@))
    }
}

/// A button element.
pub struct Button<H> {
    pub props: ButtonProps<H>,
}

impl<H> Button<H> {
    pub fn create(props: ButtonProps<H>) -> (r: Self)
        ensures
            r.props == props,
    {
        Button { props }
    }

    pub fn update(&mut self, _msg: ()) -> (rerender: bool)
        ensures
            !rerender,
            *final(self) == *old(self),
    {
        false
    }
}

impl<H> RenderHandler<H> for Button<H> {
    open spec fn spec_view(&self) -> NodeModel {
        NodeModel::Element {
            tag: "button"@,
            attrs: seq![
                AttrModel { name: "disabled"@, value: if self.props.disabled { "true"@ } else { "false"@ } }
            ],
            classes: self.props.spec_classes(),
            children: models_of(self.props.children@),
        }
    }

    open spec fn spec_handler(&self) -> H {
        self.props.onclick
    }

    fn view(self) -> (r: Rendered<H>) {
        let mut classes = base_class("button");
        push_extension(&mut classes, &self.props.classes);
        if self.props.loading {
            push_class(&mut classes, "is-loading");
        }
        if self.props.is_static {
            push_class(&mut classes, "is-static");
        }
        proof {
            assert(class_views(classes@) =~= self.props.spec_classes());
        }
        let mut attrs: Vec<Attr> = Vec::new();
        attrs.push(flag_attr("disabled", self.props.disabled));
        proof {
            assert(attr_models_of(attrs@) =~= self.spec_view()->attrs);
        }
        let node = element("button", classes, attrs, clone_nodes(&self.props.children));
        Rendered { node, handler: self.props.onclick }
    }
}
/// The configuration of an anchor styled as a button. The click handler is
/// the host's own value, carried untouched.
pub struct ButtonAnchorProps<H> {
    pub children: Vec<Node>,
    pub classes: Option<Vec<String>>,
    /// The click handler for this component, forwarded untouched to the
    /// rendered element.
    pub onclick: H,
    /// Render a loading spinner within this component.
    pub loading: bool,
    /// Make this component static.
    pub is_static: bool,
    /// The `href` attribute value to use for this component.
    pub href: String,
    /// An optional `rel` for this anchor.
    pub rel: Option<String>,
    /// An optional `target` for this anchor.
    pub target: Option<String>,
    /// Disable this component.
    pub disabled: bool,
}

impl<H> ButtonAnchorProps<H> {
    /// The composed class list: `button`, the extension classes, then one
    /// modifier per selected option, in property order.
    pub open spec fn spec_classes(self) -> Seq<Seq<char>> {
        composed("button"@, ext_views(self.classes), flag_class(self.loading, "is-loading"@) + flag_class(self.is_static, "is-static"@))
    }
}

/// An anchor element styled as a button.
pub struct ButtonAnchor<H> {
    pub props: ButtonAnchorProps<H>,
}

impl<H> ButtonAnchor<H> {
    pub fn create(props: ButtonAnchorProps<H>) -> (r: Self)
        ensures
            r.props == props,
    {
        ButtonAnchor { props }
    }

    pub fn update(&mut self, _msg: ()) -> (rerender: bool)
        ensures
            !rerender,
            *final(self) == *old(self),
    {
        false
    }
}

impl<H> RenderHandler<H> for ButtonAnchor<H> {
    open spec fn spec_view(&self) -> NodeModel {
        NodeModel::Element {
            tag: "a"@,
            attrs: seq![
                AttrModel { name: "href"@, value: self.props.href@ },
                AttrModel { name: "rel"@, value: opt_text(self.props.rel) },
                AttrModel { name: "target"@, value: opt_text(self.props.target) },
                AttrModel { name: "disabled"@, value: if self.props.disabled { "true"@ } else { "false"@ } }
            ],
            classes: self.props.spec_classes(),
            children: models_of(self.props.children@),
        }
    }

    open spec fn spec_handler(&self) -> H {
        self.props.onclick
    }

    fn view(self) -> (r: Rendered<H>) {
        let mut classes = base_class("button");
        push_extension(&mut classes, &self.props.classes);
        if self.props.loading {
            push_class(&mut classes, "is-loading");
        }
        if self.props.is_static {
            push_class(&mut classes, "is-static");
        }
        proof {
            assert(class_views(classes@) =~= self.props.spec_classes());
        }
        let mut attrs: Vec<Attr> = Vec::new();
        attrs.push(attr("href", self.props.href.clone()));
        attrs.push(attr("rel", opt_string(&self.props.rel)));
        attrs.push(attr("target", opt_string(&self.props.target)));
        attrs.push(flag_attr("disabled", self.props.disabled));
        proof {
            assert(attr_models_of(attrs@) =~= self.spec_view()->attrs);
        }
        let node = element("a", classes, attrs, clone_nodes(&self.props.children));
        Rendered { node, handler: self.props.onclick }
    }
}
/// The configuration of an input styled as a submit button. The submit
/// handler is the host's own value, carried untouched.
pub struct ButtonInputSubmitProps<H> {
    pub classes: Option<Vec<String>>,
    /// The submit handler for this component, forwarded untouched to the
    /// rendered element.
    pub onsubmit: H,
    /// Render a loading spinner within this component.
    pub loading: bool,
    /// Make this component static.
    pub is_static: bool,
    /// Disable this component.
    pub disabled: bool,
}

impl<H> ButtonInputSubmitProps<H> {
    /// The composed class list: `button`, the extension classes, then one
    /// modifier per selected option, in property order.
    pub open spec fn spec_classes(self) -> Seq<Seq<char>> {
        composed("button"@, ext_views(self.classes), flag_class(self.loading, "is-loading"@) + flag_class(self.is_static, "is-static"@))
    }
}

/// An input element with `type="submit"` styled as a button.
pub struct ButtonInputSubmit<H> {
    pub props: ButtonInputSubmitProps<H>,
}

impl<H> ButtonInputSubmit<H> {
    pub fn create(props: ButtonInputSubmitProps<H>) -> (r: Self)
        ensures
            r.props == props,
    {
        ButtonInputSubmit { props }
    }

    pub fn update(&mut self, _msg: ()) -> (rerender: bool)
        ensures
            !rerender,
            *final(self) == *old(self),
    {
        false
    }
}

impl<H> RenderHandler<H> for ButtonInputSubmit<H> {
    open spec fn spec_view(&self) -> NodeModel {
        NodeModel::Element {
            tag: "input"@,
            attrs: seq![
                AttrModel { name: "type"@, value: "submit"@ },
                AttrModel { name: "disabled"@, value: if self.props.disabled { "true"@ } else { "false"@ } }
            ],
            classes: self.props.spec_classes(),
            children: Seq::empty(),
        }
    }

    open spec fn spec_handler(&self) -> H {
        self.props.onsubmit
    }

    fn view(self) -> (r: Rendered<H>) {
        let mut classes = base_class("button");
        push_extension(&mut classes, &self.props.classes);
        if self.props.loading {
            push_class(&mut classes, "is-loading");
        }
        if self.props.is_static {
            push_class(&mut classes, "is-static");
        }
        proof {
            assert(class_views(classes@) =~= self.props.spec_classes());
        }
        let mut attrs: Vec<Attr> = Vec::new();
        attrs.push(attr("type", "submit".to_owned()));
        attrs.push(flag_attr("disabled", self.props.disabled));
        proof {
            assert(attr_models_of(attrs@) =~= self.spec_view()->attrs);
        }
        let kids: Vec<Node> = Vec::new();
        proof {
            assert(models_of(kids@) =~= Seq::<NodeModel>::empty());
        }
        let node = element("input", classes, attrs, kids);
        Rendered { node, handler: self.props.onsubmit }
    }
}
/// The configuration of an input styled as a reset button. The reset
/// handler is the host's own value, carried untouched.
pub struct ButtonInputResetProps<H> {
    pub classes: Option<Vec<String>>,
    /// The reset handler for this component, forwarded untouched to the
    /// rendered element.
    pub onreset: H,
    /// Render a loading spinner within this component.
    pub loading: bool,
    /// Make this component static.
    pub is_static: bool,
    /// Disable this component.
    pub disabled: bool,
}

impl<H> ButtonInputResetProps<H> {
    /// The composed class list: `button`, the extension classes, then one
    /// modifier per selected option, in property order.
    pub open spec fn spec_classes(self) -> Seq<Seq<char>> {
        composed("button"@, ext_views(self.classes), flag_class(self.loading, "is-loading"@) + flag_class(self.is_static, "is-static"@))
    }
}

/// An input element with `type="reset"` styled as a button.
pub struct ButtonInputReset<H> {
    pub props: ButtonInputResetProps<H>,
}

impl<H> ButtonInputReset<H> {
    pub fn create(props: ButtonInputResetProps<H>) -> (r: Self)
        ensures
            r.props == props,
    {
        ButtonInputReset { props }
    }

    pub fn update(&mut self, _msg: ()) -> (rerender: bool)
        ensures
            !rerender,
            *final(self) == *old(self),
    {
        false
    }
}

impl<H> RenderHandler<H> for ButtonInputReset<H> {
    open spec fn spec_view(&self) -> NodeModel {
        NodeModel::Element {
            tag: "input"@,
            attrs: seq![
                AttrModel { name: "type"@, value: "reset"@ },
                AttrModel { name: "disabled"@, value: if self.props.disabled { "true"@ } else { "false"@ } }
            ],
            classes: self.props.spec_classes(),
            children: Seq::empty(),
        }
    }

    open spec fn spec_handler(&self) -> H {
        self.props.onreset
    }

    fn view(self) -> (r: Rendered<H>) {
        let mut classes = base_class("button");
        push_extension(&mut classes, &self.props.classes);
        if self.props.loading {
            push_class(&mut classes, "is-loading");
        }
        if self.props.is_static {
            push_class(&mut classes, "is-static");
        }
        proof {
            assert(class_views(classes@) =~= self.props.spec_classes());
        }
        let mut attrs: Vec<Attr> = Vec::new();
        attrs.push(attr("type", "reset".to_owned()));
        attrs.push(flag_attr("disabled", self.props.disabled));
        proof {
            assert(attr_models_of(attrs@) =~= self.spec_view()->attrs);
        }
        let kids: Vec<Node> = Vec::new();
        proof {
            assert(models_of(kids@) =~= Seq::<NodeModel>::empty());
        }
        let node = element("input", classes, attrs, kids);
        Rendered { node, handler: self.props.onreset }
    }
}
/// The configuration of a router-integrated button: the route value is the
/// application's own and is carried untouched.
pub struct ButtonRouterProps<R> {
    /// The route to which activating the button navigates.
    pub route: R,
    pub children: Vec<Node>,
    pub classes: Option<Vec<String>>,
    /// Render a loading spinner within this component.
    pub loading: bool,
    /// Make this component static.
    pub is_static: bool,
    /// Disable this component.
    pub disabled: bool,
}

impl<R> ButtonRouterProps<R> {
    /// The link's class list: the extension classes, with `button` appended
    /// when they do not already hold it, then the loading modifier.
    pub open spec fn spec_classes(self) -> Seq<Seq<char>> {
        (if ext_views(self.classes).contains("button"@) {
            ext_views(self.classes)
        } else {
            ext_views(self.classes).push("button"@)
        }) + flag_class(self.loading, "is-loading"@)
    }
}

/// What a router button hands to the routing layer: the route, the composed
/// class list, the disabled flag and the children. The navigation element
/// itself is rendered by the routing layer, outside this library.
pub struct RouterLink<R> {
    pub route: R,
    pub classes: Vec<String>,
    pub disabled: bool,
    pub children: Vec<Node>,
}

/// Compose the link data of a router button.
fn router_link<R>(props: ButtonRouterProps<R>) -> (r: RouterLink<R>)
    ensures
        r.route == props.route,
        r.disabled == props.disabled,
        class_views(r.classes@) == props.spec_classes(),
        models_of(r.children@) == models_of(props.children@),
{
    let ButtonRouterProps { route, children, classes, loading, is_static, disabled } = props;
    let mut list: Vec<String> = Vec::new();
    push_extension(&mut list, &classes);
    if !contains_class(&list, "button") {
        push_class(&mut list, "button");
    }
    if loading {
        push_class(&mut list, "is-loading");
    }
    proof {
        assert(class_views(list@) =~= (ButtonRouterProps { route, children, classes, loading, is_static, disabled }).spec_classes());
    }
    RouterLink { route, classes: list, disabled, children }
}

/// A router button element with the library's styling.
pub struct ButtonRouter<R> {
    pub props: ButtonRouterProps<R>,
}

impl<R> ButtonRouter<R> {
    pub fn create(props: ButtonRouterProps<R>) -> (r: Self)
        ensures
            r.props == props,
    {
        ButtonRouter { props }
    }

    pub fn update(&mut self, _msg: ()) -> (rerender: bool)
        ensures
            !rerender,
            *final(self) == *old(self),
    {
        false
    }

    /// The data the routing layer renders the button from.
    pub fn view(self) -> (r: RouterLink<R>)
        ensures
            r.route == self.props.route,
            r.disabled == self.props.disabled,
            class_views(r.classes@) == self.props.spec_classes(),
            models_of(r.children@) == models_of(self.props.children@),
    {
        router_link(self.props)
    }
}

/// A router anchor element with the library's styling.
pub struct ButtonAnchorRouter<R> {
    pub props: ButtonRouterProps<R>,
}

impl<R> ButtonAnchorRouter<R> {
    pub fn create(props: ButtonRouterProps<R>) -> (r: Self)
        ensures
            r.props == props,
    {
        ButtonAnchorRouter { props }
    }

    pub fn update(&mut self, _msg: ()) -> (rerender: bool)
        ensures
            !rerender,
            *final(self) == *old(self),
    {
        false
    }

    /// The data the routing layer renders the anchor from.
    pub fn view(self) -> (r: RouterLink<R>)
        ensures
            r.route == self.props.route,
            r.disabled == self.props.disabled,
            class_views(r.classes@) == self.props.spec_classes(),
            models_of(r.children@) == models_of(self.props.children@),
    {
        router_link(self.props)
    }
}

impl Default for ButtonsProps {
    /// The default configuration: every optional field unset.
    fn default() -> (r: Self)
        ensures
            r.children@ == Seq::<Node>::empty(),
            r.classes is None,
            r.size is None,
    {
        ButtonsProps {
            children: Vec::new(),
            classes: None,
            size: None,
        }
    }
}

} // verus!
