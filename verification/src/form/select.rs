//! Wrappers around the native select element, single- and multi-valued.

use vstd::prelude::*;

use crate::classes::{
    base_class, class_views, composed, ext_views, flag_class, opt_mod, push_class, push_extension, push_opt_mod,
};
use crate::form::UpdateResult;
use crate::classes::class_views as string_views;
use crate::markup::{
    attr, clone_nodes, decimal_digits, element, flag_attr, join_with, joined, models_of, u32_text, Attr, AttrModel, Node, NodeModel,
};
use crate::render::Render;
use crate::Size;

verus! {

/// The message a change event on the rendered select produces: the select
/// element's current value.
pub enum SelectMsg {
    Text(String),
}

/// The configuration of a single-valued select.
pub struct SelectProps {
    /// The `name` attribute for this form element.
    pub name: String,
    /// The controlled value of this form element.
    pub value: String,
    /// The `option` and `optgroup` children of this select component.
    pub children: Vec<Node>,
    pub classes: Option<Vec<String>>,
    /// The size of this component.
    pub size: Option<Size>,
    /// Display a loading spinner within this component.
    pub loading: bool,
    /// Disable this component.
    pub disabled: bool,
}

impl SelectProps {
    /// The composed class list of the wrapper: `select`, the extension
    /// classes, then one modifier per selected option, in property order.
    pub open spec fn spec_classes(self) -> Seq<Seq<char>> {
        composed(
            "select"@,
            ext_views(self.classes),
            opt_mod(self.size) + flag_class(self.loading, "is-loading"@),
        )
    }
}

/// A wrapper around a native select element.
///
/// All form components here are controlled components: the value of the
/// field is provided by the owner, and changes are propagated back to the
/// owner through the emitted update value.
pub struct Select {
    pub props: SelectProps,
}

impl SelectProps {
    /// A configuration with the mandatory name and controlled value, and
    /// every optional field at its default.
    pub fn new(name: String, value: String) -> (r: Self)
        ensures
            r.name == name,
            r.value == value,
            r.children@ == Seq::<Node>::empty(),
            r.classes is None,
            r.size is None,
            !r.loading,
            !r.disabled,
    {
        SelectProps {
            name,
            value,
            children: Vec::new(),
            classes: None,
            size: None,
            loading: false,
            disabled: false,
        }
    }
}

impl Select {
    /// The value the owner's callback receives for a message: the select
    /// always forwards the element's value.
    pub open spec fn spec_emit(msg: SelectMsg) -> Option<String> {
        Option::Some(msg->0)
    }

    pub fn create(props: SelectProps) -> (r: Self)
        ensures
            r.props == props,
    {
        Select { props }
    }

    /// The message a change event produces: the select element's value when
    /// the event resolved to a select element, and no message — the event is
    /// silently dropped — when it did not.
    pub fn change_message(value: Option<String>) -> (m: Option<SelectMsg>)
        ensures
            m == match value {
                Option::Some(v) => Option::Some(SelectMsg::Text(v)),
                Option::None => Option::None::<SelectMsg>,
            },
    {
        match value {
            Option::Some(v) => Option::Some(SelectMsg::Text(v)),
            Option::None => Option::None,
        }
    }

    /// Hand the event's value to the owner, exactly once per event; the
    /// component itself holds no state and never re-renders on its own.
    pub fn update(&mut self, msg: SelectMsg) -> (r: UpdateResult<String>)
        ensures
            *final(self) == *old(self),
            !r.rerender,
            r.emit == Self::spec_emit(msg),
    {
        match msg {
            SelectMsg::Text(text) => UpdateResult { emit: Option::Some(text), rerender: false },
        }
    }
}

/// A change event on a select showing value `v` hands exactly `v2` — the
/// value the simulated event carries — to the owner's callback; an event
/// that resolves to no select element is dropped without a callback.
pub proof fn lemma_select_round_trip(v2: String)
    ensures
        Select::change_message_spec(Option::Some(v2)) matches Option::Some(m) && Select::spec_emit(
            m,
        ) == Option::Some(v2),
        Select::change_message_spec(Option::None) is None,
{
}

impl Select {
    /// What `change_message` returns, as a spec function.
    pub open spec fn change_message_spec(value: Option<String>) -> Option<SelectMsg> {
        match value {
            Option::Some(v) => Option::Some(SelectMsg::Text(v)),
            Option::None => Option::None,
        }
    }
}

impl Render for Select {
    open spec fn spec_view(&self) -> NodeModel {
        NodeModel::Element {
            tag: "div"@,
            attrs: Seq::empty(),
            classes: self.props.spec_classes(),
            children: seq![
                NodeModel::Element {
                    tag: "select"@,
                    attrs: seq![
                        AttrModel { name: "name"@, value: self.props.name@ },
                        AttrModel { name: "value"@, value: self.props.value@ },
                        AttrModel {
                            name: "disabled"@,
                            value: if self.props.disabled {
                                "true"@
                            } else {
                                "false"@
                            },
                        },
                    ],
                    classes: Seq::empty(),
                    children: models_of(self.props.children@),
                },
            ],
        }
    }

    fn view(&self) -> (r: Node) {
        let mut classes = base_class("select");
        push_extension(&mut classes, &self.props.classes);
        push_opt_mod(&mut classes, &self.props.size);
        if self.props.loading {
            push_class(&mut classes, "is-loading");
        }
        let mut select_attrs: Vec<Attr> = Vec::new();
        select_attrs.push(attr("name", self.props.name.clone()));
        select_attrs.push(attr("value", self.props.value.clone()));
        select_attrs.push(flag_attr("disabled", self.props.disabled));
        let select = element(
            "select",
            Vec::new(),
            select_attrs,
            clone_nodes(&self.props.children),
        );
        let mut kids: Vec<Node> = Vec::new();
        kids.push(select);
        proof {
            broadcast use crate::markup::lemma_models_of;

            assert(class_views(classes@) =~= self.props.spec_classes());
            assert(class_views(Seq::<String>::empty()) =~= Seq::<Seq<char>>::empty());
            assert(models_of(kids@) =~~= self.spec_view()->children);
        }
        plain_div(classes, kids)
    }
}

/// Build the wrapper division around a select element.
fn plain_div(classes: Vec<String>, kids: Vec<Node>) -> (r: Node)
    ensures
        r.model() == (NodeModel::Element {
            tag: "div"@,
            attrs: Seq::empty(),
            classes: class_views(classes@),
            children: models_of(kids@),
        }),
{
    crate::markup::plain_element("div", classes, kids)
}

/// One selectable option of a multi-valued select, as the change handler
/// reads it from the host: whether it is currently selected is already
/// decided by the host handing it over, and the handler sees its `value`
/// attribute, if any, and its visible text content, if any.
pub struct SelectedOption {
    /// The option's explicit `value` attribute, when present.
    pub value: Option<String>,
    /// The option's visible text content, when present.
    pub text: Option<String>,
}

impl SelectedOption {
    /// What the option contributes to the forwarded selection: its explicit
    /// value, falling back to its visible text, and nothing when it has
    /// neither.
    pub open spec fn contributed(self) -> Seq<Seq<char>> {
        match self.value {
            Option::Some(v) => seq![v@],
            Option::None => match self.text {
                Option::Some(t) => seq![t@],
                Option::None => Seq::empty(),
            },
        }
    }
}

/// What a list of selected options contributes, in order.
pub open spec fn contributed_values(opts: Seq<SelectedOption>) -> Seq<Seq<char>>
    decreases opts.len(),
{
    if opts.len() == 0 {
        Seq::empty()
    } else {
        contributed_values(opts.drop_last()) + opts.last().contributed()
    }
}

/// The message a change event on the rendered multi-select produces: the
/// full set of currently selected values, in the host's order.
pub enum MultiSelectMsg {
    Selections(Vec<String>),
}

/// The configuration of a multi-valued select.
pub struct MultiSelectProps {
    /// The `name` attribute for this form element.
    pub name: String,
    /// The controlled value of this form element.
    pub value: Vec<String>,
    /// The `option` and `optgroup` children of this select component.
    pub children: Vec<Node>,
    pub classes: Option<Vec<String>>,
    /// The size of this component.
    pub size: Option<Size>,
    /// Size of the list to display.
    pub list_size: u32,
    /// Display a loading spinner within this component.
    pub loading: bool,
    /// Disable this component.
    pub disabled: bool,
}

impl MultiSelectProps {
    /// The composed class list of the wrapper: `select` and `is-multiple`,
    /// the extension classes, then one modifier per selected option.
    pub open spec fn spec_classes(self) -> Seq<Seq<char>> {
        seq!["select"@, "is-multiple"@] + ext_views(self.classes) + opt_mod(self.size)
            + flag_class(self.loading, "is-loading"@)
    }
}

/// A wrapper around a native select element with multiple selection.
pub struct MultiSelect {
    pub props: MultiSelectProps,
}

impl MultiSelectProps {
    /// A configuration with the mandatory name and controlled value, and
    /// every optional field at its default; the displayed list holds four
    /// entries unless told otherwise.
    pub fn new(name: String, value: Vec<String>) -> (r: Self)
        ensures
            r.name == name,
            r.value == value,
            r.children@ == Seq::<Node>::empty(),
            r.classes is None,
            r.size is None,
            r.list_size == 4,
            !r.loading,
            !r.disabled,
    {
        MultiSelectProps {
            name,
            value,
            children: Vec::new(),
            classes: None,
            size: None,
            list_size: 4,
            loading: false,
            disabled: false,
        }
    }
}

impl MultiSelect {
    /// The value the owner's callback receives for a message: the forwarded
    /// selection set, always, and in full — never a delta.
    pub open spec fn spec_emit(msg: MultiSelectMsg) -> Option<Seq<Seq<char>>> {
        Option::Some(string_views(msg->0@))
    }

    pub fn create(props: MultiSelectProps) -> (r: Self)
        ensures
            r.props == props,
    {
        MultiSelect { props }
    }

    /// The message a change event produces: for each currently selected
    /// option, in the host's order, its explicit value — falling back to its
    /// visible text when no value attribute is present, and skipping options
    /// with neither. An event that resolves to no select element produces no
    /// message and is silently dropped.
    #[verifier::loop_isolation(false)]
    pub fn change_message(options: Option<Vec<SelectedOption>>) -> (m: Option<MultiSelectMsg>)
        ensures
            match options {
                Option::Some(opts) => m matches Option::Some(msg) && string_views(msg->0@)
                    == contributed_values(opts@),
                Option::None => m is None,
            },
    {
        match options {
            Option::Some(opts) => {
                let mut out: Vec<String> = Vec::new();
                let mut i: usize = 0;
                while i < opts.len()
                    invariant
                        i <= opts.len(),
                        string_views(out@) == contributed_values(opts@.take(i as int)),
                    decreases opts.len() - i,
                {
                    let ghost prev = out@;
                    match &opts[i].value {
                        Option::Some(v) => out.push(v.clone()),
                        Option::None => {
                            match &opts[i].text {
                                Option::Some(t) => out.push(t.clone()),
                                Option::None => (),
                            }
                        },
                    }
                    proof {
                        assert(opts@.take(i + 1 as int).drop_last() =~= opts@.take(i as int));
                        assert(opts@.take(i + 1 as int).last() == opts@[i as int]);
                        assert(string_views(out@) =~= contributed_values(opts@.take(i + 1 as int)));
                    }
                    i = i + 1;
                }
                proof {
                    assert(opts@.take(opts@.len() as int) =~= opts@);
                }
                Option::Some(MultiSelectMsg::Selections(out))
            },
            Option::None => Option::None,
        }
    }

    /// Hand the full selection set to the owner, exactly once per event; the
    /// component itself holds no state and never re-renders on its own.
    pub fn update(&mut self, msg: MultiSelectMsg) -> (r: UpdateResult<Vec<String>>)
        ensures
            *final(self) == *old(self),
            !r.rerender,
            r.emit matches Option::Some(vs) && vs == msg->0,
    {
        match msg {
            MultiSelectMsg::Selections(selections) => UpdateResult {
                emit: Option::Some(selections),
                rerender: false,
            },
        }
    }
}

impl Render for MultiSelect {
    open spec fn spec_view(&self) -> NodeModel {
        NodeModel::Element {
            tag: "div"@,
            attrs: Seq::empty(),
            classes: self.props.spec_classes(),
            children: seq![
                NodeModel::Element {
                    tag: "select"@,
                    attrs: seq![
                        AttrModel { name: "multiple"@, value: "true"@ },
                        AttrModel {
                            name: "size"@,
                            value: decimal_digits(self.props.list_size as nat),
                        },
                        AttrModel { name: "name"@, value: self.props.name@ },
                        AttrModel {
                            name: "value"@,
                            value: joined(string_views(self.props.value@), ","@),
                        },
                        AttrModel {
                            name: "disabled"@,
                            value: if self.props.disabled {
                                "true"@
                            } else {
                                "false"@
                            },
                        },
                    ],
                    classes: Seq::empty(),
                    children: models_of(self.props.children@),
                },
            ],
        }
    }

    fn view(&self) -> (r: Node) {
        let mut classes = base_class("select");
        push_class(&mut classes, "is-multiple");
        push_extension(&mut classes, &self.props.classes);
        push_opt_mod(&mut classes, &self.props.size);
        if self.props.loading {
            push_class(&mut classes, "is-loading");
        }
        let mut select_attrs: Vec<Attr> = Vec::new();
        select_attrs.push(attr("multiple", "true".to_owned()));
        select_attrs.push(attr("size", u32_text(self.props.list_size)));
        select_attrs.push(attr("name", self.props.name.clone()));
        select_attrs.push(attr("value", join_with(&self.props.value, ",")));
        select_attrs.push(flag_attr("disabled", self.props.disabled));
        let select = element(
            "select",
            Vec::new(),
            select_attrs,
            clone_nodes(&self.props.children),
        );
        let mut kids: Vec<Node> = Vec::new();
        kids.push(select);
        proof {
            broadcast use crate::markup::lemma_models_of;

            assert(class_views(classes@) =~= self.props.spec_classes());
            assert(class_views(Seq::<String>::empty()) =~= Seq::<Seq<char>>::empty());
            assert(models_of(kids@) =~~= self.spec_view()->children);
        }
        plain_div(classes, kids)
    }
}

/// A change event whose selected options are `opts` hands exactly the
/// contributed values — each option's explicit value, falling back to its
/// visible text — in the host's order, as one full set, to the owner's
/// callback.
pub proof fn lemma_multi_select_round_trip(opts: Vec<SelectedOption>, m: Option<MultiSelectMsg>)
    requires
        m matches Option::Some(msg) && string_views(msg->0@) == contributed_values(opts@),
    ensures
        m matches Option::Some(msg) && MultiSelect::spec_emit(msg) == Option::Some(
            contributed_values(opts@),
        ),
{
}

} // verus!
