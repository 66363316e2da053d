//! Mutually exclusive radio buttons in their native format.

use vstd::prelude::*;

use crate::classes::{base_class, class_views, composed, ext_views, push_extension};
use crate::form::UpdateResult;
use crate::markup::{
    attr, attr_models_of, clone_nodes, element, flag_attr, models_of, Attr, AttrModel, Node,
    NodeModel,
};
use crate::render::Render;

verus! {

/// The message an input event on the rendered radio produces: the event's
/// data, when the event resolves to any.
pub enum RadioMsg {
    Selection(Option<String>),
}

/// The configuration of a radio button.
pub struct RadioProps {
    /// The `name` attribute for this form element.
    ///
    /// All members of the same radio group must have the same value for
    /// their `name` attribute.
    pub name: String,
    /// The `value` attribute for this form element.
    ///
    /// This is different from other form elements, as this value does not
    /// change. It represents the value to be used for the radio group
    /// overall when this element is selected.
    pub value: String,
    /// The value of the currently selected radio of this radio group.
    pub checked_value: Option<String>,
    pub children: Vec<Node>,
    pub classes: Option<Vec<String>>,
    /// Disable this component.
    pub disabled: bool,
}

impl RadioProps {
    /// The composed class list: `radio` followed by the extension classes.
    pub open spec fn spec_classes(self) -> Seq<Seq<char>> {
        composed("radio"@, ext_views(self.classes), Seq::empty())
    }

    /// Whether the rendered radio is the checked one of its group: exactly
    /// when the group's selected value equals this radio's value.
    pub open spec fn spec_checked(self) -> bool {
        self.checked_value matches Option::Some(v) && v@ == self.value@
    }
}

/// The mutually exclusive radio buttons in their native format.
pub struct Radio {
    pub props: RadioProps,
}

impl RadioProps {
    /// A configuration with the mandatory name, value and group selection,
    /// and every optional field at its default.
    pub fn new(name: String, value: String, checked_value: Option<String>) -> (r: Self)
        ensures
            r.name == name,
            r.value == value,
            r.checked_value == checked_value,
            r.children@ == Seq::<Node>::empty(),
            r.classes is None,
            !r.disabled,
    {
        RadioProps { name, value, checked_value, children: Vec::new(), classes: None, disabled: false }
    }
}

impl Radio {
    /// The value the owner's callback receives for a message: the event's
    /// data when the event carried any, and nothing — the event is silently
    /// dropped — when it did not.
    pub open spec fn spec_emit(msg: RadioMsg) -> Option<String> {
        msg->0
    }

    pub fn create(props: RadioProps) -> (r: Self)
        ensures
            r.props == props,
    {
        Radio { props }
    }

    /// The message an input event carrying the given data produces.
    pub fn input_message(data: Option<String>) -> (m: RadioMsg)
        ensures
            m == RadioMsg::Selection(data),
    {
        RadioMsg::Selection(data)
    }

    /// Hand the event's value to the owner — exactly once per event that
    /// carried one, not at all otherwise; the component itself holds no
    /// state and never re-renders on its own.
    pub fn update(&mut self, msg: RadioMsg) -> (r: UpdateResult<String>)
        ensures
            *final(self) == *old(self),
            !r.rerender,
            r.emit == Self::spec_emit(msg),
    {
        match msg {
            RadioMsg::Selection(selection) => UpdateResult { emit: selection, rerender: false },
        }
    }
}

/// An input event carrying value `v` hands exactly `v` to the owner's
/// callback, and an event carrying nothing is dropped without a callback.
pub proof fn lemma_radio_round_trip(v: String)
    ensures
        Radio::spec_emit(RadioMsg::Selection(Option::Some(v))) == Option::Some(v),
        Radio::spec_emit(RadioMsg::Selection(Option::None)) is None,
{
}

impl Render for Radio {
    open spec fn spec_view(&self) -> NodeModel {
        NodeModel::Element {
            tag: "label"@,
            attrs: seq![
                AttrModel {
                    name: "disabled"@,
                    value: if self.props.disabled {
                        "true"@
                    } else {
                        "false"@
                    },
                },
            ],
            classes: self.props.spec_classes(),
            children: seq![
                NodeModel::Element {
                    tag: "input"@,
                    attrs: seq![
                        AttrModel { name: "type"@, value: "radio"@ },
                        AttrModel { name: "name"@, value: self.props.name@ },
                        AttrModel { name: "value"@, value: self.props.value@ },
                        AttrModel {
                            name: "checked"@,
                            value: if self.props.spec_checked() {
                                "true"@
                            } else {
                                "false"@
                            },
                        },
                        AttrModel {
                            name: "disabled"@,
                            value: if self.props.disabled {
                                "true"@
                            } else {
                                "false"@
                            },
                        },
                    ],
                    classes: Seq::empty(),
                    children: Seq::empty(),
                },
            ] + models_of(self.props.children@),
        }
    }

    fn view(&self) -> (r: Node) {
        let mut classes = base_class("radio");
        push_extension(&mut classes, &self.props.classes);
        let checked = match &self.props.checked_value {
            Option::Some(v) => v.eq(&self.props.value),
            Option::None => false,
        };
        let mut input_attrs: Vec<Attr> = Vec::new();
        input_attrs.push(attr("type", "radio".to_owned()));
        input_attrs.push(attr("name", self.props.name.clone()));
        input_attrs.push(attr("value", self.props.value.clone()));
        input_attrs.push(flag_attr("checked", checked));
        input_attrs.push(flag_attr("disabled", self.props.disabled));
        let input = element("input", Vec::new(), input_attrs, Vec::new());
        let mut kids: Vec<Node> = Vec::new();
        kids.push(input);
        let mut rest = clone_nodes(&self.props.children);
        kids.append(&mut rest);
        let mut attrs: Vec<Attr> = Vec::new();
        attrs.push(flag_attr("disabled", self.props.disabled));
        proof {
            broadcast use crate::markup::lemma_models_of;

            assert(checked == self.props.spec_checked());
            assert(class_views(classes@) =~= self.props.spec_classes());
            assert(class_views(Seq::<String>::empty()) =~= Seq::<Seq<char>>::empty());
            assert(attr_models_of(attrs@) =~= self.spec_view()->attrs);
            assert(input.model() =~~= self.spec_view()->children[0]);
            assert(models_of(kids@) =~~= self.spec_view()->children);
        }
        element("label", classes, attrs, kids)
    }
}

} // verus!
