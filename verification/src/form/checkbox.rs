//! The two-state checkbox in its native format.
//!
//! All form components here are controlled components: the value of the
//! field is provided by the owner, and changes are propagated back to the
//! owner through the emitted update value.

use vstd::prelude::*;

use crate::classes::{base_class, class_views, composed, ext_views, push_extension};
use crate::form::UpdateResult;
use crate::markup::{
    attr, attr_models_of, clone_nodes, element, flag_attr, models_of, Attr, AttrModel, Node,
    NodeModel,
};
use crate::render::Render;

verus! {

/// The message a change to the rendered checkbox produces.
pub enum CheckboxMsg {
    Checked(bool),
}

/// The configuration of a checkbox.
pub struct CheckboxProps {
    /// The `name` attribute for this form element.
    pub name: String,
    /// The controlled value of this form element.
    pub checked: bool,
    pub children: Vec<Node>,
    pub classes: Option<Vec<String>>,
    /// Disable this component.
    pub disabled: bool,
}

impl CheckboxProps {
    /// The composed class list: `checkbox` followed by the extension classes.
    pub open spec fn spec_classes(self) -> Seq<Seq<char>> {
        composed("checkbox"@, ext_views(self.classes), Seq::empty())
    }
}

/// The two-state checkbox in its native format.
pub struct Checkbox {
    pub props: CheckboxProps,
}

impl CheckboxProps {
    /// A configuration with the mandatory name and controlled value, and
    /// every optional field at its default.
    pub fn new(name: String, checked: bool) -> (r: Self)
        ensures
            r.name == name,
            r.checked == checked,
            r.children@ == Seq::<Node>::empty(),
            r.classes is None,
            !r.disabled,
    {
        CheckboxProps { name, checked, children: Vec::new(), classes: None, disabled: false }
    }
}

impl Checkbox {
    /// The value the owner's callback receives for a message: the checkbox
    /// always forwards the clicked state.
    pub open spec fn spec_emit(msg: CheckboxMsg) -> Option<bool> {
        Option::Some(msg->0)
    }

    pub fn create(props: CheckboxProps) -> (r: Self)
        ensures
            r.props == props,
    {
        Checkbox { props }
    }

    /// The message a click on the rendered checkbox produces: the toggle of
    /// the controlled value.
    pub fn click_message(&self) -> (m: CheckboxMsg)
        ensures
            m == CheckboxMsg::Checked(!self.props.checked),
    {
        CheckboxMsg::Checked(!self.props.checked)
    }

    /// Hand the event's value to the owner, exactly once per event; the
    /// component itself holds no state and never re-renders on its own.
    pub fn update(&mut self, msg: CheckboxMsg) -> (r: UpdateResult<bool>)
        ensures
            *final(self) == *old(self),
            !r.rerender,
            r.emit == Self::spec_emit(msg),
    {
        match msg {
            CheckboxMsg::Checked(checked) => UpdateResult { emit: Option::Some(checked), rerender: false },
        }
    }
}

/// A click on a checkbox that displays value `v` hands exactly `!v` — the
/// value the simulated event carries — to the owner's callback.
pub proof fn lemma_checkbox_round_trip(v: bool)
    ensures
        Checkbox::spec_emit(CheckboxMsg::Checked(!v)) == Option::Some(!v),
{
}

impl Render for Checkbox {
    open spec fn spec_view(&self) -> NodeModel {
        NodeModel::Element {
            tag: "label"@,
            attrs: seq![
                AttrModel {
                    name: "disabled"@,
                    value: if self.props.disabled {
                        "true"@
                    } else {
                        "false"@
                    },
                },
            ],
            classes: self.props.spec_classes(),
            children: seq![
                NodeModel::Element {
                    tag: "input"@,
                    attrs: seq![
                        AttrModel { name: "type"@, value: "checkbox"@ },
                        AttrModel {
                            name: "checked"@,
                            value: if self.props.checked {
                                "true"@
                            } else {
                                "false"@
                            },
                        },
                        AttrModel { name: "name"@, value: self.props.name@ },
                        AttrModel {
                            name: "disabled"@,
                            value: if self.props.disabled {
                                "true"@
                            } else {
                                "false"@
                            },
                        },
                    ],
                    classes: Seq::empty(),
                    children: Seq::empty(),
                },
            ] + models_of(self.props.children@),
        }
    }

    fn view(&self) -> (r: Node) {
        let mut classes = base_class("checkbox");
        push_extension(&mut classes, &self.props.classes);
        let mut input_attrs: Vec<Attr> = Vec::new();
        input_attrs.push(attr("type", "checkbox".to_owned()));
        input_attrs.push(flag_attr("checked", self.props.checked));
        input_attrs.push(attr("name", self.props.name.clone()));
        input_attrs.push(flag_attr("disabled", self.props.disabled));
        let input = element("input", Vec::new(), input_attrs, Vec::new());
        let mut kids: Vec<Node> = Vec::new();
        kids.push(input);
        let mut rest = clone_nodes(&self.props.children);
        kids.append(&mut rest);
        let mut attrs: Vec<Attr> = Vec::new();
        attrs.push(flag_attr("disabled", self.props.disabled));
        proof {
            broadcast use crate::markup::lemma_models_of;

            assert(class_views(classes@) =~= self.props.spec_classes());
            assert(class_views(Seq::<String>::empty()) =~= Seq::<Seq<char>>::empty());
            assert(attr_models_of(attrs@) =~= self.spec_view()->attrs);
            assert(models_of(kids@) =~~= self.spec_view()->children);
        }
        element("label", classes, attrs, kids)
    }
}

} // verus!
