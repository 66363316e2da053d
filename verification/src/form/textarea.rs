//! A multiline textarea component.

use vstd::prelude::*;

use crate::classes::{
    base_class, class_views, composed, ext_views, flag_class, opt_mod, push_class, push_extension,
    push_opt_mod,
};
use crate::form::UpdateResult;
use crate::markup::{
    attr, attr_models_of, decimal_digits, element, flag_attr, u32_text, Attr, AttrModel, Node,
    NodeModel,
};
use crate::render::Render;
use crate::Size;

verus! {

/// The message an input event on the rendered textarea produces: the event's
/// data, when the event carries any.
pub enum TextAreaMsg {
    Text(Option<String>),
}

/// The configuration of a textarea.
pub struct TextAreaProps {
    /// The `name` attribute for this form element.
    pub name: String,
    /// The controlled value of this form element.
    pub value: String,
    pub classes: Option<Vec<String>>,
    /// The placeholder value for this component.
    pub placeholder: String,
    /// The number of rows to which this component will be locked.
    pub rows: u32,
    /// The size of this component.
    pub size: Option<Size>,
    /// Fix the size of this component.
    pub fixed_size: bool,
    /// Display a loading spinner within this component.
    pub loading: bool,
    /// Disable this component.
    pub disabled: bool,
    /// Make this component read-only.
    pub readonly: bool,
    /// Make this component static.
    pub is_static: bool,
}

impl TextAreaProps {
    /// The composed class list: `textarea`, the extension classes, then one
    /// modifier per selected option, in property order.
    pub open spec fn spec_classes(self) -> Seq<Seq<char>> {
        composed(
            "textarea"@,
            ext_views(self.classes),
            opt_mod(self.size) + flag_class(self.loading, "is-loading"@) + flag_class(
                self.is_static,
                "is-static"@,
            ) + flag_class(self.fixed_size, "has-fixed-size"@),
        )
    }
}

/// A multiline textarea component.
pub struct TextArea {
    pub props: TextAreaProps,
}

impl TextAreaProps {
    /// A configuration with the mandatory name and controlled value, and
    /// every optional field at its default.
    pub fn new(name: String, value: String) -> (r: Self)
        ensures
            r.name == name,
            r.value == value,
            r.classes is None,
            r.placeholder@ == Seq::<char>::empty(),
            r.rows == 0,
            r.size is None,
            !r.fixed_size,
            !r.loading,
            !r.disabled,
            !r.readonly,
            !r.is_static,
    {
        TextAreaProps {
            name,
            value,
            classes: None,
            placeholder: String::new(),
            rows: 0,
            size: None,
            fixed_size: false,
            loading: false,
            disabled: false,
            readonly: false,
            is_static: false,
        }
    }
}

impl TextArea {
    /// The value the owner's callback receives for a message: the event's
    /// text when the event carried one, and nothing — the event is silently
    /// dropped — when it did not.
    pub open spec fn spec_emit(msg: TextAreaMsg) -> Option<String> {
        msg->0
    }

    pub fn create(props: TextAreaProps) -> (r: Self)
        ensures
            r.props == props,
    {
        TextArea { props }
    }

    /// The message an input event carrying the given data produces.
    pub fn input_message(data: Option<String>) -> (m: TextAreaMsg)
        ensures
            m == TextAreaMsg::Text(data),
    {
        TextAreaMsg::Text(data)
    }

    /// Hand the event's value to the owner — exactly once per event that
    /// carried one, not at all otherwise; the component itself holds no
    /// state and never re-renders on its own.
    pub fn update(&mut self, msg: TextAreaMsg) -> (r: UpdateResult<String>)
        ensures
            *final(self) == *old(self),
            !r.rerender,
            r.emit == Self::spec_emit(msg),
    {
        match msg {
            TextAreaMsg::Text(text) => UpdateResult { emit: text, rerender: false },
        }
    }
}

/// An input event carrying value `v` hands exactly `v` to the owner's
/// callback, and an event carrying nothing is dropped without a callback.
pub proof fn lemma_textarea_round_trip(v: String)
    ensures
        TextArea::spec_emit(TextAreaMsg::Text(Option::Some(v))) == Option::Some(v),
        TextArea::spec_emit(TextAreaMsg::Text(Option::None)) is None,
{
}

impl Render for TextArea {
    open spec fn spec_view(&self) -> NodeModel {
        NodeModel::Element {
            tag: "textarea"@,
            attrs: seq![
                AttrModel { name: "name"@, value: self.props.name@ },
                AttrModel { name: "value"@, value: self.props.value@ },
                AttrModel { name: "rows"@, value: decimal_digits(self.props.rows as nat) },
                AttrModel { name: "placeholder"@, value: self.props.placeholder@ },
                AttrModel {
                    name: "disabled"@,
                    value: if self.props.disabled {
                        "true"@
                    } else {
                        "false"@
                    },
                },
                AttrModel {
                    name: "readonly"@,
                    value: if self.props.readonly {
                        "true"@
                    } else {
                        "false"@
                    },
                },
            ],
            classes: self.props.spec_classes(),
            children: Seq::empty(),
        }
    }

    fn view(&self) -> (r: Node) {
        let mut classes = base_class("textarea");
        push_extension(&mut classes, &self.props.classes);
        push_opt_mod(&mut classes, &self.props.size);
        if self.props.loading {
            push_class(&mut classes, "is-loading");
        }
        if self.props.is_static {
            push_class(&mut classes, "is-static");
        }
        if self.props.fixed_size {
            push_class(&mut classes, "has-fixed-size");
        }
        let mut attrs: Vec<Attr> = Vec::new();
        attrs.push(attr("name", self.props.name.clone()));
        attrs.push(attr("value", self.props.value.clone()));
        attrs.push(attr("rows", u32_text(self.props.rows)));
        attrs.push(attr("placeholder", self.props.placeholder.clone()));
        attrs.push(flag_attr("disabled", self.props.disabled));
        attrs.push(flag_attr("readonly", self.props.readonly));
        proof {
            broadcast use crate::markup::lemma_models_of;

            assert(class_views(classes@) =~= self.props.spec_classes());
            assert(attr_models_of(attrs@) =~= self.spec_view()->attrs);
            assert(crate::markup::models_of(Seq::<Node>::empty()) =~= Seq::<NodeModel>::empty());
        }
        element("textarea", classes, attrs, Vec::new())
    }
}

} // verus!
