//! A text input element.

use vstd::prelude::*;

use crate::classes::{
    base_class, class_views, composed, count_class, ext_views, flag_class, lemma_count_concat,
    lemma_count_occurrence, lemma_flag_class_count, lemma_opt_mod_count, opt_mod, push_class,
    push_extension, push_opt_mod, ModifierClass,
};
use crate::form::UpdateResult;
use crate::markup::{attr, attr_models_of, element, flag_attr, Attr, AttrModel, Node, NodeModel};
use crate::render::Render;
use crate::Size;

verus! {

/// The message an input event on the rendered input produces: the element's
/// current value, when the event resolves to an input element.
pub enum InputMsg {
    Text(Option<String>),
}

/// The four allowed types for an input component.
#[derive(Clone, Copy, Debug, PartialEq, Eq, Structural)]
pub enum InputType {
    Text,
    Password,
    Email,
    Tel,
}

impl InputType {
    /// The `type` attribute text of this input type.
    pub open spec fn spec_text(self) -> Seq<char> {
        match self {
            InputType::Text => "text"@,
            InputType::Password => "password"@,
            InputType::Email => "email"@,
            InputType::Tel => "tel"@,
        }
    }

    /// The `type` attribute text as an owned string.
    pub fn type_text(&self) -> (r: String)
        ensures
            r@ == self.spec_text(),
    {
        match self {
            InputType::Text => "text".to_owned(),
            InputType::Password => "password".to_owned(),
            InputType::Email => "email".to_owned(),
            InputType::Tel => "tel".to_owned(),
        }
    }
}

/// The configuration of a text input.
pub struct InputProps {
    /// The `name` attribute for this form element.
    pub name: String,
    /// The controlled value of this form element.
    pub value: String,
    pub classes: Option<Vec<String>>,
    /// The input type of this component; `Text` is customary.
    pub input_type: InputType,
    /// The placeholder value for this component.
    pub placeholder: String,
    /// The size of this component.
    pub size: Option<Size>,
    /// Use rounded appearance.
    pub rounded: bool,
    /// Display a loading spinner within this component.
    pub loading: bool,
    /// Disable this component.
    pub disabled: bool,
    /// Make this component read-only.
    pub readonly: bool,
    /// Make this component static.
    pub is_static: bool,
}

impl InputProps {
    /// The composed class list: `input`, the extension classes, then one
    /// modifier per selected option, in property order.
    pub open spec fn spec_classes(self) -> Seq<Seq<char>> {
        composed(
            "input"@,
            ext_views(self.classes),
            opt_mod(self.size) + flag_class(self.rounded, "is-rounded"@) + flag_class(
                self.loading,
                "is-loading"@,
            ) + flag_class(self.is_static, "is-static"@),
        )
    }
}

/// A text input element.
pub struct Input {
    pub props: InputProps,
}

impl InputProps {
    /// A configuration with the mandatory name and controlled value, and
    /// every optional field at its default: a plain text input.
    pub fn new(name: String, value: String) -> (r: Self)
        ensures
            r.name == name,
            r.value == value,
            r.classes is None,
            r.input_type == InputType::Text,
            r.placeholder@ == Seq::<char>::empty(),
            r.size is None,
            !r.rounded,
            !r.loading,
            !r.disabled,
            !r.readonly,
            !r.is_static,
    {
        InputProps {
            name,
            value,
            classes: None,
            input_type: InputType::Text,
            placeholder: String::new(),
            size: None,
            rounded: false,
            loading: false,
            disabled: false,
            readonly: false,
            is_static: false,
        }
    }
}

impl Input {
    /// The value the owner's callback receives for a message: the event's
    /// text when the event resolved to one, and nothing — the event is
    /// silently dropped — when it did not.
    pub open spec fn spec_emit(msg: InputMsg) -> Option<String> {
        msg->0
    }

    pub fn create(props: InputProps) -> (r: Self)
        ensures
            r.props == props,
    {
        Input { props }
    }

    /// The message an input event resolving to the given element value
    /// produces.
    pub fn input_message(value: Option<String>) -> (m: InputMsg)
        ensures
            m == InputMsg::Text(value),
    {
        InputMsg::Text(value)
    }

    /// Hand the event's value to the owner — exactly once per event that
    /// carried one, not at all otherwise; the component itself holds no
    /// state and never re-renders on its own.
    pub fn update(&mut self, msg: InputMsg) -> (r: UpdateResult<String>)
        ensures
            *final(self) == *old(self),
            !r.rerender,
            r.emit == Self::spec_emit(msg),
    {
        match msg {
            InputMsg::Text(text) => UpdateResult { emit: text, rerender: false },
        }
    }
}

/// An input event carrying value `v` hands exactly `v` to the owner's
/// callback, and an event carrying nothing is dropped without a callback.
pub proof fn lemma_input_round_trip(v: String)
    ensures
        Input::spec_emit(InputMsg::Text(Option::Some(v))) == Option::Some(v),
        Input::spec_emit(InputMsg::Text(Option::None)) is None,
{
}

impl Render for Input {
    open spec fn spec_view(&self) -> NodeModel {
        NodeModel::Element {
            tag: "input"@,
            attrs: seq![
                AttrModel { name: "name"@, value: self.props.name@ },
                AttrModel { name: "value"@, value: self.props.value@ },
                AttrModel { name: "type"@, value: self.props.input_type.spec_text() },
                AttrModel { name: "placeholder"@, value: self.props.placeholder@ },
                AttrModel {
                    name: "disabled"@,
                    value: if self.props.disabled {
                        "true"@
                    } else {
                        "false"@
                    },
                },
                AttrModel {
                    name: "readonly"@,
                    value: if self.props.readonly {
                        "true"@
                    } else {
                        "false"@
                    },
                },
            ],
            classes: self.props.spec_classes(),
            children: Seq::empty(),
        }
    }

    fn view(&self) -> (r: Node) {
        let mut classes = base_class("input");
        push_extension(&mut classes, &self.props.classes);
        push_opt_mod(&mut classes, &self.props.size);
        if self.props.rounded {
            push_class(&mut classes, "is-rounded");
        }
        if self.props.loading {
            push_class(&mut classes, "is-loading");
        }
        if self.props.is_static {
            push_class(&mut classes, "is-static");
        }
        let mut attrs: Vec<Attr> = Vec::new();
        attrs.push(attr("name", self.props.name.clone()));
        attrs.push(attr("value", self.props.value.clone()));
        attrs.push(attr("type", self.props.input_type.type_text()));
        attrs.push(attr("placeholder", self.props.placeholder.clone()));
        attrs.push(flag_attr("disabled", self.props.disabled));
        attrs.push(flag_attr("readonly", self.props.readonly));
        proof {
            broadcast use crate::markup::lemma_models_of;

            assert(class_views(classes@) =~= self.props.spec_classes());
            assert(attr_models_of(attrs@) =~= self.spec_view()->attrs);
            assert(crate::markup::models_of(Seq::<Node>::empty()) =~= Seq::<NodeModel>::empty());
        }
        element("input", classes, attrs, Vec::new())
    }
}

/// For every combination of the modifier options: the composed class list
/// holds the base class `input` exactly once, the extension classes verbatim
/// directly after it, and each modifier class exactly once when its option
/// is set and not at all when it is unset — provided the caller's extension
/// classes repeat none of them.
#[verifier::rlimit(100)]
pub proof fn lemma_input_class_counts(p: InputProps)
    requires
        !ext_views(p.classes).contains("input"@),
        !ext_views(p.classes).contains("is-rounded"@),
        !ext_views(p.classes).contains("is-loading"@),
        !ext_views(p.classes).contains("is-static"@),
        forall|z: Size| !ext_views(p.classes).contains(z.class()),
    ensures
        count_class(p.spec_classes(), "input"@) == 1,
        p.spec_classes().subrange(1, 1 + ext_views(p.classes).len() as int) == ext_views(p.classes),
        forall|z: Size|
            count_class(p.spec_classes(), z.class()) == if p.size == Option::Some(z) {
                1int
            } else {
                0int
            },
        count_class(p.spec_classes(), "is-rounded"@) == if p.rounded {
            1int
        } else {
            0int
        },
        count_class(p.spec_classes(), "is-loading"@) == if p.loading {
            1int
        } else {
            0int
        },
        count_class(p.spec_classes(), "is-static"@) == if p.is_static {
            1int
        } else {
            0int
        },
{
    reveal_strlit("input");
    reveal_strlit("is-rounded");
    reveal_strlit("is-loading");
    reveal_strlit("is-static");
    reveal_strlit("is-small");
    reveal_strlit("is-normal");
    reveal_strlit("is-medium");
    reveal_strlit("is-large");
    assert("input"@.len() == 5);
    assert("is-rounded"@.len() == 10);
    assert("is-loading"@.len() == 10);
    assert("is-static"@.len() == 9);
    assert("is-small"@.len() == 8);
    assert("is-normal"@.len() == 9);
    assert("is-medium"@.len() == 9);
    assert("is-large"@.len() == 8);
    assert("is-rounded"@[3] == 'r' && "is-loading"@[3] == 'l');
    assert("is-static"@[3] == 's' && "is-normal"@[3] == 'n' && "is-medium"@[3] == 'm');
    assert("is-static"@[4] == 't' && "is-small"@[4] == 'm' && "is-large"@[4] == 'a');
    let base = seq!["input"@];
    let ext = ext_views(p.classes);
    let m1 = opt_mod(p.size);
    let m2 = flag_class(p.rounded, "is-rounded"@);
    let m3 = flag_class(p.loading, "is-loading"@);
    let m4 = flag_class(p.is_static, "is-static"@);
    assert(base =~= flag_class(true, "input"@));
    assert forall|c: Seq<char>|
        #[trigger] count_class(p.spec_classes(), c) == count_class(base, c) + count_class(ext, c)
            + count_class(m1, c) + count_class(m2, c) + count_class(m3, c) + count_class(m4, c) by {
        lemma_count_concat(base + ext + m1 + m2 + m3, m4, c);
        lemma_count_concat(base + ext + m1 + m2, m3, c);
        lemma_count_concat(base + ext + m1, m2, c);
        lemma_count_concat(base + ext, m1, c);
        lemma_count_concat(base, ext, c);
        assert(p.spec_classes() =~= base + ext + m1 + m2 + m3 + m4);
    }
    lemma_flag_class_count(true, "input"@, "input"@);
    lemma_opt_mod_count(p.size, "input"@);
    lemma_flag_class_count(p.rounded, "is-rounded"@, "input"@);
    lemma_flag_class_count(p.loading, "is-loading"@, "input"@);
    lemma_flag_class_count(p.is_static, "is-static"@, "input"@);
    lemma_count_occurrence(ext, "input"@);
    lemma_flag_class_count(true, "input"@, "is-rounded"@);
    lemma_opt_mod_count(p.size, "is-rounded"@);
    lemma_flag_class_count(p.rounded, "is-rounded"@, "is-rounded"@);
    lemma_flag_class_count(p.loading, "is-loading"@, "is-rounded"@);
    lemma_flag_class_count(p.is_static, "is-static"@, "is-rounded"@);
    lemma_count_occurrence(ext, "is-rounded"@);
    lemma_flag_class_count(true, "input"@, "is-loading"@);
    lemma_opt_mod_count(p.size, "is-loading"@);
    lemma_flag_class_count(p.rounded, "is-rounded"@, "is-loading"@);
    lemma_flag_class_count(p.loading, "is-loading"@, "is-loading"@);
    lemma_flag_class_count(p.is_static, "is-static"@, "is-loading"@);
    lemma_count_occurrence(ext, "is-loading"@);
    lemma_flag_class_count(true, "input"@, "is-static"@);
    lemma_opt_mod_count(p.size, "is-static"@);
    lemma_flag_class_count(p.rounded, "is-rounded"@, "is-static"@);
    lemma_flag_class_count(p.loading, "is-loading"@, "is-static"@);
    lemma_flag_class_count(p.is_static, "is-static"@, "is-static"@);
    lemma_count_occurrence(ext, "is-static"@);
    assert forall|z: Size|
        count_class(p.spec_classes(), z.class()) == if p.size == Option::Some(z) {
            1int
        } else {
            0int
        } by {
        lemma_flag_class_count(true, "input"@, z.class());
        lemma_opt_mod_count(p.size, z.class());
        lemma_flag_class_count(p.rounded, "is-rounded"@, z.class());
        lemma_flag_class_count(p.loading, "is-loading"@, z.class());
        lemma_flag_class_count(p.is_static, "is-static"@, z.class());
        lemma_count_occurrence(ext, z.class());
    }
    crate::classes::lemma_composed_extension_verbatim("input"@, ext, m1 + m2 + m3 + m4);
    assert(p.spec_classes() == composed("input"@, ext, m1 + m2 + m3 + m4));
}

} // verus!
