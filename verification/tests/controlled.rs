//! The controlled form components: value display, event extraction and the
//! exact value handed to the owner's callback, on simulated native events.

use ybc::{
    node_eq, Checkbox, CheckboxMsg, CheckboxProps, Control, ControlProps, Field, FieldProps, File,
    FileHandle, FileProps, Input, InputMsg, InputProps, InputType, MultiSelect, MultiSelectMsg,
    MultiSelectProps, Node, Notification, NotificationProps, Radio, RadioMsg, RadioProps, Render,
    Select, SelectMsg, SelectProps, SelectedOption, TextArea, TextAreaMsg, TextAreaProps,
};

fn s(v: &str) -> String {
    v.to_string()
}

fn classes_of(n: &Node) -> Vec<String> {
    match n {
        Node::Element { classes, .. } => classes.clone(),
        Node::Text(_) => panic!("expected an element"),
    }
}

fn tag_of(n: &Node) -> String {
    match n {
        Node::Element { tag, .. } => tag.clone(),
        Node::Text(_) => panic!("expected an element"),
    }
}

fn children_of(n: &Node) -> &Vec<Node> {
    match n {
        Node::Element { children, .. } => children,
        Node::Text(_) => panic!("expected an element"),
    }
}

fn attrs_of(n: &Node) -> Vec<(String, String)> {
    match n {
        Node::Element { attrs, .. } => {
            attrs.iter().map(|a| (a.name.clone(), a.value.clone())).collect()
        },
        Node::Text(_) => panic!("expected an element"),
    }
}

#[test]
fn checkbox_click_forwards_the_toggled_value() {
    let mut c = Checkbox {
        props: CheckboxProps {
            name: s("agree"),
            checked: false,
            children: vec![],
            classes: None,
            disabled: false,
        },
    };
    let msg = c.click_message();
    assert!(matches!(msg, CheckboxMsg::Checked(true)));
    let r = c.update(msg);
    assert_eq!(r.emit, Some(true));
    assert!(!r.rerender);
}

#[test]
fn checkbox_renders_the_controlled_value() {
    let c = Checkbox {
        props: CheckboxProps {
            name: s("agree"),
            checked: true,
            children: vec![Node::Text(s("I agree"))],
            classes: None,
            disabled: true,
        },
    };
    let r = c.view();
    assert_eq!(tag_of(&r), s("label"));
    assert_eq!(classes_of(&r), vec![s("checkbox")]);
    assert_eq!(attrs_of(&r), vec![(s("disabled"), s("true"))]);
    let kids = children_of(&r);
    assert_eq!(kids.len(), 2);
    assert_eq!(
        attrs_of(&kids[0]),
        vec![
            (s("type"), s("checkbox")),
            (s("checked"), s("true")),
            (s("name"), s("agree")),
            (s("disabled"), s("true")),
        ]
    );
}

#[test]
fn input_round_trip_forwards_the_event_value_exactly() {
    let mut c = Input {
        props: InputProps {
            name: s("user"),
            value: s("old"),
            classes: None,
            input_type: InputType::Text,
            placeholder: s(""),
            size: None,
            rounded: false,
            loading: false,
            disabled: false,
            readonly: false,
            is_static: false,
        },
    };
    let r = c.update(Input::input_message(Some(s("new text"))));
    assert_eq!(r.emit, Some(s("new text")));
    assert!(!r.rerender);
}

#[test]
fn input_event_with_nothing_resolvable_is_dropped() {
    let mut c = Input {
        props: InputProps {
            name: s("user"),
            value: s("v"),
            classes: None,
            input_type: InputType::Email,
            placeholder: s("mail"),
            size: None,
            rounded: false,
            loading: false,
            disabled: false,
            readonly: false,
            is_static: false,
        },
    };
    let r = c.update(InputMsg::Text(None));
    assert_eq!(r.emit, None);
}

#[test]
fn input_renders_value_and_type_attributes() {
    let c = Input {
        props: InputProps {
            name: s("user"),
            value: s("shown"),
            classes: None,
            input_type: InputType::Password,
            placeholder: s("secret"),
            size: Some(ybc::Size::Small),
            rounded: true,
            loading: false,
            disabled: false,
            readonly: true,
            is_static: false,
        },
    };
    let r = c.view();
    assert_eq!(tag_of(&r), s("input"));
    assert_eq!(classes_of(&r), vec![s("input"), s("is-small"), s("is-rounded")]);
    assert_eq!(
        attrs_of(&r),
        vec![
            (s("name"), s("user")),
            (s("value"), s("shown")),
            (s("type"), s("password")),
            (s("placeholder"), s("secret")),
            (s("disabled"), s("false")),
            (s("readonly"), s("true")),
        ]
    );
}

#[test]
fn radio_forwards_event_data_and_drops_empty_events() {
    let mut c = Radio {
        props: RadioProps {
            name: s("group"),
            value: s("b"),
            checked_value: Some(s("b")),
            children: vec![],
            classes: None,
            disabled: false,
        },
    };
    let r = c.update(Radio::input_message(Some(s("b"))));
    assert_eq!(r.emit, Some(s("b")));
    let r = c.update(RadioMsg::Selection(None));
    assert_eq!(r.emit, None);
}

#[test]
fn radio_checked_exactly_when_group_value_matches() {
    let make = |checked_value: Option<String>| Radio {
        props: RadioProps {
            name: s("group"),
            value: s("b"),
            checked_value,
            children: vec![],
            classes: None,
            disabled: false,
        },
    };
    let r = make(Some(s("b"))).view();
    assert!(attrs_of(&children_of(&r)[0]).contains(&(s("checked"), s("true"))));
    let r = make(Some(s("other"))).view();
    assert!(attrs_of(&children_of(&r)[0]).contains(&(s("checked"), s("false"))));
    let r = make(None).view();
    assert!(attrs_of(&children_of(&r)[0]).contains(&(s("checked"), s("false"))));
}

#[test]
fn textarea_round_trip_and_rows_text() {
    let mut c = TextArea {
        props: TextAreaProps {
            name: s("notes"),
            value: s("v"),
            classes: None,
            placeholder: s(""),
            rows: 12,
            size: None,
            fixed_size: true,
            loading: false,
            disabled: false,
            readonly: false,
            is_static: false,
        },
    };
    let r = c.update(TextArea::input_message(Some(s("v2"))));
    assert_eq!(r.emit, Some(s("v2")));
    let r = c.update(TextAreaMsg::Text(None));
    assert_eq!(r.emit, None);
    let rendered = c.view();
    assert_eq!(classes_of(&rendered), vec![s("textarea"), s("has-fixed-size")]);
    assert!(attrs_of(&rendered).contains(&(s("rows"), s("12"))));
}

#[test]
fn select_round_trip_forwards_the_selected_value() {
    let mut c = Select {
        props: SelectProps {
            name: s("choice"),
            value: s("a"),
            children: vec![],
            classes: None,
            size: None,
            loading: false,
            disabled: false,
        },
    };
    let msg = Select::change_message(Some(s("c"))).expect("a resolvable event gives a message");
    let r = c.update(msg);
    assert_eq!(r.emit, Some(s("c")));
    assert!(Select::change_message(None).is_none());
}

#[test]
fn select_wraps_the_element_and_shows_the_value() {
    let c = Select {
        props: SelectProps {
            name: s("choice"),
            value: s("a"),
            children: vec![Node::Text(s("opts"))],
            classes: None,
            size: None,
            loading: true,
            disabled: false,
        },
    };
    let r = c.view();
    assert_eq!(tag_of(&r), s("div"));
    assert_eq!(classes_of(&r), vec![s("select"), s("is-loading")]);
    let inner = &children_of(&r)[0];
    assert_eq!(tag_of(inner), s("select"));
    assert!(attrs_of(inner).contains(&(s("value"), s("a"))));
}

#[test]
fn multi_select_forwards_the_selected_values_in_order() {
    // Three options with explicit values; the host hands over the selected
    // two, in its own (document) order.
    let selected = vec![
        SelectedOption { value: Some(s("a")), text: Some(s("Alpha")) },
        SelectedOption { value: Some(s("c")), text: Some(s("Gamma")) },
    ];
    let msg = MultiSelect::change_message(Some(selected)).expect("a message");
    let MultiSelectMsg::Selections(values) = &msg;
    assert_eq!(values, &vec![s("a"), s("c")]);
    let mut c = MultiSelect {
        props: MultiSelectProps {
            name: s("multi"),
            value: vec![],
            children: vec![],
            classes: None,
            size: None,
            list_size: 4,
            loading: false,
            disabled: false,
        },
    };
    let r = c.update(msg);
    assert_eq!(r.emit, Some(vec![s("a"), s("c")]));
}

#[test]
fn multi_select_falls_back_to_visible_text() {
    let selected = vec![
        SelectedOption { value: None, text: Some(s("Beta")) },
        SelectedOption { value: None, text: None },
        SelectedOption { value: Some(s("c")), text: None },
    ];
    let msg = MultiSelect::change_message(Some(selected)).expect("a message");
    let MultiSelectMsg::Selections(values) = msg;
    assert_eq!(values, vec![s("Beta"), s("c")]);
    assert!(MultiSelect::change_message(None).is_none());
}

#[test]
fn multi_select_renders_the_joined_value_and_list_size() {
    let c = MultiSelect {
        props: MultiSelectProps {
            name: s("multi"),
            value: vec![s("a"), s("c")],
            children: vec![],
            classes: None,
            size: None,
            list_size: 40,
            loading: false,
            disabled: false,
        },
    };
    let r = c.view();
    assert_eq!(classes_of(&r), vec![s("select"), s("is-multiple")]);
    let inner = &children_of(&r)[0];
    assert!(attrs_of(inner).contains(&(s("value"), s("a,c"))));
    assert!(attrs_of(inner).contains(&(s("size"), s("40"))));
    assert!(attrs_of(inner).contains(&(s("multiple"), s("true"))));
}

#[test]
fn file_renders_one_name_entry_per_file_in_order() {
    let c = File {
        props: FileProps {
            name: s("upload"),
            files: vec![FileHandle { name: s("x.txt") }, FileHandle { name: s("y.png") }],
            selector_label: s("Choose a file..."),
            selector_icon: Node::Text(s("")),
            classes: None,
            has_name: Some(s("placeholder")),
            right: false,
            fullwidth: false,
            boxed: false,
            multiple: true,
            size: None,
            alignment: None,
        },
    };
    let r = c.view();
    assert_eq!(classes_of(&r), vec![s("file"), s("has-name")]);
    let label = &children_of(&r)[0];
    let kids = children_of(label);
    assert_eq!(kids.len(), 4);
    assert_eq!(classes_of(&kids[2]), vec![s("file-name")]);
    assert!(matches!(&children_of(&kids[2])[0], Node::Text(t) if t == "x.txt"));
    assert_eq!(classes_of(&kids[3]), vec![s("file-name")]);
    assert!(matches!(&children_of(&kids[3])[0], Node::Text(t) if t == "y.png"));
}

#[test]
fn file_forwards_the_new_selection_unchanged() {
    let mut c = File {
        props: FileProps {
            name: s("upload"),
            files: vec![],
            selector_label: s("Choose a file..."),
            selector_icon: Node::Text(s("")),
            classes: None,
            has_name: None,
            right: false,
            fullwidth: false,
            boxed: false,
            multiple: false,
            size: None,
            alignment: None,
        },
    };
    let incoming = File::change_message(Some(vec![
        FileHandle { name: s("a.csv") },
        FileHandle { name: s("b.csv") },
    ]));
    let r = c.update(incoming);
    let emitted = r.emit.expect("the selection is always forwarded");
    let names: Vec<String> = emitted.iter().map(|f| f.name.clone()).collect();
    assert_eq!(names, vec![s("a.csv"), s("b.csv")]);
}

#[test]
fn field_builds_label_body_and_help() {
    let f = Field {
        props: FieldProps {
            children: vec![Node::Text(s("controls"))],
            classes: None,
            label: Some(s("Name")),
            label_classes: None,
            help: Some(s("required")),
            help_classes: None,
            help_has_error: true,
            icons_left: true,
            icons_right: false,
            addons: false,
            addons_align: None,
            grouped: false,
            grouped_align: None,
            multiline: false,
            horizontal: false,
        },
    };
    let r = f.view();
    assert_eq!(classes_of(&r), vec![s("field"), s("has-icons-left")]);
    let kids = children_of(&r);
    assert_eq!(kids.len(), 3);
    assert_eq!(tag_of(&kids[0]), s("label"));
    assert_eq!(classes_of(&kids[0]), vec![s("label")]);
    assert!(matches!(&kids[1], Node::Text(t) if t == "controls"));
    assert_eq!(classes_of(&kids[2]), vec![s("help"), s("is-danger")]);
}

#[test]
fn horizontal_field_wraps_label_and_body() {
    let f = Field {
        props: FieldProps {
            children: vec![Node::Text(s("controls"))],
            classes: None,
            label: Some(s("Name")),
            label_classes: Some(vec![s("lx")]),
            help: None,
            help_classes: None,
            help_has_error: false,
            icons_left: false,
            icons_right: false,
            addons: false,
            addons_align: None,
            grouped: true,
            grouped_align: None,
            multiline: false,
            horizontal: true,
        },
    };
    let r = f.view();
    assert_eq!(classes_of(&r), vec![s("field"), s("is-grouped")]);
    let kids = children_of(&r);
    assert_eq!(kids.len(), 2);
    assert_eq!(tag_of(&kids[0]), s("div"));
    assert_eq!(classes_of(&kids[0]), vec![s("lx"), s("field-label")]);
    assert_eq!(classes_of(&children_of(&kids[0])[0]), vec![s("label")]);
    assert_eq!(classes_of(&kids[1]), vec![s("field-body")]);
}

#[test]
fn control_takes_the_expanded_modifier() {
    let c = Control {
        props: ControlProps { children: vec![], classes: None, tag: s("div"), expanded: true },
    };
    assert_eq!(classes_of(&c.view()), vec![s("control"), s("is-expanded")]);
}

#[test]
fn notification_change_rerenders_exactly_when_props_differ() {
    let mut n = Notification {
        props: NotificationProps {
            children: vec![Node::Text(s("hello"))],
            classes: None,
        },
    };
    // an equal configuration: no re-render
    let rerender = n.change(NotificationProps {
        children: vec![Node::Text(s("hello"))],
        classes: None,
    });
    assert!(!rerender);
    // an absent extension and an empty one are different props: re-render
    let rerender = n.change(NotificationProps {
        children: vec![Node::Text(s("hello"))],
        classes: Some(vec![]),
    });
    assert!(rerender);
    // the same empty extension again: no re-render
    let rerender = n.change(NotificationProps {
        children: vec![Node::Text(s("hello"))],
        classes: Some(vec![]),
    });
    assert!(!rerender);
    // different text: re-render
    let rerender = n.change(NotificationProps {
        children: vec![Node::Text(s("bye"))],
        classes: Some(vec![]),
    });
    assert!(rerender);
    // different classes: re-render
    let rerender = n.change(NotificationProps {
        children: vec![Node::Text(s("bye"))],
        classes: Some(vec![s("is-info")]),
    });
    assert!(rerender);
}

#[test]
fn form_prop_constructors_fill_the_customary_defaults() {
    let p = InputProps::new(s("user"), s("v"));
    assert!(matches!(p.input_type, InputType::Text));
    assert_eq!(p.placeholder, s(""));
    assert!(!p.rounded && !p.loading && !p.disabled && !p.readonly && !p.is_static);
    let p = ybc::MultiSelectProps::new(s("m"), vec![s("a")]);
    assert_eq!(p.list_size, 4);
    let p = ybc::FileProps::new(s("f"), vec![]);
    assert_eq!(p.selector_label, s("Choose a file..."));
    assert!(p.has_name.is_none() && !p.multiple);
    let p = ybc::TextAreaProps::new(s("t"), s(""));
    assert_eq!(p.rows, 0);
    let p = ybc::CheckboxProps::new(s("c"), true);
    assert!(p.checked && !p.disabled);
    let p = ybc::RadioProps::new(s("r"), s("a"), None);
    assert!(p.checked_value.is_none());
    let p = ybc::SelectProps::new(s("sel"), s("x"));
    assert!(!p.loading && !p.disabled && p.children.is_empty());
}

#[test]
fn deep_node_equality_follows_the_model() {
    let a = Node::Element {
        tag: s("div"),
        attrs: vec![],
        classes: vec![s("block")],
        children: vec![Node::Text(s("x"))],
    };
    let b = Node::Element {
        tag: s("div"),
        attrs: vec![],
        classes: vec![s("block")],
        children: vec![Node::Text(s("x"))],
    };
    let c = Node::Element {
        tag: s("div"),
        attrs: vec![],
        classes: vec![s("block")],
        children: vec![Node::Text(s("y"))],
    };
    assert!(node_eq(&a, &b));
    assert!(!node_eq(&a, &c));
    assert!(!node_eq(&a, &Node::Text(s("div"))));
}
