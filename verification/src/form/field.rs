//! A container for form controls, with an optional label and help message.

use vstd::prelude::*;

use crate::classes::{
    base_class, class_views, composed, count_class, ext_views, flag_class, lemma_count_concat,
    lemma_count_occurrence, lemma_flag_class_count, lemma_opt_mod_count, opt_mod, push_class,
    push_extension, push_opt_mod, ModifierClass,
};
use crate::markup::{clone_nodes, models_of, plain_element, text, Node, NodeModel};
use crate::render::Render;

verus! {

/// The two alignment options available for field addons.
#[derive(Clone, Copy, Debug, PartialEq, Eq, Structural)]
pub enum AddonsAlign {
    Centered,
    Right,
}

impl ModifierClass for AddonsAlign {
    open spec fn class(&self) -> Seq<char> {
        match self {
            AddonsAlign::Centered => "has-addons-centered"@,
            AddonsAlign::Right => "has-addons-right"@,
        }
    }

    fn class_text(&self) -> (r: String) {
        match self {
            AddonsAlign::Centered => "has-addons-centered".to_owned(),
            AddonsAlign::Right => "has-addons-right".to_owned(),
        }
    }
}

/// The two alignment options available for grouped field controls.
#[derive(Clone, Copy, Debug, PartialEq, Eq, Structural)]
pub enum GroupedAlign {
    Centered,
    Right,
}

impl ModifierClass for GroupedAlign {
    open spec fn class(&self) -> Seq<char> {
        match self {
            GroupedAlign::Centered => "is-grouped-centered"@,
            GroupedAlign::Right => "is-grouped-right"@,
        }
    }

    fn class_text(&self) -> (r: String) {
        match self {
            GroupedAlign::Centered => "is-grouped-centered".to_owned(),
            GroupedAlign::Right => "is-grouped-right".to_owned(),
        }
    }
}

/// The three sizes available for horizontal field labels.
#[derive(Clone, Copy, Debug, PartialEq, Eq, Structural)]
pub enum LabelSize {
    Small,
    Medium,
    Large,
}

impl ModifierClass for LabelSize {
    open spec fn class(&self) -> Seq<char> {
        match self {
            LabelSize::Small => "is-small"@,
            LabelSize::Medium => "is-medium"@,
            LabelSize::Large => "is-large"@,
        }
    }

    fn class_text(&self) -> (r: String) {
        match self {
            LabelSize::Small => "is-small".to_owned(),
            LabelSize::Medium => "is-medium".to_owned(),
            LabelSize::Large => "is-large".to_owned(),
        }
    }
}

/// The configuration of a field.
pub struct FieldProps {
    pub children: Vec<Node>,
    pub classes: Option<Vec<String>>,
    /// A text label for the field.
    pub label: Option<String>,
    /// Extra classes for the label container.
    pub label_classes: Option<Vec<String>>,
    /// A help message for the field.
    pub help: Option<String>,
    /// Extra classes for the help message container.
    pub help_classes: Option<Vec<String>>,
    /// A convenience flag to add the `is-danger` class to the help classes.
    pub help_has_error: bool,
    /// Has icons on the left of the field's controls.
    pub icons_left: bool,
    /// Has icons on the right of the field's controls.
    pub icons_right: bool,
    /// Allow addons to the field's controls.
    pub addons: bool,
    /// Alignment for the field's addons.
    pub addons_align: Option<AddonsAlign>,
    /// All controls in this field should be grouped.
    pub grouped: bool,
    /// Alignment for grouped controls.
    pub grouped_align: Option<GroupedAlign>,
    /// Allow the grouped controls to span multiple lines.
    pub multiline: bool,
    /// Make this a horizontal field.
    pub horizontal: bool,
}

impl FieldProps {
    /// The composed class list: `field`, the extension classes, then one
    /// modifier per selected option, in property order.
    pub open spec fn spec_classes(self) -> Seq<Seq<char>> {
        composed(
            "field"@,
            ext_views(self.classes),
            flag_class(self.icons_left, "has-icons-left"@) + flag_class(
                self.icons_right,
                "has-icons-right"@,
            ) + flag_class(self.addons, "has-addons"@) + opt_mod(self.addons_align) + flag_class(
                self.grouped,
                "is-grouped"@,
            ) + opt_mod(self.grouped_align) + flag_class(self.multiline, "is-grouped-multiline"@),
        )
    }

    /// The label section: nothing without label text. With label text, a
    /// horizontal field wraps a `label.label` in a division classed with the
    /// label extension classes and `field-label`; a vertical field renders
    /// the `label` element itself, classed with the extension classes and
    /// `label`.
    pub open spec fn label_models(self) -> Seq<NodeModel> {
        match self.label {
            Option::Some(label_text) => if self.horizontal {
                seq![
                    NodeModel::Element {
                        tag: "div"@,
                        attrs: Seq::empty(),
                        classes: ext_views(self.label_classes) + seq!["field-label"@],
                        children: seq![
                            NodeModel::Element {
                                tag: "label"@,
                                attrs: Seq::empty(),
                                classes: seq!["label"@],
                                children: seq![NodeModel::Text(label_text@)],
                            },
                        ],
                    },
                ]
            } else {
                seq![
                    NodeModel::Element {
                        tag: "label"@,
                        attrs: Seq::empty(),
                        classes: ext_views(self.label_classes) + seq!["label"@],
                        children: seq![NodeModel::Text(label_text@)],
                    },
                ]
            },
            Option::None => Seq::empty(),
        }
    }

    /// The help section: nothing without a help message; otherwise one
    /// `label` classed with the help extension classes, `help`, and the
    /// danger modifier when the error flag is set.
    pub open spec fn help_models(self) -> Seq<NodeModel> {
        match self.help {
            Option::Some(help_text) => seq![
                NodeModel::Element {
                    tag: "label"@,
                    attrs: Seq::empty(),
                    classes: ext_views(self.help_classes) + seq!["help"@] + flag_class(
                        self.help_has_error,
                        "is-danger"@,
                    ),
                    children: seq![NodeModel::Text(help_text@)],
                },
            ],
            Option::None => Seq::empty(),
        }
    }

    /// The body: the child controls themselves, wrapped in one
    /// `div.field-body` when the field is horizontal.
    pub open spec fn body_models(self) -> Seq<NodeModel> {
        if self.horizontal {
            seq![
                NodeModel::Element {
                    tag: "div"@,
                    attrs: Seq::empty(),
                    classes: seq!["field-body"@],
                    children: models_of(self.children@),
                },
            ]
        } else {
            models_of(self.children@)
        }
    }
}

/// A container for form controls.
pub struct Field {
    pub props: FieldProps,
}

impl Field {
    pub fn create(props: FieldProps) -> (r: Self)
        ensures
            r.props == props,
    {
        Field { props }
    }

    pub fn update(&mut self, _msg: ()) -> (rerender: bool)
        ensures
            !rerender,
            *final(self) == *old(self),
    {
        false
    }
}

/// Build an extension-classed container with one trailing fixed class,
/// around one text child.
fn classed_label(tag: &str, ext: &Option<Vec<String>>, fixed: &str, content: &str) -> (r: Node)
    ensures
        r.model() == (NodeModel::Element {
            tag: tag@,
            attrs: Seq::empty(),
            classes: ext_views(*ext) + seq![fixed@],
            children: seq![NodeModel::Text(content@)],
        }),
{
    let mut classes: Vec<String> = Vec::new();
    push_extension(&mut classes, ext);
    push_class(&mut classes, fixed);
    let mut kids: Vec<Node> = Vec::new();
    kids.push(text(content));
    proof {
        broadcast use crate::markup::lemma_models_of;

        assert(class_views(classes@) =~= ext_views(*ext) + seq![fixed@]);
        assert(models_of(kids@) =~= seq![NodeModel::Text(content@)]);
    }
    plain_element(tag, classes, kids)
}

impl Render for Field {
    open spec fn spec_view(&self) -> NodeModel {
        NodeModel::Element {
            tag: "div"@,
            attrs: Seq::empty(),
            classes: self.props.spec_classes(),
            children: self.props.label_models() + self.props.body_models()
                + self.props.help_models(),
        }
    }

    #[verifier::rlimit(100)]
    fn view(&self) -> (r: Node) {
        let mut classes = base_class("field");
        push_extension(&mut classes, &self.props.classes);
        if self.props.icons_left {
            push_class(&mut classes, "has-icons-left");
        }
        if self.props.icons_right {
            push_class(&mut classes, "has-icons-right");
        }
        if self.props.addons {
            push_class(&mut classes, "has-addons");
        }
        push_opt_mod(&mut classes, &self.props.addons_align);
        if self.props.grouped {
            push_class(&mut classes, "is-grouped");
        }
        push_opt_mod(&mut classes, &self.props.grouped_align);
        if self.props.multiline {
            push_class(&mut classes, "is-grouped-multiline");
        }

        let mut kids: Vec<Node> = Vec::new();

        // The label section, when label text is given.
        if let Option::Some(label_text) = &self.props.label {
            if self.props.horizontal {
                let inner = classed_label(
                    "label",
                    &Option::<Vec<String>>::None,
                    "label",
                    label_text.as_str(),
                );
                let mut outer_classes: Vec<String> = Vec::new();
                push_extension(&mut outer_classes, &self.props.label_classes);
                push_class(&mut outer_classes, "field-label");
                let mut outer_kids: Vec<Node> = Vec::new();
                outer_kids.push(inner);
                proof {
                    broadcast use crate::markup::lemma_models_of;

                    assert(class_views(outer_classes@) =~= ext_views(self.props.label_classes)
                        + seq!["field-label"@]);
                    assert(inner.model() =~~= self.props.label_models()[0]->children[0]);
                    assert(models_of(outer_kids@) =~= self.props.label_models()[0]->children);
                }
                kids.push(plain_element("div", outer_classes, outer_kids));
            } else {
                let entry = classed_label(
                    "label",
                    &self.props.label_classes,
                    "label",
                    label_text.as_str(),
                );
                proof {
                    assert(entry.model() =~~= self.props.label_models()[0]);
                }
                kids.push(entry);
            }
        }
        proof {
            broadcast use crate::markup::lemma_models_of;

            assert(models_of(kids@) =~= self.props.label_models());
        }
        let ghost after_label = kids@;

        // The body: the children, wrapped once when the field is horizontal.
        let controls = clone_nodes(&self.props.children);
        if self.props.horizontal {
            kids.push(plain_element("div", base_class("field-body"), controls));
        } else {
            let mut controls_moved = controls;
            kids.append(&mut controls_moved);
        }
        proof {
            broadcast use crate::markup::lemma_models_of;

            assert(models_of(kids@) =~= self.props.label_models() + self.props.body_models());
        }
        let ghost after_body = kids@;

        // The help section, when a help message is given.
        if let Option::Some(help_text) = &self.props.help {
            let mut help_classes: Vec<String> = Vec::new();
            push_extension(&mut help_classes, &self.props.help_classes);
            push_class(&mut help_classes, "help");
            if self.props.help_has_error {
                push_class(&mut help_classes, "is-danger");
            }
            let mut help_kids: Vec<Node> = Vec::new();
            help_kids.push(text(help_text.as_str()));
            proof {
                broadcast use crate::markup::lemma_models_of;

                assert(class_views(help_classes@) =~= self.props.help_models()[0]->classes);
                assert(models_of(help_kids@) =~= self.props.help_models()[0]->children);
            }
            kids.push(plain_element("label", help_classes, help_kids));
        }
        proof {
            broadcast use crate::markup::lemma_models_of;

            assert(models_of(kids@) =~= models_of(after_body) + self.props.help_models());
            assert(class_views(classes@) =~= self.props.spec_classes());
            assert(models_of(kids@) == self.spec_view()->children);
        }
        plain_element("div", classes, kids)
    }
}

impl Default for FieldProps {
    /// The default configuration: every optional field unset.
    fn default() -> (r: Self)
        ensures
            r.children@ == Seq::<Node>::empty(),
            r.classes is None,
            r.label is None,
            r.label_classes is None,
            r.help is None,
            r.help_classes is None,
            !r.help_has_error,
            !r.icons_left,
            !r.icons_right,
            !r.addons,
            r.addons_align is None,
            !r.grouped,
            r.grouped_align is None,
            !r.multiline,
            !r.horizontal,
    {
        FieldProps {
            children: Vec::new(),
            classes: None,
            label: None,
            label_classes: None,
            help: None,
            help_classes: None,
            help_has_error: false,
            icons_left: false,
            icons_right: false,
            addons: false,
            addons_align: None,
            grouped: false,
            grouped_align: None,
            multiline: false,
            horizontal: false,
        }
    }
}

/// Counting over the field's composed class list splits into one count per
/// segment.
proof fn lemma_field_count_split(p: FieldProps, c: Seq<char>)
    ensures
        count_class(p.spec_classes(), c) == count_class(seq!["field"@], c) + count_class(
            ext_views(p.classes),
            c,
        ) + count_class(flag_class(p.icons_left, "has-icons-left"@), c) + count_class(
            flag_class(p.icons_right, "has-icons-right"@),
            c,
        ) + count_class(flag_class(p.addons, "has-addons"@), c) + count_class(
            opt_mod(p.addons_align),
            c,
        ) + count_class(flag_class(p.grouped, "is-grouped"@), c) + count_class(
            opt_mod(p.grouped_align),
            c,
        ) + count_class(flag_class(p.multiline, "is-grouped-multiline"@), c),
{
    let base = seq!["field"@];
    let ext = ext_views(p.classes);
    let m1 = flag_class(p.icons_left, "has-icons-left"@);
    let m2 = flag_class(p.icons_right, "has-icons-right"@);
    let m3 = flag_class(p.addons, "has-addons"@);
    let m4 = opt_mod(p.addons_align);
    let m5 = flag_class(p.grouped, "is-grouped"@);
    let m6 = opt_mod(p.grouped_align);
    let m7 = flag_class(p.multiline, "is-grouped-multiline"@);
    lemma_count_concat(base + ext + m1 + m2 + m3 + m4 + m5 + m6, m7, c);
    lemma_count_concat(base + ext + m1 + m2 + m3 + m4 + m5, m6, c);
    lemma_count_concat(base + ext + m1 + m2 + m3 + m4, m5, c);
    lemma_count_concat(base + ext + m1 + m2 + m3, m4, c);
    lemma_count_concat(base + ext + m1 + m2, m3, c);
    lemma_count_concat(base + ext + m1, m2, c);
    lemma_count_concat(base + ext, m1, c);
    lemma_count_concat(base, ext, c);
    assert(p.spec_classes() =~= base + ext + m1 + m2 + m3 + m4 + m5 + m6 + m7);
}

/// For every combination of the modifier options: the composed class list
/// holds the base class `field` exactly once, the extension classes
/// verbatim directly after it, and each modifier class exactly once when
/// its option is set and not at all when it is unset — provided the
/// caller's extension classes repeat none of them.
#[verifier::rlimit(100)]
pub proof fn lemma_field_class_counts(p: FieldProps)
    requires
        !ext_views(p.classes).contains("field"@),
        !ext_views(p.classes).contains("has-icons-left"@),
        !ext_views(p.classes).contains("has-icons-right"@),
        !ext_views(p.classes).contains("has-addons"@),
        !ext_views(p.classes).contains("is-grouped"@),
        !ext_views(p.classes).contains("is-grouped-multiline"@),
        forall|a: AddonsAlign| !ext_views(p.classes).contains(a.class()),
        forall|g: GroupedAlign| !ext_views(p.classes).contains(g.class()),
    ensures
        count_class(p.spec_classes(), "field"@) == 1,
        p.spec_classes().subrange(1, 1 + ext_views(p.classes).len() as int) == ext_views(p.classes),
        count_class(p.spec_classes(), "has-icons-left"@) == if p.icons_left {
            1int
        } else {
            0int
        },
        count_class(p.spec_classes(), "has-icons-right"@) == if p.icons_right {
            1int
        } else {
            0int
        },
        count_class(p.spec_classes(), "has-addons"@) == if p.addons {
            1int
        } else {
            0int
        },
        forall|a: AddonsAlign|
            count_class(p.spec_classes(), a.class()) == if p.addons_align == Option::Some(a) {
                1int
            } else {
                0int
            },
        count_class(p.spec_classes(), "is-grouped"@) == if p.grouped {
            1int
        } else {
            0int
        },
        forall|g: GroupedAlign|
            count_class(p.spec_classes(), g.class()) == if p.grouped_align == Option::Some(g) {
                1int
            } else {
                0int
            },
        count_class(p.spec_classes(), "is-grouped-multiline"@) == if p.multiline {
            1int
        } else {
            0int
        },
{
    reveal_strlit("field");
    reveal_strlit("has-icons-left");
    reveal_strlit("has-icons-right");
    reveal_strlit("has-addons");
    reveal_strlit("has-addons-centered");
    reveal_strlit("has-addons-right");
    reveal_strlit("is-grouped");
    reveal_strlit("is-grouped-centered");
    reveal_strlit("is-grouped-right");
    reveal_strlit("is-grouped-multiline");
    assert("field"@.len() == 5);
    assert("has-icons-left"@.len() == 14);
    assert("has-icons-right"@.len() == 15);
    assert("has-addons"@.len() == 10);
    assert("has-addons-centered"@.len() == 19);
    assert("has-addons-right"@.len() == 16);
    assert("is-grouped"@.len() == 10);
    assert("is-grouped-centered"@.len() == 19);
    assert("is-grouped-right"@.len() == 16);
    assert("is-grouped-multiline"@.len() == 20);
    assert("has-addons"@[0] == 'h' && "is-grouped"@[0] == 'i');
    assert("has-addons-centered"@[0] == 'h' && "is-grouped-centered"@[0] == 'i');
    assert("has-addons-right"@[0] == 'h' && "is-grouped-right"@[0] == 'i');
    let base = seq!["field"@];
    let ext = ext_views(p.classes);
    let m1 = flag_class(p.icons_left, "has-icons-left"@);
    let m2 = flag_class(p.icons_right, "has-icons-right"@);
    let m3 = flag_class(p.addons, "has-addons"@);
    let m4 = opt_mod(p.addons_align);
    let m5 = flag_class(p.grouped, "is-grouped"@);
    let m6 = opt_mod(p.grouped_align);
    let m7 = flag_class(p.multiline, "is-grouped-multiline"@);
    assert(base =~= flag_class(true, "field"@));
    assert forall|c: Seq<char>|
        #[trigger] count_class(p.spec_classes(), c) == count_class(base, c) + count_class(ext, c)
            + count_class(m1, c) + count_class(m2, c) + count_class(m3, c) + count_class(m4, c)
            + count_class(m5, c) + count_class(m6, c) + count_class(m7, c) by {
        lemma_field_count_split(p, c);
    }
    lemma_flag_class_count(true, "field"@, "field"@);
    lemma_flag_class_count(p.icons_left, "has-icons-left"@, "field"@);
    lemma_flag_class_count(p.icons_right, "has-icons-right"@, "field"@);
    lemma_flag_class_count(p.addons, "has-addons"@, "field"@);
    lemma_opt_mod_count(p.addons_align, "field"@);
    lemma_flag_class_count(p.grouped, "is-grouped"@, "field"@);
    lemma_opt_mod_count(p.grouped_align, "field"@);
    lemma_flag_class_count(p.multiline, "is-grouped-multiline"@, "field"@);
    lemma_count_occurrence(ext, "field"@);
    lemma_flag_class_count(true, "field"@, "has-icons-left"@);
    lemma_flag_class_count(p.icons_left, "has-icons-left"@, "has-icons-left"@);
    lemma_flag_class_count(p.icons_right, "has-icons-right"@, "has-icons-left"@);
    lemma_flag_class_count(p.addons, "has-addons"@, "has-icons-left"@);
    lemma_opt_mod_count(p.addons_align, "has-icons-left"@);
    lemma_flag_class_count(p.grouped, "is-grouped"@, "has-icons-left"@);
    lemma_opt_mod_count(p.grouped_align, "has-icons-left"@);
    lemma_flag_class_count(p.multiline, "is-grouped-multiline"@, "has-icons-left"@);
    lemma_count_occurrence(ext, "has-icons-left"@);
    lemma_flag_class_count(true, "field"@, "has-icons-right"@);
    lemma_flag_class_count(p.icons_left, "has-icons-left"@, "has-icons-right"@);
    lemma_flag_class_count(p.icons_right, "has-icons-right"@, "has-icons-right"@);
    lemma_flag_class_count(p.addons, "has-addons"@, "has-icons-right"@);
    lemma_opt_mod_count(p.addons_align, "has-icons-right"@);
    lemma_flag_class_count(p.grouped, "is-grouped"@, "has-icons-right"@);
    lemma_opt_mod_count(p.grouped_align, "has-icons-right"@);
    lemma_flag_class_count(p.multiline, "is-grouped-multiline"@, "has-icons-right"@);
    lemma_count_occurrence(ext, "has-icons-right"@);
    lemma_flag_class_count(true, "field"@, "has-addons"@);
    lemma_flag_class_count(p.icons_left, "has-icons-left"@, "has-addons"@);
    lemma_flag_class_count(p.icons_right, "has-icons-right"@, "has-addons"@);
    lemma_flag_class_count(p.addons, "has-addons"@, "has-addons"@);
    lemma_opt_mod_count(p.addons_align, "has-addons"@);
    lemma_flag_class_count(p.grouped, "is-grouped"@, "has-addons"@);
    lemma_opt_mod_count(p.grouped_align, "has-addons"@);
    lemma_flag_class_count(p.multiline, "is-grouped-multiline"@, "has-addons"@);
    lemma_count_occurrence(ext, "has-addons"@);
    lemma_flag_class_count(true, "field"@, "is-grouped"@);
    lemma_flag_class_count(p.icons_left, "has-icons-left"@, "is-grouped"@);
    lemma_flag_class_count(p.icons_right, "has-icons-right"@, "is-grouped"@);
    lemma_flag_class_count(p.addons, "has-addons"@, "is-grouped"@);
    lemma_opt_mod_count(p.addons_align, "is-grouped"@);
    lemma_flag_class_count(p.grouped, "is-grouped"@, "is-grouped"@);
    lemma_opt_mod_count(p.grouped_align, "is-grouped"@);
    lemma_flag_class_count(p.multiline, "is-grouped-multiline"@, "is-grouped"@);
    lemma_count_occurrence(ext, "is-grouped"@);
    lemma_flag_class_count(true, "field"@, "is-grouped-multiline"@);
    lemma_flag_class_count(p.icons_left, "has-icons-left"@, "is-grouped-multiline"@);
    lemma_flag_class_count(p.icons_right, "has-icons-right"@, "is-grouped-multiline"@);
    lemma_flag_class_count(p.addons, "has-addons"@, "is-grouped-multiline"@);
    lemma_opt_mod_count(p.addons_align, "is-grouped-multiline"@);
    lemma_flag_class_count(p.grouped, "is-grouped"@, "is-grouped-multiline"@);
    lemma_opt_mod_count(p.grouped_align, "is-grouped-multiline"@);
    lemma_flag_class_count(p.multiline, "is-grouped-multiline"@, "is-grouped-multiline"@);
    lemma_count_occurrence(ext, "is-grouped-multiline"@);
    assert forall|a: AddonsAlign|
        count_class(p.spec_classes(), a.class()) == if p.addons_align == Option::Some(a) {
            1int
        } else {
            0int
        } by {
        lemma_flag_class_count(true, "field"@, a.class());
        lemma_flag_class_count(p.icons_left, "has-icons-left"@, a.class());
        lemma_flag_class_count(p.icons_right, "has-icons-right"@, a.class());
        lemma_flag_class_count(p.addons, "has-addons"@, a.class());
        lemma_opt_mod_count(p.addons_align, a.class());
        lemma_flag_class_count(p.grouped, "is-grouped"@, a.class());
        lemma_opt_mod_count(p.grouped_align, a.class());
        lemma_flag_class_count(p.multiline, "is-grouped-multiline"@, a.class());
        lemma_count_occurrence(ext, a.class());
    }
    assert forall|g: GroupedAlign|
        count_class(p.spec_classes(), g.class()) == if p.grouped_align == Option::Some(g) {
            1int
        } else {
            0int
        } by {
        lemma_flag_class_count(true, "field"@, g.class());
        lemma_flag_class_count(p.icons_left, "has-icons-left"@, g.class());
        lemma_flag_class_count(p.icons_right, "has-icons-right"@, g.class());
        lemma_flag_class_count(p.addons, "has-addons"@, g.class());
        lemma_opt_mod_count(p.addons_align, g.class());
        lemma_flag_class_count(p.grouped, "is-grouped"@, g.class());
        lemma_opt_mod_count(p.grouped_align, g.class());
        lemma_flag_class_count(p.multiline, "is-grouped-multiline"@, g.class());
        lemma_count_occurrence(ext, g.class());
    }
    crate::classes::lemma_composed_extension_verbatim(
        "field"@,
        ext,
        m1 + m2 + m3 + m4 + m5 + m6 + m7,
    );
    assert(p.spec_classes() == composed("field"@, ext, m1 + m2 + m3 + m4 + m5 + m6 + m7));
}

} // verus!
