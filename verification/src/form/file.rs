//! A custom file upload input.

use vstd::prelude::*;

use crate::classes::{
    base_class, class_views, composed, count_class, ext_views, flag_class, lemma_count_concat,
    lemma_count_occurrence, lemma_flag_class_count, lemma_opt_mod_count, opt_mod, push_class,
    push_extension, push_opt_mod, ModifierClass,
};
use crate::form::UpdateResult;
use crate::markup::{
    attr, attr_models_of, clone_node, element, flag_attr, models_of, plain_element, text, Attr,
    AttrModel, Node, NodeModel,
};
use crate::render::Render;
use crate::{Alignment, Size};

verus! {

/// A reference to one host-owned file: the component never copies or reads
/// the file, it only relays the selection and displays each file's name.
#[derive(Debug)]
pub struct FileHandle {
    /// The file's name, as the host reports it.
    pub name: String,
}

/// The configuration of a file selector.
pub struct FileProps {
    /// The `name` attribute for this form element.
    pub name: String,
    /// The controlled form value for the currently selected files.
    pub files: Vec<FileHandle>,
    /// The display text for the file selector.
    pub selector_label: String,
    /// The contents to use for the file selector icon.
    pub selector_icon: Node,
    pub classes: Option<Vec<String>>,
    /// An option to control if file names will be displayed; if a value is
    /// provided, then the `has-name` class will be added to this form
    /// element and the given value will be used as a placeholder until files
    /// are selected.
    pub has_name: Option<String>,
    /// Move the call-to-action element to the right side of the component.
    pub right: bool,
    /// Expand the file display name to the full width of the parent.
    pub fullwidth: bool,
    /// Display as a boxed block.
    pub boxed: bool,
    /// Allow multiple files to be selected.
    pub multiple: bool,
    /// The size of this component.
    pub size: Option<Size>,
    /// The alignment of this component within its parent.
    pub alignment: Option<Alignment>,
}

impl FileProps {
    /// The composed class list: `file`, the extension classes, then one
    /// modifier per selected option, in property order.
    pub open spec fn spec_classes(self) -> Seq<Seq<char>> {
        composed(
            "file"@,
            ext_views(self.classes),
            flag_class(self.has_name is Some, "has-name"@) + flag_class(self.right, "is-right"@)
                + flag_class(self.fullwidth, "is-fullwidth"@) + flag_class(self.boxed, "is-boxed"@)
                + opt_mod(self.size) + opt_mod(self.alignment),
        )
    }
}

/// One file-name display entry per selected file, in selection order.
pub open spec fn name_entries(files: Seq<FileHandle>) -> Seq<NodeModel>
    decreases files.len(),
{
    if files.len() == 0 {
        Seq::empty()
    } else {
        name_entries(files.drop_last()).push(
            NodeModel::Element {
                tag: "span"@,
                attrs: Seq::empty(),
                classes: seq!["file-name"@],
                children: seq![NodeModel::Text(files.last().name@)],
            },
        )
    }
}

/// A custom file upload input.
///
/// The selected files are opaque host-owned handles: the component relays
/// the current selection upward untouched and renders one display line per
/// selected file's name.
pub struct File {
    pub props: FileProps,
}

impl FileProps {
    /// A configuration with the mandatory name and controlled file
    /// selection, and every optional field at its default, including the
    /// customary selector label.
    pub fn new(name: String, files: Vec<FileHandle>) -> (r: Self)
        ensures
            r.name == name,
            r.files == files,
            r.selector_label@ == "Choose a file..."@,
            r.selector_icon.model() == NodeModel::Text(Seq::<char>::empty()),
            r.classes is None,
            r.has_name is None,
            !r.right,
            !r.fullwidth,
            !r.boxed,
            !r.multiple,
            r.size is None,
            r.alignment is None,
    {
        FileProps {
            name,
            files,
            selector_label: "Choose a file...".to_owned(),
            selector_icon: Node::Text(String::new()),
            classes: None,
            has_name: None,
            right: false,
            fullwidth: false,
            boxed: false,
            multiple: false,
            size: None,
            alignment: None,
        }
    }
}

impl File {
    pub fn create(props: FileProps) -> (r: Self)
        ensures
            r.props == props,
    {
        File { props }
    }

    /// The message a change event carrying the given file list produces: the
    /// list itself, unchanged. A change event on a file input always carries
    /// a file list; one without is a host contract breach, which the caller
    /// rules out.
    pub fn change_message(files: Option<Vec<FileHandle>>) -> (m: Vec<FileHandle>)
        requires
            files is Some,
        ensures
            m == files->0,
    {
        match files {
            Option::Some(list) => list,
            Option::None => unreached(),
        }
    }

    /// Hand the new selection to the owner unchanged — the same handles, not
    /// copies — exactly once per event; the component itself holds no state
    /// and never re-renders on its own.
    pub fn update(&mut self, msg: Vec<FileHandle>) -> (r: UpdateResult<Vec<FileHandle>>)
        ensures
            *final(self) == *old(self),
            !r.rerender,
            r.emit matches Option::Some(fs) && fs == msg,
    {
        UpdateResult { emit: Option::Some(msg), rerender: false }
    }
}

impl Render for File {
    open spec fn spec_view(&self) -> NodeModel {
        NodeModel::Element {
            tag: "div"@,
            attrs: Seq::empty(),
            classes: self.props.spec_classes(),
            children: seq![
                NodeModel::Element {
                    tag: "label"@,
                    attrs: Seq::empty(),
                    classes: seq!["file-label"@],
                    children: seq![
                        NodeModel::Element {
                            tag: "input"@,
                            attrs: seq![
                                AttrModel { name: "type"@, value: "file"@ },
                                AttrModel { name: "name"@, value: self.props.name@ },
                                AttrModel {
                                    name: "multiple"@,
                                    value: if self.props.multiple {
                                        "true"@
                                    } else {
                                        "false"@
                                    },
                                },
                            ],
                            classes: seq!["file-input"@],
                            children: Seq::empty(),
                        },
                        NodeModel::Element {
                            tag: "span"@,
                            attrs: Seq::empty(),
                            classes: seq!["file-cta"@],
                            children: seq![
                                NodeModel::Element {
                                    tag: "span"@,
                                    attrs: Seq::empty(),
                                    classes: seq!["file-icon"@],
                                    children: seq![self.props.selector_icon.model()],
                                },
                                NodeModel::Element {
                                    tag: "span"@,
                                    attrs: Seq::empty(),
                                    classes: seq!["file-label"@],
                                    children: seq![NodeModel::Text(self.props.selector_label@)],
                                },
                            ],
                        },
                    ] + name_entries(self.props.files@),
                },
            ],
        }
    }

    #[verifier::loop_isolation(false)]
    #[verifier::rlimit(50)]
    fn view(&self) -> (r: Node) {
        let mut classes = base_class("file");
        push_extension(&mut classes, &self.props.classes);
        if self.props.has_name.is_some() {
            push_class(&mut classes, "has-name");
        }
        if self.props.right {
            push_class(&mut classes, "is-right");
        }
        if self.props.fullwidth {
            push_class(&mut classes, "is-fullwidth");
        }
        if self.props.boxed {
            push_class(&mut classes, "is-boxed");
        }
        push_opt_mod(&mut classes, &self.props.size);
        push_opt_mod(&mut classes, &self.props.alignment);

        let mut input_attrs: Vec<Attr> = Vec::new();
        input_attrs.push(attr("type", "file".to_owned()));
        input_attrs.push(attr("name", self.props.name.clone()));
        input_attrs.push(flag_attr("multiple", self.props.multiple));
        proof {
            assert(attr_models_of(input_attrs@) =~= seq![
                AttrModel { name: "type"@, value: "file"@ },
                AttrModel { name: "name"@, value: self.props.name@ },
                AttrModel {
                    name: "multiple"@,
                    value: if self.props.multiple {
                        "true"@
                    } else {
                        "false"@
                    },
                },
            ]);
        }
        let input = element("input", base_class("file-input"), input_attrs, Vec::new());
        proof {
            broadcast use crate::markup::lemma_models_of;

            assert(models_of(Seq::<Node>::empty()) =~= Seq::<NodeModel>::empty());
        }

        let mut icon_kids: Vec<Node> = Vec::new();
        icon_kids.push(clone_node(&self.props.selector_icon));
        let icon = plain_element("span", base_class("file-icon"), icon_kids);
        let mut label_kids: Vec<Node> = Vec::new();
        label_kids.push(text(self.props.selector_label.as_str()));
        let cta_label = plain_element("span", base_class("file-label"), label_kids);
        let mut cta_kids: Vec<Node> = Vec::new();
        cta_kids.push(icon);
        cta_kids.push(cta_label);
        proof {
            broadcast use crate::markup::lemma_models_of;

            assert(models_of(icon_kids@) =~= seq![self.props.selector_icon.model()]);
            assert(models_of(label_kids@) =~= seq![
                NodeModel::Text(self.props.selector_label@),
            ]);
            assert(models_of(cta_kids@) =~= seq![icon.model(), cta_label.model()]);
        }
        let cta = plain_element("span", base_class("file-cta"), cta_kids);

        let mut inner: Vec<Node> = Vec::new();
        inner.push(input);
        inner.push(cta);
        let mut i: usize = 0;
        while i < self.props.files.len()
            invariant
                i <= self.props.files.len(),
                inner@.len() == 2 + i as int,
                inner@[0] == input,
                inner@[1] == cta,
                models_of(inner@.skip(2)) == name_entries(self.props.files@.take(i as int)),
            decreases self.props.files.len() - i,
        {
            let ghost prev = inner@;
            let mut entry_kids: Vec<Node> = Vec::new();
            entry_kids.push(text(self.props.files[i].name.as_str()));
            let entry = plain_element("span", base_class("file-name"), entry_kids);
            inner.push(entry);
            proof {
                broadcast use crate::markup::lemma_models_of;

                let fs = self.props.files@;
                assert(fs.take(i + 1 as int).drop_last() =~= fs.take(i as int));
                assert(fs.take(i + 1 as int).last() == fs[i as int]);
                assert(models_of(entry_kids@) =~= seq![
                    NodeModel::Text(self.props.files@[i as int].name@),
                ]);
                assert(entry.model() =~~= name_entries(fs.take(i + 1 as int)).last());
                assert(inner@.skip(2) =~= prev.skip(2).push(entry));
                assert(models_of(inner@.skip(2)) =~= name_entries(fs.take(i + 1 as int)));
            }
            i = i + 1;
        }

        proof {
            broadcast use crate::markup::lemma_models_of;

            let fs = self.props.files@;
            assert(fs.take(fs.len() as int) =~= fs);
            assert(models_of(inner@) =~= seq![input.model(), cta.model()] + name_entries(
                self.props.files@,
            ));
        }
        let label = plain_element("label", base_class("file-label"), inner);
        let mut kids: Vec<Node> = Vec::new();
        kids.push(label);
        proof {
            broadcast use crate::markup::lemma_models_of;

            assert(class_views(classes@) =~= self.props.spec_classes());
            assert(label.model() =~~= self.spec_view()->children[0]);
            assert(models_of(kids@) =~~= self.spec_view()->children);
        }
        plain_element("div", classes, kids)
    }
}

/// Counting over the file selector's composed class list splits into one
/// count per segment.
proof fn lemma_file_count_split(p: FileProps, c: Seq<char>)
    ensures
        count_class(p.spec_classes(), c) == count_class(seq!["file"@], c) + count_class(
            ext_views(p.classes),
            c,
        ) + count_class(flag_class(p.has_name is Some, "has-name"@), c) + count_class(
            flag_class(p.right, "is-right"@),
            c,
        ) + count_class(flag_class(p.fullwidth, "is-fullwidth"@), c) + count_class(
            flag_class(p.boxed, "is-boxed"@),
            c,
        ) + count_class(opt_mod(p.size), c) + count_class(opt_mod(p.alignment), c),
{
    let base = seq!["file"@];
    let ext = ext_views(p.classes);
    let m1 = flag_class(p.has_name is Some, "has-name"@);
    let m2 = flag_class(p.right, "is-right"@);
    let m3 = flag_class(p.fullwidth, "is-fullwidth"@);
    let m4 = flag_class(p.boxed, "is-boxed"@);
    let m5 = opt_mod(p.size);
    let m6 = opt_mod(p.alignment);
    lemma_count_concat(base + ext + m1 + m2 + m3 + m4 + m5, m6, c);
    lemma_count_concat(base + ext + m1 + m2 + m3 + m4, m5, c);
    lemma_count_concat(base + ext + m1 + m2 + m3, m4, c);
    lemma_count_concat(base + ext + m1 + m2, m3, c);
    lemma_count_concat(base + ext + m1, m2, c);
    lemma_count_concat(base + ext, m1, c);
    lemma_count_concat(base, ext, c);
    assert(p.spec_classes() =~= base + ext + m1 + m2 + m3 + m4 + m5 + m6);
}

/// For every combination of the modifier options: the composed class list
/// holds the base class `file` exactly once, the extension classes verbatim
/// directly after it, and each modifier class once per option that derives
/// it — the right-hand class can come from the `right` flag and from the
/// alignment selection, and those contributions add — provided the caller's
/// extension classes repeat none of them.
#[verifier::rlimit(100)]
pub proof fn lemma_file_class_counts(p: FileProps)
    requires
        !ext_views(p.classes).contains("file"@),
        !ext_views(p.classes).contains("has-name"@),
        !ext_views(p.classes).contains("is-fullwidth"@),
        !ext_views(p.classes).contains("is-boxed"@),
        forall|z: Size| !ext_views(p.classes).contains(z.class()),
        forall|a: Alignment| !ext_views(p.classes).contains(a.class()),
    ensures
        count_class(p.spec_classes(), "file"@) == 1,
        p.spec_classes().subrange(1, 1 + ext_views(p.classes).len() as int) == ext_views(p.classes),
        count_class(p.spec_classes(), "has-name"@) == if p.has_name is Some {
            1int
        } else {
            0int
        },
        count_class(p.spec_classes(), "is-fullwidth"@) == if p.fullwidth {
            1int
        } else {
            0int
        },
        count_class(p.spec_classes(), "is-boxed"@) == if p.boxed {
            1int
        } else {
            0int
        },
        count_class(p.spec_classes(), "is-right"@) == (if p.right {
            1int
        } else {
            0int
        }) + (if p.alignment == Option::Some(Alignment::Right) {
            1int
        } else {
            0int
        }),
        forall|z: Size|
            count_class(p.spec_classes(), z.class()) == if p.size == Option::Some(z) {
                1int
            } else {
                0int
            },
        forall|a: Alignment|
            count_class(p.spec_classes(), a.class()) == (if p.alignment == Option::Some(a) {
                1int
            } else {
                0int
            }) + (if a == Alignment::Right && p.right {
                1int
            } else {
                0int
            }),
{
    reveal_strlit("file");
    reveal_strlit("has-name");
    reveal_strlit("is-right");
    reveal_strlit("is-fullwidth");
    reveal_strlit("is-boxed");
    reveal_strlit("is-small");
    reveal_strlit("is-normal");
    reveal_strlit("is-medium");
    reveal_strlit("is-large");
    reveal_strlit("is-left");
    reveal_strlit("is-centered");
    assert("file"@.len() == 4);
    assert("has-name"@.len() == 8);
    assert("is-right"@.len() == 8);
    assert("is-fullwidth"@.len() == 12);
    assert("is-boxed"@.len() == 8);
    assert("is-small"@.len() == 8);
    assert("is-normal"@.len() == 9);
    assert("is-medium"@.len() == 9);
    assert("is-large"@.len() == 8);
    assert("is-left"@.len() == 7);
    assert("is-centered"@.len() == 11);
    assert("has-name"@[3] == '-' && "is-right"@[3] == 'r' && "is-boxed"@[3] == 'b'
        && "is-small"@[3] == 's' && "is-large"@[3] == 'l');
    assert("is-normal"@[3] == 'n' && "is-medium"@[3] == 'm');
    let base = seq!["file"@];
    let ext = ext_views(p.classes);
    let m1 = flag_class(p.has_name is Some, "has-name"@);
    let m2 = flag_class(p.right, "is-right"@);
    let m3 = flag_class(p.fullwidth, "is-fullwidth"@);
    let m4 = flag_class(p.boxed, "is-boxed"@);
    let m5 = opt_mod(p.size);
    let m6 = opt_mod(p.alignment);
    assert(base =~= flag_class(true, "file"@));
    assert forall|c: Seq<char>|
        #[trigger] count_class(p.spec_classes(), c) == count_class(base, c) + count_class(ext, c)
            + count_class(m1, c) + count_class(m2, c) + count_class(m3, c) + count_class(m4, c)
            + count_class(m5, c) + count_class(m6, c) by {
        lemma_file_count_split(p, c);
    }
    assert(Alignment::Right.class() == "is-right"@);
    assert(!ext_views(p.classes).contains("is-right"@));
    if let Option::Some(x) = p.alignment {
        assert(x.class() == "is-right"@ ==> x == Alignment::Right) by {
            assert(x.class() == "is-right"@ ==> x.class()[3] == 'r');
        }
    }
    if let Option::Some(x) = p.size {
        assert(x.class() != "is-right"@) by {
            assert(x.class()[3] != 'r');
        }
    }
    lemma_flag_class_count(true, "file"@, "file"@);
    lemma_flag_class_count(p.has_name is Some, "has-name"@, "file"@);
    lemma_flag_class_count(p.right, "is-right"@, "file"@);
    lemma_flag_class_count(p.fullwidth, "is-fullwidth"@, "file"@);
    lemma_flag_class_count(p.boxed, "is-boxed"@, "file"@);
    lemma_opt_mod_count(p.size, "file"@);
    lemma_opt_mod_count(p.alignment, "file"@);
    lemma_count_occurrence(ext, "file"@);
    lemma_flag_class_count(true, "file"@, "has-name"@);
    lemma_flag_class_count(p.has_name is Some, "has-name"@, "has-name"@);
    lemma_flag_class_count(p.right, "is-right"@, "has-name"@);
    lemma_flag_class_count(p.fullwidth, "is-fullwidth"@, "has-name"@);
    lemma_flag_class_count(p.boxed, "is-boxed"@, "has-name"@);
    lemma_opt_mod_count(p.size, "has-name"@);
    lemma_opt_mod_count(p.alignment, "has-name"@);
    lemma_count_occurrence(ext, "has-name"@);
    lemma_flag_class_count(true, "file"@, "is-fullwidth"@);
    lemma_flag_class_count(p.has_name is Some, "has-name"@, "is-fullwidth"@);
    lemma_flag_class_count(p.right, "is-right"@, "is-fullwidth"@);
    lemma_flag_class_count(p.fullwidth, "is-fullwidth"@, "is-fullwidth"@);
    lemma_flag_class_count(p.boxed, "is-boxed"@, "is-fullwidth"@);
    lemma_opt_mod_count(p.size, "is-fullwidth"@);
    lemma_opt_mod_count(p.alignment, "is-fullwidth"@);
    lemma_count_occurrence(ext, "is-fullwidth"@);
    lemma_flag_class_count(true, "file"@, "is-boxed"@);
    lemma_flag_class_count(p.has_name is Some, "has-name"@, "is-boxed"@);
    lemma_flag_class_count(p.right, "is-right"@, "is-boxed"@);
    lemma_flag_class_count(p.fullwidth, "is-fullwidth"@, "is-boxed"@);
    lemma_flag_class_count(p.boxed, "is-boxed"@, "is-boxed"@);
    lemma_opt_mod_count(p.size, "is-boxed"@);
    lemma_opt_mod_count(p.alignment, "is-boxed"@);
    lemma_count_occurrence(ext, "is-boxed"@);
    lemma_flag_class_count(true, "file"@, "is-right"@);
    lemma_flag_class_count(p.has_name is Some, "has-name"@, "is-right"@);
    lemma_flag_class_count(p.right, "is-right"@, "is-right"@);
    lemma_flag_class_count(p.fullwidth, "is-fullwidth"@, "is-right"@);
    lemma_flag_class_count(p.boxed, "is-boxed"@, "is-right"@);
    lemma_opt_mod_count(p.size, "is-right"@);
    lemma_opt_mod_count(p.alignment, "is-right"@);
    lemma_count_occurrence(ext, "is-right"@);
    assert forall|z: Size|
        count_class(p.spec_classes(), z.class()) == if p.size == Option::Some(z) {
            1int
        } else {
            0int
        } by {
    lemma_flag_class_count(true, "file"@, z.class());
    lemma_flag_class_count(p.has_name is Some, "has-name"@, z.class());
    lemma_flag_class_count(p.right, "is-right"@, z.class());
    lemma_flag_class_count(p.fullwidth, "is-fullwidth"@, z.class());
    lemma_flag_class_count(p.boxed, "is-boxed"@, z.class());
    lemma_opt_mod_count(p.size, z.class());
    lemma_opt_mod_count(p.alignment, z.class());
    lemma_count_occurrence(ext, z.class());
    }
    assert forall|a: Alignment|
        count_class(p.spec_classes(), a.class()) == (if p.alignment == Option::Some(a) {
            1int
        } else {
            0int
        }) + (if a == Alignment::Right && p.right {
            1int
        } else {
            0int
        }) by {
    lemma_flag_class_count(true, "file"@, a.class());
    lemma_flag_class_count(p.has_name is Some, "has-name"@, a.class());
    lemma_flag_class_count(p.right, "is-right"@, a.class());
    lemma_flag_class_count(p.fullwidth, "is-fullwidth"@, a.class());
    lemma_flag_class_count(p.boxed, "is-boxed"@, a.class());
    lemma_opt_mod_count(p.size, a.class());
    lemma_opt_mod_count(p.alignment, a.class());
    lemma_count_occurrence(ext, a.class());
    }
    crate::classes::lemma_composed_extension_verbatim(
        "file"@,
        ext,
        m1 + m2 + m3 + m4 + m5 + m6,
    );
    assert(p.spec_classes() == composed("file"@, ext, m1 + m2 + m3 + m4 + m5 + m6));
}

} // verus!
