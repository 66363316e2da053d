//! An HTML table component.

use vstd::prelude::*;

use crate::classes::{
    base_class, class_views, composed, count_class, ext_views, flag_class, lemma_count_concat,
    lemma_count_occurrence, lemma_flag_class_count, push_class, push_extension,
};
use crate::markup::{clone_nodes, models_of, plain_element, Node, NodeModel};
use crate::render::Render;

verus! {

/// The configuration of a table.
pub struct TableProps {
    pub children: Vec<Node>,
    pub classes: Option<Vec<String>>,
    /// Add borders to all the cells.
    pub bordered: bool,
    /// Add stripes to the table.
    pub striped: bool,
    /// Make the cells narrower.
    pub narrow: bool,
    /// Add a hover effect on each row.
    pub hoverable: bool,
    /// Make the table fullwidth.
    pub fullwidth: bool,
    /// Make the table scrollable, wrapping the table in a `div.table-container`.
    pub scrollable: bool,
}

impl TableProps {
    /// The composed class list: `table`, the extension classes, then one
    /// modifier per set flag, in property order.
    pub open spec fn spec_classes(self) -> Seq<Seq<char>> {
        composed(
            "table"@,
            ext_views(self.classes),
            flag_class(self.bordered, "is-bordered"@) + flag_class(self.striped, "is-striped"@)
                + flag_class(self.narrow, "is-narrow"@) + flag_class(
                self.hoverable,
                "is-hoverable"@,
            ) + flag_class(self.fullwidth, "is-fullwidth"@),
        )
    }
}

/// An HTML table component.
pub struct Table {
    pub props: TableProps,
}

impl Table {
    /// The table element itself, before any scroll container.
    pub open spec fn table_model(&self) -> NodeModel {
        NodeModel::Element {
            tag: "table"@,
            attrs: Seq::empty(),
            classes: self.props.spec_classes(),
            children: models_of(self.props.children@),
        }
    }

    pub fn create(props: TableProps) -> (r: Self)
        ensures
            r.props == props,
    {
        Table { props }
    }

    pub fn update(&mut self, _msg: ()) -> (rerender: bool)
        ensures
            !rerender,
            *final(self) == *old(self),
    {
        false
    }
}

impl Render for Table {
    open spec fn spec_view(&self) -> NodeModel {
        if self.props.scrollable {
            NodeModel::Element {
                tag: "div"@,
                attrs: Seq::empty(),
                classes: seq!["table-container"@],
                children: seq![self.table_model()],
            }
        } else {
            self.table_model()
        }
    }

    fn view(&self) -> (r: Node) {
        let mut classes = base_class("table");
        push_extension(&mut classes, &self.props.classes);
        if self.props.bordered {
            push_class(&mut classes, "is-bordered");
        }
        if self.props.striped {
            push_class(&mut classes, "is-striped");
        }
        if self.props.narrow {
            push_class(&mut classes, "is-narrow");
        }
        if self.props.hoverable {
            push_class(&mut classes, "is-hoverable");
        }
        if self.props.fullwidth {
            push_class(&mut classes, "is-fullwidth");
        }
        proof {
            assert(class_views(classes@) =~= self.props.spec_classes());
        }
        let table = plain_element("table", classes, clone_nodes(&self.props.children));
        if self.props.scrollable {
            let mut kids: Vec<Node> = Vec::new();
            kids.push(table);
            proof {
                broadcast use crate::markup::lemma_models_of;

                assert(models_of(kids@) =~= seq![self.table_model()]);
            }
            plain_element("div", base_class("table-container"), kids)
        } else {
            table
        }
    }
}

/// With `scrollable` set, the rendered output wraps the table element in
/// exactly one containing `div.table-container`; without it, no wrapper
/// element exists and the table element itself is the root.
pub proof fn lemma_table_scroll_wrapper(t: Table)
    ensures
        t.props.scrollable ==> t.spec_view() == (NodeModel::Element {
            tag: "div"@,
            attrs: Seq::empty(),
            classes: seq!["table-container"@],
            children: seq![t.table_model()],
        }),
        !t.props.scrollable ==> t.spec_view() == t.table_model(),
        t.table_model() matches NodeModel::Element { tag, .. } && tag == "table"@,
{
}

/// For every combination of the table's modifier flags: the composed class
/// list holds the base class `table` exactly once, the extension classes
/// verbatim directly after it, and each modifier class exactly once when its
/// flag is set and not at all when it is unset — provided the caller's
/// extension classes repeat none of them.
pub proof fn lemma_table_class_counts(p: TableProps)
    requires
        !ext_views(p.classes).contains("table"@),
        !ext_views(p.classes).contains("is-bordered"@),
        !ext_views(p.classes).contains("is-striped"@),
        !ext_views(p.classes).contains("is-narrow"@),
        !ext_views(p.classes).contains("is-hoverable"@),
        !ext_views(p.classes).contains("is-fullwidth"@),
    ensures
        count_class(p.spec_classes(), "table"@) == 1,
        p.spec_classes().subrange(1, 1 + ext_views(p.classes).len() as int) == ext_views(p.classes),
        count_class(p.spec_classes(), "is-bordered"@) == if p.bordered {
            1int
        } else {
            0int
        },
        count_class(p.spec_classes(), "is-striped"@) == if p.striped {
            1int
        } else {
            0int
        },
        count_class(p.spec_classes(), "is-narrow"@) == if p.narrow {
            1int
        } else {
            0int
        },
        count_class(p.spec_classes(), "is-hoverable"@) == if p.hoverable {
            1int
        } else {
            0int
        },
        count_class(p.spec_classes(), "is-fullwidth"@) == if p.fullwidth {
            1int
        } else {
            0int
        },
{
    reveal_strlit("table");
    reveal_strlit("is-bordered");
    reveal_strlit("is-striped");
    reveal_strlit("is-narrow");
    reveal_strlit("is-hoverable");
    reveal_strlit("is-fullwidth");
    assert("table"@.len() == 5);
    assert("is-bordered"@.len() == 11);
    assert("is-striped"@.len() == 10);
    assert("is-narrow"@.len() == 9);
    assert("is-hoverable"@.len() == 12);
    assert("is-fullwidth"@.len() == 12);
    assert("is-hoverable"@[3] == 'h' && "is-fullwidth"@[3] == 'f');
    let base = seq!["table"@];
    let ext = ext_views(p.classes);
    let m1 = flag_class(p.bordered, "is-bordered"@);
    let m2 = flag_class(p.striped, "is-striped"@);
    let m3 = flag_class(p.narrow, "is-narrow"@);
    let m4 = flag_class(p.hoverable, "is-hoverable"@);
    let m5 = flag_class(p.fullwidth, "is-fullwidth"@);
    assert(base =~= flag_class(true, "table"@));
    assert forall|c: Seq<char>|
        #[trigger] count_class(p.spec_classes(), c) == count_class(base, c) + count_class(ext, c)
            + count_class(m1, c) + count_class(m2, c) + count_class(m3, c) + count_class(m4, c)
            + count_class(m5, c) by {
        lemma_count_concat(base + ext + m1 + m2 + m3 + m4, m5, c);
        lemma_count_concat(base + ext + m1 + m2 + m3, m4, c);
        lemma_count_concat(base + ext + m1 + m2, m3, c);
        lemma_count_concat(base + ext + m1, m2, c);
        lemma_count_concat(base + ext, m1, c);
        lemma_count_concat(base, ext, c);
        assert(p.spec_classes() =~= base + ext + m1 + m2 + m3 + m4 + m5);
        lemma_flag_class_count(true, "table"@, c);
        lemma_flag_class_count(p.bordered, "is-bordered"@, c);
        lemma_flag_class_count(p.striped, "is-striped"@, c);
        lemma_flag_class_count(p.narrow, "is-narrow"@, c);
        lemma_flag_class_count(p.hoverable, "is-hoverable"@, c);
        lemma_flag_class_count(p.fullwidth, "is-fullwidth"@, c);
    }
    lemma_flag_class_count(true, "table"@, "table"@);
    lemma_flag_class_count(p.bordered, "is-bordered"@, "table"@);
    lemma_flag_class_count(p.striped, "is-striped"@, "table"@);
    lemma_flag_class_count(p.narrow, "is-narrow"@, "table"@);
    lemma_flag_class_count(p.hoverable, "is-hoverable"@, "table"@);
    lemma_flag_class_count(p.fullwidth, "is-fullwidth"@, "table"@);
    lemma_flag_class_count(true, "table"@, "is-bordered"@);
    lemma_flag_class_count(p.bordered, "is-bordered"@, "is-bordered"@);
    lemma_flag_class_count(p.striped, "is-striped"@, "is-bordered"@);
    lemma_flag_class_count(p.narrow, "is-narrow"@, "is-bordered"@);
    lemma_flag_class_count(p.hoverable, "is-hoverable"@, "is-bordered"@);
    lemma_flag_class_count(p.fullwidth, "is-fullwidth"@, "is-bordered"@);
    lemma_flag_class_count(true, "table"@, "is-striped"@);
    lemma_flag_class_count(p.bordered, "is-bordered"@, "is-striped"@);
    lemma_flag_class_count(p.striped, "is-striped"@, "is-striped"@);
    lemma_flag_class_count(p.narrow, "is-narrow"@, "is-striped"@);
    lemma_flag_class_count(p.hoverable, "is-hoverable"@, "is-striped"@);
    lemma_flag_class_count(p.fullwidth, "is-fullwidth"@, "is-striped"@);
    lemma_flag_class_count(true, "table"@, "is-narrow"@);
    lemma_flag_class_count(p.bordered, "is-bordered"@, "is-narrow"@);
    lemma_flag_class_count(p.striped, "is-striped"@, "is-narrow"@);
    lemma_flag_class_count(p.narrow, "is-narrow"@, "is-narrow"@);
    lemma_flag_class_count(p.hoverable, "is-hoverable"@, "is-narrow"@);
    lemma_flag_class_count(p.fullwidth, "is-fullwidth"@, "is-narrow"@);
    lemma_flag_class_count(true, "table"@, "is-hoverable"@);
    lemma_flag_class_count(p.bordered, "is-bordered"@, "is-hoverable"@);
    lemma_flag_class_count(p.striped, "is-striped"@, "is-hoverable"@);
    lemma_flag_class_count(p.narrow, "is-narrow"@, "is-hoverable"@);
    lemma_flag_class_count(p.hoverable, "is-hoverable"@, "is-hoverable"@);
    lemma_flag_class_count(p.fullwidth, "is-fullwidth"@, "is-hoverable"@);
    lemma_flag_class_count(true, "table"@, "is-fullwidth"@);
    lemma_flag_class_count(p.bordered, "is-bordered"@, "is-fullwidth"@);
    lemma_flag_class_count(p.striped, "is-striped"@, "is-fullwidth"@);
    lemma_flag_class_count(p.narrow, "is-narrow"@, "is-fullwidth"@);
    lemma_flag_class_count(p.hoverable, "is-hoverable"@, "is-fullwidth"@);
    lemma_flag_class_count(p.fullwidth, "is-fullwidth"@, "is-fullwidth"@);
    lemma_count_occurrence(ext, "table"@);
    lemma_count_occurrence(ext, "is-bordered"@);
    lemma_count_occurrence(ext, "is-striped"@);
    lemma_count_occurrence(ext, "is-narrow"@);
    lemma_count_occurrence(ext, "is-hoverable"@);
    lemma_count_occurrence(ext, "is-fullwidth"@);
    crate::classes::lemma_composed_extension_verbatim(
        "table"@,
        ext,
        m1 + m2 + m3 + m4 + m5,
    );
    assert(p.spec_classes() == composed("table"@, ext, m1 + m2 + m3 + m4 + m5));
}

impl Default for TableProps {
    /// The default configuration: every optional field unset.
    fn default() -> (r: Self)
        ensures
            r.children@ == Seq::<Node>::empty(),
            r.classes is None,
            !r.bordered,
            !r.striped,
            !r.narrow,
            !r.hoverable,
            !r.fullwidth,
            !r.scrollable,
    {
        TableProps {
            children: Vec::new(),
            classes: None,
            bordered: false,
            striped: false,
            narrow: false,
            hoverable: false,
            fullwidth: false,
            scrollable: false,
        }
    }
}

} // verus!
