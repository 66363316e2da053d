//! Responsive columns and the column container.

use vstd::prelude::*;

use crate::classes::{
    base_class, class_views, composed, count_class, ext_views, flag_class, lemma_count_concat,
    lemma_count_occurrence, lemma_flag_class_count, push_class, push_extension,
};
use crate::markup::{clone_nodes, models_of, plain_element, Node, NodeModel};
use crate::render::Render;

verus! {

/// The configuration of a set of responsive columns.
pub struct ColumnsProps {
    pub children: Vec<Node>,
    pub classes: Option<Vec<String>>,
    /// Align child columns vertically.
    pub vcentered: bool,
    /// Allow for multiline rows.
    pub multiline: bool,
    /// Center all child columns within their row.
    pub centered: bool,
}

impl ColumnsProps {
    /// The composed class list: `columns`, the extension classes, then one
    /// modifier per selected option, in property order.
    pub open spec fn spec_classes(self) -> Seq<Seq<char>> {
        composed("columns"@, ext_views(self.classes), flag_class(self.vcentered, "is-vcentered"@) + flag_class(self.multiline, "is-multiline"@) + flag_class(self.centered, "is-centered"@))
    }
}

/// The container for a set of responsive columns.
pub struct Columns {
    pub props: ColumnsProps,
}

impl Columns {
    pub fn create(props: ColumnsProps) -> (r: Self)
        ensures
            r.props == props,
    {
        Columns { props }
    }

    pub fn update(&mut self, _msg: ()) -> (rerender: bool)
        ensures
            !rerender,
            *final(self) == *old(self),
    {
        false
    }
}

impl Render for Columns {
    open spec fn spec_view(&self) -> NodeModel {
        NodeModel::Element {
            tag: "div"@,
            attrs: Seq::empty(),
            classes: self.props.spec_classes(),
            children: models_of(self.props.children@),
        }
    }

    fn view(&self) -> (r: Node) {
        let mut classes = base_class("columns");
        push_extension(&mut classes, &self.props.classes);
        if self.props.vcentered {
            push_class(&mut classes, "is-vcentered");
        }
        if self.props.multiline {
            push_class(&mut classes, "is-multiline");
        }
        if self.props.centered {
            push_class(&mut classes, "is-centered");
        }
        proof {
            assert(class_views(classes@) =~= self.props.spec_classes());
        }
        plain_element("div", classes, clone_nodes(&self.props.children))
    }
}
/// The configuration of a single column.
pub struct ColumnProps {
    pub children: Vec<Node>,
    pub classes: Option<Vec<String>>,
}

impl ColumnProps {
    /// The composed class list: `column`, the extension classes, then one
    /// modifier per selected option, in property order.
    pub open spec fn spec_classes(self) -> Seq<Seq<char>> {
        composed("column"@, ext_views(self.classes), Seq::empty())
    }
}

/// A flexbox-based responsive column.
pub struct Column {
    pub props: ColumnProps,
}

impl Column {
    pub fn create(props: ColumnProps) -> (r: Self)
        ensures
            r.props == props,
    {
        Column { props }
    }

    pub fn update(&mut self, _msg: ()) -> (rerender: bool)
        ensures
            !rerender,
            *final(self) == *old(self),
    {
        false
    }
}

impl Render for Column {
    open spec fn spec_view(&self) -> NodeModel {
        NodeModel::Element {
            tag: "div"@,
            attrs: Seq::empty(),
            classes: self.props.spec_classes(),
            children: models_of(self.props.children@),
        }
    }

    fn view(&self) -> (r: Node) {
        let mut classes = base_class("column");
        push_extension(&mut classes, &self.props.classes);
        proof {
            assert(class_views(classes@) =~= self.props.spec_classes());
        }
        plain_element("div", classes, clone_nodes(&self.props.children))
    }
}

impl Default for ColumnsProps {
    /// The default configuration: every optional field unset.
    fn default() -> (r: Self)
        ensures
            r.children@ == Seq::<Node>::empty(),
            r.classes is None,
            !r.vcentered,
            !r.multiline,
            !r.centered,
    {
        ColumnsProps {
            children: Vec::new(),
            classes: None,
            vcentered: false,
            multiline: false,
            centered: false,
        }
    }
}
impl Default for ColumnProps {
    /// The default configuration: every optional field unset.
    fn default() -> (r: Self)
        ensures
            r.children@ == Seq::<Node>::empty(),
            r.classes is None,
    {
        ColumnProps {
            children: Vec::new(),
            classes: None,
        }
    }
}

/// For every combination of the modifier flags: the composed class list
/// holds the base class `columns` exactly once, the extension classes
/// verbatim directly after it, and each modifier class exactly once when its
/// flag is set and not at all when it is unset — provided the caller's
/// extension classes repeat none of them.
pub proof fn lemma_columns_class_counts(p: ColumnsProps)
    requires
        !ext_views(p.classes).contains("columns"@),
        !ext_views(p.classes).contains("is-vcentered"@),
        !ext_views(p.classes).contains("is-multiline"@),
        !ext_views(p.classes).contains("is-centered"@),
    ensures
        count_class(p.spec_classes(), "columns"@) == 1,
        p.spec_classes().subrange(1, 1 + ext_views(p.classes).len() as int) == ext_views(p.classes),
        count_class(p.spec_classes(), "is-vcentered"@) == if p.vcentered {
            1int
        } else {
            0int
        },
        count_class(p.spec_classes(), "is-multiline"@) == if p.multiline {
            1int
        } else {
            0int
        },
        count_class(p.spec_classes(), "is-centered"@) == if p.centered {
            1int
        } else {
            0int
        },
{
    reveal_strlit("columns");
    reveal_strlit("is-vcentered");
    reveal_strlit("is-multiline");
    reveal_strlit("is-centered");
    assert("columns"@.len() == 7);
    assert("is-vcentered"@.len() == 12);
    assert("is-multiline"@.len() == 12);
    assert("is-centered"@.len() == 11);
    assert("is-vcentered"@[3] == 'v' && "is-multiline"@[3] == 'm');
    let base = seq!["columns"@];
    let ext = ext_views(p.classes);
    let m1 = flag_class(p.vcentered, "is-vcentered"@);
    let m2 = flag_class(p.multiline, "is-multiline"@);
    let m3 = flag_class(p.centered, "is-centered"@);
    assert(base =~= flag_class(true, "columns"@));
    assert forall|c: Seq<char>|
        #[trigger] count_class(p.spec_classes(), c) == count_class(base, c) + count_class(ext, c)
            + count_class(m1, c) + count_class(m2, c) + count_class(m3, c) by {
        lemma_count_concat(base + ext + m1 + m2, m3, c);
        lemma_count_concat(base + ext + m1, m2, c);
        lemma_count_concat(base + ext, m1, c);
        lemma_count_concat(base, ext, c);
        assert(p.spec_classes() =~= base + ext + m1 + m2 + m3);
        lemma_flag_class_count(true, "columns"@, c);
        lemma_flag_class_count(p.vcentered, "is-vcentered"@, c);
        lemma_flag_class_count(p.multiline, "is-multiline"@, c);
        lemma_flag_class_count(p.centered, "is-centered"@, c);
    }
    lemma_flag_class_count(true, "columns"@, "columns"@);
    lemma_flag_class_count(p.vcentered, "is-vcentered"@, "columns"@);
    lemma_flag_class_count(p.multiline, "is-multiline"@, "columns"@);
    lemma_flag_class_count(p.centered, "is-centered"@, "columns"@);
    lemma_flag_class_count(true, "columns"@, "is-vcentered"@);
    lemma_flag_class_count(p.vcentered, "is-vcentered"@, "is-vcentered"@);
    lemma_flag_class_count(p.multiline, "is-multiline"@, "is-vcentered"@);
    lemma_flag_class_count(p.centered, "is-centered"@, "is-vcentered"@);
    lemma_flag_class_count(true, "columns"@, "is-multiline"@);
    lemma_flag_class_count(p.vcentered, "is-vcentered"@, "is-multiline"@);
    lemma_flag_class_count(p.multiline, "is-multiline"@, "is-multiline"@);
    lemma_flag_class_count(p.centered, "is-centered"@, "is-multiline"@);
    lemma_flag_class_count(true, "columns"@, "is-centered"@);
    lemma_flag_class_count(p.vcentered, "is-vcentered"@, "is-centered"@);
    lemma_flag_class_count(p.multiline, "is-multiline"@, "is-centered"@);
    lemma_flag_class_count(p.centered, "is-centered"@, "is-centered"@);
    lemma_count_occurrence(ext, "columns"@);
    lemma_count_occurrence(ext, "is-vcentered"@);
    lemma_count_occurrence(ext, "is-multiline"@);
    lemma_count_occurrence(ext, "is-centered"@);
    crate::classes::lemma_composed_extension_verbatim("columns"@, ext, m1 + m2 + m3);
    assert(p.spec_classes() == composed("columns"@, ext, m1 + m2 + m3));
}

} // verus!
