//! Bold notification blocks.

use vstd::prelude::*;

use crate::classes::{
    base_class, class_views, composed, count_class, ext_views, lemma_composed_base_once,
    lemma_composed_extension_verbatim, push_extension,
};
use crate::markup::{
    clone_nodes, models_of, nodes_eq, opt_strings_eq, opt_texts_eq, plain_element, Node, NodeModel,
};
use crate::render::Render;

verus! {

/// The configuration of a notification block.
pub struct NotificationProps {
    pub children: Vec<Node>,
    pub classes: Option<Vec<String>>,
}

impl NotificationProps {
    /// The composed class list: `notification`, the extension classes, then one
    /// modifier per selected option, in property order.
    pub open spec fn spec_classes(self) -> Seq<Seq<char>> {
        composed("notification"@, ext_views(self.classes), Seq::empty())
    }

    /// Whether two configurations are equal: the children compared by their
    /// models, and the extension-class option as a value — an absent list
    /// and an empty one differ.
    pub open spec fn same_props(self, other: Self) -> bool {
        models_of(self.children@) == models_of(other.children@) && opt_texts_eq(
            self.classes,
            other.classes,
        )
    }
}

/// Bold notification blocks, to alert your users of something.
pub struct Notification {
    pub props: NotificationProps,
}

impl Notification {
    pub fn create(props: NotificationProps) -> (r: Self)
        ensures
            r.props == props,
    {
        Notification { props }
    }

    pub fn update(&mut self, _msg: ()) -> (rerender: bool)
        ensures
            !rerender,
            *final(self) == *old(self),
    {
        false
    }

    /// Adopt a newly supplied configuration, and report whether the
    /// component must re-render: exactly when the incoming configuration
    /// differs at all from the stored one.
    pub fn change(&mut self, props: NotificationProps) -> (rerender: bool)
        ensures
            final(self).props == props,
            rerender == !old(self).props.same_props(props),
    {
        let same = nodes_eq(&self.props.children, &props.children) && opt_strings_eq(
            &self.props.classes,
            &props.classes,
        );
        self.props = props;
        !same
    }
}

/// Equal configurations render equal markup: when the prop-change step
/// requests no re-render, the markup on screen is already the right one.
pub proof fn lemma_notification_change_render(a: NotificationProps, b: NotificationProps)
    requires
        a.same_props(b),
    ensures
        (Notification { props: a }).spec_view() == (Notification { props: b }).spec_view(),
{
}

impl Render for Notification {
    open spec fn spec_view(&self) -> NodeModel {
        NodeModel::Element {
            tag: "div"@,
            attrs: Seq::empty(),
            classes: self.props.spec_classes(),
            children: models_of(self.props.children@),
        }
    }

    fn view(&self) -> (r: Node) {
        let mut classes = base_class("notification");
        push_extension(&mut classes, &self.props.classes);
        proof {
            assert(class_views(classes@) =~= self.props.spec_classes());
        }
        plain_element("div", classes, clone_nodes(&self.props.children))
    }
}

impl Default for NotificationProps {
    /// The default configuration: every optional field unset.
    fn default() -> (r: Self)
        ensures
            r.children@ == Seq::<Node>::empty(),
            r.classes is None,
    {
        NotificationProps {
            children: Vec::new(),
            classes: None,
        }
    }
}

/// The composed class list holds the base class `notification` exactly once
/// — provided the caller's extension classes do not repeat it — and the
/// extension classes verbatim directly after it; this component derives no
/// modifier classes.
pub proof fn lemma_notification_class_counts(p: NotificationProps)
    requires
        !ext_views(p.classes).contains("notification"@),
    ensures
        count_class(p.spec_classes(), "notification"@) == 1,
        p.spec_classes().subrange(1, 1 + ext_views(p.classes).len() as int) == ext_views(p.classes),
{
    lemma_composed_base_once("notification"@, ext_views(p.classes), Seq::empty());
    lemma_composed_extension_verbatim("notification"@, ext_views(p.classes), Seq::empty());
}

} // verus!
