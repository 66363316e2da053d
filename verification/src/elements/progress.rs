//! A native progress bar.

use vstd::prelude::*;

use vstd::string::StringExecFns;

use crate::classes::{base_class, class_views, composed, ext_views, push_extension};
use crate::markup::{attr, attr_models_of, element, Attr, AttrModel, Node, NodeModel};
use crate::render::Render;

verus! {

/// The configuration of a progress bar. The bounds are carried as the
/// decimal text the host will display, since the markup holds them as text.
pub struct ProgressProps {
    pub classes: Option<Vec<String>>,
    /// The maximum amount of progress, as its display text; the 100% value.
    pub max: String,
    /// The amount of progress which has been made, as its display text.
    pub value: String,
}

impl ProgressProps {
    /// The composed class list: `progress` followed by the extension classes.
    pub open spec fn spec_classes(self) -> Seq<Seq<char>> {
        composed("progress"@, ext_views(self.classes), Seq::empty())
    }
}

/// A native HTML progress bar.
pub struct Progress {
    pub props: ProgressProps,
}

impl Progress {
    pub fn create(props: ProgressProps) -> (r: Self)
        ensures
            r.props == props,
    {
        Progress { props }
    }

    pub fn update(&mut self, _msg: ()) -> (rerender: bool)
        ensures
            !rerender,
            *final(self) == *old(self),
    {
        false
    }
}

impl Render for Progress {
    open spec fn spec_view(&self) -> NodeModel {
        NodeModel::Element {
            tag: "progress"@,
            attrs: seq![
                AttrModel { name: "max"@, value: self.props.max@ },
                AttrModel { name: "value"@, value: self.props.value@ },
            ],
            classes: self.props.spec_classes(),
            children: seq![NodeModel::Text(self.props.value@ + "%"@)],
        }
    }

    fn view(&self) -> (r: Node) {
        let mut classes = base_class("progress");
        push_extension(&mut classes, &self.props.classes);
        let mut attrs: Vec<Attr> = Vec::new();
        attrs.push(attr("max", self.props.max.clone()));
        attrs.push(attr("value", self.props.value.clone()));
        let label = self.props.value.clone().concat("%");
        let mut kids: Vec<Node> = Vec::new();
        kids.push(Node::Text(label));
        proof {
            broadcast use crate::markup::lemma_models_of;

            assert(class_views(classes@) =~= self.props.spec_classes());
            assert(attr_models_of(attrs@) =~= self.spec_view()->attrs);
            assert(crate::markup::models_of(kids@) =~= self.spec_view()->children);
        }
        element("progress", classes, attrs, kids)
    }
}

impl Default for ProgressProps {
    /// The default configuration: every optional field unset.
    fn default() -> (r: Self)
        ensures
            r.classes is None,
            r.max@ == "1"@,
            r.value@ == "0"@,
    {
        ProgressProps {
            classes: None,
            max: "1".to_owned(),
            value: "0".to_owned(),
        }
    }
}

} // verus!
