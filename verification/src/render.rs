//! The rendering contracts shared by the components: a render is a pure
//! function of the component's configuration, and a component that carries
//! an event handler forwards it untouched alongside its markup.

use vstd::prelude::*;

use crate::markup::{Node, NodeModel};

verus! {

/// A component whose render is fully determined by its configuration.
pub trait Render: Sized {
    /// The markup this component renders, as a model.
    spec fn spec_view(&self) -> NodeModel;

    /// Render the component.
    fn view(&self) -> (r: Node)
        ensures
            r.model() == self.spec_view(),
    ;
}

/// Rendering is idempotent: any two renders of one component — each pinned to
/// `spec_view` by `view`'s contract — produce identical markup.
pub proof fn lemma_render_idempotent<C: Render>(c: &C, first: NodeModel, second: NodeModel)
    requires
        first == c.spec_view(),
        second == c.spec_view(),
    ensures
        first == second,
{
}

/// A rendered component paired with its pass-through event handler: the host
/// attaches exactly the caller's handler, untouched, to the root element of
/// the markup.
pub struct Rendered<H> {
    pub node: Node,
    pub handler: H,
}

/// A component whose render is fully determined by its configuration and
/// which forwards one caller-supplied event handler — untouched, never
/// wrapped or interpreted — to the root element of its markup.
pub trait RenderHandler<H>: Sized {
    /// The markup this component renders, as a model.
    spec fn spec_view(&self) -> NodeModel;

    /// The handler this component forwards.
    spec fn spec_handler(&self) -> H;

    /// Render the component: the markup, together with the caller's handler
    /// for the host to attach to the markup's root element.
    fn view(self) -> (r: Rendered<H>)
        ensures
            r.node.model() == self.spec_view(),
            r.handler == self.spec_handler(),
    ;
}

/// Rendering with a forwarded handler is idempotent too: any two results —
/// each pinned by `view`'s contract — carry identical markup and the
/// identical handler.
pub proof fn lemma_render_handler_idempotent<H, C: RenderHandler<H>>(
    c: &C,
    first: NodeModel,
    second: NodeModel,
    first_handler: H,
    second_handler: H,
)
    requires
        first == c.spec_view(),
        second == c.spec_view(),
        first_handler == c.spec_handler(),
        second_handler == c.spec_handler(),
    ensures
        first == second,
        first_handler == second_handler,
{
}

} // verus!
