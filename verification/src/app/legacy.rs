//! The earlier builder, for documents that are written by hand.

use crate::app::{mount_step, step_views, Middleware, RouteGroup, RouteGroupView, RouterStep, StepView};
use crate::document::{blank_document, OpenApi, OpenApiView};
use crate::traits::IntoRouter;
use vstd::prelude::*;

verus! {

/// The state of a [`LegacyEywaApp`].
pub struct LegacyView<S, B> {
    /// The document that will be served, as it was given.
    pub openapi: OpenApiView<S, B>,
    /// The router operations asked for, in call order.
    pub plan: Seq<StepView>,
}

/// Builder that serves a document given by hand: mounting a group plans
/// its router operation and leaves the document alone.
pub struct LegacyEywaApp<S, B> {
    openapi: OpenApi<S, B>,
    plan: Vec<RouterStep>,
}

impl<S, B> View for LegacyEywaApp<S, B> {
    type V = LegacyView<S, B>;

    closed spec fn view(&self) -> LegacyView<S, B> {
        LegacyView { openapi: self.openapi@, plan: step_views(self.plan@) }
    }
}

impl<S, B> LegacyEywaApp<S, B> {
    /// A new builder: the blank document, nothing planned.
    pub fn new() -> (app: Self)
        ensures
            app@ == (LegacyView { openapi: blank_document::<S, B>(), plan: Seq::empty() }),
    {
        let app = LegacyEywaApp { openapi: OpenApi::default(), plan: Vec::new() };
        proof {
            assert(app@.plan =~= Seq::empty());
        }
        app
    }

    /// Replaces the document that will be served.
    pub fn with_openapi(self, openapi: OpenApi<S, B>) -> (app: Self)
        ensures
            app@ == (LegacyView { openapi: openapi@, plan: self@.plan }),
    {
        LegacyEywaApp { openapi, plan: self.plan }
    }

    /// Plans one router operation behind those planned so far.
    fn step(self, step: RouterStep) -> (app: Self)
        ensures
            app@ == (LegacyView { openapi: self@.openapi, plan: self@.plan.push(step@) }),
    {
        let mut this = self;
        let ghost before = this.plan@;
        this.plan.push(step);
        proof {
            assert(step_views(this.plan@) =~= step_views(before).push(step@));
        }
        this
    }

    /// Mounts a route group: plans a merge at the root for an empty prefix,
    /// a nest under the prefix otherwise. The document is not touched.
    pub fn mount_group(self, group: RouteGroup<S, B>) -> (app: Self)
        ensures
            app@ == (LegacyView {
                openapi: self@.openapi,
                plan: self@.plan.push(mount_step(group@.prefix)),
            }),
    {
        let step = group.mount_point();
        self.step(step)
    }

    /// Mounts the route group that `C` describes: one mount operation more,
    /// the document untouched.
    pub fn mount<C: IntoRouter<S, B>>(self) -> (app: Self)
        ensures
            exists|group: RouteGroupView<S, B>|
                app@ == (LegacyView {
                    openapi: self@.openapi,
                    plan: self@.plan.push(mount_step(group.prefix)),
                }),
    {
        let group = RouteGroup::of::<C>();
        let app = self.mount_group(group);
        assert(app@ == (LegacyView {
            openapi: self@.openapi,
            plan: self@.plan.push(mount_step(group@.prefix)),
        }));
        app
    }

    /// Plans a middleware layer that the caller brings.
    pub fn layer(self) -> (app: Self)
        ensures
            app@ == (LegacyView {
                openapi: self@.openapi,
                plan: self@.plan.push(StepView::Layer(Middleware::Custom)),
            }),
    {
        self.step(RouterStep::Layer(Middleware::Custom))
    }

    /// The router operations asked for, in call order.
    pub fn plan(&self) -> (steps: &Vec<RouterStep>)
        ensures
            step_views(steps@) == self@.plan,
    {
        &self.plan
    }

    /// The document to serve: the one that was given, unchanged.
    pub fn into_openapi(self) -> (document: OpenApi<S, B>)
        ensures
            document@ == self@.openapi,
    {
        self.openapi
    }
}

} // verus!
