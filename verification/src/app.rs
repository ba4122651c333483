//! The application assembler: it accumulates document metadata, tags, route
//! groups and middleware in call order, and resolves them into the served
//! document in one final step.
//!
//! The assembler holds no router. It records, as a plan, the router
//! operations that its caller has to carry out, in the order in which they
//! were asked for.

use crate::document::{
    bearer_jwt, bearer_name, has_tag_named, no_components, path_registrations, tag_views,
    Components, ComponentsView, Info, InfoView, OpenApi, OpenApiView, PathItem, PathItemView,
    SecurityScheme, Tag, TagView,
};
use crate::health::{
    health_path_entries, health_schema_entries, HealthOperations, HealthOperationsView,
    HealthSchemas,
};
use crate::names::{
    entry_names, lemma_last_registration_wins, lemma_unregistered_kept, registered,
    registrations, strictly_increasing,
};
use crate::traits::{route_views, IntoRouter, OpenApiPath, OpenApiPathView};
use vstd::prelude::*;

pub mod legacy;

verus! {

/// The middleware layers that the assembler knows.
#[derive(Clone, Copy, Debug, PartialEq, Eq, Structural)]
pub enum Middleware {
    /// Response compression.
    Compression,
    /// One structured log record per completed request.
    RequestLogging,
    /// Request-context propagation, behind trailing-slash normalisation.
    RequestContext,
    /// A layer that the caller brings.
    Custom,
}

/// One router operation of the plan.
#[derive(Debug)]
pub enum RouterStep {
    /// Routes that the caller adds directly.
    Routes,
    /// A router that the caller merges at the root.
    Merge,
    /// A route group merged at the root.
    MountAtRoot,
    /// A route group nested under this prefix.
    MountUnder(String),
    /// The three health endpoints.
    HealthRoutes,
    /// A middleware layer around everything before it.
    Layer(Middleware),
}

/// What a [`RouterStep`] says.
pub enum StepView {
    Routes,
    Merge,
    MountAtRoot,
    MountUnder(Seq<char>),
    HealthRoutes,
    Layer(Middleware),
}

impl View for RouterStep {
    type V = StepView;

    open spec fn view(&self) -> StepView {
        match self {
            RouterStep::Routes => StepView::Routes,
            RouterStep::Merge => StepView::Merge,
            RouterStep::MountAtRoot => StepView::MountAtRoot,
            RouterStep::MountUnder(prefix) => StepView::MountUnder(prefix@),
            RouterStep::HealthRoutes => StepView::HealthRoutes,
            RouterStep::Layer(middleware) => StepView::Layer(*middleware),
        }
    }
}

/// The views of a list of steps, in order.
pub open spec fn step_views(steps: Seq<RouterStep>) -> Seq<StepView> {
    steps.map_values(|step: RouterStep| step@)
}

/// Where a group with this prefix is mounted: at the root when the prefix is
/// empty, otherwise under the prefix.
pub open spec fn mount_step(prefix: Seq<char>) -> StepView {
    if prefix.len() == 0 {
        StepView::MountAtRoot
    } else {
        StepView::MountUnder(prefix)
    }
}

/// A route group as it is mounted: its prefix and tag, the records of its
/// routes, and the schemas and path items that it registers, in order.
pub struct RouteGroup<S, B> {
    pub prefix: String,
    pub tag: String,
    pub routes: Vec<OpenApiPath>,
    pub schemas: Vec<(String, S)>,
    pub paths: Vec<(String, PathItem<B>)>,
}

/// What a [`RouteGroup`] holds.
pub struct RouteGroupView<S, B> {
    pub prefix: Seq<char>,
    pub tag: Seq<char>,
    pub routes: Seq<OpenApiPathView>,
    pub schemas: Seq<(Seq<char>, S)>,
    pub paths: Seq<(Seq<char>, PathItemView<B>)>,
}

impl<S, B> View for RouteGroup<S, B> {
    type V = RouteGroupView<S, B>;

    open spec fn view(&self) -> RouteGroupView<S, B> {
        RouteGroupView {
            prefix: self.prefix@,
            tag: self.tag@,
            routes: route_views(self.routes@),
            schemas: registrations(self.schemas@),
            paths: path_registrations(self.paths@),
        }
    }
}

impl<S, B> RouteGroup<S, B> {
    /// The group that `C` describes. Its schemas and path items are those
    /// that `C` registers into empty components and an empty document, so
    /// each list is in the order of its names and names none twice; what
    /// they are is for `C` to say.
    pub fn of<C: IntoRouter<S, B>>() -> (group: Self)
        ensures
            strictly_increasing(entry_names(group.schemas@)),
            strictly_increasing(entry_names(group.paths@)),
    {
        let mut components: Components<S> = Components::new();
        C::register_schemas(&mut components);
        let mut openapi: OpenApi<S, B> = OpenApi::default();
        C::register_paths(&mut openapi);
        RouteGroup {
            prefix: C::prefix().to_string(),
            tag: C::tag().to_string(),
            routes: C::openapi_routes(),
            schemas: components.schemas.into_entries(),
            paths: openapi.paths.into_entries(),
        }
    }

    /// The router operation that mounts this group.
    pub fn mount_point(&self) -> (step: RouterStep)
        ensures
            step@ == mount_step(self.prefix@),
    {
        if self.prefix.as_str().is_empty() {
            RouterStep::MountAtRoot
        } else {
            RouterStep::MountUnder(self.prefix.clone())
        }
    }
}

/// The state of an assembler.
pub struct AppView<S, B> {
    /// Document metadata, where it was set.
    pub info: Option<InfoView>,
    /// The tags, in the order in which they were added.
    pub tags: Seq<TagView>,
    /// The deferred schema registrations, in mount order.
    pub schemas: Seq<(Seq<char>, S)>,
    /// The deferred path registrations, in mount order.
    pub paths: Seq<(Seq<char>, PathItemView<B>)>,
    /// Whether the health endpoints were asked for.
    pub has_health_checks: bool,
    /// The router operations asked for, in call order.
    pub plan: Seq<StepView>,
}

impl<S, B> AppView<S, B> {
    /// The state of a new assembler.
    pub open spec fn empty() -> Self {
        AppView {
            info: None,
            tags: Seq::empty(),
            schemas: Seq::empty(),
            paths: Seq::empty(),
            has_health_checks: false,
            plan: Seq::empty(),
        }
    }

    /// After the metadata is set: the last call wins.
    pub open spec fn with_info(self, info: InfoView) -> Self {
        AppView { info: Some(info), ..self }
    }

    /// After a tag is added: no check against the tags that are there.
    pub open spec fn with_tag(self, tag: TagView) -> Self {
        AppView { tags: self.tags.push(tag), ..self }
    }

    /// After one schema is registered.
    pub open spec fn with_schema(self, name: Seq<char>, schema: S) -> Self {
        AppView { schemas: self.schemas.push((name, schema)), ..self }
    }

    /// After one more router operation.
    pub open spec fn with_step(self, step: StepView) -> Self {
        AppView { plan: self.plan.push(step), ..self }
    }

    /// The tags after a group with this tag is mounted: the tag is added,
    /// without description, unless a tag of that name is there.
    pub open spec fn tags_with(self, name: Seq<char>) -> Seq<TagView> {
        if has_tag_named(self.tags, name) {
            self.tags
        } else {
            self.tags.push(TagView { name, description: None })
        }
    }

    /// After a group is mounted.
    pub open spec fn mounted(self, group: RouteGroupView<S, B>) -> Self {
        AppView {
            info: self.info,
            tags: self.tags_with(group.tag),
            schemas: self.schemas + group.schemas,
            paths: self.paths + group.paths,
            has_health_checks: self.has_health_checks,
            plan: self.plan.push(mount_step(group.prefix)),
        }
    }

    /// After the health endpoints are asked for.
    pub open spec fn with_health_checks(
        self,
        schemas: HealthSchemas<S>,
        operations: HealthOperationsView<B>,
    ) -> Self {
        AppView {
            info: self.info,
            tags: self.tags,
            schemas: self.schemas + health_schema_entries(schemas),
            paths: self.paths + health_path_entries(operations),
            has_health_checks: true,
            plan: self.plan.push(StepView::HealthRoutes),
        }
    }

    /// The served document: `base`, the document that the router brings,
    /// with the metadata overlaid where it was set, the tags where there are
    /// any, the bearer scheme declared, and every deferred registration
    /// applied in order.
    pub open spec fn finalized(self, base: OpenApiView<S, B>) -> OpenApiView<S, B> {
        let components = match base.components {
            Some(components) => components,
            None => no_components::<S>(),
        };
        OpenApiView {
            info: match self.info {
                Some(info) => info,
                None => base.info,
            },
            tags: if self.tags.len() > 0 {
                Some(self.tags)
            } else {
                base.tags
            },
            components: Some(
                ComponentsView {
                    schemas: registered(components.schemas, self.schemas),
                    security_schemes: components.security_schemes.insert(
                        bearer_name(),
                        bearer_jwt(),
                    ),
                },
            ),
            paths: registered(base.paths, self.paths),
        }
    }
}

/// The view of optional metadata.
pub open spec fn option_info(info: Option<Info>) -> Option<InfoView> {
    match info {
        Some(info) => Some(info@),
        None => None,
    }
}

/// Builder of an application: document metadata, tags, route groups, health
/// endpoints and middleware, resolved by [`EywaApp::finalize`].
pub struct EywaApp<S, B> {
    info: Option<Info>,
    tags: Vec<Tag>,
    deferred_schemas: Vec<(String, S)>,
    deferred_paths: Vec<(String, PathItem<B>)>,
    has_health_checks: bool,
    plan: Vec<RouterStep>,
}

impl<S, B> View for EywaApp<S, B> {
    type V = AppView<S, B>;

    closed spec fn view(&self) -> AppView<S, B> {
        AppView {
            info: option_info(self.info),
            tags: tag_views(self.tags@),
            schemas: registrations(self.deferred_schemas@),
            paths: path_registrations(self.deferred_paths@),
            has_health_checks: self.has_health_checks,
            plan: step_views(self.plan@),
        }
    }
}

impl<S, B> EywaApp<S, B> {
    /// A new assembler: nothing set, nothing mounted.
    pub fn new() -> (app: Self)
        ensures
            app@ == AppView::<S, B>::empty(),
    {
        let app = EywaApp {
            info: None,
            tags: Vec::new(),
            deferred_schemas: Vec::new(),
            deferred_paths: Vec::new(),
            has_health_checks: false,
            plan: Vec::new(),
        };
        proof {
            assert(app@.tags =~= Seq::empty());
            assert(app@.schemas =~= Seq::empty());
            assert(app@.paths =~= Seq::empty());
            assert(app@.plan =~= Seq::empty());
        }
        app
    }

    /// Sets title, version and description of the document. The last call
    /// wins.
    pub fn info(self, title: &str, version: &str, description: &str) -> (app: Self)
        ensures
            app@ == self@.with_info(
                InfoView { title: title@, version: version@, description: Some(description@) },
            ),
    {
        let mut this = self;
        this.info = Some(
            Info {
                title: title.to_string(),
                version: version.to_string(),
                description: Some(description.to_string()),
            },
        );
        this
    }

    /// Adds a tag with a description, whatever tags are there.
    pub fn tag(self, name: &str, description: &str) -> (app: Self)
        ensures
            app@ == self@.with_tag(TagView { name: name@, description: Some(description@) }),
    {
        let mut this = self;
        let ghost before = this.tags@;
        let tag = Tag { name: name.to_string(), description: Some(description.to_string()) };
        this.tags.push(tag);
        proof {
            assert(tag_views(this.tags@) =~= tag_views(before).push(tag@));
        }
        this
    }

    /// Registers one schema under `name`, to be stored when the document is
    /// finalized.
    pub fn schema(self, name: &str, schema: S) -> (app: Self)
        ensures
            app@ == self@.with_schema(name@, schema),
    {
        let mut this = self;
        let ghost before = this.deferred_schemas@;
        this.deferred_schemas.push((name.to_string(), schema));
        proof {
            assert(registrations(this.deferred_schemas@) =~= registrations(before).push((name@, schema)));
        }
        this
    }

    /// Whether a tag of this name is there.
    fn has_tag(&self, name: &String) -> (found: bool)
        ensures
            found == has_tag_named(self@.tags, name@),
    {
        let mut i: usize = 0;
        while i < self.tags.len()
            invariant
                i <= self.tags.len(),
                forall|k: int| 0 <= k < i ==> (#[trigger] self.tags@[k]).name@ != name@,
            decreases self.tags.len() - i,
        {
            if self.tags[i].name == *name {
                proof {
                    assert(tag_views(self.tags@)[i as int].name == name@);
                }
                return true;
            }
            i += 1;
        }
        proof {
            let views = tag_views(self.tags@);
            assert forall|k: int| 0 <= k < views.len() implies (#[trigger] views[k]).name
                != name@ by {
                assert(views[k] == self.tags@[k]@);
            }
        }
        false
    }

    /// Mounts a route group: plans the router operation (a merge at the root
    /// for an empty prefix, a nest under the prefix otherwise), adds the
    /// group's tag unless a tag of that name is there, and defers the
    /// group's schema and path registrations behind those deferred so far.
    pub fn mount_group(self, group: RouteGroup<S, B>) -> (app: Self)
        ensures
            app@ == self@.mounted(group@),
    {
        let mut this = self;
        let ghost tags_before = this.tags@;
        let ghost plan_before = this.plan@;
        let ghost schemas_before = this.deferred_schemas@;
        let ghost paths_before = this.deferred_paths@;
        let step = group.mount_point();
        this.plan.push(step);
        if !this.has_tag(&group.tag) {
            let tag = Tag { name: group.tag, description: None };
            this.tags.push(tag);
            proof {
                assert(tag_views(this.tags@) =~= tag_views(tags_before).push(tag@));
            }
        }
        let mut schemas = group.schemas;
        let mut paths = group.paths;
        this.deferred_schemas.append(&mut schemas);
        this.deferred_paths.append(&mut paths);
        proof {
            assert(step_views(this.plan@) =~= step_views(plan_before).push(step@));
            assert(registrations(this.deferred_schemas@) =~= registrations(schemas_before)
                + registrations(group.schemas@));
            assert(path_registrations(this.deferred_paths@) =~= path_registrations(paths_before)
                + path_registrations(group.paths@));
        }
        this
    }

    /// Mounts the route group that `C` describes. What `C` says of itself is
    /// not known here: the result is the mounting of some group.
    pub fn mount<C: IntoRouter<S, B>>(self) -> (app: Self)
        ensures
            exists|group: RouteGroupView<S, B>| app@ == self@.mounted(group),
    {
        let group = RouteGroup::of::<C>();
        let app = self.mount_group(group);
        assert(app@ == self@.mounted(group@));
        app
    }

    /// Plans one router operation behind those planned so far.
    fn step(self, step: RouterStep) -> (app: Self)
        ensures
            app@ == self@.with_step(step@),
    {
        let mut this = self;
        let ghost before = this.plan@;
        this.plan.push(step);
        proof {
            assert(step_views(this.plan@) =~= step_views(before).push(step@));
        }
        this
    }

    /// Plans routes that the caller adds directly to the router.
    pub fn routes(self) -> (app: Self)
        ensures
            app@ == self@.with_step(StepView::Routes),
    {
        self.step(RouterStep::Routes)
    }

    /// Plans the merge of a router that the caller brings.
    pub fn merge(self) -> (app: Self)
        ensures
            app@ == self@.with_step(StepView::Merge),
    {
        self.step(RouterStep::Merge)
    }

    /// Plans a middleware layer that the caller brings.
    pub fn layer(self) -> (app: Self)
        ensures
            app@ == self@.with_step(StepView::Layer(Middleware::Custom)),
    {
        self.step(RouterStep::Layer(Middleware::Custom))
    }

    /// Asks for the three health endpoints: plans their routes and defers
    /// their schema and path registrations behind those deferred so far.
    pub fn health_checks(
        self,
        schemas: HealthSchemas<S>,
        operations: HealthOperations<B>,
    ) -> (app: Self)
        ensures
            app@ == self@.with_health_checks(schemas, operations@),
    {
        let mut this = self;
        let ghost plan_before = this.plan@;
        let ghost schemas_before = this.deferred_schemas@;
        let ghost paths_before = this.deferred_paths@;
        this.plan.push(RouterStep::HealthRoutes);
        let mut paths = operations.into_registrations();
        let mut entries = schemas.into_registrations();
        let ghost new_paths = paths@;
        let ghost new_entries = entries@;
        this.deferred_paths.append(&mut paths);
        this.deferred_schemas.append(&mut entries);
        this.has_health_checks = true;
        proof {
            assert(step_views(this.plan@) =~= step_views(plan_before).push(
                StepView::HealthRoutes,
            ));
            assert(registrations(this.deferred_schemas@) =~= registrations(schemas_before)
                + registrations(new_entries));
            assert(path_registrations(this.deferred_paths@) =~= path_registrations(paths_before)
                + path_registrations(new_paths));
        }
        this
    }

    /// Plans response compression around everything planned so far.
    pub fn compression(self) -> (app: Self)
        ensures
            app@ == self@.with_step(StepView::Layer(Middleware::Compression)),
    {
        self.step(RouterStep::Layer(Middleware::Compression))
    }

    /// Plans request logging around everything planned so far.
    pub fn request_logging(self) -> (app: Self)
        ensures
            app@ == self@.with_step(StepView::Layer(Middleware::RequestLogging)),
    {
        self.step(RouterStep::Layer(Middleware::RequestLogging))
    }

    /// Plans request-context propagation around everything planned so far.
    pub fn request_context(self) -> (app: Self)
        ensures
            app@ == self@.with_step(StepView::Layer(Middleware::RequestContext)),
    {
        self.step(RouterStep::Layer(Middleware::RequestContext))
    }

    /// Whether document metadata was set, so that it will replace that of
    /// the base document.
    pub fn has_info(&self) -> (set: bool)
        ensures
            set == (self@.info is Some),
    {
        self.info.is_some()
    }

    /// Whether there are tags, so that they will replace those of the base
    /// document.
    pub fn has_tags(&self) -> (any: bool)
        ensures
            any == (self@.tags.len() > 0),
    {
        self.tags.len() > 0
    }

    /// Whether the health endpoints were asked for.
    pub fn has_health_checks(&self) -> (asked: bool)
        ensures
            asked == self@.has_health_checks,
    {
        self.has_health_checks
    }

    /// The router operations asked for, in call order.
    pub fn plan(&self) -> (steps: &Vec<RouterStep>)
        ensures
            step_views(steps@) == self@.plan,
    {
        &self.plan
    }

    /// Resolves the assembler into the served document, starting from
    /// `base`, the document that the router brings: overlays the metadata
    /// where it was set and the tags where there are any, declares the
    /// bearer scheme, then applies the deferred schema registrations and the
    /// deferred path registrations, each list in order, so that a later
    /// registration of a name replaces an earlier one.
    pub fn finalize(self, base: OpenApi<S, B>) -> (document: OpenApi<S, B>)
        ensures
            document@ == self@.finalized(base@),
    {
        let mut document = base;
        match self.info {
            Some(info) => {
                document.info = info;
            },
            None => {},
        }
        if self.tags.len() > 0 {
            document.tags = Some(self.tags);
        }
        let mut components = match document.components {
            Some(components) => components,
            None => Components::new(),
        };
        components.add_security_scheme("bearer".to_string(), SecurityScheme::bearer());
        components.register_schemas(self.deferred_schemas);
        document.components = Some(components);
        document.register_paths(self.deferred_paths);
        document
    }
}

/// How many tags of the list bear this name.
pub open spec fn tags_named(tags: Seq<TagView>, name: Seq<char>) -> nat
    decreases tags.len(),
{
    if tags.len() == 0 {
        0
    } else {
        tags_named(tags.drop_last(), name) + if tags.last().name == name {
            1nat
        } else {
            0nat
        }
    }
}

/// A name that no tag bears is counted zero times.
pub proof fn lemma_absent_tag_counts_zero(tags: Seq<TagView>, name: Seq<char>)
    requires
        !has_tag_named(tags, name),
    ensures
        tags_named(tags, name) == 0,
    decreases tags.len(),
{
    if tags.len() > 0 {
        let rest = tags.drop_last();
        assert(tags[tags.len() - 1].name != name);
        assert forall|i: int| 0 <= i < rest.len() implies (#[trigger] rest[i]).name != name by {
            assert(rest[i] == tags[i]);
        }
        lemma_absent_tag_counts_zero(rest, name);
    }
}

/// Two route groups with one tag name leave one tag entry. Mounting the
/// second group adds no tag; where no tag bore the name before, exactly one
/// bears it afterwards; where one did, the list is as it was, so the first
/// occurrence stays. The served document lists these tags whatever schemas
/// and paths the groups register.
pub proof fn law_colliding_tags_merge<S, B>(
    app: AppView<S, B>,
    first: RouteGroupView<S, B>,
    second: RouteGroupView<S, B>,
    base: OpenApiView<S, B>,
)
    requires
        first.tag == second.tag,
    ensures
        app.mounted(first).mounted(second).tags == app.mounted(first).tags,
        has_tag_named(app.tags, first.tag) ==> app.mounted(first).mounted(second).tags == app.tags,
        !has_tag_named(app.tags, first.tag) ==> tags_named(
            app.mounted(first).mounted(second).tags,
            first.tag,
        ) == 1,
        app.mounted(first).mounted(second).finalized(base).tags == Some(app.mounted(first).tags),
{
    let once = app.mounted(first).tags;
    if has_tag_named(app.tags, first.tag) {
        assert(once == app.tags);
    } else {
        let added = TagView { name: first.tag, description: None };
        assert(once == app.tags.push(added));
        assert(once[once.len() - 1].name == first.tag);
        assert(once.drop_last() =~= app.tags);
        lemma_absent_tag_counts_zero(app.tags, first.tag);
    }
    assert(has_tag_named(once, first.tag)) by {
        if has_tag_named(app.tags, first.tag) {
        } else {
            assert(once[once.len() - 1].name == first.tag);
        }
    }
    assert(once.len() > 0) by {
        let i = choose|i: int| 0 <= i < once.len() && (#[trigger] once[i]).name == first.tag;
    }
}

/// Of two route groups that register a schema under one name, the one
/// mounted later decides: the served document holds, under each name that
/// the second group registers, the schema of that group's last registration
/// of the name, whatever the first group or the base document held there.
pub proof fn law_later_schema_wins<S, B>(
    app: AppView<S, B>,
    first: RouteGroupView<S, B>,
    second: RouteGroupView<S, B>,
    base: OpenApiView<S, B>,
    at: int,
)
    requires
        0 <= at < second.schemas.len(),
        forall|later: int|
            at < later < second.schemas.len() ==> (#[trigger] second.schemas[later]).0
                != second.schemas[at].0,
    ensures
        app.mounted(first).mounted(second).finalized(base).components is Some,
        app.mounted(first).mounted(second).finalized(base).components->0.schemas.dom().contains(
            second.schemas[at].0,
        ),
        app.mounted(first).mounted(second).finalized(base).components->0.schemas[second.schemas[at].0]
            == second.schemas[at].1,
{
    let all = app.mounted(first).mounted(second).schemas;
    let offset = app.schemas.len() + first.schemas.len();
    assert(all =~= app.schemas + first.schemas + second.schemas);
    assert(all[offset + at] == second.schemas[at]);
    assert forall|later: int| offset + at < later < all.len() implies (#[trigger] all[later]).0
        != all[offset + at].0 by {
        assert(all[later] == second.schemas[later - offset]);
    }
    let start = match base.components {
        Some(components) => components.schemas,
        None => no_components::<S>().schemas,
    };
    lemma_last_registration_wins(start, all, offset + at);
}

/// A schema name that no deferred registration names is served as the base
/// document has it: present with the same schema, or absent.
pub proof fn law_unregistered_schema_is_kept<S, B>(
    app: AppView<S, B>,
    base: OpenApiView<S, B>,
    name: Seq<char>,
)
    requires
        forall|i: int| 0 <= i < app.schemas.len() ==> (#[trigger] app.schemas[i]).0 != name,
    ensures
        app.finalized(base).components is Some,
        app.finalized(base).components->0.schemas.dom().contains(name) == (base.components is Some
            && base.components->0.schemas.dom().contains(name)),
        base.components is Some && base.components->0.schemas.dom().contains(name)
            ==> app.finalized(base).components->0.schemas[name]
            == base.components->0.schemas[name],
{
    let start = match base.components {
        Some(components) => components.schemas,
        None => no_components::<S>().schemas,
    };
    lemma_unregistered_kept(start, app.schemas, name);
}

/// Of two route groups that register an item at one path, the one mounted
/// later decides, in the same way as for schemas.
pub proof fn law_later_path_wins<S, B>(
    app: AppView<S, B>,
    first: RouteGroupView<S, B>,
    second: RouteGroupView<S, B>,
    base: OpenApiView<S, B>,
    at: int,
)
    requires
        0 <= at < second.paths.len(),
        forall|later: int|
            at < later < second.paths.len() ==> (#[trigger] second.paths[later]).0
                != second.paths[at].0,
    ensures
        app.mounted(first).mounted(second).finalized(base).paths.dom().contains(
            second.paths[at].0,
        ),
        app.mounted(first).mounted(second).finalized(base).paths[second.paths[at].0]
            == second.paths[at].1,
{
    let all = app.mounted(first).mounted(second).paths;
    let offset = app.paths.len() + first.paths.len();
    assert(all =~= app.paths + first.paths + second.paths);
    assert(all[offset + at] == second.paths[at]);
    assert forall|later: int| offset + at < later < all.len() implies (#[trigger] all[later]).0
        != all[offset + at].0 by {
        assert(all[later] == second.paths[later - offset]);
    }
    lemma_last_registration_wins(base.paths, all, offset + at);
}

} // verus!
