use eywa_axum::app::{Middleware, RouterStep};
use eywa_axum::document::{
    Components, HttpAuthScheme, HttpMethod, Info, OpenApi, Operation, PathItem, SecurityScheme,
    Tag,
};
use eywa_axum::health::{HealthOperations, HealthSchemas};
use eywa_axum::{EywaApp, IntoRouter, LegacyEywaApp, OpenApiPath, RouteGroup};

type App = EywaApp<&'static str, &'static str>;
type Document = OpenApi<&'static str, &'static str>;

fn group(prefix: &str, tag: &str) -> RouteGroup<&'static str, &'static str> {
    RouteGroup {
        prefix: prefix.to_string(),
        tag: tag.to_string(),
        routes: Vec::new(),
        schemas: Vec::new(),
        paths: Vec::new(),
    }
}

fn get(body: &'static str) -> PathItem<&'static str> {
    PathItem::new(HttpMethod::Get, Operation::new(body))
}

fn tag_names(document: &Document) -> Vec<String> {
    document
        .tags
        .as_ref()
        .map(|tags| tags.iter().map(|tag| tag.name.clone()).collect())
        .unwrap_or_default()
}

fn kinds(steps: &[RouterStep]) -> Vec<String> {
    steps.iter().map(|step| format!("{:?}", step)).collect()
}

#[test]
fn new_app_finalizes_to_the_base_with_the_bearer_scheme() {
    let mut base = Document::new(Info::new("Base".to_string(), "0.1".to_string()));
    base.tags = Some(vec![Tag {
        name: "from-router".to_string(),
        description: None,
    }]);
    base.paths.insert("/direct".to_string(), get("direct"));
    let document = App::new().finalize(base);

    assert_eq!(document.info.title, "Base");
    assert_eq!(document.info.version, "0.1");
    assert_eq!(document.info.description, None);
    assert_eq!(tag_names(&document), vec!["from-router"]);
    assert_eq!(document.paths.len(), 1);
    assert_eq!(document.paths.get("/direct").unwrap().get.as_ref().unwrap().body, "direct");

    let components = document.components.unwrap();
    assert_eq!(components.schemas.len(), 0);
    assert_eq!(components.security_schemes.len(), 1);
    let bearer = components.security_schemes.get("bearer").unwrap();
    assert_eq!(bearer.scheme, HttpAuthScheme::Bearer);
    assert_eq!(bearer.bearer_format.as_deref(), Some("JWT"));
    assert_eq!(bearer.description.as_deref(), Some("JWT Bearer token"));
}

#[test]
fn bearer_scheme_replaces_one_of_that_name_and_keeps_the_others() {
    let mut components: Components<&'static str> = Components::new();
    components.add_security_scheme(
        "bearer".to_string(),
        SecurityScheme {
            scheme: HttpAuthScheme::Basic,
            bearer_format: None,
            description: Some("old".to_string()),
        },
    );
    components.add_security_scheme(
        "basic".to_string(),
        SecurityScheme {
            scheme: HttpAuthScheme::Basic,
            bearer_format: None,
            description: None,
        },
    );
    components.schemas.insert("Kept".to_string(), "kept");
    let mut base = Document::default();
    base.components = Some(components);

    let components = App::new().finalize(base).components.unwrap();
    assert_eq!(components.security_schemes.len(), 2);
    assert_eq!(
        components.security_schemes.get("bearer").unwrap().scheme,
        HttpAuthScheme::Bearer
    );
    assert_eq!(
        components.security_schemes.get("basic").unwrap().scheme,
        HttpAuthScheme::Basic
    );
    assert_eq!(components.schemas.get("Kept"), Some(&"kept"));
}

#[test]
fn info_is_overlaid_and_the_last_call_wins() {
    let base = Document::new(Info::new("Base".to_string(), "0.1".to_string()));
    let document = App::new()
        .info("First", "1.0.0", "first")
        .info("My API", "2.0.0", "API description")
        .finalize(base);
    assert_eq!(document.info.title, "My API");
    assert_eq!(document.info.version, "2.0.0");
    assert_eq!(document.info.description.as_deref(), Some("API description"));
}

#[test]
fn explicit_tags_are_appended_without_deduplication() {
    let document = App::new()
        .tag("Timer", "Timer management endpoints")
        .tag("Timer", "again")
        .finalize(Document::default());
    let tags = document.tags.unwrap();
    assert_eq!(tags.len(), 2);
    assert_eq!(tags[0].name, "Timer");
    assert_eq!(tags[0].description.as_deref(), Some("Timer management endpoints"));
    assert_eq!(tags[1].description.as_deref(), Some("again"));
}

#[test]
fn tags_of_the_app_replace_those_of_the_base() {
    let mut base = Document::default();
    base.tags = Some(vec![Tag {
        name: "from-router".to_string(),
        description: None,
    }]);
    let document = App::new().tag("Mine", "mine").finalize(base);
    assert_eq!(tag_names(&document), vec!["Mine"]);
}

#[test]
fn colliding_group_tags_give_one_entry() {
    let document = App::new()
        .mount_group(group("/users", "Users"))
        .mount_group(group("/admins", "Users"))
        .mount_group(group("/timers", "Timers"))
        .finalize(Document::default());
    assert_eq!(tag_names(&document), vec!["Users", "Timers"]);
    let tags = document.tags.unwrap();
    assert_eq!(tags[0].description, None);
}

#[test]
fn first_occurrence_of_a_tag_name_wins() {
    let document = App::new()
        .tag("Users", "described by hand")
        .mount_group(group("/users", "Users"))
        .finalize(Document::default());
    let tags = document.tags.unwrap();
    assert_eq!(tags.len(), 1);
    assert_eq!(tags[0].description.as_deref(), Some("described by hand"));
}

#[test]
fn tag_names_are_compared_exactly() {
    let document = App::new()
        .mount_group(group("", "Users"))
        .mount_group(group("", "users"))
        .mount_group(group("", "Users "))
        .finalize(Document::default());
    assert_eq!(tag_names(&document), vec!["Users", "users", "Users "]);
}

#[test]
fn later_mounted_schema_wins() {
    let mut first = group("/a", "A");
    first.schemas = vec![
        ("Shared".to_string(), "from first"),
        ("OnlyFirst".to_string(), "first"),
    ];
    let mut second = group("/b", "B");
    second.schemas = vec![
        ("Shared".to_string(), "from second"),
        ("OnlySecond".to_string(), "second"),
    ];
    let mut base = Document::default();
    let mut components = Components::new();
    components.schemas.insert("Shared".to_string(), "from base");
    components.schemas.insert("OnlyBase".to_string(), "base");
    base.components = Some(components);

    let document = App::new()
        .mount_group(first)
        .mount_group(second)
        .finalize(base);
    let schemas = document.components.unwrap().schemas;
    assert_eq!(schemas.get("Shared"), Some(&"from second"));
    assert_eq!(schemas.get("OnlyFirst"), Some(&"first"));
    assert_eq!(schemas.get("OnlySecond"), Some(&"second"));
    assert_eq!(schemas.get("OnlyBase"), Some(&"base"));
    assert_eq!(schemas.len(), 4);
}

#[test]
fn mount_order_decides_between_colliding_schemas() {
    let make = |value: &'static str| {
        let mut g = group("", "G");
        g.schemas = vec![("Shared".to_string(), value)];
        g
    };
    let one = App::new()
        .mount_group(make("x"))
        .mount_group(make("y"))
        .finalize(Document::default());
    let other = App::new()
        .mount_group(make("y"))
        .mount_group(make("x"))
        .finalize(Document::default());
    assert_eq!(one.components.unwrap().schemas.get("Shared"), Some(&"y"));
    assert_eq!(other.components.unwrap().schemas.get("Shared"), Some(&"x"));
}

#[test]
fn explicitly_registered_schema_takes_its_place_in_call_order() {
    let mut g = group("", "G");
    g.schemas = vec![("Shared".to_string(), "group")];
    let document = App::new()
        .schema("Shared", "before")
        .mount_group(g)
        .schema("Other", "explicit")
        .finalize(Document::default());
    let schemas = document.components.unwrap().schemas;
    assert_eq!(schemas.get("Shared"), Some(&"group"));
    assert_eq!(schemas.get("Other"), Some(&"explicit"));
}

#[test]
fn later_mounted_path_item_replaces_the_whole_item() {
    let mut first = group("", "A");
    first.paths = vec![(
        "/things".to_string(),
        PathItem::new(HttpMethod::Post, Operation::new("create")),
    )];
    let mut second = group("", "B");
    second.paths = vec![("/things".to_string(), get("list"))];
    let mut base = Document::default();
    base.paths.insert("/things".to_string(), PathItem::new(HttpMethod::Delete, Operation::new("base")));
    base.paths.insert("/other".to_string(), get("other"));

    let document = App::new().mount_group(first).mount_group(second).finalize(base);
    assert_eq!(document.paths.len(), 2);
    let things = document.paths.get("/things").unwrap();
    assert_eq!(things.get.as_ref().unwrap().body, "list");
    assert!(things.post.is_none());
    assert!(things.delete.is_none());
    assert_eq!(document.paths.get("/other").unwrap().get.as_ref().unwrap().body, "other");
}

#[test]
fn plan_records_router_operations_in_call_order() {
    let app = App::new()
        .request_context()
        .request_logging()
        .compression()
        .mount_group(group("", "Root"))
        .mount_group(group("/v1/users", "Users"))
        .routes()
        .merge()
        .layer();
    assert_eq!(
        kinds(app.plan()),
        vec![
            "Layer(RequestContext)",
            "Layer(RequestLogging)",
            "Layer(Compression)",
            "MountAtRoot",
            "MountUnder(\"/v1/users\")",
            "Routes",
            "Merge",
            "Layer(Custom)",
        ]
    );
    assert!(!app.has_health_checks());
    assert!(matches!(
        app.plan()[0],
        RouterStep::Layer(Middleware::RequestContext)
    ));
}

#[test]
fn served_document_is_announced_by_headline_and_path_lines() {
    let mut first = group("", "A");
    first.paths = vec![
        ("/things".to_string(), get("list")),
        ("/a".to_string(), {
            let mut item = PathItem::new(HttpMethod::Delete, Operation::new("delete"));
            item.post = Some(Operation::new("create"));
            item.head = Some(Operation::new("head"));
            item
        }),
        (
            "/silent".to_string(),
            PathItem::new(HttpMethod::Options, Operation::new("options")),
        ),
    ];
    let app = App::new().info("My API", "1.0.0", "API description");
    assert!(app.has_info());
    assert!(!app.has_tags());
    let app = app.mount_group(first);
    assert!(app.has_tags());
    let document = app.finalize(Document::default());
    assert_eq!(document.info.headline(), "My API v1.0.0");
    assert_eq!(
        document.path_lines(),
        vec!["/a [POST, DELETE]", "/silent []", "/things [GET]"]
    );
    assert!(!App::new().has_info());
    assert_eq!(Document::default().path_lines(), Vec::<String>::new());
    assert_eq!(Info::default().headline(), " v");
}

#[test]
fn mount_point_follows_the_prefix() {
    assert!(matches!(group("", "A").mount_point(), RouterStep::MountAtRoot));
    match group("/api", "A").mount_point() {
        RouterStep::MountUnder(prefix) => assert_eq!(prefix, "/api"),
        other => panic!("unexpected step {:?}", other),
    }
}

fn health_schemas() -> HealthSchemas<&'static str> {
    HealthSchemas {
        health_response: "hr",
        detailed_health_response: "dhr",
        health_status: "hs",
        checks: "c",
        database_status: "ds",
    }
}

fn health_operations() -> HealthOperations<&'static str> {
    HealthOperations {
        health: Operation::new("health"),
        ready: Operation::new("ready"),
        live: Operation::new("live"),
    }
}

#[test]
fn health_checks_contribute_routes_schemas_and_paths_but_no_tag() {
    let app = App::new().health_checks(health_schemas(), health_operations());
    assert!(app.has_health_checks());
    assert_eq!(kinds(app.plan()), vec!["HealthRoutes"]);
    let document = app.finalize(Document::default());
    assert!(document.tags.is_none());
    assert_eq!(document.paths.len(), 3);
    assert_eq!(document.paths.name_at(0), "/health");
    assert_eq!(document.paths.name_at(1), "/health/live");
    assert_eq!(document.paths.name_at(2), "/health/ready");
    let ready = document.paths.get("/health/ready").unwrap();
    assert_eq!(
        ready.get.as_ref().unwrap().tags,
        Some(vec!["Health".to_string()])
    );
    let schemas = document.components.unwrap().schemas;
    assert_eq!(schemas.len(), 5);
    assert_eq!(schemas.get("DatabaseStatus"), Some(&"ds"));
}

#[test]
fn group_mounted_after_health_checks_can_replace_their_entries() {
    let mut g = group("", "Custom");
    g.paths = vec![("/health".to_string(), get("custom health"))];
    g.schemas = vec![("Checks".to_string(), "custom checks")];
    let document = App::new()
        .health_checks(health_schemas(), health_operations())
        .mount_group(g)
        .finalize(Document::default());
    assert_eq!(
        document.paths.get("/health").unwrap().get.as_ref().unwrap().body,
        "custom health"
    );
    assert_eq!(document.components.unwrap().schemas.get("Checks"), Some(&"custom checks"));
}

#[test]
fn reported_methods_keep_their_fixed_order() {
    let mut item: PathItem<&'static str> = PathItem::empty();
    assert_eq!(item.methods_label(), "");
    item.patch = Some(Operation::new("p"));
    item.delete = Some(Operation::new("d"));
    item.get = Some(Operation::new("g"));
    item.put = Some(Operation::new("u"));
    item.post = Some(Operation::new("c"));
    item.head = Some(Operation::new("h"));
    item.options = Some(Operation::new("o"));
    item.trace = Some(Operation::new("t"));
    assert_eq!(item.method_names(), vec!["GET", "POST", "PUT", "DELETE", "PATCH"]);
    assert_eq!(item.methods_label(), "GET, POST, PUT, DELETE, PATCH");
    for (method, expected) in [
        (HttpMethod::Get, "GET"),
        (HttpMethod::Post, "POST"),
        (HttpMethod::Put, "PUT"),
        (HttpMethod::Delete, "DELETE"),
        (HttpMethod::Patch, "PATCH"),
        (HttpMethod::Head, ""),
        (HttpMethod::Options, ""),
        (HttpMethod::Trace, ""),
    ] {
        assert_eq!(PathItem::new(method, Operation::new("x")).methods_label(), expected);
    }
}

#[test]
fn operation_tags_are_appended() {
    let operation = Operation::new(1u8).with_tag("A".to_string()).with_tag("B".to_string());
    assert_eq!(operation.tags, Some(vec!["A".to_string(), "B".to_string()]));
    assert_eq!(operation.body, 1);
}

#[test]
fn route_is_announced_with_method_path_and_tag() {
    let route = OpenApiPath {
        path: "/users/{id}".to_string(),
        method: "GET".to_string(),
        summary: "One user".to_string(),
        description: String::new(),
        tag: "Users".to_string(),
    };
    assert_eq!(route.describe(), "GET /users/{id} [Users]");
}

struct Users;

impl IntoRouter<&'static str, &'static str> for Users {
    fn prefix() -> &'static str {
        "/users"
    }

    fn tag() -> &'static str {
        "Users"
    }

    fn openapi_routes() -> Vec<OpenApiPath> {
        vec![OpenApiPath {
            path: "/users".to_string(),
            method: "GET".to_string(),
            summary: "List".to_string(),
            description: String::new(),
            tag: "Users".to_string(),
        }]
    }

    fn register_schemas(components: &mut Components<&'static str>) {
        components.schemas.insert("User".to_string(), "user schema");
    }

    fn register_paths(openapi: &mut OpenApi<&'static str, &'static str>) {
        openapi.paths.insert("/users".to_string(), get("list users"));
    }
}

struct Plain;

impl IntoRouter<&'static str, &'static str> for Plain {}

#[test]
fn group_described_by_a_type_is_mounted_like_any_other() {
    let described = RouteGroup::of::<Users>();
    assert_eq!(described.prefix, "/users");
    assert_eq!(described.tag, "Users");
    assert_eq!(described.routes.len(), 1);
    assert_eq!(described.routes[0].describe(), "GET /users [Users]");

    let app = App::new().mount::<Users>().mount::<Plain>();
    assert_eq!(kinds(app.plan()), vec!["MountUnder(\"/users\")", "MountAtRoot"]);
    let document = app.finalize(Document::default());
    assert_eq!(tag_names(&document), vec!["Users", "API"]);
    assert_eq!(document.components.unwrap().schemas.get("User"), Some(&"user schema"));
    assert_eq!(
        document.paths.get("/users").unwrap().get.as_ref().unwrap().body,
        "list users"
    );
}

#[test]
fn defaults_of_a_route_group() {
    let plain = RouteGroup::of::<Plain>();
    assert_eq!(plain.prefix, "");
    assert_eq!(plain.tag, "API");
    assert!(plain.routes.is_empty());
    assert!(plain.schemas.is_empty());
    assert!(plain.paths.is_empty());
}

#[test]
fn legacy_app_serves_the_document_it_was_given() {
    let app: LegacyEywaApp<&'static str, &'static str> = LegacyEywaApp::new();
    let blank = app.into_openapi();
    assert_eq!(blank.info.title, "");
    assert_eq!(blank.info.version, "");
    assert!(blank.tags.is_none());
    assert!(blank.components.is_none());
    assert_eq!(blank.paths.len(), 0);

    let mut given = Document::new(Info::new("Manual".to_string(), "3".to_string()));
    given.paths.insert("/manual".to_string(), get("manual"));
    let mut g = group("/v1", "Ignored");
    g.schemas = vec![("Ignored".to_string(), "ignored")];
    let app = LegacyEywaApp::new()
        .with_openapi(given)
        .mount_group(g)
        .mount::<Plain>()
        .layer();
    assert_eq!(
        kinds(app.plan()),
        vec!["MountUnder(\"/v1\")", "MountAtRoot", "Layer(Custom)"]
    );
    let document = app.into_openapi();
    assert_eq!(document.info.title, "Manual");
    assert!(document.tags.is_none());
    assert!(document.components.is_none());
    assert_eq!(document.paths.len(), 1);
}
