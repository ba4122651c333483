//! Health probes: what the three endpoints answer, how the answers are
//! written, and what the endpoints contribute to the served document.

use crate::document::{
    single_item, tagged, Components, HttpMethod, OpenApi, Operation, OperationView, PathItem,
    PathItemView, path_registrations,
};
use crate::json::{quote, quoted};
use crate::names::{registered, registrations};
use vstd::prelude::*;
use vstd::string::StringExecFns;

verus! {

/// Whether the service is fit to serve.
#[derive(Debug, Clone, PartialEq, Eq, Structural)]
pub enum HealthStatus {
    Healthy,
    Unhealthy,
}

/// State of the database connection.
#[derive(Debug, Clone)]
pub enum DatabaseStatus {
    Connected,
    Disconnected,
    Error(String),
}

/// Body of the basic and the liveness probe.
#[derive(Debug, Clone)]
pub struct HealthResponse {
    pub status: HealthStatus,
}

/// Body of the readiness probe.
#[derive(Debug, Clone)]
pub struct DetailedHealthResponse {
    pub status: HealthStatus,
    pub checks: Checks,
}

/// The checks behind a readiness answer.
#[derive(Debug, Clone)]
pub struct Checks {
    pub database: DatabaseStatus,
}

/// The word for a status.
pub open spec fn status_word(status: HealthStatus) -> Seq<char> {
    match status {
        HealthStatus::Healthy => "healthy"@,
        HealthStatus::Unhealthy => "unhealthy"@,
    }
}

/// The body of the basic and the liveness probe.
pub open spec fn health_json(status: HealthStatus) -> Seq<char> {
    match status {
        HealthStatus::Healthy => "{\"status\":\"healthy\"}"@,
        HealthStatus::Unhealthy => "{\"status\":\"unhealthy\"}"@,
    }
}

/// How a database status is written: a bare word, or for an error an object
/// with the message.
pub open spec fn database_json(database: DatabaseStatus) -> Seq<char> {
    match database {
        DatabaseStatus::Connected => "\"connected\""@,
        DatabaseStatus::Disconnected => "\"disconnected\""@,
        DatabaseStatus::Error(message) => "{\"status\":\"error\",\"message\":"@ + quoted(message@)
            + "}"@,
    }
}

/// How the checks are written.
pub open spec fn checks_json(checks: Checks) -> Seq<char> {
    "{\"database\":"@ + database_json(checks.database) + "}"@
}

/// The body of the readiness probe.
pub open spec fn detailed_json(response: DetailedHealthResponse) -> Seq<char> {
    "{\"status\":\""@ + status_word(response.status) + "\",\"checks\":"@ + checks_json(
        response.checks,
    ) + "}"@
}

/// The HTTP status of a readiness answer: 200 when healthy, 503 otherwise.
pub open spec fn readiness_code(status: HealthStatus) -> u16 {
    match status {
        HealthStatus::Healthy => 200,
        HealthStatus::Unhealthy => 503,
    }
}

impl HealthStatus {
    /// The word for this status.
    pub fn as_str(&self) -> (word: &'static str)
        ensures
            word@ == status_word(*self),
    {
        match self {
            HealthStatus::Healthy => "healthy",
            HealthStatus::Unhealthy => "unhealthy",
        }
    }
}

impl DatabaseStatus {
    /// This status as JSON.
    pub fn to_json(&self) -> (json: String)
        ensures
            json@ == database_json(*self),
    {
        match self {
            DatabaseStatus::Connected => "\"connected\"".to_string(),
            DatabaseStatus::Disconnected => "\"disconnected\"".to_string(),
            DatabaseStatus::Error(message) => {
                let mut json = "{\"status\":\"error\",\"message\":".to_string();
                let literal = quote(message.as_str());
                json.append(literal.as_str());
                json.append("}");
                json
            },
        }
    }
}

impl Checks {
    /// The checks as JSON.
    pub fn to_json(&self) -> (json: String)
        ensures
            json@ == checks_json(*self),
    {
        let mut json = "{\"database\":".to_string();
        let database = self.database.to_json();
        json.append(database.as_str());
        json.append("}");
        json
    }
}

impl HealthResponse {
    /// The body as JSON.
    pub fn to_json(&self) -> (json: String)
        ensures
            json@ == health_json(self.status),
    {
        match self.status {
            HealthStatus::Healthy => "{\"status\":\"healthy\"}".to_string(),
            HealthStatus::Unhealthy => "{\"status\":\"unhealthy\"}".to_string(),
        }
    }

    /// The HTTP status of the answer: 200, whatever the status it reports.
    pub fn status_code(&self) -> (code: u16)
        ensures
            code == 200,
    {
        200
    }
}

impl DetailedHealthResponse {
    /// The body as JSON.
    pub fn to_json(&self) -> (json: String)
        ensures
            json@ == detailed_json(*self),
    {
        let mut json = "{\"status\":\"".to_string();
        json.append(self.status.as_str());
        json.append("\",\"checks\":");
        let checks = self.checks.to_json();
        json.append(checks.as_str());
        json.append("}");
        json
    }

    /// The HTTP status of the answer: 200 when healthy, 503 otherwise.
    pub fn status_code(&self) -> (code: u16)
        ensures
            code == readiness_code(self.status),
    {
        match self.status {
            HealthStatus::Healthy => 200,
            HealthStatus::Unhealthy => 503,
        }
    }
}

/// The basic probe: always healthy.
pub fn health() -> (response: HealthResponse)
    ensures
        response.status == HealthStatus::Healthy,
{
    HealthResponse { status: HealthStatus::Healthy }
}

/// The readiness probe. No dependency is checked yet: the database is
/// reported as connected and the service as healthy.
pub fn ready() -> (response: DetailedHealthResponse)
    ensures
        response.status == HealthStatus::Healthy,
        response.checks.database is Connected,
{
    DetailedHealthResponse {
        status: HealthStatus::Healthy,
        checks: Checks { database: DatabaseStatus::Connected },
    }
}

/// The liveness probe: always healthy.
pub fn live() -> (response: HealthResponse)
    ensures
        response.status == HealthStatus::Healthy,
{
    HealthResponse { status: HealthStatus::Healthy }
}

/// The body of a healthy answer of the basic or the liveness probe is
/// `{"status":"healthy"}`, twenty characters long.
pub proof fn law_probe_answer(response: HealthResponse)
    requires
        response.status == HealthStatus::Healthy,
    ensures
        health_json(response.status) == "{\"status\":\"healthy\"}"@,
        health_json(response.status).len() == 20,
{
    reveal_strlit("{\"status\":\"healthy\"}");
}

/// The readiness probe, as long as it reports a healthy service with a
/// connected database, answers 200 with the body
/// `{"status":"healthy","checks":{"database":"connected"}}`.
pub proof fn law_readiness_answer(response: DetailedHealthResponse)
    requires
        response.status == HealthStatus::Healthy,
        response.checks.database is Connected,
    ensures
        detailed_json(response) == "{\"status\":\"healthy\",\"checks\":{\"database\":\"connected\"}}"@,
        readiness_code(response.status) == 200,
{
    reveal_strlit("{\"status\":\"healthy\",\"checks\":{\"database\":\"connected\"}}");
    reveal_strlit("{\"status\":\"");
    reveal_strlit("healthy");
    reveal_strlit("\",\"checks\":");
    reveal_strlit("{\"database\":");
    reveal_strlit("\"connected\"");
    reveal_strlit("}");
    assert(detailed_json(response) =~= "{\"status\":\"healthy\",\"checks\":{\"database\":\"connected\"}}"@);
}

/// The schema bodies of the five health types.
pub struct HealthSchemas<S> {
    pub health_response: S,
    pub detailed_health_response: S,
    pub health_status: S,
    pub checks: S,
    pub database_status: S,
}

/// The operation bodies of the three health endpoints.
pub struct HealthOperations<B> {
    pub health: Operation<B>,
    pub ready: Operation<B>,
    pub live: Operation<B>,
}

/// What a [`HealthOperations`] holds.
pub struct HealthOperationsView<B> {
    pub health: OperationView<B>,
    pub ready: OperationView<B>,
    pub live: OperationView<B>,
}

impl<B> View for HealthOperations<B> {
    type V = HealthOperationsView<B>;

    open spec fn view(&self) -> HealthOperationsView<B> {
        HealthOperationsView { health: self.health@, ready: self.ready@, live: self.live@ }
    }
}

/// The tag of the health endpoints.
pub open spec fn health_tag() -> Seq<char> {
    "Health"@
}

/// The schema registrations of the health endpoints, in the order in which
/// they are made.
pub open spec fn health_schema_entries<S>(schemas: HealthSchemas<S>) -> Seq<(Seq<char>, S)> {
    seq![
        ("HealthResponse"@, schemas.health_response),
        ("DetailedHealthResponse"@, schemas.detailed_health_response),
        ("HealthStatus"@, schemas.health_status),
        ("Checks"@, schemas.checks),
        ("DatabaseStatus"@, schemas.database_status),
    ]
}

/// The path registrations of the health endpoints: each of the three paths
/// gets an item with the one GET operation, tagged `Health`.
pub open spec fn health_path_entries<B>(operations: HealthOperationsView<B>) -> Seq<
    (Seq<char>, PathItemView<B>),
> {
    seq![
        ("/health"@, single_item(HttpMethod::Get, tagged(operations.health, health_tag()))),
        ("/health/ready"@, single_item(HttpMethod::Get, tagged(operations.ready, health_tag()))),
        ("/health/live"@, single_item(HttpMethod::Get, tagged(operations.live, health_tag()))),
    ]
}

impl<S> HealthSchemas<S> {
    /// The schemas as registrations under their names.
    pub fn into_registrations(self) -> (entries: Vec<(String, S)>)
        ensures
            registrations(entries@) == health_schema_entries(self),
    {
        let mut entries: Vec<(String, S)> = Vec::new();
        entries.push(("HealthResponse".to_string(), self.health_response));
        entries.push(("DetailedHealthResponse".to_string(), self.detailed_health_response));
        entries.push(("HealthStatus".to_string(), self.health_status));
        entries.push(("Checks".to_string(), self.checks));
        entries.push(("DatabaseStatus".to_string(), self.database_status));
        assert(registrations(entries@) =~= health_schema_entries(self));
        entries
    }
}

impl<B> HealthOperations<B> {
    /// The operations as registrations of path items.
    pub fn into_registrations(self) -> (entries: Vec<(String, PathItem<B>)>)
        ensures
            path_registrations(entries@) == health_path_entries(self@),
    {
        let mut entries: Vec<(String, PathItem<B>)> = Vec::new();
        let health = self.health.with_tag("Health".to_string());
        entries.push(("/health".to_string(), PathItem::new(HttpMethod::Get, health)));
        let ready = self.ready.with_tag("Health".to_string());
        entries.push(("/health/ready".to_string(), PathItem::new(HttpMethod::Get, ready)));
        let live = self.live.with_tag("Health".to_string());
        entries.push(("/health/live".to_string(), PathItem::new(HttpMethod::Get, live)));
        assert(path_registrations(entries@) =~= health_path_entries(self@));
        entries
    }
}

/// The health endpoints as a unit.
pub struct HealthController;

impl HealthController {
    /// The basic probe.
    pub fn health() -> (response: HealthResponse)
        ensures
            response.status == HealthStatus::Healthy,
    {
        health()
    }

    /// The readiness probe.
    pub fn ready() -> (response: DetailedHealthResponse)
        ensures
            response.status == HealthStatus::Healthy,
            response.checks.database is Connected,
    {
        ready()
    }

    /// The liveness probe.
    pub fn live() -> (response: HealthResponse)
        ensures
            response.status == HealthStatus::Healthy,
    {
        live()
    }

    /// Puts the three health paths into the document, each with its GET
    /// operation tagged `Health`. An item already at one of the paths is
    /// replaced; nothing else changes.
    pub fn register_paths<S, B>(openapi: &mut OpenApi<S, B>, operations: HealthOperations<B>)
        ensures
            final(openapi)@.paths == registered(
                old(openapi)@.paths,
                health_path_entries(operations@),
            ),
            final(openapi)@.info == old(openapi)@.info,
            final(openapi)@.tags == old(openapi)@.tags,
            final(openapi)@.components == old(openapi)@.components,
    {
        openapi.register_paths(operations.into_registrations());
    }

    /// Stores the schemas of the five health types under their names. A
    /// schema already stored under one of the names is replaced; nothing else
    /// changes.
    pub fn register_schemas<S>(components: &mut Components<S>, schemas: HealthSchemas<S>)
        ensures
            final(components)@.schemas == registered(
                old(components)@.schemas,
                health_schema_entries(schemas),
            ),
            final(components)@.security_schemes == old(components)@.security_schemes,
    {
        components.register_schemas(schemas.into_registrations());
    }
}

} // verus!
