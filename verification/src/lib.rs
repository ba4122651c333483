//! Verified core of an application builder for Axum services: request-context
//! propagation, health probes, and the bookkeeping that merges route groups
//! into one served API description.

pub mod app;
pub mod config;
pub mod document;
pub mod headers;
pub mod health;
pub mod ident;
pub mod json;
pub mod middleware;
pub mod names;
pub mod text;
pub mod traits;

pub use app::legacy::LegacyEywaApp;
pub use app::{EywaApp, RouteGroup};
pub use config::EywaConfig;
pub use health::{HealthController, HealthStatus};
pub use middleware::{RequestContext, UserId};
pub use traits::{IntoRouter, OpenApiPath, RouteHandler};
