//! Multi-tenant request dispatcher: admission control, agent routing,
//! execution planning for the reasoning-model process, and the per-user
//! summary lock.

pub mod feedback;
pub mod text;
pub mod types;
pub mod pattern;
pub mod classify;
pub mod ratelimit;
pub mod lock;
pub mod executor;
pub mod pipeline;
pub mod semantic;
pub mod analytics;
pub mod markup;
pub mod naming;
