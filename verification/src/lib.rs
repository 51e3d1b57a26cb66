//! A transport-agnostic router core for a model-context-protocol style
//! server: capability negotiation, tool/resource/prompt registries, and
//! uniform dispatch of category-tagged requests.

pub mod adapter;
pub mod capabilities;
pub mod errors;
pub mod knowledge_bae;
pub mod registry;
pub mod router;
pub mod static_router;
pub mod value;
