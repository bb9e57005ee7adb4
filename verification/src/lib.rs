//! Policy-driven synthesis and lifecycle management of in-kernel packet
//! filters: a policy model, a line-oriented template composition engine
//! that emits the filter source, the reputation state machine the emitted
//! filter implements, the fixed-width map codec used to seed and read the
//! kernel maps, and the orchestrator decisions that drive the
//! generate / load / unload lifecycle.

pub mod cliopts;
pub mod engine;
pub mod kjson;
pub mod lifecycle;
pub mod mapsync;
pub mod policy;
pub mod reputation;
pub mod template;
pub mod text;
