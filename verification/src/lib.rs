//! Staged, hook-driven build orchestration for the extension components of a
//! long-running node process.
//!
//! A node is assembled from a fixed core plus three optional extension
//! components: a sync pipeline, a consensus/execution engine and an RPC
//! surface.  Extension authors register build steps (hooks) on a build stage;
//! the stage drives them in a fixed order (pipeline, then engine, then rpc),
//! each at most once, each against a context that reflects every slot filled
//! by the steps that ran before it.
//!
//! Alongside the orchestrator, the crate holds the pool-introspection RPC
//! surface, the sync-stage reset operation over a modeled store, and the
//! prune-checkpoint read/write interface.

pub mod container;
pub mod prune;
pub mod reset;
pub mod stage;
pub mod txpool;
