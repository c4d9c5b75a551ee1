//! The component container: the fully built core node components plus the
//! three optional extension slots, and the engine's shutdown-signal receiver.

use vstd::prelude::*;

verus! {

/// Receiver half of the engine's shutdown-signal channel.  A channel number
/// of zero is the empty, no-op receiver that stands in a slot before a real
/// channel is stored there, and again after the real one has been handed off.
#[derive(Clone, Copy, Debug, PartialEq, Eq, Structural)]
pub struct ShutdownRx {
    pub channel: u64,
}

impl ShutdownRx {
    /// The empty, no-op receiver.
    pub open spec fn spec_empty() -> ShutdownRx {
        ShutdownRx { channel: 0 }
    }

    pub open spec fn is_empty(self) -> bool {
        self.channel == 0
    }
}

impl Default for ShutdownRx {
    fn default() -> (r: Self)
        ensures
            r == ShutdownRx::spec_empty(),
    {
        ShutdownRx { channel: 0 }
    }
}

/// Handle to the core node components (storage, networking, base services),
/// built before extension orchestration starts.
#[derive(Clone, Copy, Debug, PartialEq, Eq, Structural)]
pub struct NodeHandle {
    pub id: u64,
    pub chain_id: u64,
}

/// The built sync-pipeline extension component.
#[derive(Clone, Copy, Debug, PartialEq, Eq, Structural)]
pub struct PipelineComponent {
    pub id: u64,
}

/// The built consensus/execution engine extension component, owning the
/// shutdown-signal receiver it was associated with at construction time.
#[derive(Clone, Copy, Debug, PartialEq, Eq, Structural)]
pub struct EngineComponent {
    pub id: u64,
    pub shutdown_rx: ShutdownRx,
}

/// The built RPC-surface extension component.
#[derive(Clone, Copy, Debug, PartialEq, Eq, Structural)]
pub struct RpcComponent {
    pub id: u64,
}

/// Read access to the extension slots of an in-progress component set.
pub trait InitializedComponentsExt {
    spec fn pipeline_slot(&self) -> Option<PipelineComponent>;

    spec fn engine_slot(&self) -> Option<EngineComponent>;

    spec fn rpc_slot(&self) -> Option<RpcComponent>;

    /// The pipeline slot, or `None` when the node runs without a sync
    /// pipeline.
    fn pipeline(&self) -> (r: Option<PipelineComponent>)
        ensures
            r == self.pipeline_slot(),
    ;

    /// The engine slot, or `None` when the node runs without an engine.
    fn engine(&self) -> (r: Option<EngineComponent>)
        ensures
            r == self.engine_slot(),
    ;

    /// The rpc slot, or `None` when the node runs without an RPC surface.
    fn rpc(&self) -> (r: Option<RpcComponent>)
        ensures
            r == self.rpc_slot(),
    ;
}

/// The core node components together with the three optional extension
/// slots.  Every slot starts empty; the build stage fills each at most once,
/// and a filled slot is never cleared or replaced afterwards.
#[derive(Clone, Copy, Debug)]
pub struct WithComponentsExt {
    pub core: NodeHandle,
    pub pipeline: Option<PipelineComponent>,
    pub engine: Option<EngineComponent>,
    /// Placeholder for a shutdown-signal receiver created earlier than the
    /// engine object that will own it; moved out exactly once.
    pub engine_shutdown_rx: Option<ShutdownRx>,
    pub rpc: Option<RpcComponent>,
}

impl WithComponentsExt {
    /// A container around the given core handle with every extension slot
    /// empty.
    pub fn new(core: NodeHandle) -> (r: Self)
        ensures
            r.core == core,
            r.pipeline is None,
            r.engine is None,
            r.engine_shutdown_rx is None,
            r.rpc is None,
    {
        WithComponentsExt {
            core,
            pipeline: None,
            engine: None,
            engine_shutdown_rx: None,
            rpc: None,
        }
    }

    /// The core node handle.
    pub fn node(&self) -> (r: NodeHandle)
        ensures
            r == self.core,
    {
        self.core
    }

    /// Fills the pipeline slot; a slot is filled at most once.
    pub fn set_pipeline(&mut self, p: PipelineComponent)
        requires
            old(self).pipeline is None,
        ensures
            *final(self) == (WithComponentsExt { pipeline: Some(p), ..*old(self) }),
    {
        self.pipeline = Some(p);
    }

    /// Fills the engine slot; a slot is filled at most once.
    pub fn set_engine(&mut self, e: EngineComponent)
        requires
            old(self).engine is None,
        ensures
            *final(self) == (WithComponentsExt { engine: Some(e), ..*old(self) }),
    {
        self.engine = Some(e);
    }

    /// Fills the rpc slot; a slot is filled at most once.
    pub fn set_rpc(&mut self, r: RpcComponent)
        requires
            old(self).rpc is None,
        ensures
            *final(self) == (WithComponentsExt { rpc: Some(r), ..*old(self) }),
    {
        self.rpc = Some(r);
    }
}

impl InitializedComponentsExt for WithComponentsExt {
    open spec fn pipeline_slot(&self) -> Option<PipelineComponent> {
        self.pipeline
    }

    open spec fn engine_slot(&self) -> Option<EngineComponent> {
        self.engine
    }

    open spec fn rpc_slot(&self) -> Option<RpcComponent> {
        self.rpc
    }

    fn pipeline(&self) -> (r: Option<PipelineComponent>) {
        self.pipeline
    }

    fn engine(&self) -> (r: Option<EngineComponent>) {
        self.engine
    }

    fn rpc(&self) -> (r: Option<RpcComponent>) {
        self.rpc
    }
}

} // verus!
