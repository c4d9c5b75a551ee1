//! The build stage: the orchestrator that drives the registered extension
//! build hooks in the fixed order pipeline, then engine, then rpc, each at
//! most once, and then runs every registered post-rpc-start hook in
//! registration order.
//!
//! The whole orchestration is mirrored by a specification-level model
//! ([`StageModel`] and [`run_model`]); every executable operation is proved
//! equal to its model, and the ordering and at-most-once laws are proved of
//! the model once and for all.

use vstd::prelude::*;

use crate::container::EngineComponent;
use crate::container::NodeHandle;
use crate::container::PipelineComponent;
use crate::container::RpcComponent;
use crate::container::ShutdownRx;
use crate::container::WithComponentsExt;

verus! {

/// Immutable launch configuration: the chain being run and the resolved data
/// directory, fixed before extension orchestration starts.
#[derive(Clone, Copy, Debug, PartialEq, Eq, Structural)]
pub struct LaunchContext {
    pub chain_id: u64,
    pub data_dir: u64,
}

/// The context handed to one hook invocation: the launch configuration plus
/// a snapshot of the extension slots as filled by the stages that ran
/// earlier, and, for the engine stage, the shutdown-signal receiver that was
/// recovered from the container for this one invocation.
#[derive(Clone, Copy, Debug)]
pub struct ExtBuilderContext {
    pub core_ctx: LaunchContext,
    pub pipeline: Option<PipelineComponent>,
    pub engine: Option<EngineComponent>,
    pub rpc: Option<RpcComponent>,
    pub engine_shutdown_rx: ShutdownRx,
}

/// One externally supplied, single-use build step.  The orchestrator is
/// agnostic to what a step does; what it sees of one is its observable
/// outcome: either the step installs the component it was registered to
/// build, or it reports an initialization failure with a cause code.
#[derive(Clone, Copy, Debug, PartialEq, Eq, Structural)]
pub struct BuildHook {
    /// Identifies the registered step itself.
    pub id: u64,
    /// Identity of the component the step builds when it succeeds.
    pub component_id: u64,
    /// Whether the step reports an initialization failure instead.
    pub fails: bool,
    /// The cause it reports when it fails.
    pub error_code: u64,
}

/// A hook registered to run once the RPC server is live.  Unlike the three
/// primary hooks, all registered post-start hooks run, each allowed to fail
/// independently.
#[derive(Clone, Copy, Debug, PartialEq, Eq, Structural)]
pub struct RpcStartedHook {
    pub id: u64,
    pub fails: bool,
    pub error_code: u64,
}

/// A primary hook slot: no hook was registered, a hook is registered and has
/// not run, or the registered hook has been consumed by its one run.
#[derive(Clone, Copy, Debug, PartialEq, Eq, Structural)]
pub enum HookSlot {
    Absent,
    Registered(BuildHook),
    Consumed,
}

/// The three primary build stages, in their fixed order.
#[derive(Clone, Copy, Debug, PartialEq, Eq, Structural)]
pub enum BuildStageKind {
    Pipeline,
    Engine,
    Rpc,
}

/// A build failure: the stage whose hook failed, and the cause it reported.
#[derive(Clone, Copy, Debug, PartialEq, Eq, Structural)]
pub struct BuildError {
    pub stage: BuildStageKind,
    pub code: u64,
}

/// The driver's state: which stage runs next, or the terminal outcome.
/// `Failed` absorbs: once a stage fails, no further stage ever runs.
#[derive(Clone, Copy, Debug, PartialEq, Eq, Structural)]
pub enum BuildState {
    PipelinePending,
    EnginePending,
    RpcPending,
    Complete,
    Failed(BuildError),
}

/// The record of one primary hook invocation: which stage ran which hook,
/// the context it received, and whether it succeeded.
#[derive(Clone, Copy, Debug)]
pub struct RunRecord {
    pub stage: BuildStageKind,
    pub hook_id: u64,
    pub ctx: ExtBuilderContext,
    pub ok: bool,
}

/// The per-hook outcome of the post-rpc-start phase.
#[derive(Clone, Copy, Debug)]
pub struct PostStartRecord {
    pub hook_id: u64,
    pub result: Result<(), u64>,
}

/// The specification-level value of a build stage: every field the
/// orchestration laws speak of.
#[verifier::ext_equal]
pub ghost struct StageModel {
    pub core_ctx: LaunchContext,
    pub components: WithComponentsExt,
    pub pipeline_builder: HookSlot,
    pub engine_builder: HookSlot,
    pub rpc_builder: HookSlot,
    pub rpc_add_ons: Seq<RpcStartedHook>,
    pub state: BuildState,
    pub log: Seq<RunRecord>,
    pub post_start_results: Seq<PostStartRecord>,
}

/// Recovering the engine's shutdown-signal receiver from the container:
/// taken from the engine component if one is present, otherwise from the
/// container's placeholder slot; whichever location held it is left reading
/// as the empty receiver, so a second recovery yields the empty receiver.
pub open spec fn take_rx_model(c: WithComponentsExt) -> (ShutdownRx, WithComponentsExt) {
    match c.engine {
        Some(e) => (
            e.shutdown_rx,
            WithComponentsExt {
                engine: Some(EngineComponent { id: e.id, shutdown_rx: ShutdownRx::spec_empty() }),
                ..c
            },
        ),
        None => match c.engine_shutdown_rx {
            Some(rx) => (
                rx,
                WithComponentsExt { engine_shutdown_rx: Some(ShutdownRx::spec_empty()), ..c },
            ),
            None => (ShutdownRx::spec_empty(), c),
        },
    }
}

/// The context derived for one hook invocation.
pub open spec fn ctx_model(core_ctx: LaunchContext, c: WithComponentsExt, rx: ShutdownRx) -> ExtBuilderContext {
    ExtBuilderContext {
        core_ctx,
        pipeline: c.pipeline,
        engine: c.engine,
        rpc: c.rpc,
        engine_shutdown_rx: rx,
    }
}

/// The driver state in which the given stage is the one to run next.
pub open spec fn pending_state(kind: BuildStageKind) -> BuildState {
    match kind {
        BuildStageKind::Pipeline => BuildState::PipelinePending,
        BuildStageKind::Engine => BuildState::EnginePending,
        BuildStageKind::Rpc => BuildState::RpcPending,
    }
}

/// The driver state after the given stage has run or been skipped.
pub open spec fn next_state(kind: BuildStageKind) -> BuildState {
    match kind {
        BuildStageKind::Pipeline => BuildState::EnginePending,
        BuildStageKind::Engine => BuildState::RpcPending,
        BuildStageKind::Rpc => BuildState::Complete,
    }
}

/// The hook slot a stage consumes.
pub open spec fn slot_of(s: StageModel, kind: BuildStageKind) -> HookSlot {
    match kind {
        BuildStageKind::Pipeline => s.pipeline_builder,
        BuildStageKind::Engine => s.engine_builder,
        BuildStageKind::Rpc => s.rpc_builder,
    }
}

pub open spec fn with_slot(s: StageModel, kind: BuildStageKind, slot: HookSlot) -> StageModel {
    match kind {
        BuildStageKind::Pipeline => StageModel { pipeline_builder: slot, ..s },
        BuildStageKind::Engine => StageModel { engine_builder: slot, ..s },
        BuildStageKind::Rpc => StageModel { rpc_builder: slot, ..s },
    }
}

/// The container after a successful hook has installed its component.  The
/// engine component is associated with the receiver recovered for this
/// invocation.
pub open spec fn fill_model(c: WithComponentsExt, kind: BuildStageKind, h: BuildHook, rx: ShutdownRx) -> WithComponentsExt {
    match kind {
        BuildStageKind::Pipeline => WithComponentsExt {
            pipeline: Some(PipelineComponent { id: h.component_id }),
            ..c
        },
        BuildStageKind::Engine => WithComponentsExt {
            engine: Some(EngineComponent { id: h.component_id, shutdown_rx: rx }),
            ..c
        },
        BuildStageKind::Rpc => WithComponentsExt { rpc: Some(RpcComponent { id: h.component_id }), ..c },
    }
}

/// Registering a hook in a slot.  A consumed slot stays consumed: a hook
/// registered after its stage already ran can never run.
pub open spec fn register_model(slot: HookSlot, h: BuildHook) -> HookSlot {
    match slot {
        HookSlot::Consumed => HookSlot::Consumed,
        _ => HookSlot::Registered(h),
    }
}

/// One stage, taken at its turn: a registered hook is consumed, receives a
/// fresh context, and either fills its slot or fails the build; an absent or
/// already-consumed slot is skipped as an immediate successful transition.
pub open spec fn stage_step(s: StageModel, kind: BuildStageKind) -> StageModel {
    match slot_of(s, kind) {
        HookSlot::Registered(h) => {
            let taken = if kind is Engine {
                take_rx_model(s.components)
            } else {
                (ShutdownRx::spec_empty(), s.components)
            };
            let rx = taken.0;
            let c1 = taken.1;
            let ctx = ctx_model(s.core_ctx, c1, rx);
            let rec = RunRecord { stage: kind, hook_id: h.id, ctx, ok: !h.fails };
            let base = with_slot(
                StageModel { components: c1, log: s.log.push(rec), ..s },
                kind,
                HookSlot::Consumed,
            );
            if h.fails {
                StageModel {
                    state: BuildState::Failed(BuildError { stage: kind, code: h.error_code }),
                    ..base
                }
            } else {
                StageModel { components: fill_model(c1, kind, h, rx), state: next_state(kind), ..base }
            }
        }
        _ => StageModel { state: next_state(kind), ..s },
    }
}

/// One stage as the driver invokes it: it acts only when the driver is at
/// that stage, and does nothing otherwise.
pub open spec fn build_step_model(s: StageModel, kind: BuildStageKind) -> StageModel {
    if s.state == pending_state(kind) {
        stage_step(s, kind)
    } else {
        s
    }
}

/// What one stage invocation reports: nothing when the stage is skipped or
/// out of turn, otherwise its hook's outcome.
pub open spec fn step_outcome(s: StageModel, kind: BuildStageKind) -> Option<Result<(), BuildError>> {
    if s.state == pending_state(kind) {
        match slot_of(s, kind) {
            HookSlot::Registered(h) => if h.fails {
                Some(Err(BuildError { stage: kind, code: h.error_code }))
            } else {
                Some(Ok(()))
            },
            _ => None,
        }
    } else {
        None
    }
}

/// The three primary stages in their fixed order.
pub open spec fn primaries_model(s: StageModel) -> StageModel {
    build_step_model(
        build_step_model(build_step_model(s, BuildStageKind::Pipeline), BuildStageKind::Engine),
        BuildStageKind::Rpc,
    )
}

/// The record one post-start hook leaves.
pub open spec fn post_record(h: RpcStartedHook) -> PostStartRecord {
    PostStartRecord { hook_id: h.id, result: if h.fails { Err(h.error_code) } else { Ok(()) } }
}

/// The records of the whole post-start phase, in registration order.
pub open spec fn post_records(hooks: Seq<RpcStartedHook>) -> Seq<PostStartRecord> {
    hooks.map_values(|h: RpcStartedHook| post_record(h))
}

/// The post-start phase: every registered post-start hook runs, in
/// registration order, each recording its own outcome.
pub open spec fn post_model(s: StageModel) -> StageModel {
    StageModel { post_start_results: s.post_start_results + post_records(s.rpc_add_ons), ..s }
}

/// One whole build invocation.  A completed or failed build is terminal: a
/// second invocation changes nothing and reports the same outcome.
pub open spec fn run_model(s: StageModel) -> (StageModel, Result<NodeHandle, BuildError>) {
    match s.state {
        BuildState::Complete => (s, Ok(s.components.core)),
        BuildState::Failed(e) => (s, Err(e)),
        _ => {
            let s3 = primaries_model(s);
            match s3.state {
                BuildState::Failed(e) => (s3, Err(e)),
                _ => {
                    let s4 = post_model(s3);
                    (s4, Ok(s4.components.core))
                },
            }
        },
    }
}

/// Derives the context for one hook invocation from the launch configuration
/// and the current container.  Pure: the container is read, never copied
/// into later stages.
pub fn build_ctx(core_ctx: LaunchContext, components: &WithComponentsExt) -> (ctx: ExtBuilderContext)
    ensures
        ctx == ctx_model(core_ctx, *components, ShutdownRx::spec_empty()),
{
    ExtBuilderContext {
        core_ctx,
        pipeline: components.pipeline,
        engine: components.engine,
        rpc: components.rpc,
        engine_shutdown_rx: ShutdownRx { channel: 0 },
    }
}

/// Derivation of a build context from the launch configuration and a live
/// view of the container.
pub trait ExtComponentCtxBuilder {
    fn build_ctx(&self, core_ctx: LaunchContext, components: &WithComponentsExt) -> (ctx: ExtBuilderContext)
        ensures
            ctx == ctx_model(core_ctx, *components, ShutdownRx::spec_empty()),
    ;
}

/// The standard context derivation.
#[derive(Clone, Copy, Debug, Default)]
pub struct DefaultCtxBuilder;

impl ExtComponentCtxBuilder for DefaultCtxBuilder {
    fn build_ctx(&self, core_ctx: LaunchContext, components: &WithComponentsExt) -> (ctx: ExtBuilderContext) {
        crate::stage::build_ctx(core_ctx, components)
    }
}

/// Staging environment for building extension components: registration of
/// the three primary hooks and the post-start hooks, and the stage-by-stage
/// build operations the driver sequences.
pub trait StageExtComponentsBuild {
    spec fn model(&self) -> StageModel;

    /// Read access to the component container.
    fn components(&self) -> (r: &WithComponentsExt)
        ensures
            *r == self.model().components,
    ;

    /// Exclusive access to the component container, for the duration of one
    /// hook invocation.
    fn components_mut(&mut self) -> (r: &mut WithComponentsExt)
        ensures
            *r == old(self).model().components,
            final(self).model() == (StageModel { components: *final(r), ..old(self).model() }),
    ;

    /// Recovers the engine's shutdown-signal receiver, leaving the empty
    /// receiver in its place; a second call yields the empty receiver.
    fn engine_shutdown_rx(&mut self) -> (rx: ShutdownRx)
        ensures
            rx == take_rx_model(old(self).model().components).0,
            final(self).model() == (StageModel {
                components: take_rx_model(old(self).model().components).1,
                ..old(self).model()
            }),
    ;

    /// Replaces the context builder.
    fn ctx_builder(&mut self, b: DefaultCtxBuilder)
        ensures
            final(self).model() == old(self).model(),
    ;

    /// Registers the pipeline hook.  Registration into a consumed slot is
    /// ignored: a stage that already ran can never run again.
    fn pipeline_builder(&mut self, b: BuildHook)
        ensures
            final(self).model() == (StageModel {
                pipeline_builder: register_model(old(self).model().pipeline_builder, b),
                ..old(self).model()
            }),
    ;

    /// Registers the engine hook; see [`Self::pipeline_builder`].
    fn engine_builder(&mut self, b: BuildHook)
        ensures
            final(self).model() == (StageModel {
                engine_builder: register_model(old(self).model().engine_builder, b),
                ..old(self).model()
            }),
    ;

    /// Registers the rpc hook; see [`Self::pipeline_builder`].
    fn rpc_builder(&mut self, b: BuildHook)
        ensures
            final(self).model() == (StageModel {
                rpc_builder: register_model(old(self).model().rpc_builder, b),
                ..old(self).model()
            }),
    ;

    /// Derives a fresh context reflecting every slot filled so far.
    fn build_ctx(&mut self) -> (ctx: ExtBuilderContext)
        ensures
            final(self).model() == old(self).model(),
            ctx == ctx_model(
                old(self).model().core_ctx,
                old(self).model().components,
                ShutdownRx::spec_empty(),
            ),
    ;

    /// Runs the pipeline stage if the driver is at it: consumes the
    /// registered hook, or skips.  Reports `None` when no hook ran.
    fn build_pipeline(&mut self) -> (r: Option<Result<(), BuildError>>)
        ensures
            final(self).model() == build_step_model(old(self).model(), BuildStageKind::Pipeline),
            r == step_outcome(old(self).model(), BuildStageKind::Pipeline),
    ;

    /// Runs the engine stage; see [`Self::build_pipeline`].
    fn build_engine(&mut self) -> (r: Option<Result<(), BuildError>>)
        ensures
            final(self).model() == build_step_model(old(self).model(), BuildStageKind::Engine),
            r == step_outcome(old(self).model(), BuildStageKind::Engine),
    ;

    /// Runs the rpc stage; see [`Self::build_pipeline`].
    fn build_rpc(&mut self) -> (r: Option<Result<(), BuildError>>)
        ensures
            final(self).model() == build_step_model(old(self).model(), BuildStageKind::Rpc),
            r == step_outcome(old(self).model(), BuildStageKind::Rpc),
    ;

    /// Appends a hook to run once the rpc server is started.  All appended
    /// hooks are retained and all run.
    fn on_rpc_started(&mut self, hook: RpcStartedHook)
        ensures
            final(self).model() == (StageModel {
                rpc_add_ons: old(self).model().rpc_add_ons.push(hook),
                ..old(self).model()
            }),
    ;
}

/// The build stage: owns the component container, the context builder, the
/// three single-use primary hook slots and the list of post-start hooks, and
/// records every hook invocation.
#[derive(Debug)]
pub struct ExtComponentsBuildStage {
    pub core_ctx: LaunchContext,
    pub components: WithComponentsExt,
    pub ctx_builder: DefaultCtxBuilder,
    pub pipeline_builder: HookSlot,
    pub engine_builder: HookSlot,
    pub rpc_builder: HookSlot,
    pub rpc_add_ons: Vec<RpcStartedHook>,
    /// Which stage runs next, or the terminal outcome.
    pub state: BuildState,
    /// Every primary hook invocation, in execution order.
    pub log: Vec<RunRecord>,
    /// The outcome of every post-start hook, in registration order.
    pub post_start_results: Vec<PostStartRecord>,
}

impl View for ExtComponentsBuildStage {
    type V = StageModel;

    open spec fn view(&self) -> StageModel {
        StageModel {
            core_ctx: self.core_ctx,
            components: self.components,
            pipeline_builder: self.pipeline_builder,
            engine_builder: self.engine_builder,
            rpc_builder: self.rpc_builder,
            rpc_add_ons: self.rpc_add_ons@,
            state: self.state,
            log: self.log@,
            post_start_results: self.post_start_results@,
        }
    }
}

impl ExtComponentsBuildStage {
    /// A fresh stage: no hooks registered, nothing run, the pipeline stage
    /// up first.
    pub fn new(core_ctx: LaunchContext, ctx_builder: DefaultCtxBuilder, components: WithComponentsExt) -> (r: Self)
        ensures
            r@ == (StageModel {
                core_ctx,
                components,
                pipeline_builder: HookSlot::Absent,
                engine_builder: HookSlot::Absent,
                rpc_builder: HookSlot::Absent,
                rpc_add_ons: Seq::<RpcStartedHook>::empty(),
                state: BuildState::PipelinePending,
                log: Seq::<RunRecord>::empty(),
                post_start_results: Seq::<PostStartRecord>::empty(),
            }),
    {
        let r = ExtComponentsBuildStage {
            core_ctx,
            components,
            ctx_builder,
            pipeline_builder: HookSlot::Absent,
            engine_builder: HookSlot::Absent,
            rpc_builder: HookSlot::Absent,
            rpc_add_ons: Vec::new(),
            state: BuildState::PipelinePending,
            log: Vec::new(),
            post_start_results: Vec::new(),
        };
        proof {
            assert(r@ =~= (StageModel {
                core_ctx,
                components,
                pipeline_builder: HookSlot::Absent,
                engine_builder: HookSlot::Absent,
                rpc_builder: HookSlot::Absent,
                rpc_add_ons: Seq::<RpcStartedHook>::empty(),
                state: BuildState::PipelinePending,
                log: Seq::<RunRecord>::empty(),
                post_start_results: Seq::<PostStartRecord>::empty(),
            }));
        }
        r
    }

    /// One stage taken at its turn; shared by the three stage operations.
    fn run_stage(&mut self, kind: BuildStageKind) -> (r: Option<Result<(), BuildError>>)
        ensures
            final(self)@ == build_step_model(old(self)@, kind),
            r == step_outcome(old(self)@, kind),
    {
        let at_stage = match (self.state, kind) {
            (BuildState::PipelinePending, BuildStageKind::Pipeline) => true,
            (BuildState::EnginePending, BuildStageKind::Engine) => true,
            (BuildState::RpcPending, BuildStageKind::Rpc) => true,
            _ => false,
        };
        if !at_stage {
            return None;
        }
        let slot = match kind {
            BuildStageKind::Pipeline => self.pipeline_builder,
            BuildStageKind::Engine => self.engine_builder,
            BuildStageKind::Rpc => self.rpc_builder,
        };
        match slot {
            HookSlot::Registered(h) => {
                // consume the hook before it runs: at most once, by construction
                match kind {
                    BuildStageKind::Pipeline => self.pipeline_builder = HookSlot::Consumed,
                    BuildStageKind::Engine => self.engine_builder = HookSlot::Consumed,
                    BuildStageKind::Rpc => self.rpc_builder = HookSlot::Consumed,
                }
                let rx = match kind {
                    BuildStageKind::Engine => self.engine_shutdown_rx(),
                    _ => ShutdownRx::default(),
                };
                let ctx0 = self.build_ctx();
                let ctx = ExtBuilderContext { engine_shutdown_rx: rx, ..ctx0 };
                self.log.push(RunRecord { stage: kind, hook_id: h.id, ctx, ok: !h.fails });
                if h.fails {
                    let e = BuildError { stage: kind, code: h.error_code };
                    self.state = BuildState::Failed(e);
                    proof {
                        assert(self@ =~= build_step_model(old(self)@, kind));
                    }
                    Some(Err(e))
                } else {
                    match kind {
                        BuildStageKind::Pipeline => {
                            self.components.pipeline = Some(PipelineComponent { id: h.component_id });
                            self.state = BuildState::EnginePending;
                        },
                        BuildStageKind::Engine => {
                            self.components.engine = Some(EngineComponent {
                                id: h.component_id,
                                shutdown_rx: rx,
                            });
                            self.state = BuildState::RpcPending;
                        },
                        BuildStageKind::Rpc => {
                            self.components.rpc = Some(RpcComponent { id: h.component_id });
                            self.state = BuildState::Complete;
                        },
                    }
                    proof {
                        assert(self@ =~= build_step_model(old(self)@, kind));
                    }
                    Some(Ok(()))
                }
            },
            _ => {
                self.state = match kind {
                    BuildStageKind::Pipeline => BuildState::EnginePending,
                    BuildStageKind::Engine => BuildState::RpcPending,
                    BuildStageKind::Rpc => BuildState::Complete,
                };
                proof {
                    assert(self@ =~= build_step_model(old(self)@, kind));
                }
                None
            },
        }
    }

    /// The post-start phase: every registered post-start hook runs, in
    /// registration order; a failure in one never prevents the others.
    fn run_post_start(&mut self)
        ensures
            final(self)@ == post_model(old(self)@),
    {
        let ghost expected = post_records(old(self)@.rpc_add_ons);
        let n = self.rpc_add_ons.len();
        let mut i: usize = 0;
        while i < n
            invariant
                i <= n,
                n == self.rpc_add_ons@.len(),
                self.core_ctx == old(self).core_ctx,
                self.components == old(self).components,
                self.pipeline_builder == old(self).pipeline_builder,
                self.engine_builder == old(self).engine_builder,
                self.rpc_builder == old(self).rpc_builder,
                self.rpc_add_ons == old(self).rpc_add_ons,
                self.state == old(self).state,
                self.log == old(self).log,
                expected == post_records(old(self)@.rpc_add_ons),
                self.post_start_results@ == old(self).post_start_results@ + expected.take(i as int),
            decreases n - i,
        {
            let h = self.rpc_add_ons[i];
            let rec = if h.fails {
                PostStartRecord { hook_id: h.id, result: Err(h.error_code) }
            } else {
                PostStartRecord { hook_id: h.id, result: Ok(()) }
            };
            proof {
                assert(expected.take(i + 1) =~= expected.take(i as int).push(expected[i as int]));
                assert(expected[i as int] == post_record(old(self)@.rpc_add_ons[i as int]));
            }
            self.post_start_results.push(rec);
            i += 1;
        }
        proof {
            assert(expected.take(n as int) =~= expected);
            assert(self@ =~= post_model(old(self)@));
        }
    }
}

impl StageExtComponentsBuild for ExtComponentsBuildStage {
    open spec fn model(&self) -> StageModel {
        self@
    }

    fn components(&self) -> (r: &WithComponentsExt) {
        &self.components
    }

    fn components_mut(&mut self) -> (r: &mut WithComponentsExt) {
        &mut self.components
    }

    fn engine_shutdown_rx(&mut self) -> (rx: ShutdownRx) {
        match self.components.engine {
            Some(e) => {
                let rx = e.shutdown_rx;
                self.components.engine = Some(EngineComponent {
                    id: e.id,
                    shutdown_rx: ShutdownRx::default(),
                });
                rx
            },
            None => match self.components.engine_shutdown_rx {
                Some(rx) => {
                    self.components.engine_shutdown_rx = Some(ShutdownRx::default());
                    rx
                },
                None => ShutdownRx::default(),
            },
        }
    }

    fn ctx_builder(&mut self, b: DefaultCtxBuilder) {
        self.ctx_builder = b;
    }

    fn pipeline_builder(&mut self, b: BuildHook) {
        match self.pipeline_builder {
            HookSlot::Consumed => {},
            _ => self.pipeline_builder = HookSlot::Registered(b),
        }
    }

    fn engine_builder(&mut self, b: BuildHook) {
        match self.engine_builder {
            HookSlot::Consumed => {},
            _ => self.engine_builder = HookSlot::Registered(b),
        }
    }

    fn rpc_builder(&mut self, b: BuildHook) {
        match self.rpc_builder {
            HookSlot::Consumed => {},
            _ => self.rpc_builder = HookSlot::Registered(b),
        }
    }

    fn build_ctx(&mut self) -> (ctx: ExtBuilderContext) {
        let core_ctx = self.core_ctx;
        self.ctx_builder.build_ctx(core_ctx, &self.components)
    }

    fn build_pipeline(&mut self) -> (r: Option<Result<(), BuildError>>) {
        self.run_stage(BuildStageKind::Pipeline)
    }

    fn build_engine(&mut self) -> (r: Option<Result<(), BuildError>>) {
        self.run_stage(BuildStageKind::Engine)
    }

    fn build_rpc(&mut self) -> (r: Option<Result<(), BuildError>>) {
        self.run_stage(BuildStageKind::Rpc)
    }

    fn on_rpc_started(&mut self, hook: RpcStartedHook) {
        self.rpc_add_ons.push(hook);
    }
}

/// A driver that runs a whole build to completion.
pub trait NodeComponentsBuilderExt: Sized {
    /// Runs the build: pipeline, then engine, then rpc, each at most once,
    /// then the post-start hooks; the first primary failure aborts the rest.
    /// On success, yields the core node handle of the finished container.
    fn build(self, stage: &mut ExtComponentsBuildStage) -> (r: Result<NodeHandle, BuildError>)
        ensures
            final(stage)@ == run_model(old(stage)@).0,
            r == run_model(old(stage)@).1,
    ;
}

/// The standard whole-build driver.
#[derive(Clone, Copy, Debug, Default)]
pub struct NodeComponentsExtBuild;

impl NodeComponentsBuilderExt for NodeComponentsExtBuild {
    fn build(self, stage: &mut ExtComponentsBuildStage) -> (r: Result<NodeHandle, BuildError>) {
        match stage.state {
            BuildState::Complete => Ok(stage.components.node()),
            BuildState::Failed(e) => Err(e),
            _ => {
                let _ = stage.build_pipeline();
                let _ = stage.build_engine();
                let _ = stage.build_rpc();
                match stage.state {
                    BuildState::Failed(e) => Err(e),
                    _ => {
                        stage.run_post_start();
                        Ok(stage.components.node())
                    },
                }
            },
        }
    }
}

/// With no hooks registered at all, running the build succeeds immediately:
/// the container comes back with every extension slot still empty, and no
/// hook invocation is recorded.
pub proof fn lemma_build_without_hooks(s: StageModel)
    requires
        s.state is PipelinePending,
        s.pipeline_builder is Absent,
        s.engine_builder is Absent,
        s.rpc_builder is Absent,
        s.rpc_add_ons.len() == 0,
        s.components.pipeline is None,
        s.components.engine is None,
        s.components.rpc is None,
    ensures
        run_model(s).1 == Ok::<NodeHandle, BuildError>(s.components.core),
        run_model(s).0.state is Complete,
        run_model(s).0.components == s.components,
        run_model(s).0.components.pipeline is None,
        run_model(s).0.components.engine is None,
        run_model(s).0.components.rpc is None,
        run_model(s).0.log == s.log,
        run_model(s).0.post_start_results == s.post_start_results,
{
    assert(post_records(s.rpc_add_ons) =~= Seq::<PostStartRecord>::empty());
    assert(s.post_start_results + post_records(s.rpc_add_ons) =~= s.post_start_results);
}

/// Running the build is idempotent: a build ends in a terminal state, and a
/// second invocation changes nothing — in particular it appends no record,
/// so no hook, primary or post-start, ever runs a second time — and reports
/// the same outcome.  Together with the consumed-slot transition inside
/// [`stage_step`], this is the at-most-once law for every registered hook
/// across any number of build invocations.
pub proof fn lemma_run_at_most_once(s: StageModel)
    ensures
        run_model(s).0.state is Complete || run_model(s).0.state is Failed,
        run_model(run_model(s).0) == run_model(s),
        run_model(run_model(s).0).0.log == run_model(s).0.log,
        (s.state is PipelinePending && run_model(s).0.state is Complete) ==> {
            &&& !(run_model(s).0.pipeline_builder is Registered)
            &&& !(run_model(s).0.engine_builder is Registered)
            &&& !(run_model(s).0.rpc_builder is Registered)
        },
{
}

/// The rank of a stage in the fixed execution order.
pub open spec fn stage_rank(k: BuildStageKind) -> int {
    match k {
        BuildStageKind::Pipeline => 0,
        BuildStageKind::Engine => 1,
        BuildStageKind::Rpc => 2,
    }
}

/// Hooks execute in the fixed order pipeline, then engine, then rpc,
/// whatever the order in which they were registered: the build appends at
/// most one record per stage, the records it appends are strictly ordered by
/// stage rank, and nothing already recorded is disturbed.
pub proof fn lemma_fixed_execution_order(s: StageModel)
    ensures
        run_model(s).0.log.len() <= s.log.len() + 3,
        forall|i: int| 0 <= i < s.log.len() ==> run_model(s).0.log[i] == s.log[i],
        forall|i: int, j: int|
            s.log.len() <= i < j < run_model(s).0.log.len() ==> stage_rank(
                #[trigger] run_model(s).0.log[i].stage,
            ) < stage_rank(#[trigger] run_model(s).0.log[j].stage),
{
}

/// If the pipeline hook fails, neither the engine hook nor the rpc hook is
/// ever invoked — their slots are left untouched and no record of them is
/// appended — no component slot is filled, no post-start hook runs, and the
/// reported failure identifies the pipeline stage and the hook's cause.
pub proof fn lemma_pipeline_failure_stops_build(s: StageModel, h: BuildHook)
    requires
        s.state is PipelinePending,
        s.pipeline_builder == HookSlot::Registered(h),
        h.fails,
    ensures
        run_model(s).1 == Err::<NodeHandle, BuildError>(BuildError {
            stage: BuildStageKind::Pipeline,
            code: h.error_code,
        }),
        run_model(s).0.state == BuildState::Failed(BuildError {
            stage: BuildStageKind::Pipeline,
            code: h.error_code,
        }),
        run_model(s).0.engine_builder == s.engine_builder,
        run_model(s).0.rpc_builder == s.rpc_builder,
        run_model(s).0.components == s.components,
        run_model(s).0.post_start_results == s.post_start_results,
        run_model(s).0.log == s.log.push(RunRecord {
            stage: BuildStageKind::Pipeline,
            hook_id: h.id,
            ctx: ctx_model(s.core_ctx, s.components, ShutdownRx::spec_empty()),
            ok: false,
        }),
{
}

/// The engine's shutdown-signal receiver is handed off at most once: after
/// one recovery, the location that held it reads as the empty receiver, and
/// a second recovery yields the empty receiver.
pub proof fn lemma_shutdown_rx_handed_off_once(c: WithComponentsExt)
    ensures
        take_rx_model(take_rx_model(c).1).0 == ShutdownRx::spec_empty(),
        take_rx_model(c).1.engine is Some ==> take_rx_model(c).1.engine.unwrap().shutdown_rx.is_empty(),
        take_rx_model(c).1.engine is None && take_rx_model(c).1.engine_shutdown_rx is Some
            ==> take_rx_model(c).1.engine_shutdown_rx.unwrap().is_empty(),
        c.engine matches Some(e) ==> take_rx_model(c).0 == e.shutdown_rx,
        (c.engine is None && c.engine_shutdown_rx is Some) ==> take_rx_model(c).0
            == c.engine_shutdown_rx.unwrap(),
{
}

/// Once the rpc stage succeeds, every registered post-start hook runs,
/// exactly once each and in registration order; a failure of one is
/// recorded but never prevents the others from running.
pub proof fn lemma_post_start_hooks_all_run(s: StageModel)
    requires
        !(s.state is Complete),
        !(s.state is Failed),
        run_model(s).1 is Ok,
    ensures
        run_model(s).0.post_start_results == s.post_start_results + post_records(s.rpc_add_ons),
        run_model(s).0.post_start_results.len() == s.post_start_results.len() + s.rpc_add_ons.len(),
        forall|i: int|
            0 <= i < s.rpc_add_ons.len() ==> run_model(s).0.post_start_results[s.post_start_results.len() + i]
                == post_record(#[trigger] s.rpc_add_ons[i]),
{
}

/// Each hook receives a freshly derived context: the pipeline hook sees
/// every extension slot still empty, the engine hook's context reflects the
/// component the pipeline hook installed, and the rpc hook's context
/// reflects both, together with the launch configuration and, for the
/// engine, the recovered shutdown-signal receiver.
pub proof fn lemma_context_reflects_prior_stages(
    s: StageModel,
    ph: BuildHook,
    eh: BuildHook,
    rh: BuildHook,
)
    requires
        s.state is PipelinePending,
        s.pipeline_builder == HookSlot::Registered(ph),
        s.engine_builder == HookSlot::Registered(eh),
        s.rpc_builder == HookSlot::Registered(rh),
        !ph.fails,
        !eh.fails,
        !rh.fails,
        s.components.pipeline is None,
        s.components.engine is None,
        s.components.rpc is None,
    ensures
        run_model(s).0.log.len() == s.log.len() + 3,
        run_model(s).0.log[s.log.len() as int].ctx == ctx_model(
            s.core_ctx,
            s.components,
            ShutdownRx::spec_empty(),
        ),
        run_model(s).0.log[s.log.len() as int + 1].ctx.pipeline == Some(PipelineComponent {
            id: ph.component_id,
        }),
        run_model(s).0.log[s.log.len() as int + 1].ctx.engine_shutdown_rx == take_rx_model(
            fill_model(s.components, BuildStageKind::Pipeline, ph, ShutdownRx::spec_empty()),
        ).0,
        run_model(s).0.log[s.log.len() as int + 2].ctx.pipeline == Some(PipelineComponent {
            id: ph.component_id,
        }),
        run_model(s).0.log[s.log.len() as int + 2].ctx.engine is Some,
        run_model(s).0.log[s.log.len() as int + 2].ctx.engine.unwrap().id == eh.component_id,
{
}

/// A slot once filled is never cleared: whatever the build does, a container
/// slot holding a component still holds one afterwards.
pub proof fn lemma_filled_slots_never_cleared(s: StageModel)
    ensures
        s.components.pipeline is Some ==> run_model(s).0.components.pipeline is Some,
        s.components.engine is Some ==> run_model(s).0.components.engine is Some,
        s.components.rpc is Some ==> run_model(s).0.components.rpc is Some,
{
}

} // verus!
