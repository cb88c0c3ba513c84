//! Creation and teardown order of the renderer's resources.
//!
//! A [`ResourceLedger`] records which resources exist.  Its plans create in
//! the order of [`Resource::rank`] and destroy in the reverse order, and they
//! never destroy what does not exist: recreating the swapchain any number of
//! times in a row frees each object once.

use vstd::prelude::*;

verus! {

/// What the renderer creates, in the order of creation.
#[derive(Clone, Copy, Debug, PartialEq, Eq, Structural)]
pub enum Resource {
    Instance,
    DebugMessenger,
    Surface,
    Device,
    Swapchain,
    SwapchainImageViews,
    RenderPass,
    CommandPool,
    DescriptorSetLayout,
    PipelineLayout,
    Pipelines,
    ColorResources,
    DepthResources,
    Framebuffers,
    TextureImage,
    TextureImageView,
    TextureSampler,
    VertexBuffer,
    IndexBuffer,
    UniformBuffers,
    DescriptorPool,
    DescriptorSets,
    CommandBuffers,
    FrameSync,
}

/// Number of variants of [`Resource`].
pub const RESOURCE_COUNT: usize = 24;

impl Resource {
    /// Position in the order of creation.
    pub open spec fn spec_rank(self) -> nat {
        match self {
            Resource::Instance => 0,
            Resource::DebugMessenger => 1,
            Resource::Surface => 2,
            Resource::Device => 3,
            Resource::Swapchain => 4,
            Resource::SwapchainImageViews => 5,
            Resource::RenderPass => 6,
            Resource::CommandPool => 7,
            Resource::DescriptorSetLayout => 8,
            Resource::PipelineLayout => 9,
            Resource::Pipelines => 10,
            Resource::ColorResources => 11,
            Resource::DepthResources => 12,
            Resource::Framebuffers => 13,
            Resource::TextureImage => 14,
            Resource::TextureImageView => 15,
            Resource::TextureSampler => 16,
            Resource::VertexBuffer => 17,
            Resource::IndexBuffer => 18,
            Resource::UniformBuffers => 19,
            Resource::DescriptorPool => 20,
            Resource::DescriptorSets => 21,
            Resource::CommandBuffers => 22,
            Resource::FrameSync => 23,
        }
    }

    /// The resource created at position `rank`; `rank` is below
    /// `RESOURCE_COUNT`.
    pub open spec fn spec_at(rank: nat) -> Resource {
        if rank == 0 {
            Resource::Instance
        } else if rank == 1 {
            Resource::DebugMessenger
        } else if rank == 2 {
            Resource::Surface
        } else if rank == 3 {
            Resource::Device
        } else if rank == 4 {
            Resource::Swapchain
        } else if rank == 5 {
            Resource::SwapchainImageViews
        } else if rank == 6 {
            Resource::RenderPass
        } else if rank == 7 {
            Resource::CommandPool
        } else if rank == 8 {
            Resource::DescriptorSetLayout
        } else if rank == 9 {
            Resource::PipelineLayout
        } else if rank == 10 {
            Resource::Pipelines
        } else if rank == 11 {
            Resource::ColorResources
        } else if rank == 12 {
            Resource::DepthResources
        } else if rank == 13 {
            Resource::Framebuffers
        } else if rank == 14 {
            Resource::TextureImage
        } else if rank == 15 {
            Resource::TextureImageView
        } else if rank == 16 {
            Resource::TextureSampler
        } else if rank == 17 {
            Resource::VertexBuffer
        } else if rank == 18 {
            Resource::IndexBuffer
        } else if rank == 19 {
            Resource::UniformBuffers
        } else if rank == 20 {
            Resource::DescriptorPool
        } else if rank == 21 {
            Resource::DescriptorSets
        } else if rank == 22 {
            Resource::CommandBuffers
        } else {
            Resource::FrameSync
        }
    }

    /// The resource is built for one swapchain and replaced with it.
    pub open spec fn spec_is_swapchain_dependent(self) -> bool {
        match self {
            Resource::Swapchain
            | Resource::SwapchainImageViews
            | Resource::RenderPass
            | Resource::PipelineLayout
            | Resource::Pipelines
            | Resource::ColorResources
            | Resource::DepthResources
            | Resource::Framebuffers
            | Resource::UniformBuffers
            | Resource::DescriptorPool
            | Resource::DescriptorSets
            | Resource::CommandBuffers => true,
            _ => false,
        }
    }

    /// Position in the order of creation.
    pub fn rank(self) -> (rank: usize)
        ensures
            rank == self.spec_rank(),
            rank < RESOURCE_COUNT,
            Resource::spec_at(rank as nat) == self,
    {
        match self {
            Resource::Instance => 0,
            Resource::DebugMessenger => 1,
            Resource::Surface => 2,
            Resource::Device => 3,
            Resource::Swapchain => 4,
            Resource::SwapchainImageViews => 5,
            Resource::RenderPass => 6,
            Resource::CommandPool => 7,
            Resource::DescriptorSetLayout => 8,
            Resource::PipelineLayout => 9,
            Resource::Pipelines => 10,
            Resource::ColorResources => 11,
            Resource::DepthResources => 12,
            Resource::Framebuffers => 13,
            Resource::TextureImage => 14,
            Resource::TextureImageView => 15,
            Resource::TextureSampler => 16,
            Resource::VertexBuffer => 17,
            Resource::IndexBuffer => 18,
            Resource::UniformBuffers => 19,
            Resource::DescriptorPool => 20,
            Resource::DescriptorSets => 21,
            Resource::CommandBuffers => 22,
            Resource::FrameSync => 23,
        }
    }

    /// The resource created at position `rank`, if there is one.
    pub fn at(rank: usize) -> (resource: Option<Resource>)
        ensures
            resource == if rank < RESOURCE_COUNT {
                Some(Resource::spec_at(rank as nat))
            } else {
                None
            },
            resource matches Some(r) ==> r.spec_rank() == rank,
    {
        if rank == 0 {
            Some(Resource::Instance)
        } else if rank == 1 {
            Some(Resource::DebugMessenger)
        } else if rank == 2 {
            Some(Resource::Surface)
        } else if rank == 3 {
            Some(Resource::Device)
        } else if rank == 4 {
            Some(Resource::Swapchain)
        } else if rank == 5 {
            Some(Resource::SwapchainImageViews)
        } else if rank == 6 {
            Some(Resource::RenderPass)
        } else if rank == 7 {
            Some(Resource::CommandPool)
        } else if rank == 8 {
            Some(Resource::DescriptorSetLayout)
        } else if rank == 9 {
            Some(Resource::PipelineLayout)
        } else if rank == 10 {
            Some(Resource::Pipelines)
        } else if rank == 11 {
            Some(Resource::ColorResources)
        } else if rank == 12 {
            Some(Resource::DepthResources)
        } else if rank == 13 {
            Some(Resource::Framebuffers)
        } else if rank == 14 {
            Some(Resource::TextureImage)
        } else if rank == 15 {
            Some(Resource::TextureImageView)
        } else if rank == 16 {
            Some(Resource::TextureSampler)
        } else if rank == 17 {
            Some(Resource::VertexBuffer)
        } else if rank == 18 {
            Some(Resource::IndexBuffer)
        } else if rank == 19 {
            Some(Resource::UniformBuffers)
        } else if rank == 20 {
            Some(Resource::DescriptorPool)
        } else if rank == 21 {
            Some(Resource::DescriptorSets)
        } else if rank == 22 {
            Some(Resource::CommandBuffers)
        } else if rank == 23 {
            Some(Resource::FrameSync)
        } else {
            None
        }
    }

    /// The resource is built for one swapchain and replaced with it.
    #[verifier::when_used_as_spec(spec_is_swapchain_dependent)]
    pub fn is_swapchain_dependent(self) -> (dependent: bool)
        ensures
            dependent == self.spec_is_swapchain_dependent(),
    {
        match self {
            Resource::Swapchain
            | Resource::SwapchainImageViews
            | Resource::RenderPass
            | Resource::PipelineLayout
            | Resource::Pipelines
            | Resource::ColorResources
            | Resource::DepthResources
            | Resource::Framebuffers
            | Resource::UniformBuffers
            | Resource::DescriptorPool
            | Resource::DescriptorSets
            | Resource::CommandBuffers => true,
            _ => false,
        }
    }
}

/// `rank` and `at` are inverse to each other.
pub proof fn lemma_rank_at_inverse()
    ensures
        forall|r: Resource|
            (#[trigger] r.spec_rank()) < RESOURCE_COUNT && Resource::spec_at(r.spec_rank()) == r,
        forall|k: nat|
            k < RESOURCE_COUNT ==> (#[trigger] Resource::spec_at(k)).spec_rank() == k,
{
}

/// One thing the host does to its resources.
#[derive(Clone, Copy, Debug, PartialEq, Eq, Structural)]
pub enum LifecycleStep {
    /// Wait until the device has finished all submitted work.
    WaitIdle,
    /// Destroy or free `resource`.
    Destroy { resource: Resource },
    /// Create `resource`.
    Create { resource: Resource },
}

/// Which resources a plan covers.
#[derive(Clone, Copy, Debug, PartialEq, Eq, Structural)]
pub enum Scope {
    /// The resources that depend on the swapchain.
    Swapchain,
    /// Every resource.
    Everything,
}

impl Scope {
    /// The scope covers the resource at `rank`.
    pub open spec fn covers(self, rank: nat) -> bool {
        self is Everything || Resource::spec_at(rank).spec_is_swapchain_dependent()
    }
}

/// `live[k]` says whether the resource of rank `k` exists.
pub type Liveness = Seq<bool>;

/// `step` may be taken when `live` holds.
///
/// A resource is destroyed only while it exists, and only after every
/// swapchain-dependent resource created after it is gone; a resource that
/// outlives swapchains only after everything created after it is gone.  A
/// resource is created only while it does not exist and everything created
/// before it does.  Waiting for the device needs the device.
pub open spec fn step_allowed(live: Liveness, step: LifecycleStep) -> bool {
    match step {
        LifecycleStep::WaitIdle => live[Resource::Device.spec_rank() as int],
        LifecycleStep::Destroy { resource } => {
            &&& live[resource.spec_rank() as int]
            &&& forall|k: int|
                resource.spec_rank() < k < live.len() && #[trigger] live[k] ==> !Scope::Swapchain.covers(k as nat)
                    && resource.spec_is_swapchain_dependent()
        },
        LifecycleStep::Create { resource } => {
            &&& !live[resource.spec_rank() as int]
            &&& forall|k: int| 0 <= k < resource.spec_rank() ==> #[trigger] live[k]
        },
    }
}

/// What holds after `step`.
pub open spec fn apply_step(live: Liveness, step: LifecycleStep) -> Liveness {
    match step {
        LifecycleStep::WaitIdle => live,
        LifecycleStep::Destroy { resource } => live.update(resource.spec_rank() as int, false),
        LifecycleStep::Create { resource } => live.update(resource.spec_rank() as int, true),
    }
}

/// What holds after the steps of `plan`, taken in order.
pub open spec fn apply_plan(live: Liveness, plan: Seq<LifecycleStep>) -> Liveness
    decreases plan.len(),
{
    if plan.len() == 0 {
        live
    } else {
        apply_step(apply_plan(live, plan.drop_last()), plan.last())
    }
}

/// Every step of `plan` may be taken when its turn comes.  In particular no
/// step destroys what an earlier step destroyed, or what never existed.
pub open spec fn plan_safe(live: Liveness, plan: Seq<LifecycleStep>) -> bool
    decreases plan.len(),
{
    plan.len() == 0 || (plan_safe(live, plan.drop_last()) && step_allowed(
        apply_plan(live, plan.drop_last()),
        plan.last(),
    ))
}

/// The destroy steps for what exists, is covered by `scope` and has a rank
/// of at least `low`: the reverse of the order of creation.
pub open spec fn teardown_steps(live: Liveness, scope: Scope, low: nat) -> Seq<LifecycleStep>
    decreases RESOURCE_COUNT - low,
{
    if low >= RESOURCE_COUNT {
        Seq::empty()
    } else if live[low as int] && scope.covers(low) {
        teardown_steps(live, scope, low + 1).push(
            LifecycleStep::Destroy { resource: Resource::spec_at(low) },
        )
    } else {
        teardown_steps(live, scope, low + 1)
    }
}

/// The create steps for what does not exist, is covered by `scope` and has a
/// rank below `high`, in the order of creation.
pub open spec fn creation_steps(live: Liveness, scope: Scope, high: nat) -> Seq<LifecycleStep>
    decreases high,
{
    if high == 0 {
        Seq::empty()
    } else if !live[high - 1] && scope.covers((high - 1) as nat) {
        creation_steps(live, scope, (high - 1) as nat).push(
            LifecycleStep::Create { resource: Resource::spec_at((high - 1) as nat) },
        )
    } else {
        creation_steps(live, scope, (high - 1) as nat)
    }
}

/// `live` once everything covered by `scope` with a rank of at least `low`
/// is gone.
pub open spec fn after_teardown(live: Liveness, scope: Scope, low: nat) -> Liveness {
    Seq::new(live.len(), |k: int| live[k] && !(k >= low && scope.covers(k as nat)))
}

/// `live` once everything covered by `scope` with a rank below `high`
/// exists.
pub open spec fn after_creation(live: Liveness, scope: Scope, high: nat) -> Liveness {
    Seq::new(live.len(), |k: int| live[k] || (k < high && scope.covers(k as nat)))
}

/// Every resource that outlives swapchains exists.
pub open spec fn device_ready(live: Liveness) -> bool {
    forall|k: int|
        0 <= k < live.len() && !Scope::Swapchain.covers(k as nat) ==> #[trigger] live[k]
}

/// Recreating the swapchain: wait for the device, destroy what depends on
/// the swapchain in reverse order of creation, create all of it again.
pub open spec fn rebuild_plan(live: Liveness) -> Seq<LifecycleStep> {
    seq![LifecycleStep::WaitIdle] + teardown_steps(live, Scope::Swapchain, 0) + creation_steps(
        after_teardown(live, Scope::Swapchain, 0),
        Scope::Swapchain,
        RESOURCE_COUNT as nat,
    )
}

/// Taking two plans one after the other is taking their concatenation.
pub proof fn lemma_plan_concat(live: Liveness, a: Seq<LifecycleStep>, b: Seq<LifecycleStep>)
    ensures
        apply_plan(live, a + b) == apply_plan(apply_plan(live, a), b),
        plan_safe(live, a + b) == (plan_safe(live, a) && plan_safe(apply_plan(live, a), b)),
    decreases b.len(),
{
    if b.len() == 0 {
        assert(a + b =~= a);
    } else {
        lemma_plan_concat(live, a, b.drop_last());
        assert((a + b).drop_last() =~= a + b.drop_last());
        assert((a + b).last() == b.last());
    }
}

/// A teardown may be taken from any state, and leaves exactly what it does
/// not cover.
pub proof fn lemma_teardown_safe(live: Liveness, scope: Scope, low: nat)
    requires
        live.len() == RESOURCE_COUNT,
    ensures
        plan_safe(live, teardown_steps(live, scope, low)),
        apply_plan(live, teardown_steps(live, scope, low)) == after_teardown(live, scope, low),
    decreases RESOURCE_COUNT - low,
{
    lemma_rank_at_inverse();
    if low >= RESOURCE_COUNT {
        assert(after_teardown(live, scope, low) =~= live);
    } else {
        lemma_teardown_safe(live, scope, low + 1);
        let before = after_teardown(live, scope, low + 1);
        if live[low as int] && scope.covers(low) {
            let resource = Resource::spec_at(low);
            let plan = teardown_steps(live, scope, low);
            assert(plan.drop_last() =~= teardown_steps(live, scope, low + 1));
            assert(plan.last() == LifecycleStep::Destroy { resource });
            assert(resource.spec_rank() == low);
            assert(step_allowed(before, plan.last()));
            assert(apply_step(before, plan.last()) =~= after_teardown(live, scope, low));
        } else {
            assert(before =~= after_teardown(live, scope, low));
        }
    }
}

/// A creation may be taken wherever everything of lower rank that it does
/// not cover exists, and then everything it covers exists.
pub proof fn lemma_creation_safe(live: Liveness, scope: Scope, high: nat)
    requires
        live.len() == RESOURCE_COUNT,
        high <= RESOURCE_COUNT,
        forall|k: int| 0 <= k < high && !scope.covers(k as nat) ==> #[trigger] live[k],
    ensures
        plan_safe(live, creation_steps(live, scope, high)),
        apply_plan(live, creation_steps(live, scope, high)) == after_creation(live, scope, high),
    decreases high,
{
    lemma_rank_at_inverse();
    if high == 0 {
        assert(after_creation(live, scope, high) =~= live);
    } else {
        let rank = (high - 1) as nat;
        lemma_creation_safe(live, scope, rank);
        let before = after_creation(live, scope, rank);
        if !live[rank as int] && scope.covers(rank) {
            let resource = Resource::spec_at(rank);
            let plan = creation_steps(live, scope, high);
            assert(plan.drop_last() =~= creation_steps(live, scope, rank));
            assert(plan.last() == LifecycleStep::Create { resource });
            assert(resource.spec_rank() == rank);
            assert(step_allowed(before, plan.last()));
            assert(apply_step(before, plan.last()) =~= after_creation(live, scope, high));
        } else {
            assert(before =~= after_creation(live, scope, high));
        }
    }
}

/// Where nothing that a teardown covers exists, it has no steps: tearing
/// down twice in a row destroys nothing the second time.
pub proof fn lemma_teardown_twice_is_empty(live: Liveness, scope: Scope, low: nat)
    requires
        live.len() == RESOURCE_COUNT,
    ensures
        teardown_steps(after_teardown(live, scope, 0), scope, low) == Seq::<LifecycleStep>::empty(),
    decreases RESOURCE_COUNT - low,
{
    if low < RESOURCE_COUNT {
        lemma_teardown_twice_is_empty(live, scope, low + 1);
    }
}

/// Where the resources that outlive swapchains exist, recreating the
/// swapchain may be taken step by step, and afterwards everything exists.
pub proof fn lemma_rebuild_safe(live: Liveness)
    requires
        live.len() == RESOURCE_COUNT,
        device_ready(live),
    ensures
        plan_safe(live, rebuild_plan(live)),
        apply_plan(live, rebuild_plan(live)) == Seq::new(RESOURCE_COUNT as nat, |k: int| true),
{
    let wait = seq![LifecycleStep::WaitIdle];
    let teardown = teardown_steps(live, Scope::Swapchain, 0);
    let torn = after_teardown(live, Scope::Swapchain, 0);
    let creation = creation_steps(torn, Scope::Swapchain, RESOURCE_COUNT as nat);
    assert(wait.drop_last() =~= Seq::<LifecycleStep>::empty());
    assert(plan_safe(live, wait.drop_last()));
    assert(apply_plan(live, wait.drop_last()) == live);
    assert(live[Resource::Device.spec_rank() as int]) by {
        assert(!Scope::Swapchain.covers(3));
    }
    assert(plan_safe(live, wait));
    assert(apply_plan(live, wait) == live);
    lemma_teardown_safe(live, Scope::Swapchain, 0);
    lemma_plan_concat(live, wait, teardown);
    lemma_creation_safe(torn, Scope::Swapchain, RESOURCE_COUNT as nat);
    lemma_plan_concat(live, wait + teardown, creation);
    assert(after_creation(torn, Scope::Swapchain, RESOURCE_COUNT as nat) =~= Seq::new(
        RESOURCE_COUNT as nat,
        |k: int| true,
    ));
}

/// A swapchain rebuild followed at once by another frees nothing twice: the
/// two plans, taken back to back, are safe, and the second leaves the
/// resources as the first did.
pub proof fn lemma_consecutive_rebuilds_safe(live: Liveness)
    requires
        live.len() == RESOURCE_COUNT,
        device_ready(live),
    ensures
        plan_safe(
            live,
            rebuild_plan(live) + rebuild_plan(apply_plan(live, rebuild_plan(live))),
        ),
        apply_plan(
            live,
            rebuild_plan(live) + rebuild_plan(apply_plan(live, rebuild_plan(live))),
        ) == apply_plan(live, rebuild_plan(live)),
{
    let first = rebuild_plan(live);
    let rebuilt = apply_plan(live, first);
    lemma_rebuild_safe(live);
    lemma_rebuild_safe(rebuilt);
    lemma_plan_concat(live, first, rebuild_plan(rebuilt));
}

/// What the host may ask a ledger for.
pub enum LedgerCall {
    Startup,
    Shutdown,
    DropSwapchain,
    RecreateSwapchain,
}

/// The plan a ledger in state `live` answers `call` with; no step where it
/// refuses to recreate the swapchain.
pub open spec fn call_plan(live: Liveness, call: LedgerCall) -> Seq<LifecycleStep> {
    match call {
        LedgerCall::Startup => creation_steps(live, Scope::Everything, RESOURCE_COUNT as nat),
        LedgerCall::Shutdown => teardown_steps(live, Scope::Everything, 0),
        LedgerCall::DropSwapchain => teardown_steps(live, Scope::Swapchain, 0),
        LedgerCall::RecreateSwapchain => if device_ready(live) {
            rebuild_plan(live)
        } else {
            Seq::empty()
        },
    }
}

/// All the steps a ledger that starts in state `live` hands out over the
/// calls of `calls`, in order.
pub open spec fn calls_plan(live: Liveness, calls: Seq<LedgerCall>) -> Seq<LifecycleStep>
    decreases calls.len(),
{
    if calls.len() == 0 {
        Seq::empty()
    } else {
        let before = calls_plan(live, calls.drop_last());
        before + call_plan(apply_plan(live, before), calls.last())
    }
}

/// Whatever the host asks a ledger for, and in whatever order, the steps it
/// is handed may be taken one after the other: nothing is destroyed that
/// does not exist, so nothing is freed twice.
pub proof fn lemma_any_calls_safe(live: Liveness, calls: Seq<LedgerCall>)
    requires
        live.len() == RESOURCE_COUNT,
    ensures
        plan_safe(live, calls_plan(live, calls)),
        apply_plan(live, calls_plan(live, calls)).len() == RESOURCE_COUNT,
    decreases calls.len(),
{
    if calls.len() > 0 {
        let before = calls_plan(live, calls.drop_last());
        lemma_any_calls_safe(live, calls.drop_last());
        let state = apply_plan(live, before);
        let plan = call_plan(state, calls.last());
        match calls.last() {
            LedgerCall::Startup => {
                lemma_creation_safe(state, Scope::Everything, RESOURCE_COUNT as nat);
            },
            LedgerCall::Shutdown => {
                lemma_teardown_safe(state, Scope::Everything, 0);
            },
            LedgerCall::DropSwapchain => {
                lemma_teardown_safe(state, Scope::Swapchain, 0);
            },
            LedgerCall::RecreateSwapchain => {
                if device_ready(state) {
                    lemma_rebuild_safe(state);
                }
            },
        }
        lemma_plan_concat(live, before, plan);
    }
}

/// Which of the renderer's resources exist.
pub struct ResourceLedger {
    live: Vec<bool>,
}

impl View for ResourceLedger {
    type V = Liveness;

    closed spec fn view(&self) -> Liveness {
        self.live@
    }
}

/// The scope covers `resource`.
fn scope_covers(scope: Scope, resource: Resource) -> (covered: bool)
    ensures
        covered == scope.covers(resource.spec_rank()),
{
    proof {
        lemma_rank_at_inverse();
    }
    match scope {
        Scope::Everything => true,
        Scope::Swapchain => resource.is_swapchain_dependent(),
    }
}

/// An owned copy of `live`.
fn copy_liveness(live: &Vec<bool>) -> (copy: Vec<bool>)
    ensures
        copy@ == live@,
{
    let mut copy: Vec<bool> = Vec::new();
    let mut i: usize = 0;
    while i < live.len()
        invariant
            i <= live@.len(),
            copy@ == live@.take(i as int),
        decreases live@.len() - i,
    {
        copy.push(live[i]);
        assert(copy@ =~= live@.take(i + 1));
        i = i + 1;
    }
    assert(live@.take(live@.len() as int) =~= live@);
    copy
}

/// Appends to `plan` the destroy steps for what `live` holds and `scope`
/// covers, highest rank first, and marks each as gone.
fn push_teardown(live: &mut Vec<bool>, scope: Scope, plan: &mut Vec<LifecycleStep>)
    requires
        old(live)@.len() == RESOURCE_COUNT,
    ensures
        final(plan)@ == old(plan)@ + teardown_steps(old(live)@, scope, 0),
        final(live)@ == after_teardown(old(live)@, scope, 0),
{
    let ghost start = live@;
    let ghost prefix = plan@;
    let mut rank: usize = RESOURCE_COUNT;
    assert(after_teardown(start, scope, rank as nat) =~= start);
    assert(prefix + teardown_steps(start, scope, rank as nat) =~= prefix);
    while rank > 0
        invariant
            rank <= RESOURCE_COUNT,
            start.len() == RESOURCE_COUNT,
            live@ == after_teardown(start, scope, rank as nat),
            plan@ == prefix + teardown_steps(start, scope, rank as nat),
        decreases rank,
    {
        rank = rank - 1;
        let resource = Resource::at(rank).unwrap();
        let covered = scope_covers(scope, resource);
        if live[rank] && covered {
            plan.push(LifecycleStep::Destroy { resource });
            live.set(rank, false);
            assert(plan@ =~= prefix + teardown_steps(start, scope, rank as nat));
        }
        assert(live@ =~= after_teardown(start, scope, rank as nat));
    }
}

/// Appends to `plan` the create steps for what `live` lacks and `scope`
/// covers, lowest rank first, and marks each as existing.
fn push_creation(live: &mut Vec<bool>, scope: Scope, plan: &mut Vec<LifecycleStep>)
    requires
        old(live)@.len() == RESOURCE_COUNT,
    ensures
        final(plan)@ == old(plan)@ + creation_steps(
            old(live)@,
            scope,
            RESOURCE_COUNT as nat,
        ),
        final(live)@ == after_creation(old(live)@, scope, RESOURCE_COUNT as nat),
{
    let ghost start = live@;
    let ghost prefix = plan@;
    let mut rank: usize = 0;
    assert(after_creation(start, scope, rank as nat) =~= start);
    assert(prefix + creation_steps(start, scope, rank as nat) =~= prefix);
    while rank < RESOURCE_COUNT
        invariant
            rank <= RESOURCE_COUNT,
            start.len() == RESOURCE_COUNT,
            live@ == after_creation(start, scope, rank as nat),
            plan@ == prefix + creation_steps(start, scope, rank as nat),
        decreases RESOURCE_COUNT - rank,
    {
        let resource = Resource::at(rank).unwrap();
        let covered = scope_covers(scope, resource);
        if !live[rank] && covered {
            plan.push(LifecycleStep::Create { resource });
            live.set(rank, true);
            assert(plan@ =~= prefix + creation_steps(start, scope, (rank + 1) as nat));
        }
        assert(live@ =~= after_creation(start, scope, (rank + 1) as nat));
        rank = rank + 1;
    }
}

impl ResourceLedger {
    #[verifier::type_invariant]
    spec fn inv(&self) -> bool {
        self.live@.len() == RESOURCE_COUNT
    }

    /// A ledger in which nothing exists.
    pub fn new() -> (ledger: ResourceLedger)
        ensures
            ledger@ == Seq::new(RESOURCE_COUNT as nat, |k: int| false),
    {
        let mut live: Vec<bool> = Vec::new();
        let mut i: usize = 0;
        while i < RESOURCE_COUNT
            invariant
                i <= RESOURCE_COUNT,
                live@ == Seq::new(i as nat, |k: int| false),
            decreases RESOURCE_COUNT - i,
        {
            live.push(false);
            assert(live@ =~= Seq::new((i + 1) as nat, |k: int| false));
            i = i + 1;
        }
        ResourceLedger { live }
    }

    /// `resource` exists.
    pub fn is_live(&self, resource: Resource) -> (live: bool)
        ensures
            self@.len() == RESOURCE_COUNT,
            live == self@[resource.spec_rank() as int],
    {
        proof {
            use_type_invariant(self);
        }
        self.live[resource.rank()]
    }

    /// Every resource that outlives swapchains exists.
    pub fn is_device_ready(&self) -> (ready: bool)
        ensures
            ready == device_ready(self@),
    {
        proof {
            use_type_invariant(self);
            lemma_rank_at_inverse();
        }
        let mut rank: usize = 0;
        while rank < RESOURCE_COUNT
            invariant
                rank <= RESOURCE_COUNT,
                self.live@.len() == RESOURCE_COUNT,
                forall|k: int|
                    0 <= k < rank && !Scope::Swapchain.covers(k as nat) ==> #[trigger] self.live@[k],
            decreases RESOURCE_COUNT - rank,
        {
            let resource = Resource::at(rank).unwrap();
            if !resource.is_swapchain_dependent() && !self.live[rank] {
                return false;
            }
            rank = rank + 1;
        }
        true
    }

    /// Bringing the renderer up: the create steps for everything that does
    /// not exist yet, in the order of creation.
    pub fn startup(&mut self) -> (plan: Vec<LifecycleStep>)
        ensures
            plan@ == creation_steps(old(self)@, Scope::Everything, RESOURCE_COUNT as nat),
            plan_safe(old(self)@, plan@),
            final(self)@ == apply_plan(old(self)@, plan@),
            final(self)@ == Seq::new(RESOURCE_COUNT as nat, |k: int| true),
    {
        proof {
            use_type_invariant(&*self);
            lemma_creation_safe(self@, Scope::Everything, RESOURCE_COUNT as nat);
        }
        let mut live = copy_liveness(&self.live);
        let mut plan: Vec<LifecycleStep> = Vec::new();
        push_creation(&mut live, Scope::Everything, &mut plan);
        assert(plan@ =~= creation_steps(old(self)@, Scope::Everything, RESOURCE_COUNT as nat));
        assert(live@ =~= Seq::new(RESOURCE_COUNT as nat, |k: int| true));
        *self = ResourceLedger { live };
        plan
    }

    /// Shutting the renderer down: the destroy steps for everything that
    /// exists, in reverse order of creation.
    pub fn shutdown(&mut self) -> (plan: Vec<LifecycleStep>)
        ensures
            plan@ == teardown_steps(old(self)@, Scope::Everything, 0),
            plan_safe(old(self)@, plan@),
            final(self)@ == apply_plan(old(self)@, plan@),
            final(self)@ == Seq::new(RESOURCE_COUNT as nat, |k: int| false),
    {
        proof {
            use_type_invariant(&*self);
            lemma_teardown_safe(self@, Scope::Everything, 0);
        }
        let mut live = copy_liveness(&self.live);
        let mut plan: Vec<LifecycleStep> = Vec::new();
        push_teardown(&mut live, Scope::Everything, &mut plan);
        assert(plan@ =~= teardown_steps(old(self)@, Scope::Everything, 0));
        assert(live@ =~= Seq::new(RESOURCE_COUNT as nat, |k: int| false));
        *self = ResourceLedger { live };
        plan
    }

    /// The destroy steps for what depends on the swapchain and exists, in
    /// reverse order of creation.  Called again before anything is created,
    /// it returns no step.
    pub fn drop_swapchain(&mut self) -> (plan: Vec<LifecycleStep>)
        ensures
            plan@ == teardown_steps(old(self)@, Scope::Swapchain, 0),
            plan_safe(old(self)@, plan@),
            final(self)@ == apply_plan(old(self)@, plan@),
            final(self)@ == after_teardown(old(self)@, Scope::Swapchain, 0),
    {
        proof {
            use_type_invariant(&*self);
            lemma_teardown_safe(self@, Scope::Swapchain, 0);
        }
        let mut live = copy_liveness(&self.live);
        let mut plan: Vec<LifecycleStep> = Vec::new();
        push_teardown(&mut live, Scope::Swapchain, &mut plan);
        assert(plan@ =~= teardown_steps(old(self)@, Scope::Swapchain, 0));
        *self = ResourceLedger { live };
        plan
    }

    /// Recreating the swapchain: wait for the device, tear down what depends
    /// on the swapchain, create all of it again.  `None`, with the ledger
    /// unchanged, where a resource that outlives swapchains is missing.
    pub fn recreate_swapchain(&mut self) -> (plan: Option<Vec<LifecycleStep>>)
        ensures
            plan is Some <==> device_ready(old(self)@),
            plan matches Some(steps) ==> {
                &&& steps@ == rebuild_plan(old(self)@)
                &&& plan_safe(old(self)@, steps@)
                &&& final(self)@ == apply_plan(old(self)@, steps@)
                &&& final(self)@ == Seq::new(RESOURCE_COUNT as nat, |k: int| true)
            },
            plan is None ==> final(self)@ == old(self)@,
    {
        proof {
            use_type_invariant(&*self);
        }
        if !self.is_device_ready() {
            return None;
        }
        proof {
            lemma_rebuild_safe(self@);
        }
        let mut live = copy_liveness(&self.live);
        let mut steps: Vec<LifecycleStep> = Vec::new();
        steps.push(LifecycleStep::WaitIdle);
        assert(steps@ =~= seq![LifecycleStep::WaitIdle]);
        push_teardown(&mut live, Scope::Swapchain, &mut steps);
        push_creation(&mut live, Scope::Swapchain, &mut steps);
        assert(live@ =~= Seq::new(RESOURCE_COUNT as nat, |k: int| true));
        *self = ResourceLedger { live };
        Some(steps)
    }
}

} // verus!
