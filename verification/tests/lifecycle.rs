use frame_presenter::lifecycle::{LifecycleStep, Resource, ResourceLedger, RESOURCE_COUNT};

const CREATION_ORDER: [Resource; 24] = [
    Resource::Instance,
    Resource::DebugMessenger,
    Resource::Surface,
    Resource::Device,
    Resource::Swapchain,
    Resource::SwapchainImageViews,
    Resource::RenderPass,
    Resource::CommandPool,
    Resource::DescriptorSetLayout,
    Resource::PipelineLayout,
    Resource::Pipelines,
    Resource::ColorResources,
    Resource::DepthResources,
    Resource::Framebuffers,
    Resource::TextureImage,
    Resource::TextureImageView,
    Resource::TextureSampler,
    Resource::VertexBuffer,
    Resource::IndexBuffer,
    Resource::UniformBuffers,
    Resource::DescriptorPool,
    Resource::DescriptorSets,
    Resource::CommandBuffers,
    Resource::FrameSync,
];

const SWAPCHAIN_DEPENDENT: [Resource; 12] = [
    Resource::Swapchain,
    Resource::SwapchainImageViews,
    Resource::RenderPass,
    Resource::PipelineLayout,
    Resource::Pipelines,
    Resource::ColorResources,
    Resource::DepthResources,
    Resource::Framebuffers,
    Resource::UniformBuffers,
    Resource::DescriptorPool,
    Resource::DescriptorSets,
    Resource::CommandBuffers,
];

/// A stand-in for the driver: it panics on a double free, on a destroy of
/// what was never created and on a second create.
struct Driver {
    exists: Vec<bool>,
    destroyed: usize,
}

impl Driver {
    fn new() -> Driver {
        Driver { exists: vec![false; RESOURCE_COUNT], destroyed: 0 }
    }

    fn run(&mut self, plan: &[LifecycleStep]) {
        for step in plan {
            match *step {
                LifecycleStep::WaitIdle => assert!(self.exists[Resource::Device.rank()]),
                LifecycleStep::Create { resource } => {
                    assert!(!self.exists[resource.rank()], "created twice: {:?}", resource);
                    self.exists[resource.rank()] = true;
                }
                LifecycleStep::Destroy { resource } => {
                    assert!(self.exists[resource.rank()], "freed twice: {:?}", resource);
                    self.exists[resource.rank()] = false;
                    self.destroyed += 1;
                }
            }
        }
    }
}

#[test]
fn rank_and_at_are_inverse() {
    assert_eq!(RESOURCE_COUNT, 24);
    for (rank, resource) in CREATION_ORDER.iter().enumerate() {
        assert_eq!(resource.rank(), rank);
        assert_eq!(Resource::at(rank), Some(*resource));
    }
    assert_eq!(Resource::at(RESOURCE_COUNT), None);
}

#[test]
fn swapchain_dependent_resources() {
    for resource in CREATION_ORDER.iter() {
        assert_eq!(resource.is_swapchain_dependent(), SWAPCHAIN_DEPENDENT.contains(resource));
    }
}

#[test]
fn startup_creates_everything_in_order() {
    let mut ledger = ResourceLedger::new();
    assert!(!ledger.is_device_ready());
    let plan = ledger.startup();
    let expected: Vec<LifecycleStep> =
        CREATION_ORDER.iter().map(|r| LifecycleStep::Create { resource: *r }).collect();
    assert_eq!(plan, expected);
    assert!(ledger.is_device_ready());
    for resource in CREATION_ORDER.iter() {
        assert!(ledger.is_live(*resource));
    }
    assert_eq!(ledger.startup(), vec![]);
}

#[test]
fn shutdown_destroys_everything_in_reverse_order() {
    let mut ledger = ResourceLedger::new();
    ledger.startup();
    let plan = ledger.shutdown();
    let expected: Vec<LifecycleStep> =
        CREATION_ORDER.iter().rev().map(|r| LifecycleStep::Destroy { resource: *r }).collect();
    assert_eq!(plan, expected);
    for resource in CREATION_ORDER.iter() {
        assert!(!ledger.is_live(*resource));
    }
    assert_eq!(ledger.shutdown(), vec![]);
}

#[test]
fn drop_swapchain_destroys_dependents_in_reverse_order() {
    let mut ledger = ResourceLedger::new();
    ledger.startup();
    let plan = ledger.drop_swapchain();
    let expected: Vec<LifecycleStep> = SWAPCHAIN_DEPENDENT
        .iter()
        .rev()
        .map(|r| LifecycleStep::Destroy { resource: *r })
        .collect();
    assert_eq!(plan, expected);
    assert!(!ledger.is_live(Resource::Swapchain));
    assert!(ledger.is_live(Resource::Device));
    assert!(ledger.is_live(Resource::TextureImage));
    assert!(ledger.is_device_ready());
}

#[test]
fn drop_swapchain_twice_destroys_nothing_the_second_time() {
    let mut ledger = ResourceLedger::new();
    ledger.startup();
    assert_eq!(ledger.drop_swapchain().len(), 12);
    assert_eq!(ledger.drop_swapchain(), vec![]);
}

#[test]
fn recreate_swapchain_waits_then_destroys_then_creates() {
    let mut ledger = ResourceLedger::new();
    ledger.startup();
    let plan = ledger.recreate_swapchain().unwrap();
    let mut expected = vec![LifecycleStep::WaitIdle];
    expected.extend(SWAPCHAIN_DEPENDENT.iter().rev().map(|r| LifecycleStep::Destroy { resource: *r }));
    expected.extend(SWAPCHAIN_DEPENDENT.iter().map(|r| LifecycleStep::Create { resource: *r }));
    assert_eq!(plan, expected);
    for resource in CREATION_ORDER.iter() {
        assert!(ledger.is_live(*resource));
    }
}

#[test]
fn recreate_after_drop_only_creates() {
    let mut ledger = ResourceLedger::new();
    ledger.startup();
    ledger.drop_swapchain();
    let plan = ledger.recreate_swapchain().unwrap();
    let mut expected = vec![LifecycleStep::WaitIdle];
    expected.extend(SWAPCHAIN_DEPENDENT.iter().map(|r| LifecycleStep::Create { resource: *r }));
    assert_eq!(plan, expected);
}

#[test]
fn recreate_without_device_is_refused() {
    let mut ledger = ResourceLedger::new();
    assert_eq!(ledger.recreate_swapchain(), None);
    assert!(!ledger.is_live(Resource::Swapchain));
    ledger.startup();
    ledger.shutdown();
    assert_eq!(ledger.recreate_swapchain(), None);
}

#[test]
fn consecutive_rebuilds_free_nothing_twice() {
    let mut ledger = ResourceLedger::new();
    let mut driver = Driver::new();
    driver.run(&ledger.startup());
    for _ in 0..3 {
        let plan = ledger.recreate_swapchain().unwrap();
        driver.run(&plan);
    }
    assert_eq!(driver.destroyed, 36);
    driver.run(&ledger.drop_swapchain());
    driver.run(&ledger.drop_swapchain());
    driver.run(&ledger.recreate_swapchain().unwrap());
    driver.run(&ledger.shutdown());
    assert_eq!(driver.exists, vec![false; RESOURCE_COUNT]);
    assert_eq!(driver.destroyed, 36 + 12 + 24);
}
