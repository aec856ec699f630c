//! The renderer's resources, the order in which they are created, and what
//! each of them is built on.

use vstd::prelude::*;

verus! {

/// One link of the chain of resources behind a swapchain-backed renderer.
#[derive(Clone, Copy, Debug, PartialEq, Eq, Structural)]
pub enum Resource {
    Instance,
    /// Only in a debugging build.
    DebugMessenger,
    Surface,
    PhysicalDevice,
    LogicalDevice,
    Swapchain,
    ImageViews,
    RenderPass,
    GraphicsPipeline,
    Framebuffers,
    CommandPool,
    CommandBuffer,
    SyncObjects,
}

/// `child` is built on `parent`: it borrows from it, and must be gone before
/// the parent goes.
pub open spec fn needs(child: Resource, parent: Resource) -> bool {
    match child {
        Resource::Instance => false,
        Resource::DebugMessenger => parent == Resource::Instance,
        Resource::Surface => parent == Resource::Instance,
        Resource::PhysicalDevice => parent == Resource::Instance || parent == Resource::Surface,
        Resource::LogicalDevice => parent == Resource::PhysicalDevice,
        Resource::Swapchain => parent == Resource::LogicalDevice || parent == Resource::Surface,
        Resource::ImageViews => parent == Resource::Swapchain,
        Resource::RenderPass => parent == Resource::LogicalDevice || parent == Resource::Swapchain,
        Resource::GraphicsPipeline => parent == Resource::RenderPass,
        Resource::Framebuffers => parent == Resource::ImageViews || parent == Resource::RenderPass,
        Resource::CommandPool => parent == Resource::LogicalDevice,
        Resource::CommandBuffer => parent == Resource::CommandPool,
        Resource::SyncObjects => parent == Resource::LogicalDevice,
    }
}

/// The resources in the order of their creation.
pub open spec fn spec_creation_order(debug: bool) -> Seq<Resource> {
    if debug {
        seq![
            Resource::Instance,
            Resource::DebugMessenger,
            Resource::Surface,
            Resource::PhysicalDevice,
            Resource::LogicalDevice,
            Resource::Swapchain,
            Resource::ImageViews,
            Resource::RenderPass,
            Resource::GraphicsPipeline,
            Resource::Framebuffers,
            Resource::CommandPool,
            Resource::CommandBuffer,
            Resource::SyncObjects,
        ]
    } else {
        seq![
            Resource::Instance,
            Resource::Surface,
            Resource::PhysicalDevice,
            Resource::LogicalDevice,
            Resource::Swapchain,
            Resource::ImageViews,
            Resource::RenderPass,
            Resource::GraphicsPipeline,
            Resource::Framebuffers,
            Resource::CommandPool,
            Resource::CommandBuffer,
            Resource::SyncObjects,
        ]
    }
}

/// Where a resource stands in the order of creation, or the order's length
/// for the debug messenger outside a debugging build.
pub open spec fn position(resource: Resource, debug: bool) -> int {
    let shift: int = if debug {
        1
    } else {
        0
    };
    match resource {
        Resource::Instance => 0,
        Resource::DebugMessenger => if debug {
            1
        } else {
            12
        },
        Resource::Surface => 1 + shift,
        Resource::PhysicalDevice => 2 + shift,
        Resource::LogicalDevice => 3 + shift,
        Resource::Swapchain => 4 + shift,
        Resource::ImageViews => 5 + shift,
        Resource::RenderPass => 6 + shift,
        Resource::GraphicsPipeline => 7 + shift,
        Resource::Framebuffers => 8 + shift,
        Resource::CommandPool => 9 + shift,
        Resource::CommandBuffer => 10 + shift,
        Resource::SyncObjects => 11 + shift,
    }
}

/// `position` is where each resource of the order stands, and the order
/// holds no resource twice.
pub proof fn lemma_position(debug: bool, i: int)
    requires
        0 <= i < spec_creation_order(debug).len(),
    ensures
        position(spec_creation_order(debug)[i], debug) == i,
{
}

/// In the order of creation every resource comes after all that it is built
/// on.
pub proof fn lemma_parents_come_first(debug: bool, i: int, parent: Resource)
    requires
        0 <= i < spec_creation_order(debug).len(),
        needs(spec_creation_order(debug)[i], parent),
    ensures
        0 <= position(parent, debug) < i,
        spec_creation_order(debug)[position(parent, debug)] == parent,
{
    lemma_position(debug, i);
}

/// The resources in the order of their creation.
pub fn creation_order(debug: bool) -> (order: Vec<Resource>)
    ensures
        order@ == spec_creation_order(debug),
{
    let mut order: Vec<Resource> = Vec::new();
    order.push(Resource::Instance);
    if debug {
        order.push(Resource::DebugMessenger);
    }
    order.push(Resource::Surface);
    order.push(Resource::PhysicalDevice);
    order.push(Resource::LogicalDevice);
    order.push(Resource::Swapchain);
    order.push(Resource::ImageViews);
    order.push(Resource::RenderPass);
    order.push(Resource::GraphicsPipeline);
    order.push(Resource::Framebuffers);
    order.push(Resource::CommandPool);
    order.push(Resource::CommandBuffer);
    order.push(Resource::SyncObjects);
    assert(order@ =~= spec_creation_order(debug));
    order
}

} // verus!
