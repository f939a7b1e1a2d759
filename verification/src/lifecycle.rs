//! The order in which the engine's components are torn down.

use vstd::prelude::*;

verus! {

/// The components of the engine.
#[derive(Clone, Copy, Debug, PartialEq, Eq, Structural)]
pub enum Component {
    Framebuffers,
    RenderPass,
    Swapchain,
    Texture,
    Buffer,
    SyncPrimitives,
    CommandPool,
    Device,
    Surface,
    Instance,
}

/// One step of the shutdown.
#[derive(Clone, Copy, Debug, PartialEq, Eq, Structural)]
pub enum ShutdownStep {
    /// Block until the device has finished all submitted work.
    WaitIdle,
    Destroy(Component),
}

/// `user` is built on `used` and must be gone before it.
pub open spec fn depends_on(user: Component, used: Component) -> bool {
    match user {
        Component::Framebuffers => used == Component::RenderPass || used == Component::Swapchain,
        Component::RenderPass => used == Component::Swapchain || used == Component::Device,
        Component::Swapchain => used == Component::Device || used == Component::Surface || used
            == Component::CommandPool || used == Component::SyncPrimitives,
        Component::Texture => used == Component::Device || used == Component::Buffer || used
            == Component::CommandPool || used == Component::SyncPrimitives,
        Component::Buffer => used == Component::Device,
        Component::SyncPrimitives => used == Component::Device,
        Component::CommandPool => used == Component::Device,
        Component::Device => used == Component::Instance || used == Component::Surface,
        Component::Surface => used == Component::Instance,
        Component::Instance => false,
    }
}

/// Place of a component in the teardown, counted from one; the wait for
/// the device comes before all of them.
pub open spec fn teardown_rank(component: Component) -> int {
    match component {
        Component::Framebuffers => 1,
        Component::RenderPass => 2,
        Component::Swapchain => 3,
        Component::Texture => 4,
        Component::Buffer => 5,
        Component::SyncPrimitives => 6,
        Component::CommandPool => 7,
        Component::Device => 8,
        Component::Surface => 9,
        Component::Instance => 10,
    }
}

/// The shutdown: wait for the device, then destroy each component in the
/// place its rank gives it.
pub open spec fn shutdown_sequence() -> Seq<ShutdownStep> {
    seq![
        ShutdownStep::WaitIdle,
        ShutdownStep::Destroy(Component::Framebuffers),
        ShutdownStep::Destroy(Component::RenderPass),
        ShutdownStep::Destroy(Component::Swapchain),
        ShutdownStep::Destroy(Component::Texture),
        ShutdownStep::Destroy(Component::Buffer),
        ShutdownStep::Destroy(Component::SyncPrimitives),
        ShutdownStep::Destroy(Component::CommandPool),
        ShutdownStep::Destroy(Component::Device),
        ShutdownStep::Destroy(Component::Surface),
        ShutdownStep::Destroy(Component::Instance),
    ]
}

/// The steps of the shutdown, in order.
pub fn shutdown() -> (r: Vec<ShutdownStep>)
    ensures
        r@ == shutdown_sequence(),
{
    let mut steps: Vec<ShutdownStep> = Vec::new();
    steps.push(ShutdownStep::WaitIdle);
    steps.push(ShutdownStep::Destroy(Component::Framebuffers));
    steps.push(ShutdownStep::Destroy(Component::RenderPass));
    steps.push(ShutdownStep::Destroy(Component::Swapchain));
    steps.push(ShutdownStep::Destroy(Component::Texture));
    steps.push(ShutdownStep::Destroy(Component::Buffer));
    steps.push(ShutdownStep::Destroy(Component::SyncPrimitives));
    steps.push(ShutdownStep::Destroy(Component::CommandPool));
    steps.push(ShutdownStep::Destroy(Component::Device));
    steps.push(ShutdownStep::Destroy(Component::Surface));
    steps.push(ShutdownStep::Destroy(Component::Instance));
    assert(steps@ =~= shutdown_sequence());
    steps
}

/// The shutdown waits for the device first, destroys every component
/// exactly once, and destroys nothing before all that is built on it.
pub proof fn lemma_shutdown_respects_dependencies(user: Component, used: Component)
    ensures
        shutdown_sequence()[0] == ShutdownStep::WaitIdle,
        shutdown_sequence().len() == 11,
        shutdown_sequence()[teardown_rank(user)] == ShutdownStep::Destroy(user),
        forall|i: int|
            0 <= i < 11 && shutdown_sequence()[i] == ShutdownStep::Destroy(user) ==> i
                == teardown_rank(user),
        depends_on(user, used) ==> teardown_rank(user) < teardown_rank(used),
{
}

} // verus!
