//! Update systems: the open extension point for per-tick behavior, and the
//! rendering-flavored system the core ships.

use vstd::prelude::*;

verus! {

/// A unit of per-tick behavior. Anything with an `update` capability may be
/// registered with the scheduler; `history` is the ghost record of the
/// delta-time arguments the system has been updated with, oldest first, and
/// every update appends exactly its argument to it.
///
/// An update that cannot do its work reports `Err` with a diagnostic message;
/// the scheduler still drives the remaining systems of the tick and surfaces
/// the first such message (see `Scheduler::tick`).
pub trait System: Sized {
    /// The delta times this system has been updated with, oldest first.
    /// The default stands for "no record kept"; an implementation overrides
    /// it with its own record to let `update`'s obligation be discharged.
    open spec fn history(&self) -> Seq<u32> {
        Seq::empty()
    }

    /// Advances the system by `delta_time`, an opaque 32-bit word the
    /// scheduler passes through uninterpreted.
    fn update(&mut self, delta_time: u32) -> (outcome: Result<(), String>)
        ensures
            final(self).history() == old(self).history().push(delta_time),
    ;
}

/// The rendering sink the core hands frames to. It stands for an external
/// collaborator with no return value and no error surface; here it only
/// counts how often it was asked to render, saturating at the counter's top.
pub struct Renderer {
    frames: u64,
}

impl Renderer {
    /// How many render calls this sink has absorbed.
    pub closed spec fn spec_frames(&self) -> u64 {
        self.frames
    }

    /// A fresh sink that has rendered nothing.
    pub fn new() -> (renderer: Renderer)
        ensures
            renderer.spec_frames() == 0,
    {
        Renderer { frames: 0 }
    }

    /// Absorbs one render call.
    pub fn render(&mut self)
        ensures
            final(self).spec_frames() == if old(self).spec_frames() < u64::MAX {
                old(self).spec_frames() + 1
            } else {
                old(self).spec_frames() as int
            },
    {
        if self.frames < u64::MAX {
            self.frames = self.frames + 1;
        }
    }

    /// Reads the render-call count.
    pub fn frames(&self) -> (n: u64)
        ensures
            n == self.spec_frames(),
    {
        self.frames
    }
}

/// A system that hands every tick to the renderer, unconditionally: each
/// update asks the renderer for exactly one frame (its `update` ensures the
/// frame count steps accordingly); rendering is not time-gated here, so the
/// delta time is recorded but otherwise unused.
pub struct RenderSystem {
    renderer: Renderer,
    history: Ghost<Seq<u32>>,
}

impl RenderSystem {
    /// Wraps a renderer into a registrable system.
    pub fn new(renderer: Renderer) -> (system: RenderSystem)
        ensures
            system.history() == Seq::<u32>::empty(),
            system.spec_frames() == renderer.spec_frames(),
    {
        RenderSystem { renderer, history: Ghost(Seq::empty()) }
    }

    /// How many frames this system's renderer has absorbed.
    pub closed spec fn spec_frames(&self) -> u64 {
        self.renderer.spec_frames()
    }

    /// Reads the render-call count of the owned renderer.
    pub fn frames_rendered(&self) -> (n: u64)
        ensures
            n == self.spec_frames(),
    {
        self.renderer.frames()
    }
}

impl System for RenderSystem {
    closed spec fn history(&self) -> Seq<u32> {
        self.history@
    }

    fn update(&mut self, delta_time: u32) -> (outcome: Result<(), String>)
        ensures
            final(self).spec_frames() as int == if old(self).spec_frames() < u64::MAX {
                old(self).spec_frames() + 1
            } else {
                old(self).spec_frames() as int
            },
    {
        self.renderer.render();
        self.history = Ghost(self.history@.push(delta_time));
        Ok(())
    }
}

} // verus!
