//! The hand-off sequence: a state machine whose stages are strictly ordered,
//! from the loaded image to the transfer of control to the kernel.
use vstd::prelude::*;
use crate::loader::{delta_in_range, final_entry, relocated};
use crate::paging::{built_in, PagingContext, TableFrames};

verus! {

/// What the kernel receives at entry about the frame buffer.
#[derive(Debug, Clone, Copy, PartialEq, Eq, Structural)]
pub struct FramebufferInfo {
    pub buffer: usize,
    pub size: usize,
    pub stride: usize,
    pub width: usize,
    pub height: usize,
    pub pixel_format: u32,
}

/// The stages of the boot sequence, in the only order in which they occur.
#[derive(Debug, Clone, Copy, PartialEq, Eq, Structural)]
pub enum Stage {
    Init,
    ImageLoaded,
    FramebufferQueried,
    PagingActive,
    ServicesExited,
    ControlTransferred,
}

/// A step was asked for in a stage that does not allow it.
#[derive(Debug, Clone, Copy, PartialEq, Eq, Structural)]
pub enum SequenceError {
    OutOfOrder,
}

/// Position of a stage in the sequence.
pub open spec fn rank(s: Stage) -> int {
    match s {
        Stage::Init => 0,
        Stage::ImageLoaded => 1,
        Stage::FramebufferQueried => 2,
        Stage::PagingActive => 3,
        Stage::ServicesExited => 4,
        Stage::ControlTransferred => 5,
    }
}

/// Where the kernel is entered, and what it is handed.
#[derive(Debug, Clone, Copy, PartialEq, Eq, Structural)]
pub struct KernelEntry {
    pub address: u64,
    pub framebuffer: FramebufferInfo,
}

/// The state of the boot sequence and what each completed stage produced.
#[derive(Debug, Clone, Copy, PartialEq, Eq, Structural)]
pub struct Handoff {
    pub stage: Stage,
    pub entry: u64,
    pub delta: i128,
    pub framebuffer: Option<FramebufferInfo>,
    pub active_root: Option<u64>,
}

/// The state after the address space `ctx` was made active in `h`.
pub open spec fn activated(h: Handoff, ctx: PagingContext) -> Handoff {
    Handoff { stage: Stage::PagingActive, active_root: Some(ctx.pml4_phys_addr), ..h }
}

/// Activating an address space built in the frames `f`, then reading back
/// the active top-level node, gives the top-level frame it was built in.
pub proof fn lemma_activation_round_trip(h: Handoff, ctx: PagingContext, f: TableFrames)
    requires
        built_in(ctx, f),
    ensures
        activated(h, ctx).active_root == Some(f.pml4),
{
}

impl Handoff {
    /// Each completed stage has left its result.
    pub open spec fn wf(&self) -> bool {
        &&& delta_in_range(self.delta as int)
        &&& rank(self.stage) >= 2 ==> self.framebuffer is Some
        &&& rank(self.stage) >= 3 ==> self.active_root is Some
    }

    /// The sequence before anything was done.
    pub fn new() -> (r: Handoff)
        ensures
            r.wf(),
            r.stage == Stage::Init,
            r.entry == 0,
            r.delta == 0,
            r.framebuffer is None,
            r.active_root is None,
    {
        Handoff { stage: Stage::Init, entry: 0, delta: 0, framebuffer: None, active_root: None }
    }

    /// Records the loaded image's entry address and relocation delta.
    pub fn image_loaded(&mut self, entry: u64, delta: i128) -> (r: Result<(), SequenceError>)
        requires
            old(self).wf(),
            delta_in_range(delta as int),
        ensures
            final(self).wf(),
            old(self).stage == Stage::Init ==> r is Ok && *final(self) == (Handoff {
                stage: Stage::ImageLoaded,
                entry,
                delta,
                ..*old(self)
            }),
            old(self).stage != Stage::Init ==> r == Err::<(), SequenceError>(
                SequenceError::OutOfOrder,
            ) && *final(self) == *old(self),
    {
        if self.stage != Stage::Init {
            return Err(SequenceError::OutOfOrder);
        }
        self.stage = Stage::ImageLoaded;
        self.entry = entry;
        self.delta = delta;
        Ok(())
    }

    /// Records the frame buffer the kernel will be handed.
    pub fn framebuffer_queried(&mut self, fb: FramebufferInfo) -> (r: Result<(), SequenceError>)
        requires
            old(self).wf(),
        ensures
            final(self).wf(),
            old(self).stage == Stage::ImageLoaded ==> r is Ok && *final(self) == (Handoff {
                stage: Stage::FramebufferQueried,
                framebuffer: Some(fb),
                ..*old(self)
            }),
            old(self).stage != Stage::ImageLoaded ==> r == Err::<(), SequenceError>(
                SequenceError::OutOfOrder,
            ) && *final(self) == *old(self),
    {
        if self.stage != Stage::ImageLoaded {
            return Err(SequenceError::OutOfOrder);
        }
        self.stage = Stage::FramebufferQueried;
        self.framebuffer = Some(fb);
        Ok(())
    }

    /// Records that the address space `ctx` was made active: its top-level
    /// node is from now on the active one.
    pub fn paging_activated(&mut self, ctx: &PagingContext) -> (r: Result<(), SequenceError>)
        requires
            old(self).wf(),
        ensures
            final(self).wf(),
            old(self).stage == Stage::FramebufferQueried ==> r is Ok && *final(self) == activated(
                *old(self),
                *ctx,
            ),
            old(self).stage != Stage::FramebufferQueried ==> r == Err::<(), SequenceError>(
                SequenceError::OutOfOrder,
            ) && *final(self) == *old(self),
    {
        if self.stage != Stage::FramebufferQueried {
            return Err(SequenceError::OutOfOrder);
        }
        self.stage = Stage::PagingActive;
        self.active_root = Some(ctx.pml4_phys_addr);
        Ok(())
    }

    /// Physical address of the active top-level page-table node, once paging
    /// was activated.
    pub fn active_root(&self) -> (r: Option<u64>)
        ensures
            r == self.active_root,
    {
        self.active_root
    }

    /// Records that firmware services were exited; no firmware service may be
    /// used after this.
    pub fn services_exited(&mut self) -> (r: Result<(), SequenceError>)
        requires
            old(self).wf(),
        ensures
            final(self).wf(),
            old(self).stage == Stage::PagingActive ==> r is Ok && *final(self) == (Handoff {
                stage: Stage::ServicesExited,
                ..*old(self)
            }),
            old(self).stage != Stage::PagingActive ==> r == Err::<(), SequenceError>(
                SequenceError::OutOfOrder,
            ) && *final(self) == *old(self),
    {
        if self.stage != Stage::PagingActive {
            return Err(SequenceError::OutOfOrder);
        }
        self.stage = Stage::ServicesExited;
        Ok(())
    }

    /// Ends the sequence: the kernel is entered at the image's entry address
    /// shifted by the relocation delta, with the recorded frame buffer.
    pub fn transfer(&mut self) -> (r: Result<KernelEntry, SequenceError>)
        requires
            old(self).wf(),
        ensures
            final(self).wf(),
            old(self).stage == Stage::ServicesExited ==> r == Ok::<KernelEntry, SequenceError>(
                KernelEntry {
                    address: relocated(old(self).entry, old(self).delta as int) as u64,
                    framebuffer: old(self).framebuffer->Some_0,
                },
            ) && *final(self) == (Handoff { stage: Stage::ControlTransferred, ..*old(self) }),
            old(self).stage != Stage::ServicesExited ==> r == Err::<KernelEntry, SequenceError>(
                SequenceError::OutOfOrder,
            ) && *final(self) == *old(self),
    {
        if self.stage != Stage::ServicesExited {
            return Err(SequenceError::OutOfOrder);
        }
        let framebuffer = match self.framebuffer {
            Some(fb) => fb,
            None => {
                return Err(SequenceError::OutOfOrder);
            },
        };
        self.stage = Stage::ControlTransferred;
        Ok(KernelEntry { address: final_entry(self.entry, self.delta), framebuffer })
    }
}

} // verus!
