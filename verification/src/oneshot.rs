//! One-shot command submission: a reusable command buffer paired with a
//! fence, used to run a short sequence of graphics commands synchronously.
//!
//! The protocol is: wait on the fence (retiring any prior unfinished
//! submission), reset the fence, begin recording into the command buffer,
//! record the caller's commands, end recording, submit to the queue, then
//! wait for the fence again before returning. The executor therefore never
//! returns before the submitted work has completed, and never records into a
//! buffer whose previous submission is still in flight.
//!
//! The accelerator queue is modeled by the commands it has retired and the
//! commands submitted but not yet retired; the surrounding process mirrors
//! every step below with the corresponding driver call.

use vstd::prelude::*;

verus! {

/// An image layout, as far as the demo's transfer sequence needs it.
#[derive(Clone, Copy, PartialEq, Eq, Structural, Debug)]
pub enum ImageLayout {
    Undefined,
    TransferDstOptimal,
    ShaderReadOnlyOptimal,
}

/// One recorded graphics command. Resources are named by plain handles.
#[derive(Clone, Copy, PartialEq, Eq, Structural, Debug)]
pub enum Command {
    /// A pipeline barrier transitioning an image between layouts.
    TransitionLayout { image: u64, from: ImageLayout, to: ImageLayout },
    /// A copy of staged pixel bytes from a buffer into an image.
    CopyBufferToImage { buffer: u64, image: u64, width: u32, height: u32 },
}

/// The state of the reusable command buffer.
#[derive(Clone, Copy, PartialEq, Eq, Structural, Debug)]
pub enum RecorderPhase {
    Idle,
    Recording,
    Sealed,
}

/// The target queue as the host can observe it: commands whose effects are
/// complete and visible, and commands submitted but not yet retired.
pub struct QueueModel {
    pub completed: Vec<Command>,
    pub pending: Vec<Command>,
}

/// The reusable command buffer together with its fence.
pub struct OneShotExecutor {
    pub fence_signaled: bool,
    pub phase: RecorderPhase,
    pub recorded: Vec<Command>,
}

/// The executor's fence tells the truth about the queue: once it is
/// signaled, no submission of ours is still in flight.
pub open spec fn executor_inv(ex: OneShotExecutor, q: QueueModel) -> bool {
    ex.fence_signaled ==> q.pending@.len() == 0
}

impl QueueModel {
    /// A queue with no work submitted yet.
    pub fn new() -> (r: QueueModel)
        ensures
            r.completed@.len() == 0,
            r.pending@.len() == 0,
    {
        QueueModel { completed: Vec::new(), pending: Vec::new() }
    }
}

impl OneShotExecutor {
    /// A fresh executor: the fence starts signaled so that the first wait
    /// returns at once, and the buffer holds nothing.
    pub fn new() -> (r: OneShotExecutor)
        ensures
            r.fence_signaled,
            r.phase is Idle,
            r.recorded@.len() == 0,
    {
        OneShotExecutor { fence_signaled: true, phase: RecorderPhase::Idle, recorded: Vec::new() }
    }

    /// Block until the fence signals: every submission the queue still held
    /// retires, its effects becoming visible, and the fence reads signaled.
    pub fn wait_fence(&mut self, q: &mut QueueModel)
        ensures
            final(self).fence_signaled,
            final(self).phase == old(self).phase,
            final(self).recorded@ == old(self).recorded@,
            final(q).completed@ == old(q).completed@ + old(q).pending@,
            final(q).pending@.len() == 0,
            executor_inv(*final(self), *final(q)),
    {
        let mut pending = Vec::new();
        core::mem::swap(&mut pending, &mut q.pending);
        q.completed.append(&mut pending);
        self.fence_signaled = true;
        proof {
            assert(q.completed@ =~= old(q).completed@ + old(q).pending@);
        }
    }

    /// Reset the fence to unsignaled before the next submission. Resetting
    /// is only safe once the prior wait has returned.
    pub fn reset_fence(&mut self)
        requires
            old(self).fence_signaled,
        ensures
            !final(self).fence_signaled,
            final(self).phase == old(self).phase,
            final(self).recorded@ == old(self).recorded@,
    {
        self.fence_signaled = false;
    }

    /// Reset the command buffer and begin recording. The buffer may not be
    /// reused while a prior submission is still in flight.
    pub fn begin(&mut self, q: &QueueModel)
        requires
            old(self).phase is Idle,
            q.pending@.len() == 0,
        ensures
            final(self).phase is Recording,
            final(self).recorded@.len() == 0,
            final(self).fence_signaled == old(self).fence_signaled,
    {
        self.recorded = Vec::new();
        self.phase = RecorderPhase::Recording;
    }

    /// Record one command into the open command buffer.
    pub fn record(&mut self, cmd: Command)
        requires
            old(self).phase is Recording,
        ensures
            final(self).phase is Recording,
            final(self).recorded@ == old(self).recorded@.push(cmd),
            final(self).fence_signaled == old(self).fence_signaled,
    {
        self.recorded.push(cmd);
    }

    /// End recording: the buffer is sealed and ready for submission.
    pub fn end(&mut self)
        requires
            old(self).phase is Recording,
        ensures
            final(self).phase is Sealed,
            final(self).recorded@ == old(self).recorded@,
            final(self).fence_signaled == old(self).fence_signaled,
    {
        self.phase = RecorderPhase::Sealed;
    }

    /// Submit the sealed buffer to the queue with this executor's fence.
    /// The fence must have been reset, and nothing else may be in flight.
    pub fn submit(&mut self, q: &mut QueueModel)
        requires
            old(self).phase is Sealed,
            !old(self).fence_signaled,
            old(q).pending@.len() == 0,
        ensures
            final(self).phase is Idle,
            !final(self).fence_signaled,
            final(self).recorded@.len() == 0,
            final(q).completed@ == old(q).completed@,
            final(q).pending@ == old(self).recorded@,
            executor_inv(*final(self), *final(q)),
    {
        let mut sealed: Vec<Command> = Vec::new();
        core::mem::swap(&mut sealed, &mut self.recorded);
        q.pending = sealed;
        self.phase = RecorderPhase::Idle;
    }

    /// Execute the given commands synchronously and exactly once. On return
    /// the fence has signaled: the commands' effects are complete and
    /// visible, with no further synchronization required of the caller, and
    /// any prior unfinished submission has been retired first.
    pub fn execute(&mut self, q: &mut QueueModel, cmds: &Vec<Command>)
        requires
            old(self).phase is Idle,
            executor_inv(*old(self), *old(q)),
        ensures
            final(self).fence_signaled,
            final(self).phase is Idle,
            executor_inv(*final(self), *final(q)),
            final(q).pending@.len() == 0,
            final(q).completed@ == old(q).completed@ + old(q).pending@ + cmds@,
    {
        self.wait_fence(q);
        self.reset_fence();
        self.begin(q);
        let n = cmds.len();
        let mut i: usize = 0;
        while i < n
            invariant
                n == cmds.len(),
                i <= n,
                self.phase is Recording,
                !self.fence_signaled,
                self.recorded@ == cmds@.take(i as int),
            decreases n - i,
        {
            self.record(cmds[i]);
            proof {
                assert(cmds@.take(i as int).push(cmds@[i as int]) =~= cmds@.take(i + 1));
            }
            i = i + 1;
        }
        self.end();
        proof {
            assert(cmds@.take(n as int) =~= cmds@);
        }
        self.submit(q);
        self.wait_fence(q);
        proof {
            assert(q.completed@ =~= old(q).completed@ + old(q).pending@ + cmds@);
        }
    }
}

/// The command sequence that moves staged texture pixels into a
/// device-local image: transition the image from undefined to
/// transfer-destination layout, copy the staged bytes in, then transition
/// to shader-read-only layout for sampling.
pub fn texture_upload_commands(buffer: u64, image: u64, width: u32, height: u32) -> (r: Vec<
    Command,
>)
    ensures
        r@ =~= seq![
            Command::TransitionLayout {
                image,
                from: ImageLayout::Undefined,
                to: ImageLayout::TransferDstOptimal,
            },
            Command::CopyBufferToImage { buffer, image, width, height },
            Command::TransitionLayout {
                image,
                from: ImageLayout::TransferDstOptimal,
                to: ImageLayout::ShaderReadOnlyOptimal,
            },
        ],
{
    let mut r: Vec<Command> = Vec::new();
    r.push(
        Command::TransitionLayout {
            image,
            from: ImageLayout::Undefined,
            to: ImageLayout::TransferDstOptimal,
        },
    );
    r.push(Command::CopyBufferToImage { buffer, image, width, height });
    r.push(
        Command::TransitionLayout {
            image,
            from: ImageLayout::TransferDstOptimal,
            to: ImageLayout::ShaderReadOnlyOptimal,
        },
    );
    r
}

} // verus!
