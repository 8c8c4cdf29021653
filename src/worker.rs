//! The decisions of the worker loops that feed the graph: the file source's
//! block loop and the mixer's tick. The loops themselves run outside the
//! library, which performs the chosen action and reports back.
use vstd::prelude::*;
use crate::mixer::MIX_CHUNK_SIZE;
use crate::resample::ResamplingHandler;

verus! {

/// What a file-source worker does next.
#[derive(Clone, Copy, Debug, PartialEq, Eq, Structural)]
pub enum FileWorkerAction {
    /// Leave the loop and hand the producer back.
    Exit,
    /// Sleep one bounded interval, then ask again.
    Wait,
    /// Read the next block from the decoder and submit it.
    Submit,
}

/// One decision of the file-source worker: exit once asked to stop or past
/// the end of the file; submit the next block of `block_frames` frames when
/// the handler can take it without loss given `downstream_free` slots; and
/// wait otherwise.
pub fn file_worker_step(
    keep_running: bool,
    at_eof: bool,
    handler: &ResamplingHandler,
    block_frames: usize,
    downstream_free: usize,
) -> (a: FileWorkerAction)
    requires
        handler.wf(),
    ensures
        !keep_running || at_eof ==> a == FileWorkerAction::Exit,
        keep_running && !at_eof ==> (a == FileWorkerAction::Submit <==> (block_frames
            + handler.staged().len() / handler.src_channels()) * handler.target_channels()
            < downstream_free),
        keep_running && !at_eof ==> a != FileWorkerAction::Exit,
{
    if !keep_running || at_eof {
        FileWorkerAction::Exit
    } else if handler.check_must_no_loss_data(block_frames, downstream_free) {
        FileWorkerAction::Submit
    } else {
        FileWorkerAction::Wait
    }
}

/// Whether the mixer may run a tick: the downstream FIFO has room for a
/// whole chunk; otherwise the mixer spins.
pub fn mixer_tick_ready(downstream_free: usize) -> (r: bool)
    ensures
        r == (downstream_free >= MIX_CHUNK_SIZE),
{
    downstream_free >= MIX_CHUNK_SIZE
}

} // verus!
