//! Decision logic of the top-level scheduler loop.
//!
//! The loop interleaves "produce and broadcast the next frame" with "accept
//! the next connection" fairly and indefinitely, until a stop signal
//! arrives. Which event fired, and what the payload source yielded, is
//! observed by the surrounding process; the decision — what to do to the
//! fan-out channel and how the loop proceeds — is taken here and verified.

use vstd::prelude::*;

use crate::channel::{Cursor, FanoutChannel};

verus! {

/// One ready event observed by the scheduler loop.
#[derive(Debug)]
pub enum SchedulerEvent {
    /// The tick fired and the payload source yielded a payload.
    TickProduced(Vec<u8>),
    /// The tick fired and the payload source failed. Fatal: a lost capture
    /// device is assumed unrecoverable within the process.
    TickSourceFailed,
    /// A new transport connection is ready to be accepted.
    ConnectionReady,
    /// The external stop signal arrived.
    StopRequested,
}

/// What the surrounding process must do after one scheduler decision.
#[derive(Debug)]
pub enum SchedulerAction {
    /// The payload was broadcast; keep looping.
    Published,
    /// Spawn one new session around this fresh cursor; keep looping.
    SpawnSession(Cursor),
    /// Payload production is lost: leave the loop and terminate the process
    /// with a non-zero status.
    FatalStop,
    /// Stop was requested: leave the loop and release the payload source.
    CleanShutdown,
}

/// Advance the scheduler by one ready event.
///
/// Exactly one payload is published per successful tick; an accepted
/// connection spawns exactly one session whose cursor starts at "newest at
/// time of call"; a source failure or a stop request leaves the channel
/// untouched, so no delivery is ever attempted past the failure.
pub fn scheduler_step(ch: &mut FanoutChannel, event: SchedulerEvent) -> (a: SchedulerAction)
    requires
        old(ch).wf(),
        old(ch).published() < usize::MAX,
    ensures
        final(ch).wf(),
        final(ch).capacity() == old(ch).capacity(),
        final(ch).is_closed() == old(ch).is_closed(),
        event matches SchedulerEvent::TickProduced(p) ==> (final(ch).history() == old(
            ch,
        ).history().push(p@) && a is Published),
        !(event matches SchedulerEvent::TickProduced(p)) ==> final(ch).history() == old(
            ch,
        ).history(),
        event is TickSourceFailed ==> a is FatalStop,
        event is ConnectionReady ==> (a matches SchedulerAction::SpawnSession(c) && c.pos() == old(
            ch,
        ).published()),
        event is StopRequested ==> a is CleanShutdown,
{
    match event {
        SchedulerEvent::TickProduced(payload) => {
            ch.publish(payload);
            SchedulerAction::Published
        },
        SchedulerEvent::TickSourceFailed => SchedulerAction::FatalStop,
        SchedulerEvent::ConnectionReady => SchedulerAction::SpawnSession(ch.subscribe()),
        SchedulerEvent::StopRequested => SchedulerAction::CleanShutdown,
    }
}

} // verus!
