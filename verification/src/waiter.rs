use vstd::prelude::*;

use crate::exit_cell::{ExitCell, ExitGuard};

verus! {

/// Exit status reported when the wait machinery itself failed, or when the
/// wait reported neither a normal exit nor a signal. The same code is the
/// guard's fallback, so a caller cannot tell the two apart — downstream
/// consumers depend on that single numeric convention.
pub const FALLBACK_EXIT_STATUS: u32 = 137;

/// How the monitored process ended, as the waiter saw it.
pub enum TermEvent {
    /// Normal exit with the given status code.
    Exited(i32),
    /// Killed by the given signal number.
    Signaled(i32),
    /// The wait succeeded but reported neither an exit nor a signal.
    Other,
    /// The wait itself failed.
    WaitFailed,
}

/// The exit status recorded for a termination event: the exit code as is, the
/// signal number plus 128, or the fallback for everything else.
pub open spec fn spec_exit_status(ev: TermEvent) -> u32 {
    match ev {
        TermEvent::Exited(code) => code as u32,
        TermEvent::Signaled(sig) => (128 + sig) as u32,
        TermEvent::Other => FALLBACK_EXIT_STATUS,
        TermEvent::WaitFailed => FALLBACK_EXIT_STATUS,
    }
}

pub fn exit_status_for(ev: &TermEvent) -> (r: u32)
    ensures
        r == spec_exit_status(*ev),
{
    match ev {
        TermEvent::Exited(code) => {
            #[verifier::truncate] (*code as u32)
        },
        TermEvent::Signaled(sig) => {
            #[verifier::truncate] ((128i64 + (*sig as i64)) as u32)
        },
        TermEvent::Other => FALLBACK_EXIT_STATUS,
        TermEvent::WaitFailed => FALLBACK_EXIT_STATUS,
    }
}

/// Maps a termination event to its exit status, stamps the current time, and
/// commits the record to the cell; first writer wins, so an already-recorded
/// exit stays. The guard travels with the commit and is released afterwards,
/// a no-op by then because the cell holds a value.
pub fn commit_termination(cell: &mut ExitCell, guard: ExitGuard, ev: &TermEvent)
    ensures
        old(cell)@ is Some ==> final(cell)@ == old(cell)@,
        old(cell)@ is None ==> (final(cell)@ matches Some(p) && p.0 == spec_exit_status(*ev)),
{
    let status = exit_status_for(ev);
    let at = crate::clock::now_millis();
    let _ = cell.set(status, at);
    guard.release(cell);
}

/// The event a wait report classifies to: a function of the report alone,
/// named so that the contracts downstream of the classification are exact.
pub uninterp spec fn classified_event(ws: nix::sys::wait::WaitStatus) -> TermEvent;

/// Relies on nix::sys::wait::WaitStatus: each report of a wait is carried
/// over variant by variant — a normal exit keeps its code, a killing signal
/// keeps its number, and the stopped, traced, continued and still-alive
/// reports, which carry no termination, all map to `Other`.
#[verifier::external_body]
fn classify_wait_status(ws: nix::sys::wait::WaitStatus) -> (ev: TermEvent)
    ensures
        ev == classified_event(ws),
{
    match ws {
        nix::sys::wait::WaitStatus::Exited(_, code) => TermEvent::Exited(code),
        nix::sys::wait::WaitStatus::Signaled(_, sig, _) => TermEvent::Signaled(sig as i32),
        nix::sys::wait::WaitStatus::Stopped(_, _) => TermEvent::Other,
        nix::sys::wait::WaitStatus::PtraceEvent(_, _, _) => TermEvent::Other,
        nix::sys::wait::WaitStatus::PtraceSyscall(_) => TermEvent::Other,
        nix::sys::wait::WaitStatus::Continued(_) => TermEvent::Other,
        nix::sys::wait::WaitStatus::StillAlive => TermEvent::Other,
    }
}

/// Declares nix's wait report so that it can cross a verified signature; the
/// value itself stays opaque and is read only by `classify_wait_status`.
#[verifier::external_type_specification]
#[verifier::external_body]
pub struct ExWaitStatus(nix::sys::wait::WaitStatus);

/// Commits the outcome of a successful OS-level wait: the raw status is
/// classified and recorded as `commit_termination` does — an empty cell ends
/// up holding exactly the classified report's status, a filled one is kept.
pub fn commit_wait_status(cell: &mut ExitCell, guard: ExitGuard, ws: nix::sys::wait::WaitStatus)
    ensures
        old(cell)@ is Some ==> final(cell)@ == old(cell)@,
        old(cell)@ is None ==> (final(cell)@ matches Some(p) && p.0 == spec_exit_status(
            classified_event(ws),
        )),
{
    let ev = classify_wait_status(ws);
    commit_termination(cell, guard, &ev);
}

} // verus!
