use vstd::prelude::*;

verus! {

/// The capture engine's notifications, as its event callback reports them.
#[derive(Clone, Copy, Debug, PartialEq, Eq, Structural)]
pub enum CaptureEngineEvent {
    Initialized,
    PreviewStarted,
    PreviewStopped,
    RecordStarted,
    RecordStopped,
    PhotoTaken,
    Error,
    Other,
}

/// Whether a wait for `awaited` is over once `received` has come from the
/// event queue (`None`: the queue was closed, and nothing more will come).
pub fn ends_wait(awaited: CaptureEngineEvent, received: Option<CaptureEngineEvent>) -> (r: bool)
    ensures
        r == (received is None || received == Some(awaited)),
{
    match received {
        None => true,
        Some(e) => e == awaited,
    }
}

} // verus!
