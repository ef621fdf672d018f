//! The capture-session lifecycle: construction over the reported outcome of
//! the platform setup sequence, the frame-arrived callback's decision, the
//! consumer-side receive operations, and the guaranteed-once release.
//!
//! The platform calls themselves (frame-pool and session creation, callback
//! registration, start, close) live with the embedding code; this module
//! holds every decision taken on their results, verified for any outcome.

use crate::channel::frame_channel;
use crate::channel::recv_frame;
use crate::channel::send_frame;
use crate::channel::try_recv_frame;
use crate::channel::TryReceive;
use crate::error::CaptureError;
use crate::frame::FrameTexture;
use crossbeam::channel::Receiver;
use crossbeam::channel::Sender;
use vstd::prelude::*;

verus! {

/// How far the platform setup sequence of a new session got. The steps run
/// in a fixed order — immediate context, item size, frame pool, capture
/// session, callback registration, start — and the first failure stops the
/// sequence, so one variant describes the whole run.
#[derive(Clone, Copy, Debug)]
pub enum Setup {
    /// Querying the device's immediate command context failed.
    ContextFailed(i32),
    /// Reading the capturable item's current size failed.
    SizeFailed(i32),
    /// Creating the one-deep, free-threaded frame pool failed.
    PoolCreateFailed(i32),
    /// Binding the capture session to pool and item failed; the pool exists.
    SessionCreateFailed(i32),
    /// Registering the frame-arrived callback failed; pool and session exist.
    RegisterFailed(i32),
    /// Starting the capture failed; pool and session exist.
    StartFailed(i32),
    /// Every platform step succeeded.
    Ready,
}

/// The platform result code of the step a setup run failed at, if any.
pub open spec fn setup_failure(setup: Setup) -> Option<i32> {
    match setup {
        Setup::ContextFailed(code) => Some(code),
        Setup::SizeFailed(code) => Some(code),
        Setup::PoolCreateFailed(code) => Some(code),
        Setup::SessionCreateFailed(code) => Some(code),
        Setup::RegisterFailed(code) => Some(code),
        Setup::StartFailed(code) => Some(code),
        Setup::Ready => None,
    }
}

/// Which platform handles a failed setup run leaves behind, as
/// (close_session, close_pool). Construction is all-or-nothing: whoever ran
/// the sequence must close exactly these, session before pool, before
/// surfacing the error.
pub fn partial_teardown(setup: Setup) -> (r: (bool, bool))
    ensures
        r.0 == (setup is RegisterFailed || setup is StartFailed),
        r.1 == (setup is SessionCreateFailed || setup is RegisterFailed || setup is StartFailed),
{
    match setup {
        Setup::ContextFailed(_) => (false, false),
        Setup::SizeFailed(_) => (false, false),
        Setup::PoolCreateFailed(_) => (false, false),
        Setup::SessionCreateFailed(_) => (false, true),
        Setup::RegisterFailed(_) => (true, true),
        Setup::StartFailed(_) => (true, true),
        Setup::Ready => (false, false),
    }
}

/// How the platform close sequence of a release ended. The caller closes
/// the capture session first and, only if that succeeded, the frame pool.
#[derive(Clone, Copy, Debug)]
pub enum Teardown {
    /// Closing the capture session failed; the pool close was not attempted.
    SessionCloseFailed(i32),
    /// The session closed; closing the frame pool failed.
    PoolCloseFailed(i32),
    /// Both handles closed.
    Completed,
}

/// The result an active session reports for a close sequence: the first
/// error encountered, or success.
pub open spec fn teardown_result(outcome: Teardown) -> Result<(), CaptureError> {
    match outcome {
        Teardown::SessionCloseFailed(code) => Err(CaptureError::DirectxError(code)),
        Teardown::PoolCloseFailed(code) => Err(CaptureError::DirectxError(code)),
        Teardown::Completed => Ok(()),
    }
}

/// The lifecycle transition of `release`: the flag after the call and the
/// reported result, from the flag before the call and the close outcome.
/// A session that is not active rejects the call and stays inactive.
pub open spec fn spec_release(was_active: bool, outcome: Teardown) -> (bool, Result<
    (),
    CaptureError,
>) {
    if was_active {
        (false, teardown_result(outcome))
    } else {
        (false, Err(CaptureError::NotActive))
    }
}

/// What one frame-arrived callback invocation reports back to the platform.
#[derive(Clone, Copy, Debug)]
pub enum CallbackOutcome {
    /// The frame's texture handle was pushed onto the channel.
    Forwarded,
    /// Fetching the frame or extracting its texture failed with this code;
    /// it is reported to the platform's own error channel, not retried.
    PlatformError(i32),
    /// The receiving half of the channel is gone while the callback still
    /// exists: an internal-invariant violation the embedding must treat as
    /// fatal.
    ChannelClosed,
}

/// The frame-arrived callback's decision. `extraction` is what fetching the
/// next frame from the pool and converting its surface into a texture
/// handle produced; a successfully extracted handle is pushed onto the
/// channel's sending side, never blocking on consumer pace.
pub fn on_frame_arrived(tx: &Sender<FrameTexture>, extraction: Result<FrameTexture, i32>) -> (r:
    CallbackOutcome)
    ensures
        extraction matches Err(code) ==> r == CallbackOutcome::PlatformError(code),
        extraction is Ok ==> (r is Forwarded || r is ChannelClosed),
{
    match extraction {
        Err(code) => CallbackOutcome::PlatformError(code),
        Ok(frame) => {
            if send_frame(tx, frame) {
                CallbackOutcome::Forwarded
            } else {
                CallbackOutcome::ChannelClosed
            }
        },
    }
}

/// Maps one poll of the frame channel onto the readback contract: a
/// waiting frame is handed on unchanged; an empty or torn-down channel is
/// `NoTexture` — never a block, never a made-up frame.
pub fn frame_or_no_texture(polled: TryReceive) -> (r: Result<FrameTexture, CaptureError>)
    ensures
        polled matches TryReceive::Received(frame) ==> r == Ok::<FrameTexture, CaptureError>(
            frame,
        ),
        !(polled is Received) ==> r == Err::<FrameTexture, CaptureError>(CaptureError::NoTexture),
{
    match polled {
        TryReceive::Received(frame) => Ok(frame),
        TryReceive::ChannelEmpty => Err(CaptureError::NoTexture),
        TryReceive::Disconnected => Err(CaptureError::NoTexture),
    }
}

/// A live capture stream: the receiving end of the frame channel, and the
/// lifecycle flag that is true exactly between successful construction and
/// release.
pub struct Capture {
    /// The receiving end of the frame channel.
    pub rx: Receiver<FrameTexture>,
    active: bool,
}

impl Capture {
    /// Whether the stream is between successful construction and release.
    pub closed spec fn is_active(self) -> bool {
        self.active
    }

    /// The receiving end of the frame channel, for contracts that state it
    /// is left untouched.
    pub closed spec fn spec_rx(self) -> Receiver<FrameTexture> {
        self.rx
    }

    /// Assembles the session once `setup` reports how the platform sequence
    /// ended. On `Ready` the frame channel is created and the session starts
    /// out active, handing back the sending side for the frame-arrived
    /// callback; on a failure the step's code is surfaced as `DirectxError`
    /// and `partial_teardown` says which handles the caller still closes.
    pub fn new(setup: Setup) -> (r: Result<(Capture, Sender<FrameTexture>), CaptureError>)
        ensures
            r is Ok <==> setup is Ready,
            setup_failure(setup) matches Some(code) ==> r == Err::<
                (Capture, Sender<FrameTexture>),
                CaptureError,
            >(CaptureError::DirectxError(code)),
            r matches Ok(pair) ==> pair.0.is_active(),
    {
        match setup {
            Setup::Ready => {
                let (tx, rx) = frame_channel();
                Ok((Capture { rx, active: true }, tx))
            },
            Setup::ContextFailed(code) => Err(CaptureError::DirectxError(code)),
            Setup::SizeFailed(code) => Err(CaptureError::DirectxError(code)),
            Setup::PoolCreateFailed(code) => Err(CaptureError::DirectxError(code)),
            Setup::SessionCreateFailed(code) => Err(CaptureError::DirectxError(code)),
            Setup::RegisterFailed(code) => Err(CaptureError::DirectxError(code)),
            Setup::StartFailed(code) => Err(CaptureError::DirectxError(code)),
        }
    }

    /// The lifecycle flag.
    pub fn active(&self) -> (b: bool)
        ensures
            b == self.is_active(),
    {
        self.active
    }

    /// Blocks until the callback delivers the next frame handle, or returns
    /// `None` as end-of-stream once every sending side is gone and the
    /// channel is drained. Deliberately not guarded by the lifecycle flag:
    /// after a close the consumer observes end-of-stream, not an error.
    pub fn receive(&self) -> Option<FrameTexture> {
        recv_frame(&self.rx)
    }

    /// Polls for a frame without blocking. A session that is not active
    /// fails with `NotActive` before touching the channel; on an active one
    /// an empty or torn-down channel yields `NoTexture`.
    pub fn try_receive(&self) -> (r: Result<FrameTexture, CaptureError>)
        ensures
            !self.is_active() ==> r == Err::<FrameTexture, CaptureError>(CaptureError::NotActive),
            self.is_active() ==> (r is Ok || r == Err::<FrameTexture, CaptureError>(
                CaptureError::NoTexture,
            )),
    {
        if !self.active {
            return Err(CaptureError::NotActive);
        }
        frame_or_no_texture(try_recv_frame(&self.rx))
    }

    /// Ends the stream. The flag flips to false exactly once; a second call
    /// is rejected with `NotActive` and changes nothing. `outcome` reports
    /// how the caller's platform close sequence went (see `Teardown`), and
    /// its first error is propagated.
    pub fn release(&mut self, outcome: Teardown) -> (r: Result<(), CaptureError>)
        ensures
            final (self).is_active() == spec_release(old(self).is_active(), outcome).0,
            r == spec_release(old(self).is_active(), outcome).1,
            final (self).spec_rx() == old(self).spec_rx(),
    {
        if !self.active {
            return Err(CaptureError::NotActive);
        }
        self.active = false;
        match outcome {
            Teardown::SessionCloseFailed(code) => Err(CaptureError::DirectxError(code)),
            Teardown::PoolCloseFailed(code) => Err(CaptureError::DirectxError(code)),
            Teardown::Completed => Ok(()),
        }
    }
}

/// Law: a session is active immediately after construction (see `new`) and
/// inactive immediately after release; a second release, whatever close
/// outcome it reports, is rejected with `NotActive` and leaves the session
/// inactive.
pub proof fn lemma_release_runs_once(first: Teardown, second: Teardown)
    ensures
        !spec_release(true, first).0,
        !spec_release(spec_release(true, first).0, second).0,
        spec_release(spec_release(true, first).0, second).1 == Err::<(), CaptureError>(
            CaptureError::NotActive,
        ),
{
}

} // verus!
