//! The frame channel: an unbounded multi-producer/single-consumer queue of
//! in-flight frame handles, carried by crossbeam and reached only through
//! the trusted wrappers here. A frame handed to another thread may race
//! with other senders and with teardown, so the wrappers promise nothing
//! about which frame a call observes; the verified logic takes whatever
//! comes back as an argument.

use crate::frame::FrameTexture;
use crossbeam::channel::Receiver;
use crossbeam::channel::Sender;
use crossbeam::channel::TryRecvError;
use vstd::prelude::*;

verus! {

/// Verus-side declaration of crossbeam's channel sender.
#[verifier::external_type_specification]
#[verifier::external_body]
#[verifier::reject_recursive_types(T)]
pub struct ExSender<T>(Sender<T>);

/// Verus-side declaration of crossbeam's channel receiver.
#[verifier::external_type_specification]
#[verifier::external_body]
#[verifier::reject_recursive_types(T)]
pub struct ExReceiver<T>(Receiver<T>);

/// What one non-blocking poll of the frame channel found.
pub enum TryReceive {
    /// A frame handle was waiting; arrival order is kept.
    Received(FrameTexture),
    /// The channel is connected but holds no frame yet.
    ChannelEmpty,
    /// Every sending side is gone and the channel is drained.
    Disconnected,
}

/// Relies on crossbeam's `channel::unbounded`: a connected channel pair of
/// unbounded capacity, FIFO per sender.
#[verifier::external_body]
pub(crate) fn frame_channel() -> (Sender<FrameTexture>, Receiver<FrameTexture>) {
    crossbeam::channel::unbounded()
}

/// Relies on crossbeam's `Sender::send`: on an unbounded channel it never
/// blocks; it enqueues the frame and returns true unless every receiving
/// side is gone.
#[verifier::external_body]
pub(crate) fn send_frame(tx: &Sender<FrameTexture>, frame: FrameTexture) -> bool {
    tx.send(frame).is_ok()
}

/// Relies on crossbeam's `Receiver::recv`: blocks the calling thread until
/// a frame arrives, or returns `None` once the channel is empty with every
/// sending side gone.
#[verifier::external_body]
pub(crate) fn recv_frame(rx: &Receiver<FrameTexture>) -> Option<FrameTexture> {
    rx.recv().ok()
}

/// Relies on crossbeam's `Receiver::try_recv`: never blocks, and tells a
/// waiting frame, an empty connected channel, and a disconnected channel
/// apart.
#[verifier::external_body]
pub(crate) fn try_recv_frame(rx: &Receiver<FrameTexture>) -> TryReceive {
    match rx.try_recv() {
        Ok(frame) => TryReceive::Received(frame),
        Err(TryRecvError::Empty) => TryReceive::ChannelEmpty,
        Err(TryRecvError::Disconnected) => TryReceive::Disconnected,
    }
}

} // verus!
