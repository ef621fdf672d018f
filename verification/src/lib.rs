//! Core of a compositor frame-capture pipeline: a capture-session lifecycle,
//! a thread-safe channel handing GPU texture handles from the capture
//! callback to a consumer, and a readback path that turns a staged texture
//! into a tightly packed CPU pixel buffer.

mod capture;
mod channel;
mod error;
mod frame;

pub use capture::{
    frame_or_no_texture, lemma_release_runs_once, on_frame_arrived, partial_teardown,
    setup_failure, spec_release, teardown_result, CallbackOutcome, Capture, Setup, Teardown,
};
pub use channel::TryReceive;
pub use error::CaptureError;
pub use frame::{
    mapped_index, packed_index, read_back, staged_readable, FrameTexture, RawFrameData,
    TextureDesc, D3D11_CPU_ACCESS_READ, D3D11_USAGE_STAGING, DXGI_FORMAT_B8G8R8A8_UNORM,
};
