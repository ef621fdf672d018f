//! The producer/consumer handoff: polling before any frame, arrival order,
//! and end-of-stream after teardown.

use framegrab::{
    frame_or_no_texture, on_frame_arrived, read_back, CallbackOutcome, Capture, CaptureError,
    FrameTexture, Setup, Teardown, TextureDesc, TryReceive, D3D11_CPU_ACCESS_READ,
    D3D11_USAGE_STAGING, DXGI_FORMAT_B8G8R8A8_UNORM,
};

fn staged(width: u32, height: u32, fill: u8) -> FrameTexture {
    let desc = TextureDesc {
        width,
        height,
        format: DXGI_FORMAT_B8G8R8A8_UNORM,
        usage: D3D11_USAGE_STAGING,
        cpu_access_flags: D3D11_CPU_ACCESS_READ,
    };
    let pitch = width * 4;
    FrameTexture::new(desc, pitch, vec![fill; (height * pitch) as usize]).unwrap()
}

#[test]
fn draining_before_any_frame_yields_no_texture() {
    let (cap, _tx) = Capture::new(Setup::Ready).unwrap();
    // Never blocks, never fabricates a zero-filled frame.
    assert_eq!(
        cap.try_receive().err(),
        Some(CaptureError::NoTexture),
        "empty channel must yield NoTexture"
    );
}

#[test]
fn poll_outcomes_map_to_readback_precondition() {
    assert_eq!(
        frame_or_no_texture(TryReceive::ChannelEmpty).err(),
        Some(CaptureError::NoTexture)
    );
    assert_eq!(
        frame_or_no_texture(TryReceive::Disconnected).err(),
        Some(CaptureError::NoTexture)
    );
    let handed_on = frame_or_no_texture(TryReceive::Received(staged(1, 1, 9))).unwrap();
    assert_eq!(read_back(&handed_on).unwrap().data, vec![9, 9, 9, 9]);
}

#[test]
fn two_callbacks_are_observed_in_arrival_order() {
    let (cap, tx) = Capture::new(Setup::Ready).unwrap();
    assert!(matches!(on_frame_arrived(&tx, Ok(staged(1, 1, 1))), CallbackOutcome::Forwarded));
    assert!(matches!(on_frame_arrived(&tx, Ok(staged(2, 1, 2))), CallbackOutcome::Forwarded));
    let first = cap.receive().expect("first frame");
    let second = cap.receive().expect("second frame");
    assert_eq!(first.descriptor().width, 1);
    assert_eq!(second.descriptor().width, 2);
    assert_eq!(cap.try_receive().err(), Some(CaptureError::NoTexture));
}

#[test]
fn receive_after_close_is_end_of_stream() {
    let (mut cap, tx) = Capture::new(Setup::Ready).unwrap();
    cap.release(Teardown::Completed).unwrap();
    drop(tx);
    // An end-of-stream indication, not a hang and not an error.
    assert!(cap.receive().is_none());
}

#[test]
fn receive_drains_frames_sent_before_close() {
    let (mut cap, tx) = Capture::new(Setup::Ready).unwrap();
    assert!(matches!(on_frame_arrived(&tx, Ok(staged(1, 1, 5))), CallbackOutcome::Forwarded));
    cap.release(Teardown::Completed).unwrap();
    drop(tx);
    assert!(cap.receive().is_some());
    assert!(cap.receive().is_none());
}

#[test]
fn try_receive_on_released_session_is_not_active() {
    let (mut cap, _tx) = Capture::new(Setup::Ready).unwrap();
    cap.release(Teardown::Completed).unwrap();
    assert_eq!(cap.try_receive().err(), Some(CaptureError::NotActive));
}

#[test]
fn session_over_padded_item_delivers_exact_pixels() {
    // A 100 x 50 capturable item; the simulated callback delivers one
    // staging texture of matching size, mapped with row pitch 512 and a
    // known repeating pattern: readback strips the 112 padding bytes per row.
    let width = 100u32;
    let height = 50u32;
    let pitch = 512u32;
    let mapped: Vec<u8> = (0..(height * pitch) as usize).map(|i| (i % 253) as u8).collect();
    let desc = TextureDesc {
        width,
        height,
        format: DXGI_FORMAT_B8G8R8A8_UNORM,
        usage: D3D11_USAGE_STAGING,
        cpu_access_flags: D3D11_CPU_ACCESS_READ,
    };
    let texture = FrameTexture::new(desc, pitch, mapped.clone()).unwrap();

    let (cap, tx) = Capture::new(Setup::Ready).unwrap();
    assert!(matches!(on_frame_arrived(&tx, Ok(texture)), CallbackOutcome::Forwarded));
    let received = cap.try_receive().unwrap();
    let frame = read_back(&received).unwrap();
    assert_eq!(frame.width, 100);
    assert_eq!(frame.height, 50);
    assert_eq!(frame.data.len(), 20000);
    for row in 0..50usize {
        for col in 0..400usize {
            assert_eq!(frame.data[row * 400 + col], mapped[row * 512 + col]);
        }
    }
}
