use screenshot_lib::buffer::create_buffer;
use screenshot_lib::buffer::prepare_capture;
use screenshot_lib::buffer::store_frame;
use screenshot_lib::buffer::FrameBuffer;
use screenshot_lib::buffer::FORMAT_Z_PIXMAP;
use screenshot_lib::buffer::PLANE_MASK_ALL;
use screenshot_lib::error::CaptureError;
use screenshot_lib::geometry::Rect;
use screenshot_lib::session::open_session;
use screenshot_lib::session::Session;
use screenshot_lib::version::ShmVersion;

fn session(width: u16, height: u16) -> Session {
    open_session(
        String::from(":1"),
        width,
        height,
        42,
        ShmVersion { major: 1, minor: 2 },
    )
    .expect("1.2 supports fd attach")
}

fn buffer(s: &Session) -> FrameBuffer {
    create_buffer(s, 11).expect("frame fits in memory")
}

#[test]
fn buffer_length_is_width_height_4() {
    let s = session(1920, 1080);
    let b = buffer(&s);
    assert_eq!(b.data.len(), 1920 * 1080 * 4);
    assert_eq!(b.data.len(), 8294400);
    assert!(b.attached);
    assert_eq!(b.segment, 11);
    assert!(b.data.iter().all(|&x| x == 0));
}

#[test]
fn oversized_width_is_invalid_argument() {
    let s = session(1920, 1080);
    let b = buffer(&s);
    let r = prepare_capture(
        &s,
        &b,
        Some(Rect {
            x: 0,
            y: 0,
            width: 1921,
            height: 10,
        }),
    );
    assert_eq!(r.err(), Some(CaptureError::InvalidArgument));
}

#[test]
fn oversized_height_is_invalid_argument() {
    let s = session(1920, 1080);
    let b = buffer(&s);
    let r = prepare_capture(
        &s,
        &b,
        Some(Rect {
            x: 0,
            y: 0,
            width: 10,
            height: 1081,
        }),
    );
    assert_eq!(r.err(), Some(CaptureError::InvalidArgument));
}

#[test]
fn empty_or_offscreen_rects_are_invalid() {
    let s = session(100, 50);
    let b = buffer(&s);
    let cases = vec![
        Rect { x: 0, y: 0, width: 0, height: 5 },
        Rect { x: 0, y: 0, width: 5, height: 0 },
        Rect { x: -1, y: 0, width: 5, height: 5 },
        Rect { x: 0, y: -3, width: 5, height: 5 },
        Rect { x: 100, y: 0, width: 5, height: 5 },
        Rect { x: 0, y: 50, width: 5, height: 5 },
    ];
    for rect in cases {
        let r = prepare_capture(&s, &b, Some(rect));
        assert_eq!(r.err(), Some(CaptureError::InvalidArgument));
    }
}

#[test]
fn default_capture_is_the_full_screen() {
    let s = session(1920, 1080);
    let b = buffer(&s);
    let req = prepare_capture(&s, &b, None).expect("full screen is valid");
    assert_eq!(req.drawable, 42);
    assert_eq!(req.x, 0);
    assert_eq!(req.y, 0);
    assert_eq!(req.width, 1920);
    assert_eq!(req.height, 1080);
    assert_eq!(req.plane_mask, PLANE_MASK_ALL);
    assert_eq!(req.plane_mask, 0xFFFF_FFFF);
    assert_eq!(req.format, FORMAT_Z_PIXMAP);
    assert_eq!(req.format, 2);
    assert_eq!(req.segment, 11);
    assert_eq!(req.offset, 0);
}

#[test]
fn sub_region_request_keeps_its_corner() {
    let s = session(1920, 1080);
    let b = buffer(&s);
    let req = prepare_capture(
        &s,
        &b,
        Some(Rect {
            x: 10,
            y: 20,
            width: 300,
            height: 200,
        }),
    )
    .expect("rect fits");
    assert_eq!((req.x, req.y, req.width, req.height), (10, 20, 300, 200));
}

#[test]
fn capture_after_buffer_close_is_invalid_state() {
    let s = session(1920, 1080);
    let mut b = buffer(&s);
    b.close();
    let r = prepare_capture(&s, &b, None);
    assert_eq!(r.err(), Some(CaptureError::InvalidState));
    // A second close changes nothing and the state error persists.
    b.close();
    let r2 = prepare_capture(
        &s,
        &b,
        Some(Rect { x: 0, y: 0, width: 1, height: 1 }),
    );
    assert_eq!(r2.err(), Some(CaptureError::InvalidState));
}

#[test]
fn capture_after_session_close_is_invalid_state() {
    let mut s = session(1920, 1080);
    let b = buffer(&s);
    s.close();
    let r = prepare_capture(&s, &b, None);
    assert_eq!(r.err(), Some(CaptureError::InvalidState));
}

#[test]
fn state_error_takes_precedence_over_geometry_error() {
    let s = session(100, 50);
    let mut b = buffer(&s);
    b.close();
    let r = prepare_capture(
        &s,
        &b,
        Some(Rect {
            x: 0,
            y: 0,
            width: 101,
            height: 51,
        }),
    );
    assert_eq!(r.err(), Some(CaptureError::InvalidState));
}

#[test]
fn stored_payload_lands_at_the_origin() {
    let s = session(2, 2);
    let mut b = buffer(&s);
    let rect = Rect { x: 1, y: 1, width: 1, height: 1 };
    let payload = vec![9u8, 8, 7, 6];
    store_frame(&mut b, rect, &payload).expect("payload matches footprint");
    assert_eq!(b.data[0..4], [9, 8, 7, 6]);
    // The bytes past the captured footprint keep their prior value.
    assert_eq!(b.data[4..16], [0u8; 12]);
    assert_eq!(b.data.len(), 16);
}

#[test]
fn repeated_capture_of_unchanged_content_is_byte_identical() {
    let s = session(2, 2);
    let mut b = buffer(&s);
    let rect = Rect { x: 0, y: 0, width: 2, height: 2 };
    let payload: Vec<u8> = (1..=16).collect();
    store_frame(&mut b, rect, &payload).expect("payload matches footprint");
    let first: Vec<u8> = b.data.clone();
    store_frame(&mut b, rect, &payload).expect("payload matches footprint");
    assert_eq!(b.data, first);
}

#[test]
fn capture_after_content_change_differs_in_at_least_one_byte() {
    let s = session(2, 2);
    let mut b = buffer(&s);
    let rect = Rect { x: 0, y: 0, width: 2, height: 2 };
    let before: Vec<u8> = (1..=16).collect();
    let mut after = before.clone();
    after[5] = 200;
    store_frame(&mut b, rect, &before).expect("payload matches footprint");
    let img1: Vec<u8> = b.data.clone();
    store_frame(&mut b, rect, &after).expect("payload matches footprint");
    let img2: Vec<u8> = b.data.clone();
    let diff = img1.iter().zip(img2.iter()).filter(|(a, b)| a != b).count();
    assert!(diff > 0, "Both captures are identical, no changes detected");
    assert_eq!(diff, 1);
}

#[test]
fn short_payload_is_a_protocol_error_and_leaves_the_frame_untouched() {
    let s = session(2, 2);
    let mut b = buffer(&s);
    let rect = Rect { x: 0, y: 0, width: 2, height: 2 };
    let r = store_frame(&mut b, rect, &vec![1u8, 2, 3]);
    assert_eq!(r.err(), Some(CaptureError::ProtocolError));
    assert!(b.data.iter().all(|&x| x == 0));
}

#[test]
fn store_after_close_is_invalid_state_and_leaves_the_frame_untouched() {
    let s = session(2, 2);
    let mut b = buffer(&s);
    b.close();
    let rect = Rect { x: 0, y: 0, width: 2, height: 2 };
    let payload: Vec<u8> = (1..=16).collect();
    let r = store_frame(&mut b, rect, &payload);
    assert_eq!(r.err(), Some(CaptureError::InvalidState));
    assert!(b.data.iter().all(|&x| x == 0));
}

#[test]
fn store_with_oversized_rect_is_invalid_argument() {
    let s = session(2, 2);
    let mut b = buffer(&s);
    let rect = Rect { x: 0, y: 0, width: 3, height: 2 };
    let payload: Vec<u8> = (1..=24).collect();
    let r = store_frame(&mut b, rect, &payload);
    assert_eq!(r.err(), Some(CaptureError::InvalidArgument));
    assert!(b.data.iter().all(|&x| x == 0));
}

#[test]
fn buffer_close_keeps_bytes_and_geometry() {
    let s = session(2, 2);
    let mut b = buffer(&s);
    let rect = Rect { x: 0, y: 0, width: 2, height: 2 };
    let payload: Vec<u8> = (1..=16).collect();
    store_frame(&mut b, rect, &payload).expect("payload matches footprint");
    b.close();
    assert!(!b.attached);
    assert_eq!(b.data, payload);
    assert_eq!((b.width, b.height, b.segment), (2, 2, 11));
}
