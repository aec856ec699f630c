use learning_vulkan::util::read_shader_file;
use learning_vulkan::{AppState, Response, WindowEvent};

#[test]
fn shader_words_are_little_endian() {
    // the magic number of a SPIR-V module
    assert_eq!(read_shader_file(&vec![0x03, 0x02, 0x23, 0x07]), vec![0x0723_0203]);
    assert_eq!(
        read_shader_file(&vec![1, 0, 0, 0, 0, 1, 0, 0, 0, 0, 1, 0, 0, 0, 0, 1]),
        vec![1, 0x100, 0x1_0000, 0x100_0000]
    );
    assert_eq!(read_shader_file(&vec![0xff, 0xff, 0xff, 0xff]), vec![u32::MAX]);
    assert_eq!(read_shader_file(&vec![0x78, 0x56, 0x34, 0x12]), vec![0x1234_5678]);
}

#[test]
fn shader_words_of_an_empty_file() {
    assert_eq!(read_shader_file(&Vec::new()), Vec::<u32>::new());
}

#[test]
fn shader_words_agree_with_from_le_bytes() {
    let buffer: Vec<u8> = (0..=255u8).rev().collect();
    let expected: Vec<u32> =
        buffer.chunks(4).map(|x| u32::from_le_bytes([x[0], x[1], x[2], x[3]])).collect();
    assert_eq!(read_shader_file(&buffer), expected);
    assert_eq!(expected.len(), 64);
}

#[test]
fn resumed_opens_a_fixed_window() {
    let mut app = AppState::default();
    assert!(!app.window);
    let attributes = app.resumed();
    assert_eq!(attributes.title, "Learning Vulkan");
    assert!(!attributes.resizable);
    assert!(app.window);
}

#[test]
fn window_events_and_their_responses() {
    let app = AppState { window: true };
    assert_eq!(app.window_event(WindowEvent::CloseRequested), Response::Exit);
    assert_eq!(app.window_event(WindowEvent::RedrawRequested), Response::RequestRedraw);
    assert_eq!(app.window_event(WindowEvent::Other), Response::Nothing);
    let closed = AppState { window: false };
    assert_eq!(closed.window_event(WindowEvent::CloseRequested), Response::Exit);
    assert_eq!(closed.window_event(WindowEvent::Other), Response::Nothing);
}
