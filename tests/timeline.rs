use term_recorder::recording::{RecordedFrame, Recording};
use term_recorder::terminal::VirtualTerminal;
use term_recorder::timeline::{
    delay_between, enhance_recording, pause_millis, render_records, render_timeline, RenderError,
};

fn frame(content: &str, timestamp: u128) -> RecordedFrame {
    RecordedFrame { content: content.to_string(), timestamp }
}

#[test]
fn two_records_get_default_then_scaled_delay() {
    let frames = vec![frame("X", 0), frame("Y", 250)];
    let anim = render_records(&frames, 4, 2, 8, true, 1000).unwrap();
    assert_eq!(anim.frames.len(), 2);
    assert_eq!(anim.frames[0].delay, 10);
    assert_eq!(anim.frames[1].delay, 25);
    assert_eq!((anim.width, anim.height), (32, 32));
    assert_eq!(anim.frames[0].pixels.len(), 32 * 32 * 3);
}

#[test]
fn frames_show_the_grid_after_each_chunk() {
    let frames = vec![frame("X", 0), frame("Y", 250)];
    let anim = render_records(&frames, 4, 2, 8, true, 1000).unwrap();
    let mut t = VirtualTerminal::new(4, 2, true);
    t.process_content("X");
    assert_eq!(anim.frames[0].pixels, t.render_pixels(8));
    t.process_content("Y");
    assert_eq!(anim.frames[1].pixels, t.render_pixels(8));
    assert_ne!(anim.frames[0].pixels, anim.frames[1].pixels);
}

#[test]
fn delays_are_rounded_and_clamped() {
    assert_eq!(delay_between(0, 250, 1000), 25);
    assert_eq!(delay_between(0, 250, 2000), 13);
    assert_eq!(delay_between(0, 244, 1000), 24);
    assert_eq!(delay_between(0, 245, 1000), 25);
    assert_eq!(delay_between(0, 5, 1000), 2);
    assert_eq!(delay_between(0, 0, 1000), 2);
    assert_eq!(delay_between(500, 100, 1000), 2);
    assert_eq!(delay_between(0, 60_000, 1000), 500);
    assert_eq!(delay_between(0, u128::MAX, 1), 500);
    assert_eq!(delay_between(0, 1000, 500), 200);
}

#[test]
fn pauses_scale_with_speed() {
    assert_eq!(pause_millis(100, 350, 1000), 250);
    assert_eq!(pause_millis(100, 350, 2000), 125);
    assert_eq!(pause_millis(350, 100, 1000), 0);
    assert_eq!(pause_millis(0, u128::MAX, 1), u64::MAX);
}

#[test]
fn empty_recording_is_an_error() {
    let none: Vec<RecordedFrame> = Vec::new();
    assert_eq!(render_records(&none, 80, 24, 16, true, 1000).err(), Some(RenderError::NothingToRender));
    assert_eq!(render_timeline(none, 80, 24, 16, true, 1000).err(), Some(RenderError::NothingToRender));
}

#[test]
fn bad_sizes_and_speed_are_errors() {
    let frames = vec![frame("X", 0)];
    assert_eq!(render_records(&frames, 0, 24, 16, true, 1000).err(), Some(RenderError::EmptyGrid));
    assert_eq!(render_records(&frames, 80, 0, 16, true, 1000).err(), Some(RenderError::EmptyGrid));
    assert_eq!(render_records(&frames, 80, 24, 16, true, 0).err(), Some(RenderError::ZeroSpeed));
    assert_eq!(
        render_records(&frames, usize::MAX / 2, 24, 16, true, 1000).err(),
        Some(RenderError::TooLarge)
    );
}

#[test]
fn intro_and_outro_surround_the_recording() {
    let out = enhance_recording(vec![frame("ls\n", 40), frame("done", 900)]);
    assert_eq!(out.len(), 5);
    assert_eq!(out[0].content, "\x1B[H\x1B[2J\x1B[1;32m# Terminal Recording\x1B[0m\n\n");
    assert_eq!(out[0].timestamp, 0);
    assert_eq!(out[1].content, "\x1B[1;34m$ \x1B[0m");
    assert_eq!(out[1].timestamp, 1000);
    assert_eq!(out[2].content, "ls\n");
    assert_eq!(out[2].timestamp, 1540);
    assert_eq!(out[3].content, "done");
    assert_eq!(out[3].timestamp, 2400);
    assert_eq!(out[4].content, "\n\n\x1B[1;32m# End of Recording\x1B[0m\n");
    assert_eq!(out[4].timestamp, 3400);
}

#[test]
fn enhancing_nothing_gives_intro_and_outro() {
    let out = enhance_recording(Vec::new());
    assert_eq!(out.len(), 3);
    assert_eq!(out[2].timestamp, 2000);
}

#[test]
fn timeline_renders_intro_records_and_outro() {
    let anim = render_timeline(vec![frame("hi", 0), frame("!", 300)], 20, 5, 8, true, 1000).unwrap();
    assert_eq!(anim.frames.len(), 5);
    let delays: Vec<u16> = anim.frames.iter().map(|f| f.delay).collect();
    assert_eq!(delays, vec![10, 100, 50, 30, 100]);
}

#[test]
fn recording_keeps_non_empty_chunks() {
    let mut r = Recording::new();
    r.add_frame(String::new());
    assert!(r.frames.is_empty());
    r.add_frame("a".to_string());
    r.add_frame_at("b".to_string(), 77);
    r.add_frame("c".to_string());
    assert!(r.frames[2].timestamp >= 77);
    r.frames.pop();
    r.add_frame_at(String::new(), 80);
    assert_eq!(r.frames.len(), 2);
    assert_eq!(r.frames[0].content, "a");
    assert_eq!(r.frames[1].content, "b");
    assert_eq!(r.frames[1].timestamp, 77);
}
