//! Assembling a recording into timed frames: an intro and an outro around
//! the recorded chunks, one rendered image per chunk, and the delay each
//! image is shown for.

use crate::model::{initial_state, law_cursor_stays_on_grid, process, TermState};
use crate::raster::rendered_samples;
use crate::recording::{frame_view, frames_view, RecordedFrame};
use crate::terminal::VirtualTerminal;
use vstd::prelude::*;

verus! {

broadcast use vstd::string::group_string_axioms;

/// Milliseconds after the start at which the prompt of the intro appears.
pub const PROMPT_TIME: u128 = 1000;

/// Milliseconds by which the recorded chunks are shifted to make room for
/// the intro.
pub const INTRO_OFFSET: u128 = 1500;

/// Milliseconds between the last chunk and the outro.
pub const OUTRO_GAP: u128 = 1000;

/// Delay of the first frame, in centiseconds.
pub const FIRST_DELAY: u16 = 10;

/// Shortest and longest delay of a frame, in centiseconds.
pub const MIN_DELAY: u16 = 2;

pub const MAX_DELAY: u16 = 500;

pub open spec fn intro_text() -> Seq<char> {
    "\x1B[H\x1B[2J\x1B[1;32m# Terminal Recording\x1B[0m\n\n"@
}

pub open spec fn prompt_text() -> Seq<char> {
    "\x1B[1;34m$ \x1B[0m"@
}

pub open spec fn outro_text() -> Seq<char> {
    "\n\n\x1B[1;32m# End of Recording\x1B[0m\n"@
}

/// The recording with the intro and outro around it: a title at 0, a
/// prompt at 1000 ms, the chunks shifted by 1500 ms, and a closing line
/// 1000 ms after the last of them.
pub open spec fn enhanced(frames: Seq<(Seq<char>, u128)>) -> Seq<(Seq<char>, u128)> {
    let shifted = frames.map_values(
        |f: (Seq<char>, u128)| (f.0, (f.1 + INTRO_OFFSET) as u128),
    );
    let body = seq![(intro_text(), 0u128), (prompt_text(), PROMPT_TIME)] + shifted;
    body.push((outro_text(), (body.last().1 + OUTRO_GAP) as u128))
}

/// Every timestamp leaves room for the shifts of `enhanced`.
pub open spec fn timestamps_fit(frames: Seq<(Seq<char>, u128)>) -> bool {
    forall|i: int|
        0 <= i < frames.len() ==> (#[trigger] frames[i]).1 <= u128::MAX - INTRO_OFFSET - OUTRO_GAP
}

/// Adds the intro and the outro to a recording.
pub fn enhance_recording(frames: Vec<RecordedFrame>) -> (r: Vec<RecordedFrame>)
    requires
        timestamps_fit(frames_view(frames@)),
    ensures
        frames_view(r@) == enhanced(frames_view(frames@)),
{
    let ghost input = frames_view(frames@);
    let mut enhanced_frames: Vec<RecordedFrame> = Vec::new();
    enhanced_frames.push(
        RecordedFrame {
            content: "\x1B[H\x1B[2J\x1B[1;32m# Terminal Recording\x1B[0m\n\n".to_string(),
            timestamp: 0,
        },
    );
    enhanced_frames.push(
        RecordedFrame { content: "\x1B[1;34m$ \x1B[0m".to_string(), timestamp: PROMPT_TIME },
    );
    let ghost head = frames_view(enhanced_frames@);
    assert(head =~= seq![(intro_text(), 0u128), (prompt_text(), PROMPT_TIME)]);
    let mut last: u128 = PROMPT_TIME;
    for frame in it: frames
        invariant
            input == frames_view(it.seq()),
            timestamps_fit(input),
            head == seq![(intro_text(), 0u128), (prompt_text(), PROMPT_TIME)],
            frames_view(enhanced_frames@) == head + input.take(it.index() as int).map_values(
                |f: (Seq<char>, u128)| (f.0, (f.1 + INTRO_OFFSET) as u128),
            ),
            last == frames_view(enhanced_frames@).last().1,
            enhanced_frames@.len() >= 2,
            last <= u128::MAX - OUTRO_GAP,
    {
        let ghost i = it.index();
        assert(input[i as int] == frame_view(frame));
        let timestamp = frame.timestamp + INTRO_OFFSET;
        let ghost before = frames_view(enhanced_frames@);
        let ghost c = frame.content@;
        enhanced_frames.push(RecordedFrame { content: frame.content, timestamp });
        last = timestamp;
        assert(input.take(i + 1) =~= input.take(i as int).push(input[i as int]));
        assert(frames_view(enhanced_frames@) =~= before.push((c, timestamp)));
    }
    assert(input.take(input.len() as int) =~= input);
    let ghost before = frames_view(enhanced_frames@);
    enhanced_frames.push(
        RecordedFrame {
            content: "\n\n\x1B[1;32m# End of Recording\x1B[0m\n".to_string(),
            timestamp: last + OUTRO_GAP,
        },
    );
    assert(frames_view(enhanced_frames@) =~= before.push((outro_text(), (last + OUTRO_GAP) as u128)));
    enhanced_frames
}

/// `v` held within `[2, 500]`.
pub open spec fn clamp_delay(v: nat) -> nat {
    if v < MIN_DELAY {
        MIN_DELAY as nat
    } else if v > MAX_DELAY {
        MAX_DELAY as nat
    } else {
        v
    }
}

/// `dt` milliseconds played at `speed_milli / 1000` times the recorded
/// speed, in centiseconds, rounded to the nearest (halves up).
pub open spec fn rounded_delay(dt: nat, speed_milli: nat) -> nat {
    (dt * 200 + speed_milli) / (2 * speed_milli)
}

/// The delay of a frame stamped `cur` after one stamped `prev`, in
/// centiseconds: a timestamp that goes backwards counts as no time.
pub open spec fn frame_delay(prev: u128, cur: u128, speed_milli: nat) -> nat {
    let dt: nat = if cur >= prev {
        (cur - prev) as nat
    } else {
        0
    };
    clamp_delay(rounded_delay(dt, speed_milli))
}

/// The delay of frame `i` of a list: the first frame has a fixed delay.
pub open spec fn delay_of(frames: Seq<(Seq<char>, u128)>, i: int, speed_milli: nat) -> nat {
    if i == 0 {
        FIRST_DELAY as nat
    } else {
        frame_delay(frames[i - 1].1, frames[i].1, speed_milli)
    }
}

/// The delay between two frames, in centiseconds, at `speed_milli / 1000`
/// times the recorded speed.
pub fn delay_between(prev: u128, cur: u128, speed_milli: u64) -> (d: u16)
    requires
        speed_milli >= 1,
    ensures
        d as nat == frame_delay(prev, cur, speed_milli as nat),
{
    let dt: u128 = if cur >= prev {
        cur - prev
    } else {
        0
    };
    let s = speed_milli as u128;
    if dt > u128::MAX / 400 {
        assert(rounded_delay(dt as nat, s as nat) >= 500) by {
            assert(dt * 200 + s >= 500 * (2 * s)) by (nonlinear_arith)
                requires dt > u128::MAX / 400, s <= u64::MAX;
            vstd::arithmetic::div_mod::lemma_div_is_ordered(
                500 * (2 * s as int),
                dt * 200 + s,
                2 * s as int,
            );
            vstd::arithmetic::div_mod::lemma_div_by_multiple(500, 2 * s as int);
        }
        return MAX_DELAY;
    }
    assert(dt * 200 + s <= u128::MAX) by (nonlinear_arith)
        requires dt <= u128::MAX / 400, s <= u64::MAX;
    let v = (dt * 200 + s) / (2 * s);
    if v < 2 {
        MIN_DELAY
    } else if v > 500 {
        MAX_DELAY
    } else {
        v as u16
    }
}

/// The milliseconds to pause between two frames when playing back at
/// `speed_milli / 1000` times the recorded speed, rounded down; a
/// timestamp that goes backwards counts as no time.
pub fn pause_millis(prev: u128, cur: u128, speed_milli: u64) -> (ms: u64)
    requires
        speed_milli >= 1,
    ensures
        ms as nat == ({
            let dt: nat = if cur >= prev {
                (cur - prev) as nat
            } else {
                0
            };
            let v = dt * 1000 / speed_milli as nat;
            if v > u64::MAX {
                u64::MAX as nat
            } else {
                v
            }
        }),
{
    let dt: u128 = if cur >= prev {
        cur - prev
    } else {
        0
    };
    if dt > u128::MAX / 1000 {
        assert((dt as nat) * 1000 / (speed_milli as nat) > u64::MAX) by {
            assert(dt * 1000 >= (u64::MAX + 1) * speed_milli) by (nonlinear_arith)
                requires dt > u128::MAX / 1000, speed_milli <= u64::MAX;
            vstd::arithmetic::div_mod::lemma_div_is_ordered(
                (u64::MAX + 1) * speed_milli,
                dt * 1000,
                speed_milli as int,
            );
            vstd::arithmetic::div_mod::lemma_div_by_multiple(u64::MAX + 1, speed_milli as int);
        }
        return u64::MAX;
    }
    let v = dt * 1000 / (speed_milli as u128);
    if v > u64::MAX as u128 {
        u64::MAX
    } else {
        v as u64
    }
}

/// An image and how long it is shown, in centiseconds.
pub struct TimedFrame {
    /// Three bytes per pixel, row after row.
    pub pixels: Vec<u8>,
    pub delay: u16,
}

/// The frames of an animation, all of one size in pixels.
pub struct Animation {
    pub width: u32,
    pub height: u32,
    pub frames: Vec<TimedFrame>,
}

/// Why a recording could not be rendered.
#[derive(Clone, Copy, PartialEq, Eq, Structural, Debug)]
pub enum RenderError {
    /// The recording holds no frame.
    NothingToRender,
    /// The grid has no rows or no columns.
    EmptyGrid,
    /// The speed is zero.
    ZeroSpeed,
    /// The image of one frame does not fit in memory, or is wider or
    /// taller than `u32::MAX` pixels.
    TooLarge,
}

/// The terminal after the first `n` frames were fed to it.
pub open spec fn state_after(init: TermState, frames: Seq<(Seq<char>, u128)>, n: int) -> TermState
    decreases n,
{
    if n <= 0 {
        init
    } else {
        process(state_after(init, frames, n - 1), frames[n - 1].0)
    }
}

/// The error that rendering gives for these inputs, if any.
pub open spec fn render_error(
    n: nat,
    width: nat,
    height: nat,
    font_size: nat,
    speed_milli: nat,
) -> Option<RenderError> {
    if n == 0 {
        Some(RenderError::NothingToRender)
    } else if width == 0 || height == 0 {
        Some(RenderError::EmptyGrid)
    } else if speed_milli == 0 {
        Some(RenderError::ZeroSpeed)
    } else if width * font_size > u32::MAX || height * (2 * font_size) > u32::MAX || width
        * font_size * (height * (2 * font_size)) * 3 > usize::MAX {
        Some(RenderError::TooLarge)
    } else {
        None
    }
}

/// `a` is the animation of `frames`: frame `i` is the image of the grid
/// once frames `0..=i` were fed to it, shown for `delay_of(frames, i)`.
pub open spec fn animation_of(
    a: Animation,
    frames: Seq<(Seq<char>, u128)>,
    width: nat,
    height: nat,
    font_size: nat,
    dark_theme: bool,
    speed_milli: nat,
) -> bool {
    let init = initial_state(width, height, dark_theme);
    &&& a.width == width * font_size
    &&& a.height == height * (2 * font_size)
    &&& a.frames@.len() == frames.len()
    &&& forall|i: int|
        0 <= i < frames.len() ==> (#[trigger] a.frames@[i]).pixels@ == rendered_samples(
            state_after(init, frames, i + 1),
            font_size,
        ) && a.frames@[i].delay == delay_of(frames, i, speed_milli)
}

/// Renders each frame of a recording on one terminal of `width` by
/// `height` cells: the text of a frame goes to the terminal, then its grid
/// is drawn. Speeds are in thousandths of the recorded speed.
pub fn render_records(
    frames: &Vec<RecordedFrame>,
    width: usize,
    height: usize,
    font_size: u8,
    dark_theme: bool,
    speed_milli: u64,
) -> (r: Result<Animation, RenderError>)
    ensures
        match render_error(frames@.len(), width as nat, height as nat, font_size as nat, speed_milli as nat) {
            Some(e) => r == Err::<Animation, RenderError>(e),
            None => r is Ok && animation_of(
                r->Ok_0,
                frames_view(frames@),
                width as nat,
                height as nat,
                font_size as nat,
                dark_theme,
                speed_milli as nat,
            ),
        },
{
    if frames.len() == 0 {
        return Err(RenderError::NothingToRender);
    }
    if width == 0 || height == 0 {
        return Err(RenderError::EmptyGrid);
    }
    if speed_milli == 0 {
        return Err(RenderError::ZeroSpeed);
    }
    let fs = font_size as u128;
    assert(width as u128 * fs <= u128::MAX && height as u128 * (2 * fs) <= u128::MAX) by (nonlinear_arith)
        requires width <= usize::MAX, height <= usize::MAX, fs <= 255;
    let w = width as u128 * fs;
    let h = height as u128 * (2 * fs);
    if w > u32::MAX as u128 || h > u32::MAX as u128 {
        return Err(RenderError::TooLarge);
    }
    assert(w * h * 3 <= u128::MAX) by (nonlinear_arith)
        requires w <= u32::MAX, h <= u32::MAX;
    if w * h * 3 > usize::MAX as u128 {
        return Err(RenderError::TooLarge);
    }
    let ghost fv = frames_view(frames@);
    let ghost init = initial_state(width as nat, height as nat, dark_theme);
    let mut terminal = VirtualTerminal::new(width, height, dark_theme);
    let mut out: Vec<TimedFrame> = Vec::new();
    let mut i: usize = 0;
    while i < frames.len()
        invariant
            i <= frames@.len(),
            fv == frames_view(frames@),
            init == initial_state(width as nat, height as nat, dark_theme),
            terminal.inv(),
            terminal@ == state_after(init, fv, i as int),
            terminal@.width == width,
            terminal@.height == height,
            w == width * font_size,
            h == height * (2 * font_size),
            w <= u32::MAX,
            h <= u32::MAX,
            w * h * 3 <= usize::MAX,
            speed_milli >= 1,
            out@.len() == i,
            forall|j: int|
                0 <= j < i ==> (#[trigger] out@[j]).pixels@ == rendered_samples(
                    state_after(init, fv, j + 1),
                    font_size as nat,
                ) && out@[j].delay == delay_of(fv, j, speed_milli as nat),
        decreases frames@.len() - i,
    {
        let ghost before = terminal@;
        let ghost before_terminal = terminal;
        assert(fv[i as int] == frame_view(frames@[i as int]));
        terminal.process_content(frames[i].content.as_str());
        proof {
            before_terminal.lemma_grid_wf();
            law_cursor_stays_on_grid(before, frames@[i as int].content@);
        }
        let img = terminal.render_to_image(font_size);
        let pixels = img.samples();
        let delay = if i == 0 {
            FIRST_DELAY
        } else {
            assert(fv[i - 1] == frame_view(frames@[i - 1]));
            delay_between(frames[i - 1].timestamp, frames[i].timestamp, speed_milli)
        };
        out.push(TimedFrame { pixels, delay });
        i = i + 1;
    }
    Ok(Animation { width: w as u32, height: h as u32, frames: out })
}

/// Renders a recording with the intro and outro around it; an empty
/// recording is an error.
pub fn render_timeline(
    records: Vec<RecordedFrame>,
    width: usize,
    height: usize,
    font_size: u8,
    dark_theme: bool,
    speed_milli: u64,
) -> (r: Result<Animation, RenderError>)
    requires
        timestamps_fit(frames_view(records@)),
    ensures
        records@.len() == 0 ==> r == Err::<Animation, RenderError>(RenderError::NothingToRender),
        records@.len() > 0 ==> match render_error(
            records@.len() + 3,
            width as nat,
            height as nat,
            font_size as nat,
            speed_milli as nat,
        ) {
            Some(e) => r == Err::<Animation, RenderError>(e),
            None => r is Ok && animation_of(
                r->Ok_0,
                enhanced(frames_view(records@)),
                width as nat,
                height as nat,
                font_size as nat,
                dark_theme,
                speed_milli as nat,
            ),
        },
{
    if records.len() == 0 {
        return Err(RenderError::NothingToRender);
    }
    let all = enhance_recording(records);
    proof {
        assert(frames_view(all@).len() == all@.len());
    }
    render_records(&all, width, height, font_size, dark_theme, speed_milli)
}

} // verus!
