//! What one execution of the render task draws.
//!
//! The task does not push pixels itself: it computes a `Frame`, a plain
//! description of the clear color, the progress bar and the text item, and
//! the display collaborator (which owns the actual panel) draws it. Every
//! field of the frame is pinned down here as a function of the state
//! snapshot the task took.

use vstd::prelude::*;
use vstd::string::StringExecFns;
use crate::MAX_TIME;
use crate::SCREEN_WIDTH;
use crate::SCREEN_HEIGHT;
use crate::CENTER;

verus! {

/// The five colors a frame ever uses, in the display's 16-bit palette.
#[derive(Clone, Copy, PartialEq, Eq, Structural, Debug)]
pub enum Color {
    Black,
    White,
    Red,
    Yellow,
    Green,
}

/// The 16-bit value of a color: 5 bits red, 6 green, 5 blue.
pub open spec fn rgb565_spec(c: Color) -> u16 {
    match c {
        Color::Black => 0x0000,
        Color::White => 0xFFFF,
        Color::Red => 0xF800,
        Color::Yellow => 0xFFE0,
        Color::Green => 0x07E0,
    }
}

impl Color {
    /// Raw pixel value in the 5-6-5 format the panel expects.
    pub fn rgb565(self) -> (raw: u16)
        ensures
            raw == rgb565_spec(self),
    {
        match self {
            Color::Black => 0x0000,
            Color::White => 0xFFFF,
            Color::Red => 0xF800,
            Color::Yellow => 0xFFE0,
            Color::Green => 0x07E0,
        }
    }
}

/// Status color by fixed threshold policy: red while running with at most
/// one time unit left, yellow while running otherwise, green while stopped.
pub open spec fn color_spec(running: bool, time_left: int) -> Color {
    if running && time_left <= 1 {
        Color::Red
    } else if running {
        Color::Yellow
    } else {
        Color::Green
    }
}

/// Select the status color for a state snapshot.
pub fn choose_color(running: bool, time_left: i32) -> (c: Color)
    ensures
        c == color_spec(running, time_left as int),
{
    if running && time_left <= 1 {
        Color::Red
    } else if running {
        Color::Yellow
    } else {
        Color::Green
    }
}

/// Height of the progress bar: the share of the screen height that the
/// remaining time is of the maximum duration.
pub open spec fn progress_height_spec(time_left: int) -> int {
    time_left * SCREEN_HEIGHT / (MAX_TIME as int)
}

/// Compute the progress-bar height for a snapshot of the remaining time.
pub fn progress_height(time_left: i32) -> (h: i32)
    requires
        0 <= time_left <= MAX_TIME,
    ensures
        h == progress_height_spec(time_left as int),
        0 <= h <= SCREEN_HEIGHT,
{
    proof {
        assert(0 <= time_left * SCREEN_HEIGHT <= MAX_TIME * SCREEN_HEIGHT) by (nonlinear_arith)
            requires 0 <= time_left <= MAX_TIME;
    }
    time_left * SCREEN_HEIGHT / MAX_TIME
}

/// An axis-aligned rectangle on the screen, by origin and size.
#[derive(Clone, Copy, PartialEq, Eq, Structural, Debug)]
pub struct Rect {
    pub x: i32,
    pub y: i32,
    pub width: i32,
    pub height: i32,
}

/// A position on the screen.
#[derive(Clone, Copy, PartialEq, Eq, Structural, Debug)]
pub struct TextPos {
    pub x: i32,
    pub y: i32,
}

/// The text item of a frame: instructions plus the configured time while
/// stopped, the expiry glyph when the countdown is about to run out, the
/// remaining time as two digits otherwise.
#[derive(Clone, Copy, PartialEq, Eq, Structural, Debug)]
pub enum FrameText {
    Instructions { time_left: i32 },
    Expiry,
    Digits { time_left: i32 },
}

/// One full frame: clear the surface, fill the progress bar, draw one text
/// item.
#[derive(Clone, Copy, PartialEq, Eq, Structural, Debug)]
pub struct Frame {
    pub background: Color,
    pub bar: Rect,
    pub bar_color: Color,
    pub text: FrameText,
    pub text_pos: TextPos,
    pub text_color: Color,
}

/// The frame drawn for a state snapshot: black background; a bar in the
/// status color, anchored to the bottom edge, spanning the full width,
/// with height proportional to the remaining time; white text — the
/// instructions beside the center while stopped, the expiry glyph or the
/// two-digit remaining time right of the center while running.
pub open spec fn frame_spec(running: bool, time_left: int) -> Frame {
    Frame {
        background: Color::Black,
        bar: Rect {
            x: 0,
            y: (SCREEN_HEIGHT - progress_height_spec(time_left)) as i32,
            width: SCREEN_WIDTH,
            height: progress_height_spec(time_left) as i32,
        },
        bar_color: color_spec(running, time_left),
        text: if !running {
            FrameText::Instructions { time_left: time_left as i32 }
        } else if time_left <= 1 {
            FrameText::Expiry
        } else {
            FrameText::Digits { time_left: time_left as i32 }
        },
        text_pos: if !running {
            TextPos { x: (CENTER + 10) as i32, y: (CENTER - 30) as i32 }
        } else {
            TextPos { x: (CENTER + 50) as i32, y: CENTER }
        },
        text_color: Color::White,
    }
}

/// Compute the frame for a state snapshot.
pub fn render_frame(running: bool, time_left: i32) -> (f: Frame)
    requires
        0 <= time_left <= MAX_TIME,
    ensures
        f == frame_spec(running, time_left as int),
{
    let h: i32 = progress_height(time_left);
    let text: FrameText = if !running {
        FrameText::Instructions { time_left }
    } else if time_left <= 1 {
        FrameText::Expiry
    } else {
        FrameText::Digits { time_left }
    };
    let text_pos: TextPos = if !running {
        TextPos { x: CENTER + 10, y: CENTER - 30 }
    } else {
        TextPos { x: CENTER + 50, y: CENTER }
    };
    Frame {
        background: Color::Black,
        bar: Rect { x: 0, y: SCREEN_HEIGHT - h, width: SCREEN_WIDTH, height: h },
        bar_color: choose_color(running, time_left),
        text,
        text_pos,
        text_color: Color::White,
    }
}

/// The character for one decimal digit.
pub open spec fn digit_char(d: int) -> char {
    if d == 0 {
        '0'
    } else if d == 1 {
        '1'
    } else if d == 2 {
        '2'
    } else if d == 3 {
        '3'
    } else if d == 4 {
        '4'
    } else if d == 5 {
        '5'
    } else if d == 6 {
        '6'
    } else if d == 7 {
        '7'
    } else if d == 8 {
        '8'
    } else {
        '9'
    }
}

/// A number rendered as exactly two decimal digits, zero-padded.
pub open spec fn two_digit_chars(n: int) -> Seq<char> {
    seq![digit_char(n / 10), digit_char(n % 10)]
}

/// One decimal digit as a string slice.
fn digit_str(d: i32) -> (s: &'static str)
    requires
        0 <= d <= 9,
    ensures
        s@ =~= seq![digit_char(d as int)],
{
    proof {
        reveal_strlit("0");
        reveal_strlit("1");
        reveal_strlit("2");
        reveal_strlit("3");
        reveal_strlit("4");
        reveal_strlit("5");
        reveal_strlit("6");
        reveal_strlit("7");
        reveal_strlit("8");
        reveal_strlit("9");
    }
    if d == 0 {
        "0"
    } else if d == 1 {
        "1"
    } else if d == 2 {
        "2"
    } else if d == 3 {
        "3"
    } else if d == 4 {
        "4"
    } else if d == 5 {
        "5"
    } else if d == 6 {
        "6"
    } else if d == 7 {
        "7"
    } else if d == 8 {
        "8"
    } else {
        "9"
    }
}

/// Render a number as exactly two decimal digits, zero-padded.
pub fn two_digit_string(n: i32) -> (s: String)
    requires
        0 <= n <= 99,
    ensures
        s@ =~= two_digit_chars(n as int),
{
    let tens: i32 = n / 10;
    let ones: i32 = n % 10;
    let mut s: String = String::from_str(digit_str(tens));
    s.append(digit_str(ones));
    s
}

/// The characters of a frame's text item. The instructions name the two
/// buttons and show the configured time, zero-padded to two digits.
pub open spec fn text_chars(t: FrameText) -> Seq<char> {
    match t {
        FrameText::Instructions { time_left } => "<-- Start Timer\nSet Time-->\nTime: "@
            + two_digit_chars(time_left as int) + "s"@,
        FrameText::Expiry => "BEEEP"@,
        FrameText::Digits { time_left } => two_digit_chars(time_left as int),
    }
}

/// Whether a text item carries a time that two digits can show.
pub open spec fn text_wf(t: FrameText) -> bool {
    match t {
        FrameText::Instructions { time_left } => 0 <= time_left <= 99,
        FrameText::Expiry => true,
        FrameText::Digits { time_left } => 0 <= time_left <= 99,
    }
}

/// Produce the exact string a frame's text item puts on the screen.
pub fn text_string(t: &FrameText) -> (s: String)
    requires
        text_wf(*t),
    ensures
        s@ =~= text_chars(*t),
{
    match t {
        FrameText::Instructions { time_left } => {
            let mut s: String = String::from_str("<-- Start Timer\nSet Time-->\nTime: ");
            s.append(two_digit_string(*time_left).as_str());
            s.append("s");
            s
        },
        FrameText::Expiry => String::from_str("BEEEP"),
        FrameText::Digits { time_left } => two_digit_string(*time_left),
    }
}

} // verus!
