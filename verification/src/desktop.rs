//! The input desktop and the displays: when a switch of the desktop is
//! reported, and which display the foreground window is on.

use crate::cli::LogLevel;
use crate::wide::{utf16_of, wide_string};
use vstd::prelude::*;

verus! {

/// How long, in milliseconds, a failed switch is not reported again.
pub const SUPPRESS_MS: u64 = 3000;

/// When a failed switch of the desktop was last reported.
#[derive(Clone, Copy, Debug, PartialEq, Eq, Structural)]
pub struct Suppressor {
    /// The time of the last report, in milliseconds of a clock that never goes back.
    pub last_ms: u64,
}

/// Whether enough time has passed since the last report.
pub open spec fn is_due(last_ms: u64, now_ms: u64) -> bool {
    now_ms - last_ms > SUPPRESS_MS
}

impl Suppressor {
    /// A suppressor that counts from `now_ms`.
    pub fn new(now_ms: u64) -> (r: Self)
        ensures
            r.last_ms == now_ms,
    {
        Suppressor { last_ms: now_ms }
    }

    /// Tells whether a failure at `now_ms` is reported, and remembers the
    /// report if it is.
    pub fn lets_through(&mut self, now_ms: u64) -> (r: bool)
        ensures
            r == is_due(old(self).last_ms, now_ms),
            final(self).last_ms == (if r {
                now_ms
            } else {
                old(self).last_ms
            }),
    {
        if now_ms > self.last_ms && now_ms - self.last_ms > SUPPRESS_MS {
            self.last_ms = now_ms;
            true
        } else {
            false
        }
    }
}

/// Whether the desktop that takes the input is another than the one of the
/// calling thread.
pub fn desktop_changed(input_desktop_selected: bool) -> (r: bool)
    ensures
        r == !input_desktop_selected,
{
    !input_desktop_selected
}

/// Takes in how a switch to the input desktop went. `attempt` is `None` where
/// the input desktop was selected already and nothing was attempted. Answers
/// whether the desktop was switched, and with the level at which that is
/// logged: a switch as information, a failure as an error, but no more than
/// one failure in `SUPPRESS_MS`.
pub fn try_change_desktop(attempt: Option<bool>, now_ms: u64, suppress: &mut Suppressor) -> (r: (
    bool,
    Option<LogLevel>,
))
    ensures
        r.0 == (attempt == Some(true)),
        r.1 == match attempt {
            None => None,
            Some(true) => Some(LogLevel::Info),
            Some(false) => if is_due(old(suppress).last_ms, now_ms) {
                Some(LogLevel::Error)
            } else {
                None
            },
        },
        final(suppress).last_ms == (if attempt == Some(false) && is_due(
            old(suppress).last_ms,
            now_ms,
        ) {
            now_ms
        } else {
            old(suppress).last_ms
        }),
{
    match attempt {
        None => (false, None),
        Some(true) => (true, Some(LogLevel::Info)),
        Some(false) => {
            if suppress.lets_through(now_ms) {
                (false, Some(LogLevel::Error))
            } else {
                (false, None)
            }
        },
    }
}

/// Failures that follow one another within `SUPPRESS_MS` of the last report
/// are reported once.
pub proof fn failures_are_reported_once(last_ms: u64, first_ms: u64, second_ms: u64)
    requires
        is_due(last_ms, first_ms),
        first_ms <= second_ms <= first_ms + SUPPRESS_MS,
    ensures
        !is_due(first_ms, second_ms),
{
}

/// A rectangle on the virtual screen.
#[derive(Clone, Copy, Debug, PartialEq, Eq, Structural)]
pub struct Rect {
    pub left: i32,
    pub top: i32,
    pub right: i32,
    pub bottom: i32,
}

/// The place and size of a display.
#[derive(Clone, Copy, Debug, PartialEq, Eq, Structural)]
pub struct DisplayInfo {
    pub x: i32,
    pub y: i32,
    pub width: i32,
    pub height: i32,
}

/// Half of a length, rounded towards zero.
pub open spec fn half(d: int) -> int {
    if d >= 0 {
        d / 2
    } else {
        -((-d) / 2)
    }
}

/// The middle between two coordinates.
pub open spec fn middle(low: int, high: int) -> int {
    low + half(high - low)
}

/// Whether the middle of `rect` lies on `display`, its edges included.
pub open spec fn holds_center(display: DisplayInfo, rect: Rect) -> bool {
    let cx = middle(rect.left as int, rect.right as int);
    let cy = middle(rect.top as int, rect.bottom as int);
    &&& display.x <= cx <= display.x + display.width
    &&& display.y <= cy <= display.y + display.height
}

fn middle_of(low: i32, high: i32) -> (r: i64)
    ensures
        r == middle(low as int, high as int),
{
    let d: i64 = high as i64 - low as i64;
    let h: i64 = if d >= 0 {
        d / 2
    } else {
        -((-d) / 2)
    };
    low as i64 + h
}

/// The first display that the middle of the foreground window lies on.
/// `rect` is `None` where the rectangle of the window could not be read.
pub fn get_focused_display(rect: Option<Rect>, displays: &Vec<DisplayInfo>) -> (r: Option<usize>)
    ensures
        rect is None ==> r is None,
        match r {
            Some(i) => {
                &&& rect is Some
                &&& i < displays.len()
                &&& holds_center(displays@[i as int], rect.unwrap())
                &&& forall|j: int| 0 <= j < i ==> !holds_center(displays@[j], rect.unwrap())
            },
            None => rect matches Some(window) ==> forall|j: int|
                0 <= j < displays.len() ==> !holds_center(displays@[j], window),
        },
{
    match rect {
        None => None,
        Some(window) => {
            let cx = middle_of(window.left, window.right);
            let cy = middle_of(window.top, window.bottom);
            let mut i: usize = 0;
            while i < displays.len()
                invariant
                    i <= displays.len(),
                    rect == Some(window),
                    cx == middle(window.left as int, window.right as int),
                    cy == middle(window.top as int, window.bottom as int),
                    forall|j: int| 0 <= j < i ==> !holds_center(displays@[j], window),
                decreases displays.len() - i,
            {
                let d = displays[i];
                if cx >= d.x as i64 && cx <= d.x as i64 + d.width as i64 && cy >= d.y as i64 && cy
                    <= d.y as i64 + d.height as i64 {
                    return Some(i);
                }
                i += 1;
            }
            None
        },
    }
}

/// The width and height of a display mode.
#[derive(Clone, Copy, Debug, PartialEq, Eq, Structural)]
pub struct Resolution {
    pub width: i32,
    pub height: i32,
}

/// The modes of `modes` without those that occurred before, in the order
/// in which they first occur.
pub open spec fn distinct(modes: Seq<Resolution>) -> Seq<Resolution>
    decreases modes.len(),
{
    if modes.len() == 0 {
        Seq::<Resolution>::empty()
    } else {
        let before = distinct(modes.drop_last());
        if before.contains(modes.last()) {
            before
        } else {
            before.push(modes.last())
        }
    }
}

/// The resolutions a display offers, each once, in the order in which the
/// display names them.
pub fn resolutions(modes: &Vec<Resolution>) -> (r: Vec<Resolution>)
    ensures
        r@ == distinct(modes@),
{
    let mut r: Vec<Resolution> = Vec::new();
    let mut i: usize = 0;
    assert(modes@.take(0) =~= Seq::<Resolution>::empty());
    while i < modes.len()
        invariant
            i <= modes.len(),
            r@ == distinct(modes@.take(i as int)),
        decreases modes.len() - i,
    {
        proof {
            assert(modes@.take(i + 1).drop_last() =~= modes@.take(i as int));
        }
        let mode = modes[i];
        let mut known = false;
        let mut k: usize = 0;
        while k < r.len()
            invariant
                k <= r.len(),
                known == exists|j: int| 0 <= j < k && r@[j] == mode,
            decreases r.len() - k,
        {
            if r[k].width == mode.width && r[k].height == mode.height {
                known = true;
            }
            k += 1;
        }
        assert(known == r@.contains(mode));
        if !known {
            r.push(mode);
        }
        i += 1;
    }
    assert(modes@.take(modes.len() as int) =~= modes@);
    r
}

/// No resolution occurs twice among the distinct ones, and every mode is
/// among them.
pub proof fn distinct_has_each_once(modes: Seq<Resolution>)
    ensures
        forall|i: int, j: int|
            0 <= i < j < distinct(modes).len() ==> distinct(modes)[i] != distinct(modes)[j],
        forall|k: int| 0 <= k < modes.len() ==> distinct(modes).contains(#[trigger] modes[k]),
        forall|i: int|
            0 <= i < distinct(modes).len() ==> modes.contains(#[trigger] distinct(modes)[i]),
    decreases modes.len(),
{
    if modes.len() > 0 {
        let before = distinct(modes.drop_last());
        let all = distinct(modes);
        distinct_has_each_once(modes.drop_last());
        assert forall|k: int| 0 <= k < modes.len() implies all.contains(#[trigger] modes[k]) by {
            if k < modes.len() - 1 {
                assert(modes.drop_last()[k] == modes[k]);
                let at = choose|at: int| 0 <= at < before.len() && before[at] == modes[k];
                assert(all[at] == modes[k]);
            } else if before.contains(modes.last()) {
            } else {
                assert(all[all.len() - 1] == modes[k]);
            }
        }
        assert forall|i: int| 0 <= i < all.len() implies modes.contains(#[trigger] all[i]) by {
            if i < before.len() {
                assert(all[i] == before[i]);
                let at = choose|at: int|
                    0 <= at < modes.drop_last().len() && modes.drop_last()[at] == before[i];
                assert(modes[at] == all[i]);
            } else {
                assert(modes[modes.len() - 1] == all[i]);
            }
        }
    }
}

/// The name of a display device as the operating system takes it: the first
/// 32 units of the name in UTF-16 with a zero after it, filled up with zeros.
pub open spec fn device_name(name: Seq<char>) -> Seq<u16> {
    Seq::new(
        32,
        |i: int|
            if i < utf16_of(name).len() {
                utf16_of(name)[i]
            } else {
                0u16
            },
    )
}

/// Writes the name of a display device as the operating system takes it.
pub fn str_to_device_name(name: &str) -> (r: [u16; 32])
    ensures
        r@ == device_name(name@),
{
    let wide = wide_string(name);
    let mut result: [u16; 32] = [0;32];
    let mut i: usize = 0;
    while i < 32
        invariant
            i <= 32,
            wide@ == utf16_of(name@).push(0u16),
            forall|k: int| 0 <= k < i ==> result@[k] == device_name(name@)[k],
        decreases 32 - i,
    {
        let unit: u16 = if i < wide.len() {
            wide[i]
        } else {
            0
        };
        result.set(i, unit);
        i += 1;
    }
    assert(result@ =~= device_name(name@));
    result
}

} // verus!
