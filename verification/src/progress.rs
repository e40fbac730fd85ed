//! A terminal progress bar, computed as text.
//!
//! The bar holds pure state — totals, the terminal width, how many
//! units are done and the elapsed seconds it was last told — and each
//! advance returns the full control-sequence line to print: elapsed
//! time, a two-color bar scaled to the remaining terminal width, and a
//! done/total counter. Printing the line, like querying the terminal
//! width and the clock, is the caller's affair.

use vstd::prelude::*;

use vstd::string::*;

verus! {

/// Mathematical model of the progress bar state.
pub ghost struct LoadingBarV {
    pub max: int,
    pub width: int,
    pub advance_every: int,
    pub num_done: int,
    pub elapsed_secs: int,
}

/// Progress toward `max` units, displayed one line at a time.
#[derive(Debug)]
pub struct LoadingBar {
    max: u32,
    width: u32,
    advance_every: u32,
    num_done: u32,
    elapsed_secs: u64,
}

impl View for LoadingBar {
    type V = LoadingBarV;

    closed spec fn view(&self) -> LoadingBarV {
        LoadingBarV {
            max: self.max as int,
            width: self.width as int,
            advance_every: self.advance_every as int,
            num_done: self.num_done as int,
            elapsed_secs: self.elapsed_secs as int,
        }
    }
}

/// The character of one decimal digit.
pub open spec fn digit_seq(d: int) -> Seq<char> {
    if d == 0 {
        "0"@
    } else if d == 1 {
        "1"@
    } else if d == 2 {
        "2"@
    } else if d == 3 {
        "3"@
    } else if d == 4 {
        "4"@
    } else if d == 5 {
        "5"@
    } else if d == 6 {
        "6"@
    } else if d == 7 {
        "7"@
    } else if d == 8 {
        "8"@
    } else {
        "9"@
    }
}

/// The decimal digits of a non-negative number.
pub open spec fn dec_seq(n: int) -> Seq<char>
    decreases n,
{
    if n < 10 {
        digit_seq(n)
    } else {
        dec_seq(n / 10) + digit_seq(n % 10)
    }
}

/// The decimal digits, zero-padded on the left to two places.
pub open spec fn pad2_seq(n: int) -> Seq<char> {
    if n < 10 {
        "0"@ + dec_seq(n)
    } else {
        dec_seq(n)
    }
}

/// A run of `n` spaces.
pub open spec fn spaces_seq(n: int) -> Seq<char>
    decreases n,
{
    if n <= 0 {
        Seq::<char>::empty()
    } else {
        spaces_seq(n - 1) + " "@
    }
}

/// Text padded on the left with spaces to at least `w` characters.
pub open spec fn pad_left_seq(s: Seq<char>, w: int) -> Seq<char> {
    if s.len() < w {
        spaces_seq(w - s.len()) + s
    } else {
        s
    }
}

/// An elapsed time as ` [hh:mm:ss] `, each part two digits or more.
pub open spec fn format_duration_seq(t: int) -> Seq<char> {
    " ["@ + pad2_seq(t / 3600) + ":"@ + pad2_seq((t / 60) % 60) + ":"@ + pad2_seq(t % 60)
        + "] "@
}

/// Text wrapped in the select-graphic escape for `color`, and the
/// reset that follows it.
pub open spec fn make_color_seq(s: Seq<char>, color: int) -> Seq<char> {
    "\x1b["@ + dec_seq(color) + "m"@ + s + "\x1b[0m"@
}

/// `a / b` rounded to the nearest integer, halves away from zero, for
/// non-negative `a` and positive `b`.
pub open spec fn round_div(a: int, b: int) -> int {
    (2 * a + b) / (2 * b)
}

/// The count of bar cells available once the counter, the elapsed time
/// and the brackets are reserved, saturating at zero.
pub open spec fn bar_cells_spec(width: int, count_len: int, time_len: int) -> int {
    let c1 = if width > count_len {
        width - count_len
    } else {
        0
    };
    let c2 = if c1 > time_len {
        c1 - time_len
    } else {
        0
    };
    if c2 > 2 {
        c2 - 2
    } else {
        0
    }
}

/// The line one advance prints, computed from the state before the
/// advance: restore the cursor, move up one row, the elapsed time, the
/// two-color bar, and the done/total counter on its own line. The
/// shown count is the units done divided by the advance granularity,
/// capped at the total.
pub open spec fn advance_line_spec(b: LoadingBarV, elapsed: int) -> Seq<char> {
    let shown0 = b.num_done / b.advance_every;
    let shown = if shown0 > b.max {
        b.max
    } else {
        shown0
    };
    let time = format_duration_seq(elapsed);
    let count = " "@ + pad_left_seq(dec_seq(shown), dec_seq(b.max).len() as int) + "/"@ + dec_seq(
        b.max,
    ) + " "@;
    let cells = bar_cells_spec(b.width, count.len() as int, time.len() as int);
    let done_cells = round_div(cells * shown, b.max);
    let todo_cells = round_div(cells * (b.max - shown), b.max);
    "\x1b[u"@ + "\x1b[1A"@ + time + "["@ + make_color_seq(spaces_seq(done_cells), 104)
        + make_color_seq(spaces_seq(todo_cells), 107) + "]"@ + count + "\n"@
}

/// The text of one decimal digit.
fn digit_str(d: u8) -> (s: &'static str)
    requires
        d < 10,
    ensures
        s@ == digit_seq(d as int),
{
    match d {
        0 => "0",
        1 => "1",
        2 => "2",
        3 => "3",
        4 => "4",
        5 => "5",
        6 => "6",
        7 => "7",
        8 => "8",
        _ => "9",
    }
}

/// The decimal digits of a number.
pub fn dec_str(n: u64) -> (s: String)
    ensures
        s@ == dec_seq(n as int),
    decreases n,
{
    if n < 10 {
        String::from_str(digit_str(n as u8))
    } else {
        let mut s = dec_str(n / 10);
        s.append(digit_str((n % 10) as u8));
        s
    }
}

/// The decimal digits, zero-padded to two places.
fn pad2(n: u64) -> (s: String)
    ensures
        s@ == pad2_seq(n as int),
{
    if n < 10 {
        let mut s = String::from_str("0");
        let d = dec_str(n);
        s.append(d.as_str());
        s
    } else {
        dec_str(n)
    }
}

/// A run of `n` spaces.
fn spaces(n: u64) -> (s: String)
    ensures
        s@ == spaces_seq(n as int),
{
    let mut s = String::new();
    let mut i: u64 = 0;
    while i < n
        invariant
            i <= n,
            s@ == spaces_seq(i as int),
        decreases n - i,
    {
        s.append(" ");
        i = i + 1;
    }
    s
}

/// Pretty-prints a duration of `secs` seconds as ` [hh:mm:ss] `.
pub fn format_duration(secs: u64) -> (s: String)
    ensures
        s@ == format_duration_seq(secs as int),
{
    let mut s = String::from_str(" [");
    let hours = pad2(secs / 3600);
    let minutes = pad2((secs / 60) % 60);
    let seconds = pad2(secs % 60);
    s.append(hours.as_str());
    s.append(":");
    s.append(minutes.as_str());
    s.append(":");
    s.append(seconds.as_str());
    s.append("] ");
    s
}

/// Wraps text in the ANSI escape selecting `color`, with a reset after.
pub fn make_color(s: String, color: u8) -> (r: String)
    ensures
        r@ == make_color_seq(s@, color as int),
{
    let mut r = String::from_str("\x1b[");
    let c = dec_str(color as u64);
    r.append(c.as_str());
    r.append("m");
    r.append(s.as_str());
    r.append("\x1b[0m");
    r
}

/// `a / b` rounded to nearest, for `b` positive.
fn round_div_u64(a: u64, b: u64) -> (r: u64)
    requires
        b >= 1,
    ensures
        r as int == round_div(a as int, b as int),
{
    let wide: u128 = (2 * (a as u128) + (b as u128)) / (2 * (b as u128));
    proof {
        let az = a as int;
        let bz = b as int;
        assert((2 * az + bz) / (2 * bz) <= az) by (nonlinear_arith)
            requires
                az >= 0,
                bz >= 1,
        ;
    }
    wide as u64
}

impl LoadingBar {
    #[verifier::type_invariant]
    /// The total and the advance granularity are positive.
    pub closed spec fn inv(self) -> bool {
        self.max >= 1 && self.advance_every >= 1
    }

    /// Builds a bar for `max` units, advancing its display every
    /// `advance_every` units, over a terminal `width` columns wide.
    pub fn new(max: u32, advance_every: u32, width: u32) -> (b: LoadingBar)
        requires
            max >= 1,
            advance_every >= 1,
        ensures
            b@ == (LoadingBarV {
                max: max as int,
                width: width as int,
                advance_every: advance_every as int,
                num_done: 0,
                elapsed_secs: 0,
            }),
    {
        LoadingBar { max, width, advance_every, num_done: 0, elapsed_secs: 0 }
    }

    /// Advances by one unit: returns the line to print for the state
    /// before the advance, with the elapsed seconds the caller
    /// measured, then counts the unit and records the time.
    pub fn advance(&mut self, elapsed_secs: u64) -> (line: String)
        requires
            old(self)@.num_done < 0xffff_ffff,
        ensures
            line@ == advance_line_spec(old(self)@, elapsed_secs as int),
            final(self)@ == (LoadingBarV {
                num_done: old(self)@.num_done + 1,
                elapsed_secs: elapsed_secs as int,
                ..old(self)@
            }),
    {
        proof {
            use_type_invariant(&*self);
        }
        let shown0 = self.num_done / self.advance_every;
        let shown = if shown0 > self.max {
            self.max
        } else {
            shown0
        };
        let time = format_duration(elapsed_secs);
        let max_digits = dec_str(self.max as u64);
        let shown_digits = dec_str(shown as u64);
        let target = max_digits.as_str().unicode_len();
        let have = shown_digits.as_str().unicode_len();
        let mut count = String::from_str(" ");
        if have < target {
            let pad = spaces((target - have) as u64);
            count.append(pad.as_str());
        }
        count.append(shown_digits.as_str());
        count.append("/");
        count.append(max_digits.as_str());
        count.append(" ");
        let count_len = count.as_str().unicode_len();
        let time_len = time.as_str().unicode_len();
        let c1: u64 = if (self.width as u64) > (count_len as u64) {
            (self.width as u64) - (count_len as u64)
        } else {
            0
        };
        let c2: u64 = if c1 > (time_len as u64) {
            c1 - (time_len as u64)
        } else {
            0
        };
        let cells: u64 = if c2 > 2 {
            c2 - 2
        } else {
            0
        };
        proof {
            let cz = cells as int;
            let sz = shown as int;
            let mz = self.max as int;
            assert(cz * sz < 0x1_0000_0000_0000_0000 && cz * (mz - sz)
                < 0x1_0000_0000_0000_0000) by (nonlinear_arith)
                requires
                    0 <= cz < 0x1_0000_0000,
                    0 <= sz <= mz < 0x1_0000_0000,
            ;
        }
        let done_cells = round_div_u64(cells * (shown as u64), self.max as u64);
        let todo_cells = round_div_u64(cells * ((self.max - shown) as u64), self.max as u64);
        let mut line = String::from_str("\x1b[u");
        line.append("\x1b[1A");
        line.append(time.as_str());
        line.append("[");
        let done_bar = make_color(spaces(done_cells), 104);
        let todo_bar = make_color(spaces(todo_cells), 107);
        line.append(done_bar.as_str());
        line.append(todo_bar.as_str());
        line.append("]");
        line.append(count.as_str());
        line.append("\n");
        self.num_done = self.num_done + 1;
        self.elapsed_secs = elapsed_secs;
        line
    }

    /// The elapsed seconds recorded at the last advance.
    pub fn get_elapsed(&self) -> (t: u64)
        ensures
            t as int == self@.elapsed_secs,
    {
        self.elapsed_secs
    }

    /// How many units have been counted.
    pub fn num_done(&self) -> (n: u32)
        ensures
            n as int == self@.num_done,
    {
        self.num_done
    }
}

} // verus!
