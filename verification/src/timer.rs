//! The countdown timer: remaining seconds, a pause flag, and whether the
//! face carries an hours segment.

use vstd::prelude::*;
use vstd::arithmetic::div_mod::lemma_fundamental_div_mod_converse;
use crate::digit::{digit, has_glyph, GLYPH_HEIGHT};
use crate::face::{
    banner_row, banner_width, decimal, decimal_chars, drawable, glyph_text, lemma_banner_row_concat,
    lemma_banner_row_len, lemma_decimal_digits, lemma_two_digits, string_of, two_digit_chars,
    two_digits, BLANK, FILLED,
};

verus! {

/// Seconds in an hour.
pub const HOUR: u64 = 3600;

/// Seconds in a minute.
pub const MINUTE: u64 = 60;

/// What a [`Timer`] stands for.
pub struct TimerState {
    /// Whole seconds left to count.
    pub remaining: nat,
    /// Whether ticks are ignored.
    pub paused: bool,
    /// Whether the face shows hours; fixed when the timer is made.
    pub show_hours: bool,
}

impl TimerState {
    /// The state of a timer that was just made for `initial` seconds.
    pub open spec fn fresh(initial: nat) -> TimerState {
        TimerState { remaining: initial, paused: false, show_hours: initial >= HOUR }
    }

    /// Whether a tick may be applied: a running timer must have time left.
    pub open spec fn can_tick(self) -> bool {
        self.paused || self.remaining > 0
    }

    /// The state after one tick: one second less, unless paused.
    pub open spec fn ticked(self) -> TimerState {
        if self.paused {
            self
        } else {
            TimerState { remaining: (self.remaining - 1) as nat, ..self }
        }
    }

    /// The state after the pause key: only the pause flag flips.
    pub open spec fn toggled(self) -> TimerState {
        TimerState { paused: !self.paused, ..self }
    }

    /// The state after `count` ticks in a row.
    pub open spec fn ticked_times(self, count: nat) -> TimerState
        decreases count,
    {
        if count == 0 {
            self
        } else {
            self.ticked_times((count - 1) as nat).ticked()
        }
    }

    /// Whole hours left.
    pub open spec fn hours(self) -> nat {
        self.remaining / (HOUR as nat)
    }

    /// Minutes left within the hour.
    pub open spec fn minutes(self) -> nat {
        (self.remaining % (HOUR as nat)) / (MINUTE as nat)
    }

    /// Seconds left within the minute.
    pub open spec fn seconds(self) -> nat {
        self.remaining % (MINUTE as nat)
    }

    /// Minutes and seconds as they are written: two digits each, a colon
    /// between them.
    pub open spec fn clock(self) -> Seq<char> {
        two_digits(self.minutes()) + seq![':'] + two_digits(self.seconds())
    }

    /// The time left as it is written on the face. A timer that shows
    /// hours writes them first, without a leading zero, and a colon after
    /// them.
    pub open spec fn face(self) -> Seq<char> {
        if self.show_hours {
            decimal(self.hours()) + seq![':'] + self.clock()
        } else {
            self.clock()
        }
    }
}

/// Whether each of the five rows of `after` is the row of `before` with
/// row `r` of `added(r)` behind it.
pub open spec fn rows_grown(before: Seq<String>, after: Seq<String>, added: spec_fn(int) -> Seq<char>) -> bool {
    &&& before.len() == GLYPH_HEIGHT
    &&& after.len() == GLYPH_HEIGHT
    &&& forall|r: int| 0 <= r < GLYPH_HEIGHT ==> (#[trigger] after[r])@ == before[r]@ + added(r)
}

/// Counting down: a running timer made for `n` seconds has `n - k`
/// seconds left after `k` ticks, and may be ticked again if and only if
/// `k` is below `n`.
pub proof fn lemma_ticks_count_down(n: nat, k: nat)
    requires
        k <= n,
    ensures
        TimerState::fresh(n).ticked_times(k) == (TimerState { remaining: (n - k) as nat, ..TimerState::fresh(n) }),
        TimerState::fresh(n).ticked_times(k).can_tick() <==> k < n,
    decreases k,
{
    if k > 0 {
        lemma_ticks_count_down(n, (k - 1) as nat);
    }
}

/// A running timer made for `n` seconds stands at zero after exactly `n`
/// ticks, and no further tick is allowed then.
pub proof fn lemma_ticks_reach_zero(n: nat)
    ensures
        TimerState::fresh(n).ticked_times(n).remaining == 0,
        !TimerState::fresh(n).ticked_times(n).can_tick(),
{
    lemma_ticks_count_down(n, n);
}

/// Toggling twice gives the timer back as it was.
pub proof fn lemma_toggle_twice(timer: TimerState)
    ensures
        timer.toggled().toggled() == timer,
{
}

/// A paused timer is the same after any number of ticks.
pub proof fn lemma_paused_timer_ignores_ticks(timer: TimerState, count: nat)
    requires
        timer.paused,
    ensures
        timer.ticked_times(count) == timer,
    decreases count,
{
    if count > 0 {
        lemma_paused_timer_ignores_ticks(timer, (count - 1) as nat);
    }
}

/// Neither ticks nor the pause key change whether the face shows hours:
/// that was settled when the timer was made.
pub proof fn lemma_hours_segment_is_fixed(timer: TimerState, count: nat)
    ensures
        timer.ticked().show_hours == timer.show_hours,
        timer.toggled().show_hours == timer.show_hours,
        timer.ticked_times(count).show_hours == timer.show_hours,
    decreases count,
{
    if count > 0 {
        lemma_hours_segment_is_fixed(timer, (count - 1) as nat);
    }
}

/// Hours, minutes and seconds add up to the seconds left, and minutes
/// and seconds stay below sixty.
pub proof fn lemma_hms_round_trip(timer: TimerState)
    ensures
        timer.hours() * 3600 + timer.minutes() * 60 + timer.seconds() == timer.remaining,
        timer.minutes() < 60,
        timer.seconds() < 60,
{
    let within_hour = timer.remaining % 3600;
    let whole_minutes = timer.hours() * 60 + timer.minutes();
    assert(timer.remaining == whole_minutes * 60 + within_hour % 60);
    lemma_fundamental_div_mod_converse(
        timer.remaining as int,
        60,
        whole_minutes as int,
        (within_hour % 60) as int,
    );
}

/// The face of a timer that shows hours begins with the hours, written
/// without a leading zero, also when less than an hour is left.
pub proof fn lemma_face_keeps_hours(timer: TimerState)
    requires
        timer.show_hours,
    ensures
        timer.face() == decimal(timer.hours()) + seq![':'] + timer.clock(),
        timer.remaining < HOUR ==> timer.face() == seq!['0', ':'] + timer.clock(),
{
    if timer.remaining < HOUR {
        assert(timer.hours() == 0);
        assert(decimal(0) + seq![':'] =~= seq!['0', ':']);
    }
}

/// A countdown in whole seconds.
pub struct Timer {
    is_paused: bool,
    duration: u64,
    show_hour: bool,
}

impl View for Timer {
    type V = TimerState;

    closed spec fn view(&self) -> TimerState {
        TimerState {
            remaining: self.duration as nat,
            paused: self.is_paused,
            show_hours: self.show_hour,
        }
    }
}

impl Timer {
    /// A running timer with `duration` seconds left. It shows hours from
    /// then on if and only if it starts with an hour or more.
    pub fn new(duration: u64) -> (timer: Timer)
        ensures
            timer@ == TimerState::fresh(duration as nat),
    {
        Timer { is_paused: false, duration, show_hour: duration >= HOUR }
    }

    /// Counts one second down. A paused timer is left as it is. A running
    /// timer must have time left: the caller stops ticking at zero.
    pub fn tick(&mut self)
        requires
            old(self)@.can_tick(),
        ensures
            final(self)@ == old(self)@.ticked(),
    {
        if !self.is_paused {
            self.duration -= 1;
        }
    }

    /// Pauses a running timer and resumes a paused one.
    pub fn toggle(&mut self)
        ensures
            final(self)@ == old(self)@.toggled(),
    {
        self.is_paused = !self.is_paused;
    }

    /// Whether the timer is paused.
    pub fn is_paused(&self) -> (paused: bool)
        ensures
            paused == self@.paused,
    {
        self.is_paused
    }

    /// The seconds left.
    pub fn remaining(&self) -> (seconds: u64)
        ensures
            seconds == self@.remaining,
    {
        self.duration
    }

    /// Whether the face carries an hours segment.
    pub fn shows_hours(&self) -> (shown: bool)
        ensures
            shown == self@.show_hours,
    {
        self.show_hour
    }

    /// The time left as hours, minutes within the hour and seconds within
    /// the minute. The three parts add up to the seconds left.
    pub fn hms(&self) -> (parts: (u64, u64, u64))
        ensures
            parts.0 == self@.hours(),
            parts.1 == self@.minutes(),
            parts.2 == self@.seconds(),
            parts.1 < 60,
            parts.2 < 60,
            parts.0 * 3600 + parts.1 * 60 + parts.2 == self@.remaining,
    {
        let h: u64 = self.duration / HOUR;
        let m: u64 = (self.duration % HOUR) / MINUTE;
        let s: u64 = self.duration % MINUTE;
        proof {
            lemma_hms_round_trip(self@);
        }
        (h, m, s)
    }

    /// The time left as it is written: minutes and seconds with two digits
    /// each and a colon between them, and before them the hours and a
    /// colon if the timer shows hours.
    pub fn face(&self) -> (text: String)
        ensures
            text@ == self@.face(),
    {
        let (h, m, s) = self.hms();
        let mut chars: Vec<char> = Vec::new();
        if self.show_hour {
            chars = decimal_chars(h);
            chars.push(':');
        }
        let mut minutes = two_digit_chars(m);
        chars.append(&mut minutes);
        chars.push(':');
        let mut seconds = two_digit_chars(s);
        chars.append(&mut seconds);
        assert(chars@ =~= self@.face());
        string_of(&chars)
    }

    /// The face as five rows of block text, top row first. Every row has
    /// the same length.
    pub fn text(&self) -> (rows: Vec<String>)
        ensures
            rows.len() == GLYPH_HEIGHT,
            forall|r: int| 0 <= r < GLYPH_HEIGHT ==> (#[trigger] rows[r])@ == banner_row(self@.face(), r),
            forall|r: int| 0 <= r < GLYPH_HEIGHT ==> (#[trigger] rows[r])@.len() == banner_width(self@.face()),
    {
        let mut lines: Vec<String> = Vec::new();
        while lines.len() < GLYPH_HEIGHT
            invariant
                lines.len() <= GLYPH_HEIGHT,
                forall|r: int| 0 <= r < lines.len() ==> (#[trigger] lines[r])@ == Seq::<char>::empty(),
            decreases GLYPH_HEIGHT - lines.len(),
        {
            lines.push(String::new());
        }
        let (h, m, s) = self.hms();
        let ghost hours = decimal(h as nat);
        let ghost minutes = two_digits(m as nat);
        let ghost seconds = two_digits(s as nat);
        let ghost colon = seq![':'];
        proof {
            lemma_decimal_digits(h as nat);
            lemma_two_digits(m as nat);
            lemma_two_digits(s as nat);
        }
        let ghost mut shown: Seq<char> = Seq::empty();
        if self.show_hour {
            let digits = decimal_chars(h);
            self.push_glyphs(&digits, &mut lines);
            self.push_space(&mut lines);
            self.push_digit(':', &mut lines);
            self.push_space(&mut lines);
            proof {
                shown = hours + colon;
                assert forall|r: int| 0 <= r < GLYPH_HEIGHT implies (#[trigger] lines[r])@ == banner_row(shown, r)
                    + seq![BLANK] by {
                    assert(shown.drop_last() =~= hours);
                    assert(lines[r]@ =~= banner_row(hours, r) + seq![BLANK] + glyph_text(':', r) + seq![BLANK]);
                }
            }
        }
        let ghost lead = shown;
        self.push_number(m, &mut lines);
        self.push_space(&mut lines);
        self.push_digit(':', &mut lines);
        self.push_space(&mut lines);
        self.push_number(s, &mut lines);
        proof {
            let clock = self@.clock();
            assert(clock == minutes + colon + seconds);
            assert forall|r: int| 0 <= r < GLYPH_HEIGHT implies (#[trigger] lines[r])@ == banner_row(self@.face(), r) by {
                lemma_banner_row_concat(minutes + colon, seconds, r);
                assert((minutes + colon).drop_last() =~= minutes);
                let drawn = banner_row(minutes, r) + seq![BLANK] + glyph_text(':', r) + seq![BLANK] + banner_row(
                    seconds,
                    r,
                );
                assert(banner_row(clock, r) =~= drawn);
                if self.show_hour {
                    lemma_banner_row_concat(lead, clock, r);
                    assert(self@.face() =~= lead + clock);
                    assert(lines[r]@ =~= banner_row(lead, r) + seq![BLANK] + drawn);
                } else {
                    assert(lines[r]@ =~= drawn);
                }
            }
            assert forall|r: int| 0 <= r < GLYPH_HEIGHT implies (#[trigger] lines[r])@.len() == banner_width(
                self@.face(),
            ) by {
                assert(drawable(self@.face()));
                lemma_banner_row_len(self@.face(), r);
            }
        }
        lines
    }

    /// Puts one blank at the end of every row.
    pub fn push_space(&self, lines: &mut Vec<String>)
        ensures
            final(lines).len() == old(lines).len(),
            forall|r: int| 0 <= r < old(lines).len() ==> (#[trigger] final(lines)[r])@ == old(lines)[r]@.push(BLANK),
    {
        let mut r: usize = 0;
        while r < lines.len()
            invariant
                r <= lines.len(),
                lines.len() == old(lines).len(),
                forall|k: int| 0 <= k < r ==> (#[trigger] lines[k])@ == old(lines)[k]@.push(BLANK),
                forall|k: int| r <= k < lines.len() ==> #[trigger] lines[k] == old(lines)[k],
            decreases lines.len() - r,
        {
            lines[r].push(BLANK);
            r += 1;
        }
    }

    /// Draws the glyph of `ch` at the end of the five rows, row by row.
    pub fn push_digit(&self, ch: char, lines: &mut Vec<String>)
        requires
            has_glyph(ch),
            old(lines).len() == GLYPH_HEIGHT,
        ensures
            rows_grown(old(lines)@, final(lines)@, |r: int| glyph_text(ch, r)),
    {
        if let Some(glyph) = digit(ch) {
            let width = glyph.width();
            let mut r: usize = 0;
            while r < GLYPH_HEIGHT
                invariant
                    r <= GLYPH_HEIGHT,
                    lines.len() == GLYPH_HEIGHT,
                    glyph@ == crate::digit::glyph_of(ch),
                    crate::digit::is_bitmap(glyph@),
                    width == glyph@[0].len(),
                    forall|k: int| 0 <= k < r ==> (#[trigger] lines[k])@ == old(lines)[k]@ + glyph_text(ch, k),
                    forall|k: int| r <= k < GLYPH_HEIGHT ==> #[trigger] lines[k] == old(lines)[k],
                decreases GLYPH_HEIGHT - r,
            {
                let mut c: usize = 0;
                while c < width
                    invariant
                        r < GLYPH_HEIGHT,
                        c <= width,
                        lines.len() == GLYPH_HEIGHT,
                        glyph@ == crate::digit::glyph_of(ch),
                        crate::digit::is_bitmap(glyph@),
                        width == glyph@[0].len(),
                        width == glyph@[r as int].len(),
                        lines[r as int]@ == old(lines)[r as int]@ + glyph_text(ch, r as int).take(c as int),
                        forall|k: int| 0 <= k < r ==> (#[trigger] lines[k])@ == old(lines)[k]@ + glyph_text(ch, k),
                        forall|k: int| r < k < GLYPH_HEIGHT ==> #[trigger] lines[k] == old(lines)[k],
                    decreases width - c,
                {
                    let cell = if glyph.cell(r, c) { FILLED } else { BLANK };
                    lines[r].push(cell);
                    c += 1;
                    assert(glyph_text(ch, r as int).take(c as int) =~= glyph_text(ch, r as int).take(c - 1).push(cell));
                }
                assert(glyph_text(ch, r as int).take(c as int) =~= glyph_text(ch, r as int));
                r += 1;
            }
        }
    }

    /// Draws `chars` at the end of the five rows: glyph after glyph, one
    /// blank between two neighbors.
    pub fn push_glyphs(&self, chars: &Vec<char>, lines: &mut Vec<String>)
        requires
            drawable(chars@),
            old(lines).len() == GLYPH_HEIGHT,
        ensures
            rows_grown(old(lines)@, final(lines)@, |r: int| banner_row(chars@, r)),
    {
        let mut i: usize = 0;
        while i < chars.len()
            invariant
                i <= chars.len(),
                drawable(chars@),
                rows_grown(old(lines)@, lines@, |r: int| banner_row(chars@.take(i as int), r)),
            decreases chars.len() - i,
        {
            if i > 0 {
                self.push_space(lines);
            }
            self.push_digit(chars[i], lines);
            i += 1;
            proof {
                let drawn = chars@.take(i as int);
                assert(drawn.drop_last() =~= chars@.take(i - 1));
                assert(drawn.last() == chars@[i - 1]);
                assert forall|r: int| 0 <= r < GLYPH_HEIGHT implies (#[trigger] lines@[r])@ == old(lines)@[r]@
                    + banner_row(drawn, r) by {
                    if i > 1 {
                        assert(lines@[r]@ =~= old(lines)@[r]@ + (banner_row(drawn.drop_last(), r) + seq![BLANK]
                            + glyph_text(drawn.last(), r)));
                    }
                }
            }
        }
        assert(chars@.take(i as int) =~= chars@);
    }

    /// Draws `num` at the end of the five rows, with at least two digits.
    pub fn push_number(&self, num: u64, lines: &mut Vec<String>)
        requires
            old(lines).len() == GLYPH_HEIGHT,
        ensures
            rows_grown(old(lines)@, final(lines)@, |r: int| banner_row(two_digits(num as nat), r)),
    {
        let digits = two_digit_chars(num);
        proof {
            lemma_two_digits(num as nat);
        }
        self.push_glyphs(&digits, lines);
    }
}

} // verus!
