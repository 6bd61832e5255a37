//! Stopwatches for the overlay, and a helper for showing bytes. The
//! stopwatches do not read a clock themselves: whoever owns one tells it the
//! time, in microseconds since some start.

use vstd::prelude::*;

verus! {

/// The upper-case hexadecimal digit of a value below sixteen.
pub open spec fn hex_digit(nibble: int) -> char {
    if nibble == 0 {
        '0'
    } else if nibble == 1 {
        '1'
    } else if nibble == 2 {
        '2'
    } else if nibble == 3 {
        '3'
    } else if nibble == 4 {
        '4'
    } else if nibble == 5 {
        '5'
    } else if nibble == 6 {
        '6'
    } else if nibble == 7 {
        '7'
    } else if nibble == 8 {
        '8'
    } else if nibble == 9 {
        '9'
    } else if nibble == 10 {
        'A'
    } else if nibble == 11 {
        'B'
    } else if nibble == 12 {
        'C'
    } else if nibble == 13 {
        'D'
    } else if nibble == 14 {
        'E'
    } else {
        'F'
    }
}

/// The text of one hexadecimal digit.
fn hex_text(nibble: u8) -> (text: &'static str)
    requires
        nibble < 16,
    ensures
        text@ == seq![hex_digit(nibble as int)],
{
    proof {
        reveal_strlit("0");
        reveal_strlit("1");
        reveal_strlit("2");
        reveal_strlit("3");
        reveal_strlit("4");
        reveal_strlit("5");
        reveal_strlit("6");
        reveal_strlit("7");
        reveal_strlit("8");
        reveal_strlit("9");
        reveal_strlit("A");
        reveal_strlit("B");
        reveal_strlit("C");
        reveal_strlit("D");
        reveal_strlit("E");
        reveal_strlit("F");
    }
    let text = if nibble == 0 {
        "0"
    } else if nibble == 1 {
        "1"
    } else if nibble == 2 {
        "2"
    } else if nibble == 3 {
        "3"
    } else if nibble == 4 {
        "4"
    } else if nibble == 5 {
        "5"
    } else if nibble == 6 {
        "6"
    } else if nibble == 7 {
        "7"
    } else if nibble == 8 {
        "8"
    } else if nibble == 9 {
        "9"
    } else if nibble == 10 {
        "A"
    } else if nibble == 11 {
        "B"
    } else if nibble == 12 {
        "C"
    } else if nibble == 13 {
        "D"
    } else if nibble == 14 {
        "E"
    } else {
        "F"
    };
    assert(text@ =~= seq![hex_digit(nibble as int)]);
    text
}

/// The two upper-case hexadecimal digits of `byte`, the high one first.
pub fn byte_to_hex(byte: u8) -> (output: String)
    ensures
        output@ == seq![hex_digit(byte as int / 16), hex_digit(byte as int % 16)],
{
    let upper_nibble: u8 = byte / 16;
    let lower_nibble: u8 = byte % 16;
    let mut output = String::new();
    output.append(hex_text(upper_nibble));
    output.append(hex_text(lower_nibble));
    assert(output@ =~= seq![hex_digit(byte as int / 16), hex_digit(byte as int % 16)]);
    output
}

/// A stopwatch: when it was last restarted, when it was last read, and the
/// time between the two.
#[derive(PartialEq, Eq, Structural, Copy, Clone, Debug)]
pub struct Timer {
    pub prev_time: u128,
    pub new_time: u128,
    pub diff: u128,
}

/// The stopwatch `timer` read at the time `now`.
pub open spec fn read_at(timer: Timer, now: u128) -> Timer {
    Timer { prev_time: timer.prev_time, new_time: now, diff: (now - timer.prev_time) as u128 }
}

/// The stopwatch `timer` read and restarted at the time `now`.
pub open spec fn restarted_at(timer: Timer, now: u128) -> Timer {
    Timer { prev_time: now, new_time: now, diff: (now - timer.prev_time) as u128 }
}

impl Timer {
    /// A stopwatch started at the time `now`.
    pub fn new(now: u128) -> (timer: Self)
        ensures
            timer == (Timer { prev_time: now, new_time: now, diff: 0 }),
    {
        Self { prev_time: now, new_time: now, diff: 0 }
    }

    /// Reads the stopwatch at the time `now`, restarts it, and returns the
    /// time since its last restart.
    pub fn get_time_reset(&mut self, now: u128) -> (elapsed: u128)
        requires
            old(self).prev_time <= now,
        ensures
            *final(self) == restarted_at(*old(self), now),
            elapsed == now - old(self).prev_time,
    {
        self.new_time = now;
        self.diff = self.new_time - self.prev_time;
        self.prev_time = self.new_time;
        self.diff
    }

    /// Reads the stopwatch at the time `now` and returns the time since its
    /// last restart.
    pub fn get_time_no_reset(&mut self, now: u128) -> (elapsed: u128)
        requires
            old(self).prev_time <= now,
        ensures
            *final(self) == read_at(*old(self), now),
            elapsed == now - old(self).prev_time,
    {
        self.new_time = now;
        self.diff = self.new_time - self.prev_time;
        self.diff
    }
}

/// A set of stopwatches, each known by the number it got when it was added.
pub struct DebugTools {
    pub timers: Vec<Timer>,
}

impl DebugTools {
    /// A set without stopwatches.
    pub fn new() -> (tools: Self)
        ensures
            tools.timers@ == Seq::<Timer>::empty(),
    {
        Self { timers: Vec::new() }
    }

    /// Adds a stopwatch started at the time `now` and returns its number.
    pub fn add_timer(&mut self, now: u128) -> (timer: usize)
        ensures
            timer == old(self).timers@.len(),
            final(self).timers@ == old(self).timers@.push(
                Timer { prev_time: now, new_time: now, diff: 0 },
            ),
    {
        let new_timer = Timer::new(now);
        self.timers.push(new_timer);
        self.timers.len() - 1
    }

    /// Says whether the stopwatch `timer` was removed, which it never is: a
    /// number that was handed out stays good for as long as the set lives.
    pub fn remove_timer(&mut self, timer: usize) -> (removed: bool)
        requires
            timer <= old(self).timers@.len(),
        ensures
            !removed,
            final(self).timers@ == old(self).timers@,
    {
        false
    }

    /// Reads the stopwatch `timer` at the time `now`, restarts it, and
    /// returns the time since its last restart.
    pub fn get_time_reset(&mut self, timer: usize, now: u128) -> (elapsed: u128)
        requires
            timer < old(self).timers@.len(),
            old(self).timers@[timer as int].prev_time <= now,
        ensures
            final(self).timers@ == old(self).timers@.update(
                timer as int,
                restarted_at(old(self).timers@[timer as int], now),
            ),
            elapsed == now - old(self).timers@[timer as int].prev_time,
    {
        let mut watch = self.timers[timer];
        let elapsed = watch.get_time_reset(now);
        self.timers[timer] = watch;
        elapsed
    }

    /// Reads the stopwatch `timer` at the time `now` and returns the time
    /// since its last restart.
    pub fn get_time_no_reset(&mut self, timer: usize, now: u128) -> (elapsed: u128)
        requires
            timer < old(self).timers@.len(),
            old(self).timers@[timer as int].prev_time <= now,
        ensures
            final(self).timers@ == old(self).timers@.update(
                timer as int,
                read_at(old(self).timers@[timer as int], now),
            ),
            elapsed == now - old(self).timers@[timer as int].prev_time,
    {
        let mut watch = self.timers[timer];
        let elapsed = watch.get_time_no_reset(now);
        self.timers[timer] = watch;
        elapsed
    }

    /// The time that the stopwatch `timer` measured when it was last read.
    pub fn read_last_recorded(&self, timer: usize) -> (elapsed: u128)
        requires
            timer < self.timers@.len(),
        ensures
            elapsed == self.timers@[timer as int].diff,
    {
        self.timers[timer].diff
    }
}

} // verus!
