//! The textual progress bar. Printing it is the runtime's work; here
//! the bar itself is computed and rendered.

use vstd::prelude::*;

use crate::build_logger::elapsed_since;
use crate::clock::now_millis;
use crate::text::push_char;
use crate::text::spec_dec_digits;
use crate::text::u64_to_string;

verus! {

/// The character `c`, `n` times over.
pub open spec fn spec_repeat(c: char, n: nat) -> Seq<char>
    decreases n,
{
    if n == 0 {
        Seq::empty()
    } else {
        spec_repeat(c, (n - 1) as nat).push(c)
    }
}

/// A bar filled to `current` out of `total`.
pub struct ProgressBar {
    pub total: usize,
    pub current: usize,
    pub start_time_ms: i64,
    pub last_update: u64,
}

/// The completed share as a whole percentage; an empty bar counts as
/// done.
pub open spec fn spec_percentage(b: ProgressBar) -> int {
    if b.total == 0 {
        100
    } else {
        (b.current * 100) / (b.total as int)
    }
}

impl ProgressBar {
    /// The fill never passes the total.
    pub open spec fn wf(&self) -> bool {
        self.current <= self.total
    }

    /// An empty bar over `total` items, begun now.
    pub fn new(total: usize) -> (b: Self)
        ensures
            b.wf(),
            b.total == total,
            b.current == 0,
            b.last_update == 0,
    {
        ProgressBar { total, current: 0, start_time_ms: now_millis(), last_update: 0 }
    }

    /// Advances the fill by `amount`, capped at the total, and stamps
    /// the update.
    pub fn increment(&mut self, amount: usize)
        requires
            old(self).wf(),
            old(self).current + amount <= usize::MAX,
        ensures
            final(self).wf(),
            final(self).current == if old(self).current + amount <= old(self).total {
                old(self).current + amount
            } else {
                old(self).total as int
            },
            final(self).total == old(self).total,
            final(self).start_time_ms == old(self).start_time_ms,
    {
        let grown = self.current + amount;
        self.current = if grown < self.total {
            grown
        } else {
            self.total
        };
        self.last_update = elapsed_since(self.start_time_ms);
    }

    /// Sets the fill outright, capped at the total, and stamps the
    /// update.
    pub fn set(&mut self, value: usize)
        requires
            old(self).wf(),
        ensures
            final(self).wf(),
            final(self).current == if value <= old(self).total {
                value as int
            } else {
                old(self).total as int
            },
            final(self).total == old(self).total,
            final(self).start_time_ms == old(self).start_time_ms,
    {
        self.current = if value < self.total {
            value
        } else {
            self.total
        };
        self.last_update = elapsed_since(self.start_time_ms);
    }

    /// The completed share as a whole percentage.
    pub fn percentage(&self) -> (r: u32)
        requires
            self.wf(),
        ensures
            r == spec_percentage(*self),
    {
        if self.total == 0 {
            return 100;
        }
        let num: u128 = (self.current as u128) * 100;
        let q: u128 = num / (self.total as u128);
        proof {
            assert(q <= 100) by (nonlinear_arith)
                requires
                    1 <= self.total,
                    self.current <= self.total,
                    num == self.current * 100,
                    q == num / (self.total as u128),
            ;
        }
        q as u32
    }

    /// Milliseconds since the bar was created, by the wall clock.
    pub fn elapsed(&self) -> u64 {
        elapsed_since(self.start_time_ms)
    }

    /// The bar as text: thirty cells, the completed share filled, then
    /// the percentage and the message.
    pub fn render(&self, message: &str) -> (r: String)
        requires
            self.wf(),
        ensures
            r@ == spec_render(*self, message@),
    {
        let pct = self.percentage();
        proof {
            if self.total != 0 {
                assert((self.current * 100) / (self.total as int) <= 100) by (nonlinear_arith)
                    requires
                        self.current <= self.total,
                        1 <= self.total,
                ;
            }
        }
        let filled: u32 = pct * 30 / 100;
        let mut out = String::from_str("[");
        let mut i: u32 = 0;
        while i < filled
            invariant
                i <= filled,
                out@ == "["@ + spec_repeat('\u{2588}', i as nat),
            decreases filled - i,
        {
            push_char(&mut out, '\u{2588}');
            i += 1;
        }
        let empty = 30u32 - (if filled > 30 {
            30
        } else {
            filled
        });
        let mut j: u32 = 0;
        while j < empty
            invariant
                j <= empty,
                out@ == "["@ + spec_repeat('\u{2588}', filled as nat) + spec_repeat(
                    '\u{2591}',
                    j as nat,
                ),
            decreases empty - j,
        {
            push_char(&mut out, '\u{2591}');
            j += 1;
        }
        out.append("] ");
        let digits = u64_to_string(pct as u64);
        out.append(digits.as_str());
        out.append("% ");
        out.append(message);
        proof {
            assert(pct <= 100);
            assert(filled <= 30);
            assert(out@ =~= spec_render(*self, message@));
        }
        out
    }
}

/// The rendered bar: thirty cells split by the percentage, then the
/// percentage itself and the message.
pub open spec fn spec_render(b: ProgressBar, msg: Seq<char>) -> Seq<char> {
    let pct = spec_percentage(b);
    let filled = pct * 30 / 100;
    "["@ + spec_repeat('\u{2588}', filled as nat) + spec_repeat('\u{2591}', (30 - filled) as nat)
        + "] "@ + spec_dec_digits(pct as nat) + "% "@ + msg
}

} // verus!
