//! The 2.5D ridgeline plot: a history of the latest spectra, drawn as
//! stacked lines from the oldest at the back to the newest at the front.

use vstd::prelude::*;
use std::collections::VecDeque;

verus! {

/// Number of audio samples in one analysis window.
pub const WINDOW_SIZE: usize = 256;

/// Number of frequency bins of one line of the plot.
pub const NUM_BINS: usize = 128;

/// Number of lines kept in the history and drawn.
pub const NUM_LINES: usize = 64;

/// The margin, in pixels, around the plot.
pub const MARGIN: i32 = 20;

/// The latest lines of the plot, newest first; at most `NUM_LINES` of them
/// are kept. A line is a row of values `T`, one per frequency bin.
pub struct History<T> {
    rows: VecDeque<T>,
}

impl<T> View for History<T> {
    type V = Seq<T>;

    /// The kept lines, newest first.
    closed spec fn view(&self) -> Seq<T> {
        self.rows@
    }
}

/// The history after `row` has been pushed onto `rows`: it comes first,
/// and the oldest line leaves once `NUM_LINES` are kept.
pub open spec fn pushed<T>(rows: Seq<T>, row: T) -> Seq<T> {
    if rows.len() >= NUM_LINES {
        seq![row] + rows.drop_last()
    } else {
        seq![row] + rows
    }
}

impl<T: Copy> History<T> {
    /// A history filled with `NUM_LINES` copies of the line `blank`.
    pub fn new(blank: T) -> (h: Self)
        ensures
            h@ == Seq::new(NUM_LINES as nat, |i: int| blank),
    {
        let mut me = History { rows: VecDeque::with_capacity(NUM_LINES) };
        let mut i: usize = 0;
        while i < NUM_LINES
            invariant
                i <= NUM_LINES,
                me@ == Seq::new(i as nat, |k: int| blank),
            decreases NUM_LINES - i,
        {
            me.push(blank);
            assert(me@ =~= Seq::new((i + 1) as nat, |k: int| blank));
            i = i + 1;
        }
        me
    }
}

impl<T> History<T> {
    /// Adds the newest line; once `NUM_LINES` lines are kept, the oldest
    /// one is dropped.
    pub fn push(&mut self, row: T)
        ensures
            final(self)@ == pushed(old(self)@, row),
    {
        if self.rows.len() >= NUM_LINES {
            self.rows.pop_back();
        }
        self.rows.push_front(row);
        proof {
            if old(self)@.len() >= NUM_LINES {
                assert(old(self)@.drop_last() =~= old(self)@.subrange(0, old(self)@.len() - 1));
            }
        }
    }

    /// The number of lines kept.
    pub fn len(&self) -> (n: usize)
        ensures
            n == self@.len(),
    {
        self.rows.len()
    }

    /// The line at `index` counting from the oldest, the order in which
    /// the lines are drawn.
    pub fn get(&self, index: usize) -> (row: &T)
        requires
            index < self@.len(),
        ensures
            *row == self@[self@.len() - 1 - index],
    {
        let n = self.rows.len();
        &self.rows[n - 1 - index]
    }
}

/// A history never holds more than `NUM_LINES` lines, and the line just
/// pushed is the newest; the others keep their order behind it.
pub proof fn lemma_push_bounded<T>(rows: Seq<T>, row: T)
    requires
        rows.len() <= NUM_LINES,
    ensures
        pushed(rows, row).len() <= NUM_LINES,
        pushed(rows, row).len() == if rows.len() == NUM_LINES {
            NUM_LINES as int
        } else {
            rows.len() + 1 as int
        },
        pushed(rows, row)[0] == row,
        forall|i: int|
            1 <= i < pushed(rows, row).len() ==> #[trigger] pushed(rows, row)[i] == rows[i - 1],
{
}

/// A full history stays full: after any number of pushes it still holds
/// exactly `NUM_LINES` lines, the latest ones.
pub proof fn lemma_full_history_stays_full<T>(rows: Seq<T>, row: T)
    requires
        rows.len() == NUM_LINES,
    ensures
        pushed(rows, row).len() == NUM_LINES,
        pushed(rows, row) == seq![row] + rows.take(NUM_LINES - 1),
{
    assert(rows.drop_last() =~= rows.take(NUM_LINES - 1));
}

/// The horizontal (or vertical) pixel range of the plot in a frame `size`
/// pixels wide (or high): `MARGIN` pixels are left on each side, and the
/// range is at least one pixel long.
pub fn plot_range(size: i32) -> (r: (i32, i32))
    requires
        size >= i32::MIN + MARGIN,
    ensures
        r.0 == MARGIN,
        r.1 == if size - MARGIN > MARGIN + 1 {
            size - MARGIN
        } else {
            MARGIN + 1
        },
{
    let margin: i32 = MARGIN;
    let end = size - margin;
    let floor = margin + 1;
    if end > floor {
        (margin, end)
    } else {
        (margin, floor)
    }
}

/// Where the analysed window starts in `num_samples` samples: the last
/// `WINDOW_SIZE` samples are analysed, and fewer samples are skipped.
pub fn window_start(num_samples: usize) -> (r: Option<usize>)
    ensures
        r == (if num_samples < WINDOW_SIZE {
            None::<usize>
        } else {
            Some((num_samples - WINDOW_SIZE) as usize)
        }),
{
    if num_samples < WINDOW_SIZE {
        None
    } else {
        Some(num_samples - WINDOW_SIZE)
    }
}

} // verus!
