use vstd::prelude::*;

verus! {

/// How long one animation frame is shown, in microseconds.
pub const FRAME_TIME_US: u64 = 150_000;

/// A cell of a sprite sheet.
#[derive(Clone, Copy, Debug, PartialEq, Eq, Structural)]
pub struct FrameIndex {
    pub column: u16,
    pub row: u16,
}

/// The column after `column` in a sheet of `columns` columns, wrapping to the first.
pub open spec fn advance(column: int, columns: int) -> int {
    if column + 1 >= columns {
        0
    } else {
        column + 1
    }
}

/// The column reached from `column` after `k` advances.
pub open spec fn advance_n(column: int, columns: int, k: nat) -> int
    decreases k,
{
    if k == 0 {
        column
    } else {
        advance(advance_n(column, columns, (k - 1) as nat), columns)
    }
}

/// The elapsed time after adding `delta`, capped at the largest `u64`.
pub open spec fn accumulate(counter: u64, delta: u64) -> u64 {
    if counter + delta > u64::MAX {
        u64::MAX
    } else {
        (counter + delta) as u64
    }
}

/// The shown cell and the elapsed time after `delta` more microseconds: once
/// more than a frame's time has gathered, the next column is shown and the
/// time restarts from zero.
pub open spec fn animate(frame: FrameIndex, columns: u16, counter: u64, delta: u64) -> (FrameIndex, u64) {
    let c = accumulate(counter, delta);
    if c > FRAME_TIME_US {
        (FrameIndex { column: advance(frame.column as int, columns as int) as u16, ..frame }, 0)
    } else {
        (frame, c)
    }
}

/// Before the last column, `k` advances from the first column reach column
/// `k`: the first column does not come back sooner than after one advance
/// per column.
pub proof fn lemma_advance_from_start(columns: int, k: nat)
    requires
        k < columns,
    ensures
        advance_n(0, columns, k) == k,
    decreases k,
{
    if k > 0 {
        lemma_advance_from_start(columns, (k - 1) as nat);
    }
}

/// In a sheet of `n` columns, `n` advances from the first column come back to it.
pub proof fn lemma_frames_wrap(n: nat)
    ensures
        advance_n(0, n as int, n) == 0,
{
    if n > 0 {
        lemma_advance_from_start(n as int, (n - 1) as nat);
    }
}

/// The animated arm of the player: which cell of its sprite sheet is shown, and
/// the time that cell has been shown.
pub struct Arm {
    columns: u16,
    current_frame: FrameIndex,
    counter: u64,
}

impl Arm {
    pub closed spec fn columns_spec(&self) -> u16 {
        self.columns
    }

    pub closed spec fn frame_spec(&self) -> FrameIndex {
        self.current_frame
    }

    pub closed spec fn counter_spec(&self) -> u64 {
        self.counter
    }

    /// The shown column is a column of the sheet (or the first, for an empty sheet).
    #[verifier::type_invariant]
    closed spec fn inv(&self) -> bool {
        self.current_frame.column < self.columns || self.current_frame.column == 0
    }

    /// An arm on a sheet of `columns` columns, on its first cell. The elapsed
    /// time starts saturated so that the first update moves to the next cell.
    pub fn new(columns: u16) -> (a: Arm)
        ensures
            a.columns_spec() == columns,
            a.frame_spec() == (FrameIndex { column: 0, row: 0 }),
            a.counter_spec() == u64::MAX,
    {
        Arm { columns, current_frame: FrameIndex { column: 0, row: 0 }, counter: u64::MAX }
    }

    /// The cell of the sheet to show; its column is a column of the sheet
    /// unless the sheet has none.
    pub fn current_frame(&self) -> (f: FrameIndex)
        ensures
            f == self.frame_spec(),
            self.columns_spec() > 0 ==> f.column < self.columns_spec(),
            self.columns_spec() == 0 ==> f.column == 0,
    {
        proof {
            use_type_invariant(self);
        }
        self.current_frame
    }

    pub fn columns(&self) -> (c: u16)
        ensures
            c == self.columns_spec(),
    {
        self.columns
    }

    fn next_frame(&mut self)
        ensures
            final(self).columns_spec() == old(self).columns_spec(),
            final(self).counter_spec() == old(self).counter_spec(),
            final(self).frame_spec() == (FrameIndex {
                column: advance(
                    old(self).frame_spec().column as int,
                    old(self).columns_spec() as int,
                ) as u16,
                ..old(self).frame_spec()
            }),
    {
        proof {
            use_type_invariant(&*self);
        }
        if self.current_frame.column as u32 + 1 >= self.columns as u32 {
            self.current_frame.column = 0;
        } else {
            self.current_frame.column = self.current_frame.column + 1;
        }
    }

    fn update_animation(&mut self, delta_us: u64)
        ensures
            final(self).columns_spec() == old(self).columns_spec(),
            (final(self).frame_spec(), final(self).counter_spec()) == animate(
                old(self).frame_spec(),
                old(self).columns_spec(),
                old(self).counter_spec(),
                delta_us,
            ),
    {
        proof {
            use_type_invariant(&*self);
        }
        self.counter = self.counter.saturating_add(delta_us);
        if self.counter > FRAME_TIME_US {
            self.next_frame();
            self.counter = 0;
        }
    }

    /// Advances the animation by `delta_us` microseconds: once more than a
    /// frame's time has gathered, the next column is shown and the time restarts.
    pub fn update(&mut self, delta_us: u64)
        ensures
            final(self).columns_spec() == old(self).columns_spec(),
            (final(self).frame_spec(), final(self).counter_spec()) == animate(
                old(self).frame_spec(),
                old(self).columns_spec(),
                old(self).counter_spec(),
                delta_us,
            ),
    {
        self.update_animation(delta_us);
    }
}

} // verus!
