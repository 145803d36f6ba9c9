use vstd::prelude::*;

verus! {

/// A 5×5 grid of pixels, row-major: `frame[row][col]`.
pub type Frame = [[u8; 5]; 5];

/// Number of columns (and rows) of a glyph and of the display.
pub const WIDTH: usize = 5;

/// Number of frames a generator emits: one per glyph column, then one per
/// blank column needed to clear the display.
pub const FRAME_COUNT: usize = 10;

/// Pixel `(row, col)` of the display after `k` steps: the glyph column that
/// has reached `col` by then, or blank where no glyph column stands.
pub open spec fn scrolled_pixel(glyph: Frame, k: int, row: int, col: int) -> u8 {
    let src = col + k - 5;
    if 0 <= src < 5 {
        glyph[row][src]
    } else {
        0
    }
}

/// `frame` is the display after `k` steps of scrolling `glyph`.
pub open spec fn is_scrolled(frame: Frame, glyph: Frame, k: int) -> bool {
    forall|row: int, col: int|
        0 <= row < 5 && 0 <= col < 5 ==> #[trigger] frame[row][col] == scrolled_pixel(
            glyph,
            k,
            row,
            col,
        )
}

/// Column `col` of `glyph`, top to bottom.
fn glyph_column(glyph: &Frame, col: usize) -> (r: [u8; 5])
    requires
        col < 5,
    ensures
        forall|row: int| 0 <= row < 5 ==> #[trigger] r[row] == glyph[row][col as int],
{
    let mut r: [u8; 5] = [0; 5];
    let mut row: usize = 0;
    while row < 5
        invariant
            row <= 5,
            col < 5,
            forall|i: int| 0 <= i < row ==> #[trigger] r[i] == glyph[i][col as int],
        decreases 5 - row,
    {
        r[row] = glyph[row][col];
        row += 1;
    }
    r
}

/// Shifts every row of `frame` one column left and writes `column` into the
/// rightmost column.
fn shift_in(frame: &mut Frame, column: &[u8; 5])
    ensures
        forall|row: int, col: int|
            0 <= row < 5 && 0 <= col < 4 ==> #[trigger] final(frame)[row][col] == old(
                frame,
            )[row][col + 1],
        forall|row: int| 0 <= row < 5 ==> #[trigger] final(frame)[row][4] == column[row],
{
    let ghost start = *frame;
    let mut row: usize = 0;
    while row < 5
        invariant
            row <= 5,
            forall|i: int, col: int|
                0 <= i < row && 0 <= col < 4 ==> #[trigger] frame[i][col] == start[i][col + 1],
            forall|i: int| 0 <= i < row ==> #[trigger] frame[i][4] == column[i],
            forall|i: int| row <= i < 5 ==> #[trigger] frame[i] == start[i],
        decreases 5 - row,
    {
        let mut line = frame[row];
        let mut col: usize = 1;
        while col < 5
            invariant
                1 <= col <= 5,
                forall|c: int| 0 <= c < col - 1 ==> #[trigger] line[c] == start[row as int][c + 1],
                forall|c: int| col - 1 <= c < 5 ==> #[trigger] line[c] == start[row as int][c],
            decreases 5 - col,
        {
            line[col - 1] = line[col];
            col += 1;
        }
        line[4] = column[row];
        frame[row] = line;
        row += 1;
    }
}

/// Generator of the frames that scroll one glyph leftwards off the display.
///
/// The display starts blank. Each step shifts it one column left and brings
/// in the next glyph column on the right; once the glyph is used up, blank
/// columns come in until the display is clear again.
#[derive(Debug, Copy, Clone)]
pub struct ScrollFrame {
    letter: Frame,
    current_column: usize,
    current_frame: Frame,
    end_buffer_frames: u8,
}

impl ScrollFrame {
    /// The glyph being scrolled.
    pub closed spec fn glyph(&self) -> Frame {
        self.letter
    }

    /// Number of frames emitted so far.
    pub closed spec fn steps(&self) -> nat {
        (self.current_column + (WIDTH - self.end_buffer_frames)) as nat
    }

    /// The generator's internal state is consistent: the glyph columns are
    /// used up before any blank one comes in, and the display shows the glyph
    /// as scrolled by the steps taken.
    pub closed spec fn wf(&self) -> bool {
        &&& self.current_column <= WIDTH
        &&& self.end_buffer_frames <= WIDTH
        &&& self.current_column < WIDTH ==> self.end_buffer_frames == WIDTH
        &&& is_scrolled(self.current_frame, self.letter, self.steps() as int)
    }

    /// A generator for `letter` that has emitted nothing yet; its display is
    /// blank.
    pub fn new(letter: Frame) -> (s: Self)
        ensures
            s.wf(),
            s.glyph() == letter,
            s.steps() == 0,
    {
        let current_frame: Frame = [
            [0, 0, 0, 0, 0],
            [0, 0, 0, 0, 0],
            [0, 0, 0, 0, 0],
            [0, 0, 0, 0, 0],
            [0, 0, 0, 0, 0],
        ];
        ScrollFrame { letter, current_frame, current_column: 0, end_buffer_frames: WIDTH as u8 }
    }

    /// Emits the next frame: the display after one more step of scrolling.
    /// After the last frame every call returns `None` and changes nothing.
    pub fn next(&mut self) -> (r: Option<Frame>)
        requires
            old(self).wf(),
        ensures
            final(self).wf(),
            final(self).glyph() == old(self).glyph(),
            old(self).steps() <= FRAME_COUNT,
            old(self).steps() < FRAME_COUNT ==> {
                &&& final(self).steps() == old(self).steps() + 1
                &&& r is Some
                &&& is_scrolled(r->0, old(self).glyph(), final(self).steps() as int)
            },
            old(self).steps() == FRAME_COUNT ==> r is None && *final(self) == *old(self),
    {
        if self.current_column < WIDTH {
            let column = glyph_column(&self.letter, self.current_column);
            shift_in(&mut self.current_frame, &column);
            self.current_column += 1;
            Some(self.current_frame)
        } else if self.end_buffer_frames > 0 {
            self.end_buffer_frames -= 1;
            shift_in(&mut self.current_frame, &[0; 5]);
            Some(self.current_frame)
        } else {
            None
        }
    }

    /// Drains the generator: every frame it has still to emit, in order.
    /// Afterwards it is exhausted, so a fresh generator yields exactly
    /// `FRAME_COUNT` frames.
    pub fn remaining_frames(&mut self) -> (frames: Vec<Frame>)
        requires
            old(self).wf(),
        ensures
            final(self).wf(),
            final(self).glyph() == old(self).glyph(),
            final(self).steps() == FRAME_COUNT,
            frames.len() == FRAME_COUNT - old(self).steps(),
            forall|i: int|
                0 <= i < frames.len() ==> is_scrolled(
                    #[trigger] frames[i],
                    old(self).glyph(),
                    old(self).steps() + i + 1,
                ),
    {
        let mut frames: Vec<Frame> = Vec::new();
        loop
            invariant
                self.wf(),
                self.glyph() == old(self).glyph(),
                self.steps() == old(self).steps() + frames.len(),
                self.steps() <= FRAME_COUNT,
                forall|i: int|
                    0 <= i < frames.len() ==> is_scrolled(
                        #[trigger] frames[i],
                        old(self).glyph(),
                        old(self).steps() + i + 1,
                    ),
            ensures
                self.steps() == FRAME_COUNT,
            decreases FRAME_COUNT - self.steps(),
        {
            match self.next() {
                Some(frame) => frames.push(frame),
                None => break,
            }
        }
        frames
    }
}

/// Two frames that both show `glyph` after `k` steps are the same frame.
pub proof fn lemma_frame_determined(glyph: Frame, k: int, a: Frame, b: Frame)
    requires
        is_scrolled(a, glyph, k),
        is_scrolled(b, glyph, k),
    ensures
        a == b,
{
    assert forall|row: int| 0 <= row < 5 implies #[trigger] a[row] == b[row] by {
        assert(a[row] =~= b[row]);
    }
    assert(a =~= b);
}

/// Generators built from the same glyph that have taken the same number of
/// steps are in the same state, so stepping them in lockstep yields the same
/// frames.
pub proof fn lemma_lockstep(a: ScrollFrame, b: ScrollFrame)
    requires
        a.wf(),
        b.wf(),
        a.glyph() == b.glyph(),
        a.steps() == b.steps(),
    ensures
        a == b,
{
    lemma_frame_determined(a.letter, a.steps() as int, a.current_frame, b.current_frame);
}

/// Frame `i` for `i` in `5..10` is frame 4, the whole glyph on display,
/// shifted left by `i - 4` columns with blanks filled in on the right.
pub proof fn lemma_blank_phase_shifts(glyph: Frame, shown: Frame, frame: Frame, i: int)
    requires
        5 <= i < FRAME_COUNT,
        is_scrolled(shown, glyph, 5),
        is_scrolled(frame, glyph, i + 1),
    ensures
        forall|row: int, col: int|
            0 <= row < 5 && 0 <= col < 5 ==> #[trigger] frame[row][col] == if col + (i - 4) < 5 {
                shown[row][col + (i - 4)]
            } else {
                0
            },
{
}

/// The last frame, after `FRAME_COUNT` steps, is blank.
pub proof fn lemma_last_frame_blank(glyph: Frame, frame: Frame)
    requires
        is_scrolled(frame, glyph, FRAME_COUNT as int),
    ensures
        forall|row: int, col: int| 0 <= row < 5 && 0 <= col < 5 ==> #[trigger] frame[row][col] == 0,
{
}

} // verus!
