//! Scrolls a 5×5 glyph off a 5×5 display, one column per step.

mod scroll;

pub use scroll::{
    Frame, FRAME_COUNT, ScrollFrame, WIDTH, is_scrolled, scrolled_pixel,
    lemma_blank_phase_shifts, lemma_frame_determined, lemma_last_frame_blank, lemma_lockstep,
};
