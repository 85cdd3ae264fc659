//! The LED matrix: which frame it renders, and which row is driven next.

use vstd::prelude::*;
use crate::frame::{blank_grid, is_grid, DisplayFrame};

verus! {

/// What a `DisplayController` stands for.
pub struct DisplayView {
    /// The frame being rendered, as a grid of lit cells.
    pub shown: Seq<Seq<bool>>,
    /// The row that the next refresh tick drives.
    pub row: nat,
}

impl DisplayView {
    /// The frame is a five-by-five grid and the row is one of its five.
    pub open spec fn wf(self) -> bool {
        is_grid(self.shown) && self.row < 5
    }

    /// The display before anything was shown: dark, about to drive the top
    /// row.
    pub open spec fn initial() -> DisplayView {
        DisplayView { shown: blank_grid(), row: 0 }
    }

    /// The display after `show(frame)`: it renders `frame`, and the refresh
    /// goes on where it was.
    pub open spec fn show(self, frame: Seq<Seq<bool>>) -> DisplayView {
        DisplayView { shown: frame, ..self }
    }

    /// Whether `show(frame)` changes the picture.
    pub open spec fn show_changes(self, frame: Seq<Seq<bool>>) -> bool {
        self.shown != frame
    }

    /// The display after one refresh tick: the same frame, the next row, and
    /// the top row again after the bottom one.
    pub open spec fn refresh_tick(self) -> DisplayView {
        DisplayView { row: if self.row + 1 < 5 { self.row + 1 } else { 0 }, ..self }
    }

    /// The display after `ticks` refresh ticks.
    pub open spec fn refresh_ticks(self, ticks: nat) -> DisplayView
        decreases ticks,
    {
        if ticks == 0 {
            self
        } else {
            self.refresh_ticks((ticks - 1) as nat).refresh_tick()
        }
    }
}

/// Refresh ticks keep the frame and keep the display well formed.
pub proof fn lemma_refresh_keeps_frame(display: DisplayView, ticks: nat)
    ensures
        display.refresh_ticks(ticks).shown == display.shown,
        display.wf() ==> display.refresh_ticks(ticks).wf(),
    decreases ticks,
{
    if ticks > 0 {
        lemma_refresh_keeps_frame(display, (ticks - 1) as nat);
    }
}

/// Showing a frame again is no event for the display. Once `frame` is on
/// show, and whatever number of refresh ticks went by since, another
/// `show(frame)` reports no change and leaves the display exactly as the
/// ticks left it.
pub proof fn lemma_show_is_idempotent(display: DisplayView, frame: Seq<Seq<bool>>, ticks: nat)
    ensures
        !display.show(frame).refresh_ticks(ticks).show_changes(frame),
        display.show(frame).refresh_ticks(ticks).show(frame) == display.show(frame).refresh_ticks(ticks),
{
    lemma_refresh_keeps_frame(display.show(frame), ticks);
}

/// The refresh walks down the rows in turn and starts again at the top:
/// after `ticks` ticks the row to drive is `ticks` further on, modulo five.
pub proof fn lemma_refresh_walks_rows(display: DisplayView, ticks: nat)
    requires
        display.wf(),
    ensures
        display.refresh_ticks(ticks).row == (display.row + ticks) % 5,
    decreases ticks,
{
    if ticks > 0 {
        lemma_refresh_walks_rows(display, (ticks - 1) as nat);
    }
}

/// One step of multiplexing: the row to drive, and which LEDs of it to light.
#[derive(Clone, Copy, Debug, PartialEq, Eq)]
pub struct RowScan {
    /// The row, counted from the top.
    pub row: usize,
    /// For each column from the left, whether its LED in this row is lit.
    pub columns: [bool; 5],
}

/// The state of the display: the frame on show and the place of the refresh.
///
/// The foreground shows frames; the refresh interrupt asks for one row at a
/// time. The controller touches no hardware: it returns what is to be driven.
#[derive(Clone, Copy, Debug, PartialEq, Eq)]
pub struct DisplayController {
    shown: DisplayFrame,
    row: usize,
}

impl View for DisplayController {
    type V = DisplayView;

    closed spec fn view(&self) -> DisplayView {
        DisplayView { shown: self.shown@, row: self.row as nat }
    }
}

impl DisplayController {
    /// Holds of every controller at all times.
    #[verifier::type_invariant]
    pub open spec fn inv(&self) -> bool {
        self@.wf()
    }

    /// A dark display about to drive its top row.
    pub fn new() -> (display: DisplayController)
        ensures
            display@ == DisplayView::initial(),
            display@.wf(),
    {
        let shown = DisplayFrame::blank();
        proof {
            shown.lemma_is_grid();
        }
        DisplayController { shown, row: 0 }
    }

    /// The frame being rendered.
    pub fn shown(&self) -> (frame: DisplayFrame)
        ensures
            frame@ == self@.shown,
            self@.wf(),
    {
        proof {
            use_type_invariant(self);
        }
        self.shown
    }

    /// Makes `frame` the rendered frame. Foreground only.
    ///
    /// Returns whether the picture changed. Showing the frame that is
    /// already on show returns `false` and leaves the controller as it was,
    /// so that the refresh ticks that follow drive exactly what they would
    /// have driven without the call.
    pub fn show(&mut self, frame: DisplayFrame) -> (changed: bool)
        ensures
            final(self)@ == old(self)@.show(frame@),
            changed == old(self)@.show_changes(frame@),
            final(self)@.wf(),
    {
        proof {
            use_type_invariant(&*self);
            frame.lemma_is_grid();
        }
        let changed = !self.shown.same_as(&frame);
        *self = DisplayController { shown: frame, row: self.row };
        changed
    }

    /// One tick of the refresh interrupt. Interrupt only.
    ///
    /// Returns the one row to drive now, with its LEDs as the rendered frame
    /// has them, and moves on to the next row.
    pub fn service_refresh_tick(&mut self) -> (scan: RowScan)
        ensures
            scan.row == old(self)@.row,
            scan.columns@ == old(self)@.shown[old(self)@.row as int],
            final(self)@ == old(self)@.refresh_tick(),
            final(self)@.wf(),
    {
        proof {
            use_type_invariant(&*self);
        }
        let row = self.row;
        let columns = self.shown.row(row);
        let next: usize = if row + 1 < 5 {
            row + 1
        } else {
            0
        };
        *self = DisplayController { shown: self.shown, row: next };
        RowScan { row, columns }
    }
}

} // verus!
