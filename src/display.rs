//! LED matrix driver in plain on/off mode: each step drives the next row,
//! lighting every LED whose intensity is not zero.

use vstd::prelude::*;
use crate::scan::{
    DisplayBuffer, Image, LineLevels, RowScan, ScanView, advance, dark_lines, lit, row_lines, scan_wf, submitted,
};

verus! {

/// The on/off LED matrix: a row scan over the 3x9 physical matrix. The
/// caller owns the row and column lines and drives them as `lines` says.
pub struct LedDisplay {
    scan: RowScan,
}

impl View for LedDisplay {
    type V = ScanView;

    closed spec fn view(&self) -> ScanView {
        self.scan@
    }
}

impl LedDisplay {
    pub open spec fn wf(&self) -> bool {
        scan_wf(self@)
    }

    /// A dark display scanning row 0.
    pub fn new() -> (r: LedDisplay)
        ensures
            r.wf(),
            r@.row == 0,
            !r@.updated,
            forall|p: int, q: int| 0 <= p < 3 && 0 <= q < 9 ==> r@.active[p][q] == 0,
            forall|p: int, q: int| 0 <= p < 3 && 0 <= q < 9 ==> r@.pending[p][q] == 0,
    {
        LedDisplay { scan: RowScan::new() }
    }

    /// The line levels that put every LED out at once, whatever the buffers
    /// hold.
    pub fn clear(&self) -> (r: LineLevels)
        ensures
            forall|i: int| 0 <= i < 3 ==> !r.rows[i],
            forall|q: int| 0 <= q < 9 ==> !r.cols[q],
    {
        dark_lines()
    }

    /// The physical buffer being scanned out.
    pub fn buffer(&self) -> (r: DisplayBuffer)
        ensures
            r == self@.active,
    {
        self.scan.buffer()
    }

    /// The physical row being driven.
    pub fn row(&self) -> (r: usize)
        ensures
            r == self@.row,
    {
        self.scan.row()
    }

    /// Submits a 5x5 image; it becomes visible when the scan returns to row 0.
    pub fn display(&mut self, image: Image)
        requires
            old(self).wf(),
        ensures
            final(self).wf(),
            submitted(old(self)@, final(self)@, image),
    {
        self.scan.submit(image);
    }

    /// Moves the scan to the next row.
    pub fn update_row(&mut self)
        requires
            old(self).wf(),
        ensures
            final(self).wf(),
            final(self)@ == advance(old(self)@),
    {
        self.scan.advance_row();
    }

    /// The line levels for the current row: that row active, and each
    /// column active where its intensity is not zero.
    pub fn lines(&self) -> (r: LineLevels)
        requires
            self.wf(),
        ensures
            forall|i: int| 0 <= i < 3 ==> r.rows[i] == (i == self@.row),
            forall|q: int| 0 <= q < 9 ==> r.cols[q] == lit(self@.active[self@.row][q]),
    {
        let values = self.scan.active_row();
        let mut cols = [false; 9];
        let mut q: usize = 0;
        while q < 9
            invariant
                q <= 9,
                values == self@.active[self@.row],
                forall|j: int| 0 <= j < q ==> cols[j] == lit(values[j]),
            decreases 9 - q,
        {
            cols[q] = values[q] > 0;
            q = q + 1;
        }
        LineLevels { rows: row_lines(self.scan.row()), cols }
    }
}

} // verus!
