//! LED matrix driver with eight brightness levels by bit-plane
//! multiplexing.
//!
//! Each row is shown once per bit of the intensities, lighting the LEDs
//! whose intensity has that bit set, for a time that grows with the bit's
//! weight. After the eighth bit the scan moves to the next row.

pub mod images;

use vstd::prelude::*;
use crate::scan::{
    DisplayBuffer, Image, LineLevels, RowScan, ScanView, advance, row_lines, scan_wf, shows, submitted,
};

verus! {

/// Timer ticks to wait after showing each bit-plane, by bit position. The
/// three lowest planes are too short for the eye and get no dwell time.
pub const PLANE_DELAYS: [u32; 8] = [0, 0, 0, 163, 351, 726, 1476, 2976];

/// The bit that bit-plane `k` tests.
pub open spec fn plane_mask(k: int) -> u8 {
    1u8 << (k as u8)
}

/// Whether intensity `level` lights its LED during bit-plane `k`.
pub open spec fn lit_in_plane(level: u8, k: int) -> bool {
    level & plane_mask(k) != 0
}

/// The state of a bit-plane display, as a value.
pub struct DisplayView {
    pub scan: ScanView,
    /// The bit-plane being shown, 0 to 7.
    pub plane: int,
}

pub open spec fn display_wf(d: DisplayView) -> bool {
    scan_wf(d.scan) && 0 <= d.plane < 8
}

/// One step: the next bit-plane, and after the last one the next row.
pub open spec fn plane_step(d: DisplayView) -> DisplayView {
    let k = (d.plane + 1) % 8;
    DisplayView {
        scan: if k == 0 {
            advance(d.scan)
        } else {
            d.scan
        },
        plane: k,
    }
}

/// The display after `n` steps.
pub open spec fn plane_steps(d: DisplayView, n: nat) -> DisplayView
    decreases n,
{
    if n == 0 {
        d
    } else {
        plane_steps(plane_step(d), (n - 1) as nat)
    }
}

/// The number of steps that bring the scan back to row 0: the rest of this
/// row's planes, then eight for each row left.
pub open spec fn steps_to_wrap(d: DisplayView) -> nat {
    ((8 - d.plane) + 8 * (2 - d.scan.row)) as nat
}

/// The 5x5 LED matrix with bit-plane brightness. The caller owns the row and
/// column lines and a one-shot timer: after each `update_col` it drives the
/// lines as `lines` says and arms the timer with the delay returned.
pub struct Display {
    scan: RowScan,
    plane: usize,
}

impl View for Display {
    type V = DisplayView;

    closed spec fn view(&self) -> DisplayView {
        DisplayView { scan: self.scan@, plane: self.plane as int }
    }
}

impl Display {
    pub open spec fn wf(&self) -> bool {
        display_wf(self@)
    }

    /// A dark display on row 0 and bit-plane 0.
    pub fn new() -> (r: Display)
        ensures
            r.wf(),
            r@.plane == 0,
            r@.scan.row == 0,
            !r@.scan.updated,
            forall|p: int, q: int| 0 <= p < 3 && 0 <= q < 9 ==> r@.scan.active[p][q] == 0,
            forall|p: int, q: int| 0 <= p < 3 && 0 <= q < 9 ==> r@.scan.pending[p][q] == 0,
    {
        Display { scan: RowScan::new(), plane: 0 }
    }

    /// The line levels that put every LED out at once, whatever the buffers
    /// hold.
    pub fn clear(&self) -> (r: LineLevels)
        ensures
            forall|i: int| 0 <= i < 3 ==> !r.rows[i],
            forall|q: int| 0 <= q < 9 ==> !r.cols[q],
    {
        crate::scan::dark_lines()
    }

    /// The physical buffer being scanned out.
    pub fn buffer(&self) -> (r: DisplayBuffer)
        ensures
            r == self@.scan.active,
    {
        self.scan.buffer()
    }

    /// The physical row being driven.
    pub fn row(&self) -> (r: usize)
        ensures
            r == self@.scan.row,
    {
        self.scan.row()
    }

    /// Submits a 5x5 image; it becomes visible when the scan returns to row 0.
    pub fn display(&mut self, image: Image)
        requires
            old(self).wf(),
        ensures
            final(self).wf(),
            final(self)@.plane == old(self)@.plane,
            submitted(old(self)@.scan, final(self)@.scan, image),
    {
        self.scan.submit(image);
    }

    /// The bit being shown: exactly one bit is set.
    pub fn intensity(&self) -> (r: u8)
        requires
            self.wf(),
        ensures
            r == plane_mask(self@.plane),
            r != 0,
            r & (r - 1) as u8 == 0,
    {
        let k = self.plane as u8;
        let r = 1u8 << k;
        assert(r != 0 && r & (r - 1) as u8 == 0) by (bit_vector)
            requires
                k < 8,
                r == 1u8 << k,
        ;
        r
    }

    /// Moves to the next bit-plane, and after the last one to the next row,
    /// and returns the number of timer ticks to show it for.
    pub fn update_col(&mut self) -> (r: u32)
        requires
            old(self).wf(),
        ensures
            final(self).wf(),
            final(self)@ == plane_step(old(self)@),
            r == PLANE_DELAYS[final(self)@.plane],
    {
        self.plane = (self.plane + 1) % 8;
        if self.plane == 0 {
            self.scan.advance_row();
        }
        PLANE_DELAYS[self.plane]
    }

    /// The line levels for the current row and bit-plane: that row active,
    /// and each column active where its intensity has the plane's bit set.
    pub fn lines(&self) -> (r: LineLevels)
        requires
            self.wf(),
        ensures
            forall|i: int| 0 <= i < 3 ==> r.rows[i] == (i == self@.scan.row),
            forall|q: int|
                0 <= q < 9 ==> r.cols[q] == lit_in_plane(
                    self@.scan.active[self@.scan.row][q],
                    self@.plane,
                ),
    {
        let values = self.scan.active_row();
        let mask = self.intensity();
        let mut cols = [false; 9];
        let mut q: usize = 0;
        while q < 9
            invariant
                q <= 9,
                values == self@.scan.active[self@.scan.row],
                mask == plane_mask(self@.plane),
                forall|j: int| 0 <= j < q ==> cols[j] == lit_in_plane(values[j], self@.plane),
            decreases 9 - q,
        {
            cols[q] = values[q] & mask != 0;
            q = q + 1;
        }
        LineLevels { rows: row_lines(self.scan.row()), cols }
    }
}

proof fn lemma_committed_planes(d: DisplayView, n: nat)
    requires
        display_wf(d),
        !d.scan.updated,
        d.scan.active == d.scan.pending,
    ensures
        plane_steps(d, n).scan.active == d.scan.active,
    decreases n,
{
    if n > 0 {
        lemma_committed_planes(plane_step(d), (n - 1) as nat);
    }
}

proof fn lemma_pending_planes(d: DisplayView, img: Image, n: nat)
    requires
        display_wf(d),
        d.scan.updated,
        shows(d.scan.pending, img),
    ensures
        n < steps_to_wrap(d) ==> plane_steps(d, n).scan.active == d.scan.active,
        n >= steps_to_wrap(d) ==> shows(plane_steps(d, n).scan.active, img),
    decreases n,
{
    if n > 0 {
        let d1 = plane_step(d);
        if d.plane == 7 && d.scan.row == 2 {
            lemma_committed_planes(d1, (n - 1) as nat);
        } else {
            lemma_pending_planes(d1, img, (n - 1) as nat);
        }
    }
}

/// An image submitted to the display is shown in full once the scan has
/// gone through the planes of every row back to row 0, and stays shown
/// for as many further steps as come without another submit.
pub proof fn lemma_planes_show_submitted(d0: DisplayView, d1: DisplayView, img: Image, n: nat)
    requires
        display_wf(d0),
        d1.plane == d0.plane,
        submitted(d0.scan, d1.scan, img),
        n >= steps_to_wrap(d1),
    ensures
        shows(plane_steps(d1, n).scan.active, img),
{
    lemma_pending_planes(d1, img, n);
}

/// A submit leaves the buffer being scanned out alone until the scan
/// returns to row 0.
pub proof fn lemma_planes_keep_active_until_wrap(d0: DisplayView, d1: DisplayView, img: Image, n: nat)
    requires
        display_wf(d0),
        d1.plane == d0.plane,
        submitted(d0.scan, d1.scan, img),
        n < steps_to_wrap(d1),
    ensures
        plane_steps(d1, n).scan.active == d0.scan.active,
{
    lemma_pending_planes(d1, img, n);
}

} // verus!
