//! The double-buffered row scan shared by both LED matrix drivers.
//!
//! The 5x5 LEDs of the board are wired as a matrix of 3 rows and 9 columns.
//! An image is mapped into a pending buffer of that shape; the scan drives
//! one row at a time from an active buffer, and the pending buffer becomes
//! active only when the scan returns to row 0, so that no refresh shows
//! half of one image and half of another.

use vstd::prelude::*;

verus! {

/// A logical image: 5 rows of 5 intensities.
pub type Image = [[u8; 5]; 5];

/// A physical image: 3 rows of 9 intensities.
pub type DisplayBuffer = [[u8; 9]; 3];

/// Where each LED of the logical image sits in the physical matrix, as
/// (row, column).
pub const LED_LAYOUT: [[(usize, usize); 5]; 5] = [
    [(0, 0), (1, 3), (0, 1), (1, 4), (0, 2)],
    [(2, 3), (2, 4), (2, 5), (2, 6), (2, 7)],
    [(1, 1), (0, 8), (1, 2), (2, 8), (1, 0)],
    [(0, 7), (0, 6), (0, 5), (0, 4), (0, 3)],
    [(2, 2), (1, 6), (2, 0), (1, 5), (2, 1)],
];

/// The physical cell of logical LED (`r`, `c`).
pub open spec fn led_at(r: int, c: int) -> (usize, usize) {
    LED_LAYOUT[r][c]
}

/// Whether a physical cell has no LED wired to it.
pub open spec fn unwired(p: int, q: int) -> bool {
    p == 1 && (q == 7 || q == 8)
}

/// Whether a physical buffer shows `img`: each logical LED's intensity
/// stands in its physical cell, and the two cells without an LED hold zero.
pub open spec fn shows(buf: DisplayBuffer, img: Image) -> bool {
    &&& forall|r: int, c: int|
        0 <= r < 5 && 0 <= c < 5 ==> #[trigger] buf[led_at(r, c).0 as int][led_at(r, c).1 as int]
            == img[r][c]
    &&& buf[1][7] == 0
    &&& buf[1][8] == 0
}

/// The table places every LED in the matrix, on a wired cell, and no two on
/// the same cell.
pub proof fn lemma_layout_one_to_one()
    ensures
        forall|r: int, c: int|
            0 <= r < 5 && 0 <= c < 5 ==> {
                let (p, q) = #[trigger] led_at(r, c);
                p < 3 && q < 9 && !unwired(p as int, q as int)
            },
        forall|r: int, c: int, r2: int, c2: int|
            0 <= r < 5 && 0 <= c < 5 && 0 <= r2 < 5 && 0 <= c2 < 5 && (r != r2 || c != c2)
                ==> #[trigger] led_at(r, c) != #[trigger] led_at(r2, c2),
{
    assert forall|r: int, c: int| 0 <= r < 5 && 0 <= c < 5 implies {
        let (p, q) = #[trigger] led_at(r, c);
        p < 3 && q < 9 && !unwired(p as int, q as int)
    } by {
        assert(r == 0 || r == 1 || r == 2 || r == 3 || r == 4);
        assert(c == 0 || c == 1 || c == 2 || c == 3 || c == 4);
    }
    assert forall|r: int, c: int, r2: int, c2: int|
        0 <= r < 5 && 0 <= c < 5 && 0 <= r2 < 5 && 0 <= c2 < 5 && (r != r2 || c != c2) implies
        #[trigger] led_at(r, c) != #[trigger] led_at(r2, c2) by {
        assert(r == 0 || r == 1 || r == 2 || r == 3 || r == 4);
        assert(c == 0 || c == 1 || c == 2 || c == 3 || c == 4);
        assert(r2 == 0 || r2 == 1 || r2 == 2 || r2 == 3 || r2 == 4);
        assert(c2 == 0 || c2 == 1 || c2 == 2 || c2 == 3 || c2 == 4);
    }
}

/// The state of a row scan, as a value.
pub struct ScanView {
    /// The physical row being driven.
    pub row: int,
    /// The buffer being scanned out.
    pub active: DisplayBuffer,
    /// The most recently submitted image.
    pub pending: DisplayBuffer,
    /// Whether `pending` waits to become active.
    pub updated: bool,
}

/// A well-formed scan: the row is one of three, and the unwired cells of
/// both buffers hold zero.
pub open spec fn scan_wf(s: ScanView) -> bool {
    &&& 0 <= s.row < 3
    &&& s.active[1][7] == 0 && s.active[1][8] == 0
    &&& s.pending[1][7] == 0 && s.pending[1][8] == 0
}

/// `after` is `before` with `img` submitted: the image is pending and
/// waits, and the row and the active buffer are untouched.
pub open spec fn submitted(before: ScanView, after: ScanView, img: Image) -> bool {
    &&& after.row == before.row
    &&& after.active == before.active
    &&& after.updated
    &&& shows(after.pending, img)
}

/// One step of the row scan: move to the next row, and when that is row 0
/// and an image is pending, make it active.
pub open spec fn advance(s: ScanView) -> ScanView {
    let row = (s.row + 1) % 3;
    if row == 0 && s.updated {
        ScanView { row, active: s.pending, pending: s.pending, updated: false }
    } else {
        ScanView { row, ..s }
    }
}

/// Whether drive level `level` lights a column in plain on/off mode.
pub open spec fn lit(level: u8) -> bool {
    level > 0
}

/// The double buffer and row cursor of an LED matrix scan.
pub struct RowScan {
    row: usize,
    buffer: DisplayBuffer,
    next_buffer: DisplayBuffer,
    next_updated: bool,
}

impl View for RowScan {
    type V = ScanView;

    closed spec fn view(&self) -> ScanView {
        ScanView {
            row: self.row as int,
            active: self.buffer,
            pending: self.next_buffer,
            updated: self.next_updated,
        }
    }
}

impl RowScan {
    /// A scan at row 0 with both buffers dark.
    pub fn new() -> (r: RowScan)
        ensures
            scan_wf(r@),
            r@.row == 0,
            !r@.updated,
            forall|p: int, q: int| 0 <= p < 3 && 0 <= q < 9 ==> r@.active[p][q] == 0,
            forall|p: int, q: int| 0 <= p < 3 && 0 <= q < 9 ==> r@.pending[p][q] == 0,
    {
        RowScan { row: 0, buffer: [[0; 9]; 3], next_buffer: [[0; 9]; 3], next_updated: false }
    }

    /// Maps `image` into the pending buffer and marks it as waiting.
    pub fn submit(&mut self, image: Image)
        requires
            scan_wf(old(self)@),
        ensures
            scan_wf(final(self)@),
            submitted(old(self)@, final(self)@, image),
    {
        proof {
            lemma_layout_one_to_one();
        }
        let mut r: usize = 0;
        while r < 5
            invariant
                0 <= r <= 5,
                scan_wf(self@),
                self@.row == old(self)@.row,
                self@.active == old(self)@.active,
                self@.updated == old(self)@.updated,
                forall|r2: int, c2: int|
                    0 <= r2 < r && 0 <= c2 < 5 ==> #[trigger] self@.pending[led_at(r2, c2).0 as int][led_at(
                        r2,
                        c2,
                    ).1 as int] == image[r2][c2],
            decreases 5 - r,
        {
            let mut c: usize = 0;
            while c < 5
                invariant
                    0 <= r < 5,
                    0 <= c <= 5,
                    scan_wf(self@),
                    self@.row == old(self)@.row,
                    self@.active == old(self)@.active,
                    self@.updated == old(self)@.updated,
                    forall|r2: int, c2: int|
                        (0 <= r2 < r && 0 <= c2 < 5) || (r2 == r && 0 <= c2 < c) ==> #[trigger] self@.pending[led_at(
                            r2,
                            c2,
                        ).0 as int][led_at(r2, c2).1 as int] == image[r2][c2],
                decreases 5 - c,
            {
                let (p, q) = LED_LAYOUT[r][c];
                assert(led_at(r as int, c as int) == (p, q));
                self.next_buffer[p][q] = image[r][c];
                c = c + 1;
            }
            r = r + 1;
        }
        self.next_updated = true;
    }

    /// Moves the scan to the next row, making the pending image active when
    /// the scan returns to row 0.
    pub fn advance_row(&mut self)
        requires
            scan_wf(old(self)@),
        ensures
            scan_wf(final(self)@),
            final(self)@ == advance(old(self)@),
    {
        self.row = (self.row + 1) % 3;
        if self.row == 0 && self.next_updated {
            self.buffer = self.next_buffer;
            self.next_updated = false;
        }
    }

    /// The physical row being driven.
    pub fn row(&self) -> (r: usize)
        ensures
            r == self@.row,
    {
        self.row
    }

    /// The buffer being scanned out.
    pub fn buffer(&self) -> (r: DisplayBuffer)
        ensures
            r == self@.active,
    {
        self.buffer
    }

    /// The active intensities of the row being driven.
    pub fn active_row(&self) -> (r: [u8; 9])
        requires
            scan_wf(self@),
        ensures
            r == self@.active[self@.row],
    {
        self.buffer[self.row]
    }
}

/// The scan after `n` steps.
pub open spec fn advance_n(s: ScanView, n: nat) -> ScanView
    decreases n,
{
    if n == 0 {
        s
    } else {
        advance_n(advance(s), (n - 1) as nat)
    }
}

/// The number of steps that bring the scan back to row 0.
pub open spec fn rows_to_wrap(s: ScanView) -> nat {
    (3 - s.row) as nat
}

proof fn lemma_committed_stays(s: ScanView, n: nat)
    requires
        0 <= s.row < 3,
        !s.updated,
        s.active == s.pending,
    ensures
        advance_n(s, n).active == s.active,
    decreases n,
{
    if n > 0 {
        lemma_committed_stays(advance(s), (n - 1) as nat);
    }
}

proof fn lemma_pending_scan(s: ScanView, img: Image, n: nat)
    requires
        0 <= s.row < 3,
        s.updated,
        shows(s.pending, img),
    ensures
        n < rows_to_wrap(s) ==> advance_n(s, n).active == s.active,
        n >= rows_to_wrap(s) ==> shows(advance_n(s, n).active, img),
    decreases n,
{
    if n > 0 {
        let s1 = advance(s);
        if s.row == 2 {
            lemma_committed_stays(s1, (n - 1) as nat);
        } else {
            lemma_pending_scan(s1, img, (n - 1) as nat);
        }
    }
}

/// An image submitted to a scan is shown in full once the scan has gone
/// round to row 0, and stays shown for as many further steps as come
/// without another submit.
pub proof fn lemma_full_scan_shows_submitted(s0: ScanView, s1: ScanView, img: Image, n: nat)
    requires
        scan_wf(s0),
        submitted(s0, s1, img),
        n >= rows_to_wrap(s1),
    ensures
        shows(advance_n(s1, n).active, img),
{
    lemma_pending_scan(s1, img, n);
}

/// A submit leaves the buffer that is being scanned out alone until the scan
/// returns to row 0.
pub proof fn lemma_active_kept_until_wrap(s0: ScanView, s1: ScanView, img: Image, n: nat)
    requires
        scan_wf(s0),
        submitted(s0, s1, img),
        n < rows_to_wrap(s1),
    ensures
        advance_n(s1, n).active == s0.active,
{
    lemma_pending_scan(s1, img, n);
}

/// Drive levels of the matrix lines, `true` where the line lights its LEDs
/// (a row is then driven high, a column low).
pub struct LineLevels {
    pub rows: [bool; 3],
    pub cols: [bool; 9],
}

/// Every line inactive: no LED lights.
pub fn dark_lines() -> (r: LineLevels)
    ensures
        forall|i: int| 0 <= i < 3 ==> !r.rows[i],
        forall|q: int| 0 <= q < 9 ==> !r.cols[q],
{
    LineLevels { rows: [false; 3], cols: [false; 9] }
}

/// Row lines with only row `row` active.
pub fn row_lines(row: usize) -> (r: [bool; 3])
    requires
        row < 3,
    ensures
        forall|i: int| 0 <= i < 3 ==> r[i] == (i == row),
{
    let mut r = [false; 3];
    r[row] = true;
    r
}

} // verus!
