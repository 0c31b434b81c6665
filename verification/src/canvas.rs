use vstd::prelude::*;

use crate::addressing::{coords_to_index, flat_index, in_bounds, lemma_flat_index_in_range};
use crate::errors::CanvasError;

verus! {

/// Minimum lease duration granted on a successful claim, in nanoseconds
/// of logical time (half a minute).
pub const MIN_BOOKING_TIME: u64 = 30_000_000_000;

/// Minimum payment required to claim a cell at all (1 NEAR in yocto units).
pub const MIN_DEPOSIT: u128 = 1_000_000_000_000_000_000_000_000;

/// Divisor converting payment in excess of `MIN_DEPOSIT` into additional
/// lease duration.
pub const EXTRA_FACTOR: u128 = 20_000_000_000_000;

/// One addressable cell of the canvas: an opaque 3-byte color payload and
/// the instant after which the cell is free again.
#[derive(Clone, Copy, Debug, PartialEq)]
pub struct CanvasPixel {
    pub color: [u8; 3],
    pub release_timestamp: u64,
}

/// The full addressable surface: `width * height` cells in a flat vector,
/// addressed through the bijection of `crate::addressing`.
#[derive(Debug)]
pub struct Canvas {
    pub field: Vec<CanvasPixel>,
    pub width: usize,
    pub height: usize,
}

/// The two observable lease states of a cell. The state is never stored:
/// it is derived on demand from the cell's expiry and the current time.
#[derive(Clone, Copy, Debug, PartialEq, Eq, Structural)]
pub enum LeaseState {
    Free,
    Held,
}

/// What a status query reports about one cell: its current color, the
/// derived lease state, and (when held) the time left before it frees.
#[derive(Clone, Copy, Debug, PartialEq)]
pub struct PixelStatus {
    pub color: [u8; 3],
    pub state: LeaseState,
    pub remaining: u64,
}

/// The audit record a successful claim emits: which cell was repainted,
/// to what color, and until when it is now held.
#[derive(Clone, Copy, Debug, PartialEq)]
pub struct ClaimEvent {
    pub x: usize,
    pub y: usize,
    pub color: [u8; 3],
    pub release_timestamp: u64,
}

/// A cell is free exactly when the current time has reached its expiry;
/// the boundary instant `now == release_timestamp` counts as free.
pub open spec fn is_free(release_timestamp: u64, now: u64) -> bool {
    release_timestamp <= now
}

/// Additional lease duration bought by the payment in excess of the
/// minimum deposit (integer floor division).
pub open spec fn extra_duration(payment: u128) -> int
    recommends
        MIN_DEPOSIT <= payment,
{
    (payment - MIN_DEPOSIT) / (EXTRA_FACTOR as int)
}

/// The expiry instant a claim at `now` with `payment` attached would set,
/// as an unbounded integer; values above `u64::MAX` are rejected rather
/// than wrapped.
pub open spec fn lease_expiry(now: u64, payment: u128) -> int
    recommends
        MIN_DEPOSIT <= payment,
{
    now + MIN_BOOKING_TIME + extra_duration(payment)
}

/// A freshly constructed cell: default white color, free from `now` on.
pub open spec fn is_blank_pixel(p: CanvasPixel, now: u64) -> bool {
    p.color@ == seq![255u8, 255u8, 255u8] && p.release_timestamp == now
}

impl Canvas {
    /// Well-formedness: positive dimensions and a backing vector of
    /// exactly `width * height` cells. Established by `new`, preserved by
    /// every operation.
    pub open spec fn wf(self) -> bool {
        &&& 1 <= self.width
        &&& 1 <= self.height
        &&& self.field@.len() == self.width * self.height
    }

    /// The cell that the valid coordinate pair `(x, y)` addresses.
    pub open spec fn cell_at(self, x: usize, y: usize) -> CanvasPixel
        recommends
            in_bounds(x, y, self.width, self.height),
            self.wf(),
    {
        self.field@[flat_index(x, y, self.height)]
    }

    /// What a status query at `now` returns, as a function of the grid
    /// and the arguments alone.
    pub open spec fn status_spec(self, x: usize, y: usize, now: u64) -> Result<
        PixelStatus,
        CanvasError,
    >
        recommends
            self.wf(),
    {
        if !in_bounds(x, y, self.width, self.height) {
            Err(CanvasError::OutOfBounds { x, y, width: self.width, height: self.height })
        } else {
            let p = self.cell_at(x, y);
            if is_free(p.release_timestamp, now) {
                Ok(PixelStatus { color: p.color, state: LeaseState::Free, remaining: 0 })
            } else {
                Ok(
                    PixelStatus {
                        color: p.color,
                        state: LeaseState::Held,
                        remaining: (p.release_timestamp - now) as u64,
                    },
                )
            }
        }
    }

    /// What a claim at `now` with `payment` attached returns, as a
    /// function of the grid and the arguments alone. The checks run in
    /// the documented order: addressing, then minimum payment (before the
    /// lease is inspected), then the lease, then overflow of the new
    /// expiry.
    pub open spec fn claim_result(
        self,
        x: usize,
        y: usize,
        now: u64,
        payment: u128,
        color: [u8; 3],
    ) -> Result<ClaimEvent, CanvasError>
        recommends
            self.wf(),
    {
        if !in_bounds(x, y, self.width, self.height) {
            Err(CanvasError::OutOfBounds { x, y, width: self.width, height: self.height })
        } else if payment < MIN_DEPOSIT {
            Err(CanvasError::InsufficientPayment { required: MIN_DEPOSIT, supplied: payment })
        } else {
            let release = self.cell_at(x, y).release_timestamp;
            if !is_free(release, now) {
                Err(CanvasError::CellHeld { remaining: (release - now) as u64 })
            } else if lease_expiry(now, payment) > u64::MAX {
                Err(CanvasError::ArithmeticOverflow)
            } else {
                Ok(
                    ClaimEvent {
                        x,
                        y,
                        color,
                        release_timestamp: lease_expiry(now, payment) as u64,
                    },
                )
            }
        }
    }

    /// Build a canvas of `width * height` blank cells, every one free
    /// from the construction instant `now` on. Zero dimensions are
    /// rejected, as is a cell count beyond the backing vector's range.
    pub fn new(width: usize, height: usize, now: u64) -> (r: Result<Canvas, CanvasError>)
        ensures
            r is Ok <==> 1 <= width && 1 <= height && width * height <= usize::MAX,
            width == 0 || height == 0 ==> r == Err::<Canvas, CanvasError>(
                (CanvasError::InvalidDimensions { width, height }),
            ),
            1 <= width && 1 <= height && width * height > usize::MAX ==> r == Err::<
                Canvas,
                CanvasError,
            >(CanvasError::ArithmeticOverflow),
            r is Ok ==> r->Ok_0.wf() && r->Ok_0.width == width && r->Ok_0.height == height,
            r is Ok ==> forall|i: int|
                0 <= i < r->Ok_0.field@.len() ==> is_blank_pixel(#[trigger] r->Ok_0.field@[i], now),
    {
        if width == 0 || height == 0 {
            return Err(CanvasError::InvalidDimensions { width, height });
        }
        let n: usize = match width.checked_mul(height) {
            Some(n) => n,
            None => {
                return Err(CanvasError::ArithmeticOverflow);
            },
        };
        let mut field: Vec<CanvasPixel> = Vec::new();
        let mut i: usize = 0;
        while i < n
            invariant
                i <= n,
                field@.len() == i,
                forall|j: int| 0 <= j < i ==> is_blank_pixel(#[trigger] field@[j], now),
            decreases n - i,
        {
            field.push(CanvasPixel { color: [255u8, 255u8, 255u8], release_timestamp: now });
            i = i + 1;
        }
        Ok(Canvas { field, width, height })
    }

    /// Report the status of the cell at `(x, y)` as of the instant `now`:
    /// its color and whether it is free or, if held, for how much longer.
    /// A pure read: two queries without an intervening claim return the
    /// same result.
    pub fn get_pixel(&self, x: usize, y: usize, now: u64) -> (r: Result<PixelStatus, CanvasError>)
        requires
            self.wf(),
        ensures
            r == self.status_spec(x, y, now),
    {
        proof {
            // The cell count equals a vector length, so it fits in usize.
            assert(self.field.len() == self.field@.len());
        }
        let index: usize = match coords_to_index(x, y, self.width, self.height) {
            Ok(index) => index,
            Err(e) => {
                return Err(e);
            },
        };
        proof {
            lemma_flat_index_in_range(x, y, self.width, self.height);
        }
        let pixel: CanvasPixel = self.field[index];
        if pixel.release_timestamp <= now {
            Ok(PixelStatus { color: pixel.color, state: LeaseState::Free, remaining: 0 })
        } else {
            Ok(
                PixelStatus {
                    color: pixel.color,
                    state: LeaseState::Held,
                    remaining: pixel.release_timestamp - now,
                },
            )
        }
    }

    /// Repaint the cell at `(x, y)` to `color`, if it is free at `now`
    /// and `payment` meets the minimum deposit. On success the cell's
    /// color and expiry change together, the expiry moving to
    /// `now + MIN_BOOKING_TIME` plus the extra bought by the payment
    /// above the minimum; every other cell is untouched. On any
    /// rejection the whole canvas is unchanged.
    pub fn set_pixel(
        &mut self,
        x: usize,
        y: usize,
        now: u64,
        payment: u128,
        color: [u8; 3],
    ) -> (r: Result<ClaimEvent, CanvasError>)
        requires
            old(self).wf(),
        ensures
            r == old(self).claim_result(x, y, now, payment, color),
            final(self).wf(),
            final(self).width == old(self).width,
            final(self).height == old(self).height,
            r is Err ==> *final(self) == *old(self),
            r is Ok ==> final(self).field@ == old(self).field@.update(
                flat_index(x, y, old(self).height),
                (CanvasPixel { color, release_timestamp: r->Ok_0.release_timestamp }),
            ),
    {
        proof {
            // The cell count equals a vector length, so it fits in usize.
            assert(self.field.len() == self.field@.len());
        }
        let index: usize = match coords_to_index(x, y, self.width, self.height) {
            Ok(index) => index,
            Err(e) => {
                return Err(e);
            },
        };
        if payment < MIN_DEPOSIT {
            return Err(CanvasError::InsufficientPayment { required: MIN_DEPOSIT, supplied: payment });
        }
        proof {
            lemma_flat_index_in_range(x, y, self.width, self.height);
        }
        let release_timestamp: u64 = self.field[index].release_timestamp;
        if now < release_timestamp {
            return Err(CanvasError::CellHeld { remaining: release_timestamp - now });
        }
        let extra_wide: u128 = (payment - MIN_DEPOSIT) / EXTRA_FACTOR;
        let headroom: u64 = u64::MAX - now;
        if headroom < MIN_BOOKING_TIME {
            return Err(CanvasError::ArithmeticOverflow);
        }
        if extra_wide > (headroom - MIN_BOOKING_TIME) as u128 {
            return Err(CanvasError::ArithmeticOverflow);
        }
        let extra: u64 = extra_wide as u64;
        let release: u64 = now + MIN_BOOKING_TIME + extra;
        self.field.set(index, CanvasPixel { color, release_timestamp: release });
        proof {
            assert(self.field@ =~= old(self).field@.update(
                flat_index(x, y, old(self).height),
                (CanvasPixel { color, release_timestamp: release }),
            ));
        }
        Ok(ClaimEvent { x, y, color, release_timestamp: release })
    }
}

} // verus!
