use vstd::prelude::*;

use crate::addressing::in_bounds;
use crate::canvas::{
    extra_duration, is_free, lease_expiry, Canvas, ClaimEvent, LeaseState, PixelStatus,
    EXTRA_FACTOR, MIN_BOOKING_TIME, MIN_DEPOSIT,
};
use crate::errors::CanvasError;

verus! {

/// Free-boundary inclusivity: at the exact instant `now == expiry` a cell
/// is classified Free, and a claim with sufficient payment (whose new
/// expiry stays representable) succeeds at exactly that instant, not one
/// tick later.
pub proof fn lemma_free_at_expiry(c: Canvas, x: usize, y: usize, payment: u128, color: [u8; 3])
    requires
        c.wf(),
        in_bounds(x, y, c.width, c.height),
        MIN_DEPOSIT <= payment,
        lease_expiry(c.cell_at(x, y).release_timestamp, payment) <= u64::MAX,
    ensures
        c.status_spec(x, y, c.cell_at(x, y).release_timestamp) == Ok::<PixelStatus, CanvasError>(
            (PixelStatus {
                color: c.cell_at(x, y).color,
                state: LeaseState::Free,
                remaining: 0,
            }),
        ),
        c.claim_result(x, y, c.cell_at(x, y).release_timestamp, payment, color) is Ok,
{
}

/// No-steal invariant: a claim against a held cell is rejected whatever
/// the payment, and with sufficient payment the rejection is `CellHeld`
/// carrying the time left before the cell frees. Together with
/// `Canvas::set_pixel`'s guarantee that any rejection leaves the canvas
/// unchanged, a claim attempt on a held cell never mutates its content or
/// expiry.
pub proof fn lemma_no_steal(c: Canvas, x: usize, y: usize, now: u64, payment: u128, color: [u8; 3])
    requires
        c.wf(),
        in_bounds(x, y, c.width, c.height),
        !is_free(c.cell_at(x, y).release_timestamp, now),
    ensures
        c.claim_result(x, y, now, payment, color) is Err,
        MIN_DEPOSIT <= payment ==> c.claim_result(x, y, now, payment, color) == Err::<
            ClaimEvent,
            CanvasError,
        >(
            (CanvasError::CellHeld {
                remaining: (c.cell_at(x, y).release_timestamp - now) as u64,
            }),
        ),
{
}

/// Minimum-lease guarantee: a claim with exactly the minimum deposit buys
/// no extra time, so the new expiry is exactly `now + MIN_BOOKING_TIME`.
pub proof fn lemma_minimum_lease(now: u64)
    ensures
        extra_duration(MIN_DEPOSIT) == 0,
        lease_expiry(now, MIN_DEPOSIT) == now + MIN_BOOKING_TIME,
{
}

/// Monotonic extension: of two sufficient payments at the same instant,
/// the larger one never yields the earlier expiry.
pub proof fn lemma_monotonic_extension(now: u64, p1: u128, p2: u128)
    requires
        MIN_DEPOSIT <= p1,
        p1 <= p2,
    ensures
        lease_expiry(now, p1) <= lease_expiry(now, p2),
{
    vstd::arithmetic::div_mod::lemma_div_is_ordered(
        p1 - MIN_DEPOSIT,
        p2 - MIN_DEPOSIT,
        EXTRA_FACTOR as int,
    );
}

} // verus!
