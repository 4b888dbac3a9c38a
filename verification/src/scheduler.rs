//! Maps elapsed playback time to the index of the frame to display.
//!
//! The display runs at a fixed rate and loops: the source's own frame
//! timestamps play no part.

use vstd::prelude::*;
use vstd::arithmetic::div_mod::{
    lemma_div_is_ordered,
    lemma_fundamental_div_mod,
    lemma_fundamental_div_mod_converse,
    lemma_mod_breakdown,
};

verus! {

/// The order in which the frame sequence is shown.
#[derive(Clone, Copy, Debug, PartialEq, Eq, Structural)]
pub enum DisplayOrder {
    /// First decoded, first shown.
    Forward,
    /// Last decoded, first shown.
    Reverse,
}

/// The frame shown after `elapsed_ms` milliseconds when a new frame is due
/// every `interval_ms` milliseconds and the sequence of `frame_count` frames
/// repeats without end.
pub open spec fn frame_index_at(elapsed_ms: nat, interval_ms: nat, frame_count: nat) -> nat {
    (elapsed_ms / interval_ms) % frame_count
}

/// The position in the decoded sequence of the frame shown at `elapsed_ms`
/// under `order`.
pub open spec fn display_index_at(
    order: DisplayOrder,
    elapsed_ms: nat,
    interval_ms: nat,
    frame_count: nat,
) -> nat {
    match order {
        DisplayOrder::Forward => frame_index_at(elapsed_ms, interval_ms, frame_count),
        DisplayOrder::Reverse => (frame_count - 1 - frame_index_at(
            elapsed_ms,
            interval_ms,
            frame_count,
        )) as nat,
    }
}

/// The length of one pass through the sequence, in milliseconds.
pub open spec fn cycle_ms(interval_ms: nat, frame_count: nat) -> nat {
    interval_ms * frame_count
}

/// The index is a valid position in the sequence.
pub proof fn lemma_index_in_range(elapsed_ms: nat, interval_ms: nat, frame_count: nat)
    requires
        interval_ms > 0,
        frame_count > 0,
    ensures
        frame_index_at(elapsed_ms, interval_ms, frame_count) < frame_count,
{
}

/// At time zero the first frame is shown, and at an exact multiple of the
/// interval the frame that has just become due, not the one before it.
pub proof fn lemma_index_at_interval_multiple(ticks: nat, interval_ms: nat, frame_count: nat)
    requires
        interval_ms > 0,
        frame_count > 0,
    ensures
        frame_index_at(0, interval_ms, frame_count) == 0,
        frame_index_at(ticks * interval_ms, interval_ms, frame_count) == ticks % frame_count,
{
    lemma_fundamental_div_mod_converse(0, interval_ms as int, 0, 0);
    lemma_fundamental_div_mod_converse(
        (ticks * interval_ms) as int,
        interval_ms as int,
        ticks as int,
        0,
    );
}

/// The index depends only on how far the time has gone into the current
/// pass through the sequence.
pub proof fn lemma_index_from_cycle_offset(elapsed_ms: nat, interval_ms: nat, frame_count: nat)
    requires
        interval_ms > 0,
        frame_count > 0,
    ensures
        cycle_ms(interval_ms, frame_count) > 0,
        frame_index_at(elapsed_ms, interval_ms, frame_count) == (elapsed_ms % cycle_ms(
            interval_ms,
            frame_count,
        )) / interval_ms,
{
    let index = frame_index_at(elapsed_ms, interval_ms, frame_count);
    let offset = elapsed_ms % cycle_ms(interval_ms, frame_count);
    lemma_mod_breakdown(elapsed_ms as int, interval_ms as int, frame_count as int);
    assert(offset == interval_ms * index + elapsed_ms % interval_ms);
    assert(interval_ms * index == index * interval_ms) by (nonlinear_arith);
    lemma_fundamental_div_mod_converse(
        offset as int,
        interval_ms as int,
        index as int,
        (elapsed_ms % interval_ms) as int,
    );
}

/// Within one pass through the sequence the index never goes back as time
/// goes on.
pub proof fn lemma_monotonic_within_cycle(
    earlier_ms: nat,
    later_ms: nat,
    interval_ms: nat,
    frame_count: nat,
)
    requires
        interval_ms > 0,
        frame_count > 0,
        earlier_ms <= later_ms,
        earlier_ms / cycle_ms(interval_ms, frame_count) == later_ms / cycle_ms(
            interval_ms,
            frame_count,
        ),
    ensures
        frame_index_at(earlier_ms, interval_ms, frame_count) <= frame_index_at(
            later_ms,
            interval_ms,
            frame_count,
        ),
{
    let cycle = cycle_ms(interval_ms, frame_count);
    lemma_index_from_cycle_offset(earlier_ms, interval_ms, frame_count);
    lemma_index_from_cycle_offset(later_ms, interval_ms, frame_count);
    lemma_fundamental_div_mod(earlier_ms as int, cycle as int);
    lemma_fundamental_div_mod(later_ms as int, cycle as int);
    assert(earlier_ms % cycle <= later_ms % cycle);
    lemma_div_is_ordered(
        (earlier_ms % cycle) as int,
        (later_ms % cycle) as int,
        interval_ms as int,
    );
}

/// The index falls back from one millisecond to the next exactly when the
/// time reaches a multiple of the cycle length (and the sequence has more
/// than one frame); it then falls from the last frame to the first.
pub proof fn lemma_wraps_exactly_at_cycle_start(
    elapsed_ms: nat,
    interval_ms: nat,
    frame_count: nat,
)
    requires
        interval_ms > 0,
        frame_count > 0,
        elapsed_ms > 0,
    ensures
        cycle_ms(interval_ms, frame_count) > 0,
        elapsed_ms % cycle_ms(interval_ms, frame_count) == 0 ==> frame_index_at(
            elapsed_ms,
            interval_ms,
            frame_count,
        ) == 0 && frame_index_at((elapsed_ms - 1) as nat, interval_ms, frame_count) == frame_count
            - 1,
        frame_index_at(elapsed_ms, interval_ms, frame_count) < frame_index_at(
            (elapsed_ms - 1) as nat,
            interval_ms,
            frame_count,
        ) <==> frame_count > 1 && elapsed_ms % cycle_ms(interval_ms, frame_count) == 0,
{
    let cycle = cycle_ms(interval_ms, frame_count);
    let before = (elapsed_ms - 1) as nat;
    let passes = elapsed_ms / cycle;
    lemma_index_from_cycle_offset(elapsed_ms, interval_ms, frame_count);
    lemma_index_from_cycle_offset(before, interval_ms, frame_count);
    lemma_fundamental_div_mod(elapsed_ms as int, cycle as int);
    if elapsed_ms % cycle == 0 {
        assert(passes >= 1) by (nonlinear_arith)
            requires
                elapsed_ms == cycle * passes,
                elapsed_ms > 0,
                cycle > 0,
        ;
        assert(before == (passes - 1) * cycle + (cycle - 1)) by (nonlinear_arith)
            requires
                elapsed_ms == cycle * passes,
                before == elapsed_ms - 1,
        ;
        lemma_fundamental_div_mod_converse(
            before as int,
            cycle as int,
            passes - 1,
            cycle - 1,
        );
        assert(cycle - 1 == (frame_count - 1) * interval_ms + (interval_ms - 1))
            by (nonlinear_arith)
            requires
                cycle == interval_ms * frame_count,
        ;
        lemma_fundamental_div_mod_converse(
            cycle - 1,
            interval_ms as int,
            frame_count - 1,
            interval_ms - 1,
        );
        lemma_fundamental_div_mod_converse(0, interval_ms as int, 0, 0);
    } else {
        let offset = elapsed_ms % cycle;
        assert(before == passes * cycle + (offset - 1)) by (nonlinear_arith)
            requires
                elapsed_ms == cycle * passes + offset,
                before == elapsed_ms - 1,
        ;
        lemma_fundamental_div_mod_converse(
            before as int,
            cycle as int,
            passes as int,
            offset - 1,
        );
        lemma_monotonic_within_cycle(before, elapsed_ms, interval_ms, frame_count);
    }
}

/// Under either order the position is a valid one, and the two orders
/// mirror each other.
pub proof fn lemma_display_index_in_range(
    order: DisplayOrder,
    elapsed_ms: nat,
    interval_ms: nat,
    frame_count: nat,
)
    requires
        interval_ms > 0,
        frame_count > 0,
    ensures
        display_index_at(order, elapsed_ms, interval_ms, frame_count) < frame_count,
        display_index_at(DisplayOrder::Forward, elapsed_ms, interval_ms, frame_count)
            + display_index_at(DisplayOrder::Reverse, elapsed_ms, interval_ms, frame_count)
            == frame_count - 1,
{
}

/// Computes the index of the frame to display at `elapsed_ms`.
pub fn frame_index(elapsed_ms: u128, interval_ms: u128, frame_count: usize) -> (index: usize)
    requires
        interval_ms > 0,
        frame_count > 0,
    ensures
        index == frame_index_at(elapsed_ms as nat, interval_ms as nat, frame_count as nat),
        index < frame_count,
{
    let ticks: u128 = elapsed_ms / interval_ms;
    let wrapped: u128 = ticks % (frame_count as u128);
    wrapped as usize
}

/// Computes the position in the decoded sequence of the frame to display at
/// `elapsed_ms` under `order`.
pub fn display_index(
    order: DisplayOrder,
    elapsed_ms: u128,
    interval_ms: u128,
    frame_count: usize,
) -> (index: usize)
    requires
        interval_ms > 0,
        frame_count > 0,
    ensures
        index == display_index_at(
            order,
            elapsed_ms as nat,
            interval_ms as nat,
            frame_count as nat,
        ),
        index < frame_count,
{
    let forward = frame_index(elapsed_ms, interval_ms, frame_count);
    match order {
        DisplayOrder::Forward => forward,
        DisplayOrder::Reverse => frame_count - 1 - forward,
    }
}

} // verus!
