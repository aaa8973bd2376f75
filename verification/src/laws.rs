//! What holds of every die, stated over its mathematical record.

use crate::die::{DieType, DieView};
use vstd::prelude::*;

verus! {

/// A die of a numbered kind starts with the faces from one to its number, so
/// that its maximum is also how many faces it has.
pub proof fn numbered_die_starts_at_one(kind: DieType, id: Seq<char>, timestamp: chrono::NaiveDateTime)
    requires
        kind != DieType::Fate,
        kind != DieType::Other,
    ensures
        DieView::fresh(kind, id, timestamp).min == 1,
        DieView::fresh(kind, id, timestamp).max == DieView::fresh(kind, id, timestamp).face_count(),
{
}

/// A die can be rolled as it is made, whatever its kind.
pub proof fn fresh_die_has_a_face(kind: DieType, id: Seq<char>, timestamp: chrono::NaiveDateTime)
    ensures
        DieView::fresh(kind, id, timestamp).face_count() > 0,
{
}

/// A die has no face to show exactly when it has a roll error.
pub proof fn roll_error_means_no_face(d: DieView)
    ensures
        d.roll_error() is Some <==> d.face_count() == 0,
{
}

/// Each position below the number of faces holds a face that the die can show.
pub proof fn face_can_show(d: DieView, k: int)
    requires
        0 <= k < d.face_count(),
    ensures
        d.can_show(d.face(k)),
{
}

/// Whatever the die can show stands at some position below the number of
/// faces: a draw of a position can bring up every face.
pub proof fn shown_value_is_a_face(d: DieView, v: i16)
    requires
        d.can_show(v),
    ensures
        exists|k: int| 0 <= k < d.face_count() && d.face(k) == v,
{
    match d.sides {
        Some(sides) => {
            let k = choose|k: int| 0 <= k < sides.len() && sides[k] == v;
            assert(0 <= k < d.face_count() && d.face(k) == v);
        },
        None => {
            let k = v - d.min;
            assert(0 <= k < d.face_count() && d.face(k) == v);
        },
    }
}

/// One operation of a die leads from `before` to `after`: a mark, a new
/// bound, or a roll that shows one of the faces.
pub open spec fn step(before: DieView, after: DieView) -> bool {
    ||| after == before.dropped()
    ||| after == before.succeeded()
    ||| exists|child: Seq<char>| after == #[trigger] before.exploded_into(child)
    ||| exists|child: Seq<char>| after == #[trigger] before.rerolled_into(child)
    ||| exists|min: i16| after == #[trigger] before.with_min(min)
    ||| exists|max: i16| after == #[trigger] before.with_max(max)
    ||| exists|v: i16| before.can_show(v) && after == #[trigger] before.landed(v)
}

/// No operation changes the identifier, the kind, the time of making or the
/// custom sides of a die, and none takes back that it was dropped, exploded
/// or re-rolled.
pub proof fn step_keeps_identity_and_marks(before: DieView, after: DieView)
    requires
        step(before, after),
    ensures
        after.id == before.id,
        after.die == before.die,
        after.timestamp == before.timestamp,
        after.sides == before.sides,
        before.is_dropped ==> after.is_dropped,
        before.is_exploded ==> after.is_exploded,
        before.is_rerolled ==> after.is_rerolled,
{
}

/// A roll that shows `v` sets the value to `v`, marks the die successful
/// whatever `v` is, and leaves the bounds and the child alone.
pub proof fn roll_sets_value_and_success(d: DieView, v: i16)
    ensures
        d.landed(v).value == v,
        d.landed(v).is_successful,
        d.landed(v).min == d.min,
        d.landed(v).max == d.max,
        d.landed(v).child == d.child,
{
}

/// Dropping marks the die as dropped, and dropping again changes nothing.
pub proof fn drop_is_idempotent(d: DieView)
    ensures
        d.dropped().is_dropped,
        d.dropped().dropped() == d.dropped(),
{
}

/// Success marks the die as successful, and marking again changes nothing.
pub proof fn success_is_idempotent(d: DieView)
    ensures
        d.succeeded().is_successful,
        d.succeeded().succeeded() == d.succeeded(),
{
}

/// An explosion marks the die and makes the given die its child; of two
/// explosions the later one's child stays.
pub proof fn latest_explosion_wins(d: DieView, first: Seq<char>, second: Seq<char>)
    ensures
        d.exploded_into(first).is_exploded,
        d.exploded_into(first).child == Some(first),
        d.exploded_into(first).exploded_into(second) == d.exploded_into(second),
{
}

/// A re-roll marks the die and makes the given die its child; of two re-rolls
/// the later one's child stays.
pub proof fn latest_reroll_wins(d: DieView, first: Seq<char>, second: Seq<char>)
    ensures
        d.rerolled_into(first).is_rerolled,
        d.rerolled_into(first).child == Some(first),
        d.rerolled_into(first).rerolled_into(second) == d.rerolled_into(second),
{
}

/// A bound is taken as given, whatever the kind of the die and whatever the
/// other bound, and setting one bound leaves the other alone.
pub proof fn bounds_are_taken_as_given(d: DieView, min: i16, max: i16)
    ensures
        d.with_min(min).min == min,
        d.with_min(min).max == d.max,
        d.with_max(max).max == max,
        d.with_max(max).min == d.min,
        d.with_min(min).die == d.die,
        d.with_max(max).die == d.die,
{
}

} // verus!
