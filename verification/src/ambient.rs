//! What a die takes from its surroundings: chance, the clock and fresh
//! identifiers. Nothing in this file is proved; each contract states what the
//! called crate documents.

use vstd::prelude::*;

verus! {

/// `chrono::NaiveDateTime`, a date and a time of day without a time zone.
/// Opaque to the verifier.
#[verifier::external_type_specification]
#[verifier::external_body]
pub struct ExNaiveDateTime(chrono::NaiveDateTime);

/// A digit of lower-case hexadecimal notation.
pub open spec fn is_lower_hex(c: char) -> bool {
    ('0' <= c && c <= '9') || ('a' <= c && c <= 'f')
}

/// The text of a random (version 4) UUID in hyphenated lower-case notation:
/// 36 characters in groups of 8, 4, 4, 4 and 12 hexadecimal digits with a
/// hyphen between groups, the third group starting with the version digit `4`
/// and the fourth with a digit whose two high bits are `10`.
pub open spec fn is_uuid_text(s: Seq<char>) -> bool {
    &&& s.len() == 36
    &&& forall|i: int|
        0 <= i < 36 ==> if i == 8 || i == 13 || i == 18 || i == 23 {
            #[trigger] s[i] == '-'
        } else {
            is_lower_hex(s[i])
        }
    &&& s[14] == '4'
    &&& (s[19] == '8' || s[19] == '9' || s[19] == 'a' || s[19] == 'b')
}

/// Makes a random identifier with `uuid::Uuid::new_v4` and writes it out with
/// `to_string`. Which identifier comes is left to chance; what is claimed is
/// the notation: `new_v4` sets the version and variant bits, and the `Display`
/// of a `Uuid` is its hyphenated lower-case form.
#[verifier::external_body]
pub(crate) fn fresh_id() -> (id: String)
    ensures
        is_uuid_text(id@),
{
    uuid::Uuid::new_v4().to_string()
}

/// Reads the clock with `chrono::Utc::now` and drops the zone marker with
/// `naive_utc`, which keeps the date and the time of day in UTC. The result is
/// the clock's reading, so nothing is promised of it.
#[verifier::external_body]
pub(crate) fn now() -> (t: chrono::NaiveDateTime) {
    chrono::Utc::now().naive_utc()
}

/// Draws a number with `rand::distributions::Range::new(low, high)` and
/// `ind_sample` on `rand::thread_rng()`. `Range::new` panics unless `low` is
/// less than `high`; a sample of an integer range is at least `low` and less
/// than `high`. Which number comes is left to chance.
#[verifier::external_body]
pub(crate) fn pick_between(low: usize, high: usize) -> (k: usize)
    requires
        low < high,
    ensures
        low <= k < high,
{
    rand::distributions::IndependentSample::ind_sample(
        &rand::distributions::Range::new(low, high),
        &mut rand::thread_rng(),
    )
}

} // verus!
