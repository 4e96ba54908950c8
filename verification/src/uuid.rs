//! Identifiers of events.

use vstd::prelude::*;

verus! {

/// The version that the bits of an identifier state.
pub open spec fn uuid_version(id: u128) -> u128 {
    (id >> 76u128) & 0xfu128
}

/// The variant that the bits of an identifier state.
pub open spec fn uuid_variant(id: u128) -> u128 {
    (id >> 62u128) & 0x3u128
}

/// Whether an identifier states that it is time-ordered: version 7 in the
/// layout of RFC 9562.
pub open spec fn is_time_ordered(id: u128) -> bool {
    uuid_version(id) == 7 && uuid_variant(id) == 2
}

/// A fresh time-ordered identifier.
///
/// Trusted: calls `uuid::Uuid::now_v7` and reads the result with
/// `Uuid::as_u128`. The value depends on the clock and on random bits, so
/// the contract states only what holds of every version 7 identifier: the
/// version and variant bits. The call panics on a machine whose clock
/// stands before 1970.
#[verifier::external_body]
pub(crate) fn now_v7() -> (id: u128)
    ensures
        is_time_ordered(id),
{
    uuid::Uuid::now_v7().as_u128()
}

/// A source of identifiers that rise: every identifier it hands out is
/// larger than all it handed out before, whatever the clock does.
#[derive(Debug)]
pub struct IdSource {
    last: u128,
}

/// The identifier that is handed out after `last` when `drawn` was drawn
/// from outside: the drawn one where it is larger than `last`, else the
/// one that follows `last`.
pub open spec fn next_after(last: u128, drawn: u128) -> u128 {
    if drawn > last {
        drawn
    } else {
        (last + 1) as u128
    }
}

/// The identifiers that are handed out, one for each of a series of
/// identifiers drawn from outside, by a source that handed out `last`
/// before. The series ends where the identifiers are used up.
pub open spec fn handed_out(last: u128, drawn: Seq<u128>) -> Seq<u128>
    decreases drawn.len(),
{
    if drawn.len() == 0 {
        Seq::empty()
    } else {
        let before = handed_out(last, drawn.drop_last());
        let latest = if before.len() == 0 {
            last
        } else {
            before.last()
        };
        if latest < u128::MAX && before.len() == drawn.len() - 1 {
            before.push(next_after(latest, drawn.last()))
        } else {
            before
        }
    }
}

/// Identifiers rise. Whatever is drawn from outside, every identifier that
/// a source hands out is larger than the one it handed out before, and so
/// than all it handed out before.
pub proof fn law_identifiers_rise(last: u128, drawn: Seq<u128>)
    ensures
        forall|i: int, j: int|
            0 <= i < j < handed_out(last, drawn).len() ==> handed_out(last, drawn)[i]
                < handed_out(last, drawn)[j],
        forall|i: int|
            0 <= i < handed_out(last, drawn).len() ==> last < #[trigger] handed_out(
                last,
                drawn,
            )[i],
        handed_out(last, drawn).len() <= drawn.len(),
    decreases drawn.len(),
{
    if drawn.len() > 0 {
        law_identifiers_rise(last, drawn.drop_last());
        let before = handed_out(last, drawn.drop_last());
        let all = handed_out(last, drawn);
        assert forall|i: int, j: int| 0 <= i < j < all.len() implies all[i] < all[j] by {
            if j < before.len() {
                assert(all[i] == before[i] && all[j] == before[j]);
            } else {
                assert(all[i] == before[i]);
                if i < before.len() - 1 {
                    assert(before[i] < before[before.len() - 1]);
                }
            }
        }
        assert forall|i: int| 0 <= i < all.len() implies last < #[trigger] all[i] by {
            if i < before.len() {
                assert(all[i] == before[i]);
            }
        }
    }
}

impl IdSource {
    /// The last identifier handed out; 0 where none was.
    pub closed spec fn last(&self) -> u128 {
        self.last
    }

    /// A source that has handed out nothing yet.
    pub fn new() -> (r: Self)
        ensures
            r.last() == 0,
    {
        IdSource { last: 0 }
    }

    /// Hands out the identifier that follows from one drawn from outside:
    /// the drawn one where it is larger than the last handed out, else the
    /// one after the last. `None` when the identifiers are used up.
    pub fn take(&mut self, drawn: u128) -> (r: Option<u128>)
        ensures
            old(self).last() < u128::MAX ==> r == Some(next_after(old(self).last(), drawn))
                && final(self).last() == next_after(old(self).last(), drawn),
            old(self).last() == u128::MAX ==> r is None && final(self).last() == old(self).last(),
            r matches Some(id) ==> id > old(self).last(),
    {
        if self.last == u128::MAX {
            return None;
        }
        let id = if drawn > self.last {
            drawn
        } else {
            self.last + 1
        };
        self.last = id;
        Some(id)
    }

    /// Hands out a fresh identifier that is larger than all this source
    /// handed out before. It is the time-ordered one drawn from the clock
    /// unless the clock fell behind. `None` when the identifiers are used
    /// up.
    pub fn next(&mut self) -> (r: Option<u128>)
        ensures
            old(self).last() < u128::MAX ==> r is Some,
            old(self).last() == u128::MAX ==> r is None && final(self).last() == old(self).last(),
            r matches Some(id) ==> id > old(self).last() && final(self).last() == id,
    {
        self.take(now_v7())
    }
}

} // verus!
