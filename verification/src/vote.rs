//! Vote handling: bounded increment and decrement of a track's rating.

use vstd::prelude::*;
use crate::store::{CatalogStore, StoreModel, TrackModel};

verus! {

/// Largest rating a track can hold on the current scale.
pub const RATING_MAX: u32 = 7;

/// Direction of a listener's vote on a track.
#[derive(Clone, Copy, PartialEq, Eq, Structural, Debug)]
pub enum VoteDirection {
    Up,
    Down,
}

/// The rating that results from one vote: one step up or down the scale,
/// saturating at both ends. A vote at a boundary leaves the rating unchanged
/// and still counts as a success.
pub open spec fn spec_next_rating(rating: u32, direction: VoteDirection) -> u32 {
    match direction {
        VoteDirection::Up => if rating < RATING_MAX { (rating + 1) as u32 } else { rating },
        VoteDirection::Down => if rating > 0 { (rating - 1) as u32 } else { rating },
    }
}

/// Apply one vote to a rating value, clamped to the rating scale.
pub fn next_rating(rating: u32, direction: VoteDirection) -> (r: u32)
    ensures
        r == spec_next_rating(rating, direction),
{
    match direction {
        VoteDirection::Up => {
            if rating < RATING_MAX {
                rating + 1
            } else {
                rating
            }
        },
        VoteDirection::Down => {
            if rating > 0 {
                rating - 1
            } else {
                rating
            }
        },
    }
}

/// Voting on a track that does not exist.
#[derive(Clone, Copy, PartialEq, Eq, Structural, Debug)]
pub enum VoteError {
    NotFound,
}

/// What one vote does to the store: the matching row's rating moves one step
/// up or down the scale (saturating); a missing id changes nothing.
pub open spec fn spec_voted(m: StoreModel, id: u32, direction: VoteDirection) -> StoreModel {
    match m.id_index(id) {
        Some(i) => StoreModel {
            rows: m.rows.update(
                i,
                TrackModel { rating: spec_next_rating(m.rows[i].rating, direction), ..m.rows[i] },
            ),
            ..m
        },
        None => m,
    }
}

/// Apply one vote to the track `id`: read its rating, move it one step in
/// `direction` clamped to the rating scale, write it back, and report the
/// new rating. A vote at a boundary succeeds and reports the unchanged
/// value; a vote on an unknown id fails and changes nothing.
pub fn apply_vote(store: &mut CatalogStore, id: u32, direction: VoteDirection) -> (r: Result<
    u32,
    VoteError,
>)
    requires
        old(store)@.wf(),
    ensures
        final(store)@ == spec_voted(old(store)@, id, direction),
        final(store)@.wf(),
        r is Ok <==> old(store)@.id_index(id) is Some,
        r is Ok ==> (old(store)@.id_index(id) matches Some(i) && r->Ok_0 == spec_next_rating(
            old(store)@.rows[i].rating,
            direction,
        )),
        r is Err ==> r->Err_0 == VoteError::NotFound,
        old(store)@.ratings_in_domain() ==> final(store)@.ratings_in_domain(),
{
    let ghost m = old(store)@;
    match store.find_id_index(id) {
        Some(i) => {
            proof {
                let c = m.id_index(id)->Some_0;
                if c != i as int {
                    assert(m.rows[c].id == m.rows[i as int].id);
                    assert(false);
                }
            }
            let new_rating = next_rating(store.rows[i].rating, direction);
            store.rows[i].rating = new_rating;
            proof {
                let voted = TrackModel {
                    rating: spec_next_rating(m.rows[i as int].rating, direction),
                    ..m.rows[i as int]
                };
                assert(store@.rows =~= m.rows.update(i as int, voted));
                assert(forall|k: int|
                    0 <= k < store@.rows.len() ==> #[trigger] store@.rows[k].id == m.rows[k].id
                        && store@.rows[k].path == m.rows[k].path);
                assert(m.ratings_in_domain() ==> store@.ratings_in_domain()) by {
                    if m.ratings_in_domain() {
                        assert(forall|k: int|
                            0 <= k < store@.rows.len() ==> #[trigger] store@.rows[k].rating
                                <= RATING_MAX);
                    }
                }
            }
            Ok(new_rating)
        },
        None => {
            proof {
                assert(store@.rows =~= m.rows);
            }
            Err(VoteError::NotFound)
        },
    }
}

/// Saturation law of the vote controller: a vote never moves a rating out of
/// the valid scale, an upvote at the top and a downvote at the bottom leave
/// the rating unchanged, and away from the boundaries a vote moves the rating
/// by exactly one step.
pub proof fn lemma_rating_saturation(rating: u32, direction: VoteDirection)
    ensures
        spec_next_rating(RATING_MAX, VoteDirection::Up) == RATING_MAX,
        spec_next_rating(0, VoteDirection::Down) == 0,
        rating <= RATING_MAX ==> spec_next_rating(rating, direction) <= RATING_MAX,
        rating < RATING_MAX && direction is Up ==> spec_next_rating(
            rating,
            direction,
        ) == rating + 1,
        rating > 0 && direction is Down ==> spec_next_rating(rating, direction) == rating - 1,
{
}

} // verus!
