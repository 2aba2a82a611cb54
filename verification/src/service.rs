//! The flow of one "next track" request, end to end on the catalog model:
//! bring the schema to the current generation, load the eligible
//! population, and draw one track id under replay protection.

use vstd::prelude::*;
use crate::migration::{
    ensure_schema_current, spec_migrate, spec_observe, MigrationError, SchemaGeneration,
};
use crate::replay::{spec_record, ReplayWindow};
use crate::selection::{
    pick_weighted, spec_fresh_weighted, spec_has_positive, spec_weight, spec_weight_sum,
    spec_weights_of, Scale, SelectionError,
};
use crate::store::{spec_eligible_pairs, CatalogStore};

verus! {

/// Why a "next track" request failed: the store could not be brought to the
/// current schema generation, or no track could be served.
#[derive(Clone, Copy, PartialEq, Eq, Structural, Debug)]
pub enum ServeError {
    Migration(MigrationError),
    Selection(SelectionError),
}

/// Serve one "next track" request: the migration engine runs first (the
/// service heals the store on every request), the eligible population is
/// read from the migrated catalog, and the selection engine draws one id
/// under replay protection, recording it in the window.
///
/// A store already at the current generation is trusted to satisfy the
/// rating-domain invariant of that generation; a store at any earlier
/// generation gets it from the migration itself.
pub fn next_track_id(store: &mut CatalogStore, scale: &Scale, window: &mut ReplayWindow) -> (r:
    Result<i32, ServeError>)
    requires
        old(store)@.wf(),
        spec_observe(old(store)@) == Some(SchemaGeneration::V4) ==> old(
            store,
        )@.ratings_in_domain(),
    ensures
        final(store)@.wf(),
        (r == Result::<i32, ServeError>::Err(
            ServeError::Migration(MigrationError::UnknownSchemaVersion),
        )) <==> spec_migrate(old(store)@) is None,
        spec_migrate(old(store)@) is None ==> final(store)@ == old(store)@ && final(window)@
            == old(window)@,
        spec_migrate(old(store)@) matches Some(mf) ==> {
            let num = scale.num();
            let den = scale.den();
            let pairs = spec_eligible_pairs(mf.rows);
            let fresh = spec_fresh_weighted(pairs, num, den, old(window)@);
            &&& final(store)@ == mf
            &&& (r == Result::<i32, ServeError>::Err(
                ServeError::Selection(SelectionError::EmptyPopulation),
            ) <==> !spec_has_positive(pairs, num, den))
            &&& (r == Result::<i32, ServeError>::Err(
                ServeError::Selection(SelectionError::SelectionExhausted),
            ) <==> spec_has_positive(pairs, num, den) && fresh.len() == 0)
            &&& (r is Ok <==> fresh.len() > 0 && spec_weight_sum(spec_weights_of(fresh))
                <= u32::MAX)
            &&& (r matches Ok(id) ==> exists|i: int|
                0 <= i < pairs.len() && (#[trigger] pairs[i]).1 == id && spec_weight(
                    num,
                    den,
                    pairs[i].0,
                ) > 0)
            &&& (r matches Ok(id) ==> !old(window)@.contains(id) && final(window)@ == spec_record(
                old(window)@,
                id,
            ))
            &&& (r is Err ==> final(window)@ == old(window)@)
        },
{
    match ensure_schema_current(store) {
        Err(e) => Err(ServeError::Migration(e)),
        Ok(()) => {
            let pairs = store.eligible_pairs();
            match pick_weighted(&pairs, scale, window) {
                Ok(id) => Ok(id),
                Err(e) => Err(ServeError::Selection(e)),
            }
        },
    }
}

} // verus!
