//! A model of the remote store, and the laws the protocol obeys against it.
//!
//! The store is modelled as a map from record names to records, with the
//! documented call semantics: a create of an existing name answers 409 and
//! changes nothing, a merge-patch of a missing name answers 404 and changes
//! nothing.  The proof functions here state the reconciliation laws: the
//! upsert protocol is idempotent, and the status-patch recovery leaves the
//! same store as an upsert followed by the patch.

use vstd::prelude::*;
use crate::wire::{lower_of, space_name_model};

verus! {

/// The status of a lot record.
pub struct LotStatusModel {
    pub occupied: int,
    pub free: int,
    pub last_update: Seq<char>,
}

/// A lot record: spec fields and a status that is absent until first
/// patched.
#[verifier::ext_equal]
pub struct LotRecord {
    pub lot_id: Seq<char>,
    pub total_spaces: int,
    pub status: Option<LotStatusModel>,
}

/// The lot records, by name.
#[verifier::ext_equal]
pub struct LotStore {
    pub recs: Map<Seq<char>, LotRecord>,
}

/// The status of a space record.
pub struct SpaceStatusModel {
    pub occupied: bool,
    pub sensor_online: bool,
    pub last_seen: Seq<char>,
}

/// A space record: immutable spec fields and a status that is absent until
/// first patched.
#[verifier::ext_equal]
pub struct SpaceRecord {
    pub lot_id: Seq<char>,
    pub space_id: Seq<char>,
    pub status: Option<SpaceStatusModel>,
}

/// The space records, by name.
#[verifier::ext_equal]
pub struct SpaceStore {
    pub recs: Map<Seq<char>, SpaceRecord>,
}

/// A create of a lot record: 409 and no change where the name exists, else
/// the record is inserted without status and 201 answers.
pub open spec fn create_lot(s: LotStore, name: Seq<char>, lot_id: Seq<char>, total: int) -> (
    LotStore,
    int,
) {
    if s.recs.contains_key(name) {
        (s, 409)
    } else {
        (
            LotStore {
                recs: s.recs.insert(
                    name,
                    LotRecord { lot_id: lot_id, total_spaces: total, status: None },
                ),
            },
            201,
        )
    }
}

/// A merge-patch of a lot's total spaces: 404 and no change where the name
/// is missing.
pub open spec fn patch_lot_total(s: LotStore, name: Seq<char>, total: int) -> (LotStore, int) {
    if !s.recs.contains_key(name) {
        (s, 404)
    } else {
        (
            LotStore {
                recs: s.recs.insert(
                    name,
                    LotRecord { total_spaces: total, ..s.recs[name] },
                ),
            },
            200,
        )
    }
}

/// A merge-patch of a lot's status: 404 and no change where the name is
/// missing.
pub open spec fn patch_lot_status(s: LotStore, name: Seq<char>, st: LotStatusModel) -> (
    LotStore,
    int,
) {
    if !s.recs.contains_key(name) {
        (s, 404)
    } else {
        (
            LotStore { recs: s.recs.insert(name, LotRecord { status: Some(st), ..s.recs[name] }) },
            200,
        )
    }
}

/// The net effect of the lot upsert protocol: attempt the create; absorb a
/// conflict, patching the total only where a hint was supplied.
pub open spec fn ensure_lot_effect(s: LotStore, lot_id: Seq<char>, hint: Option<int>) -> LotStore {
    let name = lower_of(lot_id);
    let total = match hint {
        Some(t) => t,
        None => 0,
    };
    let created = create_lot(s, name, lot_id, total);
    if created.1 == 409 {
        match hint {
            Some(t) => patch_lot_total(created.0, name, t).0,
            None => created.0,
        }
    } else {
        created.0
    }
}

/// Idempotent create: the upsert protocol run twice for one identity leaves
/// the store it left after one run; after the first run the create is
/// answered with a conflict; and no other identity is ever touched.
pub proof fn lemma_upsert_lot_idempotent(s: LotStore, lot_id: Seq<char>, hint: Option<int>)
    ensures
        ensure_lot_effect(ensure_lot_effect(s, lot_id, hint), lot_id, hint) == ensure_lot_effect(
            s,
            lot_id,
            hint,
        ),
        create_lot(
            ensure_lot_effect(s, lot_id, hint),
            lower_of(lot_id),
            lot_id,
            match hint {
                Some(t) => t,
                None => 0,
            },
        ).1 == 409,
        forall|n: Seq<char>|
            n != lower_of(lot_id) ==> ensure_lot_effect(s, lot_id, hint).recs.contains_key(n)
                == s.recs.contains_key(n) && (s.recs.contains_key(n) ==> ensure_lot_effect(
                s,
                lot_id,
                hint,
            ).recs[n] == s.recs[n]),
{
    let name = lower_of(lot_id);
    let once = ensure_lot_effect(s, lot_id, hint);
    let twice = ensure_lot_effect(once, lot_id, hint);
    assert(once.recs.contains_key(name));
    match hint {
        Some(t) => {
            assert(once.recs[name].total_spaces == t);
            assert(twice.recs =~= once.recs);
        },
        None => {
            assert(twice.recs =~= once.recs);
        },
    }
    assert(twice =~= once);
}

/// The lot status patch as the reconciler drives it: on 404 the upsert runs
/// with the observed total as its hint, and the same patch is retried once.
pub open spec fn patch_lot_with_recovery(
    s: LotStore,
    lot_id: Seq<char>,
    total_hint: int,
    st: LotStatusModel,
) -> LotStore {
    let name = lower_of(lot_id);
    let first = patch_lot_status(s, name, st);
    if first.1 == 404 {
        patch_lot_status(ensure_lot_effect(first.0, lot_id, Some(total_hint)), name, st).0
    } else {
        first.0
    }
}

/// Status-then-create recovery for a lot: patching a missing identity leaves
/// exactly the store an upsert followed by the same patch leaves, and in
/// every case the identity ends up present with exactly the patched status.
pub proof fn lemma_lot_status_recovery(
    s: LotStore,
    lot_id: Seq<char>,
    total_hint: int,
    st: LotStatusModel,
)
    ensures
        patch_lot_with_recovery(s, lot_id, total_hint, st).recs.contains_key(lower_of(lot_id)),
        patch_lot_with_recovery(s, lot_id, total_hint, st).recs[lower_of(lot_id)].status == Some(
            st,
        ),
        !s.recs.contains_key(lower_of(lot_id)) ==> patch_lot_with_recovery(
            s,
            lot_id,
            total_hint,
            st,
        ) == patch_lot_status(
            ensure_lot_effect(s, lot_id, Some(total_hint)),
            lower_of(lot_id),
            st,
        ).0,
{
    let name = lower_of(lot_id);
    if !s.recs.contains_key(name) {
        let recovered = patch_lot_with_recovery(s, lot_id, total_hint, st);
        let direct = patch_lot_status(ensure_lot_effect(s, lot_id, Some(total_hint)), name, st).0;
        assert(recovered =~= direct);
    }
}

/// A create of a space record: 409 and no change where the name exists,
/// else the record is inserted without status and 201 answers.
pub open spec fn create_space(
    s: SpaceStore,
    name: Seq<char>,
    lot_id: Seq<char>,
    space_id: Seq<char>,
) -> (SpaceStore, int) {
    if s.recs.contains_key(name) {
        (s, 409)
    } else {
        (
            SpaceStore {
                recs: s.recs.insert(
                    name,
                    SpaceRecord { lot_id: lot_id, space_id: space_id, status: None },
                ),
            },
            201,
        )
    }
}

/// The net effect of the space upsert protocol: attempt the create and
/// absorb a conflict; space spec fields are never patched.
pub open spec fn ensure_space_effect(s: SpaceStore, lot_id: Seq<char>, space_id: Seq<char>) -> SpaceStore {
    create_space(s, space_name_model(lot_id, space_id), lot_id, space_id).0
}

/// A merge-patch of a space's status: 404 and no change where the name is
/// missing.
pub open spec fn patch_space_status(s: SpaceStore, name: Seq<char>, st: SpaceStatusModel) -> (
    SpaceStore,
    int,
) {
    if !s.recs.contains_key(name) {
        (s, 404)
    } else {
        (
            SpaceStore {
                recs: s.recs.insert(name, SpaceRecord { status: Some(st), ..s.recs[name] }),
            },
            200,
        )
    }
}

/// The status patch as the reconciler drives it: on 404 the upsert runs and
/// the same patch is retried once.
pub open spec fn patch_space_with_recovery(
    s: SpaceStore,
    lot_id: Seq<char>,
    space_id: Seq<char>,
    st: SpaceStatusModel,
) -> SpaceStore {
    let name = space_name_model(lot_id, space_id);
    let first = patch_space_status(s, name, st);
    if first.1 == 404 {
        patch_space_status(ensure_space_effect(first.0, lot_id, space_id), name, st).0
    } else {
        first.0
    }
}

/// Status-then-create recovery: patching a missing identity leaves exactly
/// the store an upsert followed by the same patch leaves; and in every case
/// the identity ends up present with exactly the patched status.
pub proof fn lemma_status_then_create_recovery(
    s: SpaceStore,
    lot_id: Seq<char>,
    space_id: Seq<char>,
    st: SpaceStatusModel,
)
    ensures
        patch_space_with_recovery(s, lot_id, space_id, st).recs.contains_key(
            space_name_model(lot_id, space_id),
        ),
        patch_space_with_recovery(s, lot_id, space_id, st).recs[space_name_model(
            lot_id,
            space_id,
        )].status == Some(st),
        !s.recs.contains_key(space_name_model(lot_id, space_id))
            ==> patch_space_with_recovery(s, lot_id, space_id, st) == patch_space_status(
            ensure_space_effect(s, lot_id, space_id),
            space_name_model(lot_id, space_id),
            st,
        ).0,
{
    let name = space_name_model(lot_id, space_id);
    if !s.recs.contains_key(name) {
        let recovered = patch_space_with_recovery(s, lot_id, space_id, st);
        let direct = patch_space_status(ensure_space_effect(s, lot_id, space_id), name, st).0;
        assert(recovered =~= direct);
    }
}

} // verus!
