//! Deleting a photo: the object of every tier that may exist, then the
//! metadata record.
//!
//! The session does not know which tiers were generated, so it asks for the
//! deletion of all five. What the store replies for a tier is of no
//! account; only the reply for the metadata record decides, because the
//! record is what says that the photo exists.

use crate::error::{ErrorView, GalleryError};
use crate::keys::{derivative_key, metadata_key, spec_derivative_key, spec_metadata_key};
use crate::tier::{all_tiers, tier_name, Tier};
use crate::store::StoreReply;
use vstd::prelude::*;

verus! {

/// The number of tiers, and so of derivative keys that a photo may have.
pub const TIER_COUNT: usize = 5;

/// The state of a deletion as contracts speak of it.
pub struct DeleteState {
    pub id: Seq<char>,
    /// For how many tiers the deletion was requested.
    pub attempted: nat,
    /// What the store replied for the metadata record, once it has.
    pub settled: Option<StoreReply>,
}

impl DeleteState {
    /// The state before anything is requested.
    pub open spec fn initial(id: Seq<char>) -> DeleteState {
        DeleteState { id, attempted: 0, settled: None }
    }

    /// What a reachable state satisfies.
    pub open spec fn wf(self) -> bool {
        &&& self.attempted <= TIER_COUNT
        &&& self.settled is Some ==> self.attempted == TIER_COUNT
    }

    /// Whether no request is left.
    pub open spec fn finished(self) -> bool {
        self.settled is Some
    }

    /// The key whose object is to be deleted next: the derivative keys in the
    /// order of the tiers, then the key of the metadata record.
    pub open spec fn pending_key(self) -> Seq<char> {
        if self.attempted < TIER_COUNT {
            spec_derivative_key(self.id, tier_name(all_tiers()[self.attempted as int]))
        } else {
            spec_metadata_key(self.id)
        }
    }

    /// The state after the store replied to the pending request. The reply
    /// for a derivative is not looked at.
    pub open spec fn advance(self, reply: StoreReply) -> DeleteState {
        if self.finished() {
            self
        } else if self.attempted < TIER_COUNT {
            DeleteState { attempted: self.attempted + 1, ..self }
        } else {
            DeleteState { settled: Some(reply), ..self }
        }
    }

    /// The state after a sequence of replies.
    pub open spec fn advance_all(self, replies: Seq<StoreReply>) -> DeleteState
        decreases replies.len(),
    {
        if replies.len() == 0 {
            self
        } else {
            self.advance_all(replies.drop_last()).advance(replies.last())
        }
    }

    /// What the deletion returns: success once the metadata record is
    /// deleted, a store error for the record otherwise.
    pub open spec fn outcome(self) -> Result<(), ErrorView> {
        if self.settled == Some(StoreReply::Done) {
            Ok(())
        } else {
            Err(ErrorView::Store { key: spec_metadata_key(self.id) })
        }
    }
}

/// The tier at a position of the tier order.
fn tier_at(index: usize) -> (tier: Tier)
    requires
        index < TIER_COUNT,
    ensures
        tier == all_tiers()[index as int],
{
    if index == 0 {
        Tier::Thumbnail
    } else if index == 1 {
        Tier::Small
    } else if index == 2 {
        Tier::Medium
    } else if index == 3 {
        Tier::Large
    } else {
        Tier::Original
    }
}

/// One deletion in progress: a request is pending.
pub struct DeleteSession {
    photo_id: String,
    attempted: usize,
}

/// Where a deletion stands after a reply.
pub enum DeleteProgress {
    /// Another request is pending.
    Continue(DeleteSession),
    /// The metadata record is deleted: the photo is gone.
    Deleted,
    /// The metadata record could not be deleted.
    Failed(GalleryError),
}

impl View for DeleteSession {
    type V = DeleteState;

    closed spec fn view(&self) -> DeleteState {
        DeleteState { id: self.photo_id@, attempted: self.attempted as nat, settled: None }
    }
}

impl DeleteSession {
    #[verifier::type_invariant]
    spec fn inv(self) -> bool {
        self.attempted <= TIER_COUNT
    }

    /// Starts the deletion of the photo `photo_id`.
    pub fn begin(photo_id: &str) -> (session: DeleteSession)
        ensures
            session@ == DeleteState::initial(photo_id@),
    {
        DeleteSession { photo_id: photo_id.to_owned(), attempted: 0 }
    }

    /// The key of the object to delete next.
    pub fn pending(&self) -> (key: String)
        ensures
            key@ == self@.pending_key(),
            self@.wf(),
            !self@.finished(),
    {
        proof {
            use_type_invariant(self);
        }
        if self.attempted < TIER_COUNT {
            derivative_key(self.photo_id.as_str(), tier_at(self.attempted).name())
        } else {
            metadata_key(self.photo_id.as_str())
        }
    }

    /// Takes the store's reply to the pending request.
    ///
    /// After a derivative the next request becomes pending, whatever the
    /// store replied. The reply for the metadata record ends the deletion:
    /// with success if the record is deleted, with a store error otherwise.
    pub fn advance(self, reply: StoreReply) -> (progress: DeleteProgress)
        ensures
            self@.wf(),
            !self@.finished(),
            match progress {
                DeleteProgress::Continue(next) => next@ == self@.advance(reply)
                    && !next@.finished(),
                DeleteProgress::Deleted => self@.advance(reply).finished() && self@.advance(
                    reply,
                ).outcome() == Ok::<(), ErrorView>(()),
                DeleteProgress::Failed(error) => self@.advance(reply).finished() && self@.advance(
                    reply,
                ).outcome() == Err::<(), ErrorView>(error@),
            },
    {
        proof {
            use_type_invariant(&self);
        }
        let DeleteSession { photo_id, attempted } = self;
        if attempted < TIER_COUNT {
            DeleteProgress::Continue(DeleteSession { photo_id, attempted: attempted + 1 })
        } else if reply == StoreReply::Done {
            DeleteProgress::Deleted
        } else {
            DeleteProgress::Failed(GalleryError::Store { key: metadata_key(photo_id.as_str()) })
        }
    }
}

/// The six keys that a deletion asks the store to delete, in order.
pub open spec fn deletion_keys(id: Seq<char>) -> Seq<Seq<char>> {
    Seq::new(
        6,
        |i: int|
            if i < 5 {
                spec_derivative_key(id, tier_name(all_tiers()[i]))
            } else {
                spec_metadata_key(id)
            },
    )
}

/// A deletion asks for the five derivative keys in tier order and then for
/// the metadata key, whatever the store replies; after the sixth reply it is
/// over, and succeeds exactly when that sixth reply, the one for the
/// metadata record, is a success. No reply for a derivative changes the
/// outcome.
pub proof fn law_delete_decided_by_metadata(id: Seq<char>, replies: Seq<StoreReply>)
    requires
        replies.len() == 6,
    ensures
        forall|k: int|
            0 <= k < 6 ==> {
                let state = #[trigger] DeleteState::initial(id).advance_all(replies.take(k));
                !state.finished() && state.wf() && state.pending_key() == deletion_keys(id)[k]
            },
        DeleteState::initial(id).advance_all(replies).finished(),
        DeleteState::initial(id).advance_all(replies).outcome() == if replies[5]
            == StoreReply::Done {
            Ok::<(), ErrorView>(())
        } else {
            Err::<(), ErrorView>(ErrorView::Store { key: spec_metadata_key(id) })
        },
{
    let start = DeleteState::initial(id);
    assert forall|k: int| 0 <= k <= 6 implies {
        let state = #[trigger] start.advance_all(replies.take(k));
        state.id == id && state.wf() && if k < 6 {
            state.attempted == k && state.settled is None
        } else {
            state.settled == Some(replies[5])
        }
    } by {
        lemma_delete_prefix(id, replies, k);
    }
    assert(replies.take(6) =~= replies);
}

proof fn lemma_delete_prefix(id: Seq<char>, replies: Seq<StoreReply>, k: int)
    requires
        replies.len() == 6,
        0 <= k <= 6,
    ensures
        ({
            let state = DeleteState::initial(id).advance_all(replies.take(k));
            state.id == id && state.wf() && if k < 6 {
                state.attempted == k && state.settled is None
            } else {
                state.settled == Some(replies[5])
            }
        }),
    decreases k,
{
    if k > 0 {
        lemma_delete_prefix(id, replies, k - 1);
        assert(replies.take(k).drop_last() =~= replies.take(k - 1));
        assert(replies.take(k).last() == replies[k - 1]);
    }
}

/// An object store as far as deletion goes: the keys that hold an object,
/// and whether the store reports the deletion of a missing object as a
/// failure or passes over it.
pub struct StoreModel {
    pub keys: Set<Seq<char>>,
    pub reports_missing: bool,
}

impl StoreModel {
    /// The reply of the store to the deletion of the object at `key`.
    pub open spec fn reply_to_delete(self, key: Seq<char>) -> StoreReply {
        if self.keys.contains(key) || !self.reports_missing {
            StoreReply::Done
        } else {
            StoreReply::Failed
        }
    }

    /// The store after the deletion of the object at `key`.
    pub open spec fn without(self, key: Seq<char>) -> StoreModel {
        StoreModel { keys: self.keys.remove(key), ..self }
    }
}

/// Carries out up to `steps` requests of a deletion against a store.
pub open spec fn run_deletion(store: StoreModel, state: DeleteState, steps: nat) -> (
    StoreModel,
    DeleteState,
)
    decreases steps,
{
    if steps == 0 || state.finished() {
        (store, state)
    } else {
        run_deletion(
            store.without(state.pending_key()),
            state.advance(store.reply_to_delete(state.pending_key())),
            (steps - 1) as nat,
        )
    }
}

/// A whole deletion of the photo `id` against a store: the store afterwards
/// and what the deletion returns.
pub open spec fn deletion_on(store: StoreModel, id: Seq<char>) -> (
    StoreModel,
    Result<(), ErrorView>,
) {
    let (after, state) = run_deletion(store, DeleteState::initial(id), 6);
    (after, state.outcome())
}

/// The key of a metadata record is the key of no derivative.
pub proof fn lemma_metadata_key_is_no_derivative_key(
    id: Seq<char>,
    other: Seq<char>,
    size_name: Seq<char>,
)
    ensures
        spec_metadata_key(id) != spec_derivative_key(other, size_name),
{
    reveal_strlit("metadata/");
    reveal_strlit("photos/");
    assert(spec_metadata_key(id)[0] == 'm');
    assert(spec_derivative_key(other, size_name)[0] == 'p');
}

/// Deletion is idempotent. One deletion leaves none of the photo's six keys
/// in the store and no other key touched; a second one leaves the store as
/// the first left it. Missing derivatives never make a deletion fail: the
/// first succeeds exactly when the store could delete the metadata record,
/// and the second, which finds no object at all, fails only if the store
/// reports the missing record as a failure.
pub proof fn law_delete_is_idempotent(store: StoreModel, id: Seq<char>)
    ensures
        ({
            let (once, first) = deletion_on(store, id);
            let (twice, second) = deletion_on(once, id);
            &&& forall|key: Seq<char>|
                once.keys.contains(key) <==> store.keys.contains(key) && !deletion_keys(
                    id,
                ).contains(key)
            &&& twice == once
            &&& first is Ok <==> store.keys.contains(spec_metadata_key(id))
                || !store.reports_missing
            &&& second is Ok <==> !store.reports_missing
            &&& first is Err ==> first == Err::<(), ErrorView>(
                ErrorView::Store { key: spec_metadata_key(id) },
            )
        }),
{
    lemma_deletion_on(store, id);
    let once = deletion_on(store, id).0;
    lemma_deletion_on(once, id);
    let twice = deletion_on(once, id).0;
    assert(deletion_keys(id)[5] == spec_metadata_key(id));
    assert(!once.keys.contains(spec_metadata_key(id)));
    assert(twice.keys =~= once.keys);
    assert(twice == once);
}

proof fn lemma_deletion_on(store: StoreModel, id: Seq<char>)
    ensures
        ({
            let (after, outcome) = deletion_on(store, id);
            &&& after.reports_missing == store.reports_missing
            &&& forall|key: Seq<char>|
                after.keys.contains(key) <==> store.keys.contains(key) && !deletion_keys(
                    id,
                ).contains(key)
            &&& outcome == if store.keys.contains(spec_metadata_key(id))
                || !store.reports_missing {
                Ok::<(), ErrorView>(())
            } else {
                Err::<(), ErrorView>(ErrorView::Store { key: spec_metadata_key(id) })
            }
        }),
{
    let keys = deletion_keys(id);
    let s0 = DeleteState::initial(id);
    let k0 = keys[0];
    let k1 = keys[1];
    let k2 = keys[2];
    let k3 = keys[3];
    let k4 = keys[4];
    let k5 = keys[5];
    let m1 = store.without(k0);
    let m2 = m1.without(k1);
    let m3 = m2.without(k2);
    let m4 = m3.without(k3);
    let m5 = m4.without(k4);
    let m6 = m5.without(k5);
    let s1 = s0.advance(store.reply_to_delete(k0));
    let s2 = s1.advance(m1.reply_to_delete(k1));
    let s3 = s2.advance(m2.reply_to_delete(k2));
    let s4 = s3.advance(m3.reply_to_delete(k3));
    let s5 = s4.advance(m4.reply_to_delete(k4));
    let s6 = s5.advance(m5.reply_to_delete(k5));
    assert(s0.pending_key() == k0);
    assert(s1.pending_key() == k1);
    assert(s2.pending_key() == k2);
    assert(s3.pending_key() == k3);
    assert(s4.pending_key() == k4);
    assert(s5.pending_key() == k5);
    assert(run_deletion(m6, s6, 0) == (m6, s6));
    assert(run_deletion(m5, s5, 1) == (m6, s6));
    assert(run_deletion(m4, s4, 2) == (m6, s6));
    assert(run_deletion(m3, s3, 3) == (m6, s6));
    assert(run_deletion(m2, s2, 4) == (m6, s6));
    assert(run_deletion(m1, s1, 5) == (m6, s6));
    assert(run_deletion(store, s0, 6) == (m6, s6));
    lemma_metadata_key_is_no_derivative_key(id, id, tier_name(all_tiers()[0]));
    lemma_metadata_key_is_no_derivative_key(id, id, tier_name(all_tiers()[1]));
    lemma_metadata_key_is_no_derivative_key(id, id, tier_name(all_tiers()[2]));
    lemma_metadata_key_is_no_derivative_key(id, id, tier_name(all_tiers()[3]));
    lemma_metadata_key_is_no_derivative_key(id, id, tier_name(all_tiers()[4]));
    assert(m5.keys.contains(k5) == store.keys.contains(k5));
    assert forall|key: Seq<char>|
        m6.keys.contains(key) <==> store.keys.contains(key) && !keys.contains(key) by {
        if keys.contains(key) {
            let i = choose|i: int| 0 <= i < keys.len() && keys[i] == key;
            assert(key == k0 || key == k1 || key == k2 || key == k3 || key == k4 || key == k5);
        } else {
            assert(key != keys[0] && key != keys[1] && key != keys[2] && key != keys[3] && key
                != keys[4] && key != keys[5]);
        }
    }
}

} // verus!
