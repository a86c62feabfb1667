//! Listing the published photos: every metadata record under the metadata
//! prefix, newest first.
//!
//! Records are ordered by comparing their upload dates as text. That is the
//! order of time only because every date is written in one fixed form, with
//! the same offset: an invariant of how records are written, not a property
//! of text order.

use crate::error::{ErrorView, GalleryError};
use crate::keys::{metadata_prefix, spec_metadata_prefix};
use crate::models::{PhotoMetadata, PhotoRecord};
use crate::text::{
    lemma_bytes_le_total, lemma_bytes_le_transitive, text_at_most, text_le,
};
use vstd::prelude::*;
use vstd::utf8::encode_utf8;

verus! {

/// The records of a list of photos, each as contracts speak of it.
pub open spec fn records_of(photos: Seq<PhotoMetadata>) -> Seq<PhotoRecord> {
    photos.map_values(|photo: PhotoMetadata| photo@)
}

/// Whether no record comes before one with a later upload date, dates being
/// compared as text.
pub open spec fn newest_first(records: Seq<PhotoRecord>) -> bool {
    forall|i: int, j: int|
        0 <= i < j < records.len() ==> text_le(
            (#[trigger] records[j]).upload_date,
            (#[trigger] records[i]).upload_date,
        )
}

/// Whether `to` holds the elements of `from` in another order: `to[k]` is the
/// element that `from` holds at `origin[k]`, and every position of `from` is
/// the origin of exactly one position of `to`.
pub open spec fn is_arrangement<T>(from: Seq<T>, to: Seq<T>, origin: Seq<int>) -> bool {
    &&& origin.len() == from.len()
    &&& to.len() == from.len()
    &&& forall|k: int|
        0 <= k < to.len() ==> 0 <= #[trigger] origin[k] < from.len() && to[k] == from[origin[k]]
    &&& forall|i: int, j: int|
        0 <= i < j < origin.len() ==> #[trigger] origin[i] != #[trigger] origin[j]
}

/// Whether records with the same upload date stand in `to` in the order in
/// which they stood before.
pub open spec fn keeps_ties(to: Seq<PhotoRecord>, origin: Seq<int>) -> bool {
    forall|i: int, j: int|
        0 <= i < j < to.len() && (#[trigger] to[i]).upload_date == (#[trigger] to[j]).upload_date
            ==> origin[i] < origin[j]
}

/// Whether `to` is `from` sorted newest first: the same records, none before
/// a later one, and those of equal date in their former order.
pub open spec fn sorted_newest_first(from: Seq<PhotoRecord>, to: Seq<PhotoRecord>) -> bool {
    &&& newest_first(to)
    &&& exists|origin: Seq<int>| is_arrangement(from, to, origin) && keeps_ties(to, origin)
}

/// Where a record dated `date` belongs in a list that is sorted newest
/// first: behind every record that is not older, before the first older one.
fn insertion_point(sorted: &Vec<PhotoMetadata>, date: &str) -> (position: usize)
    ensures
        position <= sorted.len(),
        forall|k: int| 0 <= k < position ==> text_le(date@, (#[trigger] sorted@[k]).upload_date@),
        position < sorted.len() ==> !text_le(date@, sorted@[position as int].upload_date@),
{
    let mut position: usize = 0;
    while position < sorted.len()
        invariant
            position <= sorted.len(),
            forall|k: int|
                0 <= k < position ==> text_le(date@, (#[trigger] sorted@[k]).upload_date@),
        decreases sorted.len() - position,
    {
        if !text_at_most(date, sorted[position].upload_date.as_str()) {
            return position;
        }
        position = position + 1;
    }
    position
}

/// Sorts photos by upload date, newest first. Dates are compared as text,
/// byte by byte; photos with the same date keep their order.
pub fn sort_photos(photos: Vec<PhotoMetadata>) -> (sorted: Vec<PhotoMetadata>)
    ensures
        sorted_newest_first(records_of(photos@), records_of(sorted@)),
        exists|origin: Seq<int>| is_arrangement(photos@, sorted@, origin),
{
    let ghost original = photos@;
    let total = photos.len();
    let mut input = photos;
    let mut sorted: Vec<PhotoMetadata> = Vec::new();
    let ghost mut origin: Seq<int> = Seq::empty();
    let mut taken: usize = 0;
    assert(original.skip(0) =~= original);
    while input.len() > 0
        invariant
            total == original.len(),
            taken + input.len() == original.len(),
            input@ == original.skip(taken as int),
            sorted.len() == taken,
            origin.len() == taken,
            forall|k: int|
                0 <= k < taken ==> 0 <= #[trigger] origin[k] < taken && sorted@[k]
                    == original[origin[k]],
            forall|i: int, j: int|
                0 <= i < j < taken ==> #[trigger] origin[i] != #[trigger] origin[j],
            forall|i: int, j: int|
                0 <= i < j < taken ==> text_le(
                    (#[trigger] sorted@[j]).upload_date@,
                    (#[trigger] sorted@[i]).upload_date@,
                ),
            forall|i: int, j: int|
                0 <= i < j < taken && text_le(
                    (#[trigger] sorted@[i]).upload_date@,
                    (#[trigger] sorted@[j]).upload_date@,
                ) ==> origin[i] < origin[j],
        decreases input.len(),
    {
        let photo = input.remove(0);
        let position = insertion_point(&sorted, photo.upload_date.as_str());
        let ghost before = sorted@;
        let ghost before_origin = origin;
        let ghost date = photo.upload_date@;
        proof {
            assert(photo == original[taken as int]);
            assert(input@ =~= original.skip(taken as int + 1));
            assert forall|k: int| position <= k < taken implies text_le(
                (#[trigger] before[k]).upload_date@,
                date,
            ) && !text_le(date, before[k].upload_date@) by {
                let here = encode_utf8(before[position as int].upload_date@);
                let there = encode_utf8(before[k].upload_date@);
                let new = encode_utf8(date);
                lemma_bytes_le_total(new, here);
                if k > position {
                    lemma_bytes_le_transitive(there, here, new);
                    if text_le(date, before[k].upload_date@) {
                        lemma_bytes_le_transitive(new, there, here);
                    }
                }
            }
        }
        sorted.insert(position, photo);
        proof {
            origin = before_origin.insert(position as int, taken as int);
            let after = sorted@;
            assert forall|k: int| 0 <= k < taken + 1 implies 0 <= #[trigger] origin[k] < taken + 1
                && after[k] == original[origin[k]] by {
                if k < position {
                    assert(after[k] == before[k]);
                    assert(origin[k] == before_origin[k]);
                } else if k > position {
                    assert(after[k] == before[k - 1]);
                    assert(origin[k] == before_origin[k - 1]);
                }
            }
            assert forall|i: int, j: int| 0 <= i < j < taken + 1 implies #[trigger] origin[i]
                != #[trigger] origin[j] by {
                let a = if i < position { i } else { i - 1 };
                let b = if j < position { j } else { j - 1 };
                if i != position && j != position {
                    assert(origin[i] == before_origin[a]);
                    assert(origin[j] == before_origin[b]);
                } else if i == position {
                    assert(origin[j] == before_origin[b]);
                } else {
                    assert(origin[i] == before_origin[a]);
                }
            }
            assert forall|i: int, j: int| 0 <= i < j < taken + 1 implies text_le(
                (#[trigger] after[j]).upload_date@,
                (#[trigger] after[i]).upload_date@,
            ) && (text_le(after[i].upload_date@, after[j].upload_date@) ==> origin[i]
                < origin[j]) by {
                let a = if i < position { i } else { i - 1 };
                let b = if j < position { j } else { j - 1 };
                if i != position && j != position {
                    assert(after[i] == before[a]);
                    assert(after[j] == before[b]);
                    assert(origin[i] == before_origin[a]);
                    assert(origin[j] == before_origin[b]);
                } else if i == position {
                    assert(after[j] == before[b]);
                    assert(origin[j] == before_origin[b]);
                } else {
                    assert(after[i] == before[a]);
                    assert(origin[i] == before_origin[a]);
                }
            }
        }
        taken = taken + 1;
    }
    proof {
        let from = records_of(original);
        let to = records_of(sorted@);
        assert(is_arrangement(original, sorted@, origin));
        assert(is_arrangement(from, to, origin));
        assert(newest_first(to));
        assert forall|i: int, j: int|
            0 <= i < j < to.len() && (#[trigger] to[i]).upload_date == (
            #[trigger] to[j]).upload_date implies origin[i] < origin[j] by {
            crate::text::lemma_bytes_le_reflexive(encode_utf8(to[i].upload_date));
            assert(sorted@[i].upload_date@ == to[i].upload_date);
            assert(sorted@[j].upload_date@ == to[j].upload_date);
        }
        assert(keeps_ties(to, origin));
    }
    sorted
}

/// What the store answered to a request of a listing.
pub enum CatalogReply {
    /// The keys of the objects under the prefix; an object may come without
    /// its key.
    Listed(Vec<Option<String>>),
    /// The object was read and holds this record.
    Loaded(PhotoMetadata),
    /// The object was read and holds no well-formed record.
    Malformed,
    /// There is no object at the key.
    Missing,
    /// The request failed for another reason.
    Failed,
}

/// An answer of the store as contracts speak of it.
pub enum CatalogAnswer {
    Listed(Seq<Option<Seq<char>>>),
    Loaded(PhotoRecord),
    Malformed,
    Missing,
    Failed,
}

/// The entries of a listing, each as contracts speak of it.
pub open spec fn entries_of(entries: Seq<Option<String>>) -> Seq<Option<Seq<char>>> {
    entries.map_values(
        |entry: Option<String>|
            match entry {
                Some(key) => Some(key@),
                None => None,
            },
    )
}

/// The keys of a list of keys, each as contracts speak of it.
pub open spec fn keys_of(keys: Seq<String>) -> Seq<Seq<char>> {
    keys.map_values(|key: String| key@)
}

impl View for CatalogReply {
    type V = CatalogAnswer;

    open spec fn view(&self) -> CatalogAnswer {
        match self {
            CatalogReply::Listed(entries) => CatalogAnswer::Listed(entries_of(entries@)),
            CatalogReply::Loaded(photo) => CatalogAnswer::Loaded(photo@),
            CatalogReply::Malformed => CatalogAnswer::Malformed,
            CatalogReply::Missing => CatalogAnswer::Missing,
            CatalogReply::Failed => CatalogAnswer::Failed,
        }
    }
}

/// The keys that a listing holds, in order; entries without a key are passed
/// over.
pub open spec fn present_keys(entries: Seq<Option<Seq<char>>>) -> Seq<Seq<char>>
    decreases entries.len(),
{
    if entries.len() == 0 {
        Seq::empty()
    } else {
        match entries.last() {
            Some(key) => present_keys(entries.drop_last()).push(key),
            None => present_keys(entries.drop_last()),
        }
    }
}

/// A request of a listing as contracts speak of it.
pub enum CatalogRequest {
    List { prefix: Seq<char> },
    Get { key: Seq<char> },
    Finished,
}

/// The state of a listing as contracts speak of it.
pub struct CatalogState {
    /// Whether the store has listed the keys.
    pub listed: bool,
    /// The keys to read, in the order of the listing.
    pub keys: Seq<Seq<char>>,
    /// The records read so far, in the order of their keys.
    pub records: Seq<PhotoRecord>,
    /// Why the listing failed, once it has.
    pub failure: Option<ErrorView>,
}

impl CatalogState {
    /// The state before anything is requested.
    pub open spec fn initial() -> CatalogState {
        CatalogState { listed: false, keys: Seq::empty(), records: Seq::empty(), failure: None }
    }

    /// What a reachable state satisfies.
    pub open spec fn wf(self) -> bool {
        &&& self.records.len() <= self.keys.len()
        &&& !self.listed ==> self.keys.len() == 0
    }

    /// Whether every listed record is read.
    pub open spec fn complete(self) -> bool {
        self.failure is None && self.listed && self.records.len() == self.keys.len()
    }

    /// Whether no request is left.
    pub open spec fn finished(self) -> bool {
        self.failure is Some || self.complete()
    }

    /// The prefix or key that the pending request is about.
    pub open spec fn current_key(self) -> Seq<char> {
        if !self.listed {
            spec_metadata_prefix()
        } else {
            self.keys[self.records.len() as int]
        }
    }

    /// The request to perform next: list the metadata prefix, then read the
    /// listed objects one by one.
    pub open spec fn pending(self) -> CatalogRequest {
        if self.finished() {
            CatalogRequest::Finished
        } else if !self.listed {
            CatalogRequest::List { prefix: self.current_key() }
        } else {
            CatalogRequest::Get { key: self.current_key() }
        }
    }

    /// The error for an answer that is no success of the pending request.
    pub open spec fn failure_for(self, answer: CatalogAnswer) -> ErrorView {
        if !self.listed {
            ErrorView::Store { key: self.current_key() }
        } else {
            match answer {
                CatalogAnswer::Malformed => ErrorView::Serialization { key: self.current_key() },
                CatalogAnswer::Missing => ErrorView::NotFound { key: self.current_key() },
                _ => ErrorView::Store { key: self.current_key() },
            }
        }
    }

    /// The state after the store answered the pending request. The first
    /// answer that is no success ends the listing: nothing is read after it.
    /// An answer of the wrong kind counts as a failure of the store.
    pub open spec fn advance(self, answer: CatalogAnswer) -> CatalogState {
        if self.finished() {
            self
        } else if !self.listed {
            match answer {
                CatalogAnswer::Listed(entries) => CatalogState {
                    listed: true,
                    keys: present_keys(entries),
                    ..self
                },
                _ => CatalogState { failure: Some(self.failure_for(answer)), ..self },
            }
        } else {
            match answer {
                CatalogAnswer::Loaded(record) => CatalogState {
                    records: self.records.push(record),
                    ..self
                },
                _ => CatalogState { failure: Some(self.failure_for(answer)), ..self },
            }
        }
    }

    /// The state after a sequence of answers.
    pub open spec fn advance_all(self, answers: Seq<CatalogAnswer>) -> CatalogState
        decreases answers.len(),
    {
        if answers.len() == 0 {
            self
        } else {
            self.advance_all(answers.drop_last()).advance(answers.last())
        }
    }
}

/// What the caller is to do next for a listing.
pub enum CatalogStep {
    /// List the objects whose key begins with `prefix`.
    List { prefix: String },
    /// Read the object at `key` and decode the record it holds.
    Get { key: String },
}

impl View for CatalogStep {
    type V = CatalogRequest;

    open spec fn view(&self) -> CatalogRequest {
        match self {
            CatalogStep::List { prefix } => CatalogRequest::List { prefix: prefix@ },
            CatalogStep::Get { key } => CatalogRequest::Get { key: key@ },
        }
    }
}

/// One listing in progress: a request is pending.
pub struct CatalogSession {
    listed: bool,
    keys: Vec<String>,
    photos: Vec<PhotoMetadata>,
}

/// Where a listing stands after an answer.
pub enum CatalogProgress {
    /// Another request is pending.
    Continue(CatalogSession),
    /// Every record is read; these are the photos, newest first.
    Complete(Vec<PhotoMetadata>),
    /// A request failed or a record was malformed; the listing is over.
    Failed(GalleryError),
}

impl View for CatalogSession {
    type V = CatalogState;

    closed spec fn view(&self) -> CatalogState {
        CatalogState {
            listed: self.listed,
            keys: keys_of(self.keys@),
            records: records_of(self.photos@),
            failure: None,
        }
    }
}

/// Copies the keys of a listing, passing over entries without one.
fn collect_keys(entries: &Vec<Option<String>>) -> (keys: Vec<String>)
    ensures
        keys_of(keys@) == present_keys(entries_of(entries@)),
{
    let mut keys: Vec<String> = Vec::new();
    let mut i: usize = 0;
    assert(entries_of(entries@).take(0) =~= Seq::empty());
    while i < entries.len()
        invariant
            i <= entries.len(),
            keys_of(keys@) == present_keys(entries_of(entries@).take(i as int)),
        decreases entries.len() - i,
    {
        let ghost so_far = keys_of(keys@);
        let ghost all = entries_of(entries@);
        proof {
            assert(all.take(i as int + 1).drop_last() =~= all.take(i as int));
            assert(all.take(i as int + 1).last() == all[i as int]);
        }
        match &entries[i] {
            Some(key) => {
                keys.push(key.clone());
                assert(keys_of(keys@) =~= so_far.push(key@));
            },
            None => {},
        }
        i = i + 1;
    }
    assert(entries_of(entries@).take(entries.len() as int) =~= entries_of(entries@));
    keys
}

impl CatalogSession {
    #[verifier::type_invariant]
    spec fn inv(self) -> bool {
        &&& self@.wf()
        &&& !self@.finished()
    }

    /// Starts a listing.
    pub fn begin() -> (session: CatalogSession)
        ensures
            session@ == CatalogState::initial(),
    {
        let session = CatalogSession { listed: false, keys: Vec::new(), photos: Vec::new() };
        assert(session@.keys =~= Seq::empty() && session@.records =~= Seq::empty());
        session
    }

    /// The request to perform next.
    pub fn pending(&self) -> (step: CatalogStep)
        ensures
            step@ == self@.pending(),
            self@.wf(),
            !self@.finished(),
    {
        proof {
            use_type_invariant(self);
        }
        if !self.listed {
            CatalogStep::List { prefix: metadata_prefix() }
        } else {
            CatalogStep::Get { key: self.keys[self.photos.len()].clone() }
        }
    }

    /// Takes the store's answer to the pending request.
    ///
    /// The listing completes when every listed record is read, with the
    /// photos sorted newest first. It fails at the first answer that is no
    /// success: with a store error if the store failed, with `NotFound` if a
    /// listed object is missing, with `Serialization` if an object holds no
    /// well-formed record.
    pub fn advance(self, reply: CatalogReply) -> (progress: CatalogProgress)
        ensures
            self@.wf(),
            !self@.finished(),
            match progress {
                CatalogProgress::Continue(next) => next@ == self@.advance(reply@)
                    && !next@.finished(),
                CatalogProgress::Complete(photos) => self@.advance(reply@).complete()
                    && sorted_newest_first(self@.advance(reply@).records, records_of(photos@)),
                CatalogProgress::Failed(error) => self@.advance(reply@).failure == Some(error@),
            },
    {
        proof {
            use_type_invariant(&self);
        }
        let CatalogSession { listed, keys, photos } = self;
        if !listed {
            match reply {
                CatalogReply::Listed(entries) => {
                    let keys = collect_keys(&entries);
                    assert(records_of(photos@) =~= Seq::empty());
                    if keys.len() == 0 {
                        CatalogProgress::Complete(sort_photos(photos))
                    } else {
                        CatalogProgress::Continue(CatalogSession { listed: true, keys, photos })
                    }
                },
                _ => CatalogProgress::Failed(GalleryError::Store { key: metadata_prefix() }),
            }
        } else {
            let key = keys[photos.len()].clone();
            match reply {
                CatalogReply::Loaded(photo) => {
                    let mut photos = photos;
                    let ghost before = records_of(photos@);
                    photos.push(photo);
                    assert(records_of(photos@) =~= before.push(photo@));
                    if photos.len() == keys.len() {
                        CatalogProgress::Complete(sort_photos(photos))
                    } else {
                        CatalogProgress::Continue(CatalogSession { listed, keys, photos })
                    }
                },
                CatalogReply::Malformed => CatalogProgress::Failed(
                    GalleryError::Serialization { key },
                ),
                CatalogReply::Missing => CatalogProgress::Failed(GalleryError::NotFound { key }),
                _ => CatalogProgress::Failed(GalleryError::Store { key }),
            }
        }
    }
}

/// A listing reads the listed objects in the order of the listing, one
/// after the other. Once the store has listed `entries` and `count` of the
/// objects were read, the records are those that were read, in that order;
/// the object at the next listed key is pending; and when none is left the
/// listing is complete.
pub proof fn law_listing_reads_every_key(
    entries: Seq<Option<Seq<char>>>,
    records: Seq<PhotoRecord>,
    count: nat,
)
    requires
        records.len() == present_keys(entries).len(),
        count <= records.len(),
    ensures
        ({
            let state = CatalogState::initial().advance(CatalogAnswer::Listed(entries)).advance_all(
                records.take(count as int).map_values(
                    |record: PhotoRecord| CatalogAnswer::Loaded(record),
                ),
            );
            &&& state.wf()
            &&& state.listed
            &&& state.failure is None
            &&& state.keys == present_keys(entries)
            &&& state.records == records.take(count as int)
            &&& count < records.len() ==> state.pending() == (CatalogRequest::Get {
                key: present_keys(entries)[count as int],
            })
            &&& count == records.len() ==> state.complete() && state.pending()
                == CatalogRequest::Finished
        }),
    decreases count,
{
    let listed = CatalogState::initial().advance(CatalogAnswer::Listed(entries));
    let answers = records.take(count as int).map_values(
        |record: PhotoRecord| CatalogAnswer::Loaded(record),
    );
    if count > 0 {
        law_listing_reads_every_key(entries, records, (count - 1) as nat);
        let before = records.take(count - 1).map_values(
            |record: PhotoRecord| CatalogAnswer::Loaded(record),
        );
        assert(answers.drop_last() =~= before);
        assert(answers.last() == CatalogAnswer::Loaded(records[count - 1]));
        assert(records.take(count - 1).push(records[count - 1]) =~= records.take(count as int));
    } else {
        assert(records.take(0) =~= Seq::<PhotoRecord>::empty());
        assert(listed.advance_all(answers) == listed);
    }
}

/// A listing that has failed stays failed: whatever is answered afterwards
/// changes nothing, and no record that was read is handed out.
pub proof fn law_listing_failure_is_final(state: CatalogState, later: Seq<CatalogAnswer>)
    requires
        state.failure is Some,
    ensures
        state.advance_all(later) == state,
        state.pending() == CatalogRequest::Finished,
        !state.complete(),
    decreases later.len(),
{
    if later.len() > 0 {
        law_listing_failure_is_final(state, later.drop_last());
    }
}

} // verus!
