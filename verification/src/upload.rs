//! Publishing a photo: every derivative is stored under its key, then the
//! metadata record that names them.
//!
//! The session decides what is stored next and assembles the record; the
//! caller performs each request and reports the store's reply. There is no
//! transaction across objects: when a request fails, the derivatives stored
//! before it stay in the store without a metadata record. A retry starts a
//! new session under a new identity and neither collides with nor resumes
//! what an earlier session left behind.

use crate::error::{ErrorView, GalleryError};
use crate::keys::{
    derivative_key, metadata_key, object_url, spec_derivative_key, spec_metadata_key,
    spec_object_url,
};
use crate::mint::{current_timestamp, fresh_identity, is_identity};
use crate::models::{derivatives_of, CompressedImage, Derivative, PhotoMetadata, PhotoRecord, S3Config};
use crate::store::StoreReply;
use crate::text::text_equal;
use crate::tier::{tier_name, Tier};
use vstd::prelude::*;

verus! {

/// The content type of every derivative.
pub const DERIVATIVE_CONTENT_TYPE: &'static str = "image/jpeg";

/// The content type of the metadata record.
pub const METADATA_CONTENT_TYPE: &'static str = "application/json";

/// The record of a photo of which nothing is stored yet: no URL, no size.
pub open spec fn blank_record(
    id: Seq<char>,
    original_name: Seq<char>,
    upload_date: Seq<char>,
) -> PhotoRecord {
    PhotoRecord {
        id,
        original_name,
        upload_date,
        file_size: 0,
        thumbnail_url: Seq::empty(),
        small_url: Seq::empty(),
        medium_url: Seq::empty(),
        large_url: Seq::empty(),
        original_url: Seq::empty(),
        width: 0,
        height: 0,
    }
}

/// The record once the derivative `image` is stored: the URL field of its
/// tier holds the address of its object, and the original also settles file
/// size and dimensions. A derivative of no known tier leaves the record as it
/// is.
pub open spec fn record_with(
    record: PhotoRecord,
    bucket: Seq<char>,
    region: Seq<char>,
    image: Derivative,
) -> PhotoRecord {
    let url = spec_object_url(bucket, region, spec_derivative_key(record.id, image.size_name));
    if image.size_name == tier_name(Tier::Thumbnail) {
        PhotoRecord { thumbnail_url: url, ..record }
    } else if image.size_name == tier_name(Tier::Small) {
        PhotoRecord { small_url: url, ..record }
    } else if image.size_name == tier_name(Tier::Medium) {
        PhotoRecord { medium_url: url, ..record }
    } else if image.size_name == tier_name(Tier::Large) {
        PhotoRecord { large_url: url, ..record }
    } else if image.size_name == tier_name(Tier::Original) {
        PhotoRecord {
            original_url: url,
            file_size: image.data.len() as u64,
            width: image.width,
            height: image.height,
            ..record
        }
    } else {
        record
    }
}

/// The record once all of `images` are stored, one after the other.
pub open spec fn record_after(
    record: PhotoRecord,
    bucket: Seq<char>,
    region: Seq<char>,
    images: Seq<Derivative>,
) -> PhotoRecord
    decreases images.len(),
{
    if images.len() == 0 {
        record
    } else {
        record_with(
            record_after(record, bucket, region, images.drop_last()),
            bucket,
            region,
            images.last(),
        )
    }
}

/// The state of an upload as contracts speak of it.
pub struct UploadState {
    pub bucket: Seq<char>,
    pub region: Seq<char>,
    pub id: Seq<char>,
    pub original_name: Seq<char>,
    pub upload_date: Seq<char>,
    /// The derivatives to store, in order.
    pub images: Seq<Derivative>,
    /// How many of them are stored.
    pub stored: nat,
    /// Whether the metadata record is stored.
    pub published: bool,
    /// Whether a request failed.
    pub aborted: bool,
}

/// A request of an upload as contracts speak of it.
pub enum UploadRequest {
    PutDerivative { key: Seq<char>, body: Seq<u8>, content_type: Seq<char> },
    PutMetadata { key: Seq<char>, record: PhotoRecord, content_type: Seq<char> },
    Finished,
}

impl UploadState {
    /// The state before anything is stored.
    pub open spec fn initial(
        bucket: Seq<char>,
        region: Seq<char>,
        id: Seq<char>,
        original_name: Seq<char>,
        upload_date: Seq<char>,
        images: Seq<Derivative>,
    ) -> UploadState {
        UploadState {
            bucket,
            region,
            id,
            original_name,
            upload_date,
            images,
            stored: 0,
            published: false,
            aborted: false,
        }
    }

    /// What a reachable state satisfies.
    pub open spec fn wf(self) -> bool {
        &&& self.stored <= self.images.len()
        &&& self.published ==> self.stored == self.images.len() && !self.aborted
    }

    /// Whether no request is left: the record is published, or a request
    /// failed.
    pub open spec fn finished(self) -> bool {
        self.published || self.aborted
    }

    /// The record as assembled from the derivatives stored so far.
    pub open spec fn record(self) -> PhotoRecord {
        record_after(
            blank_record(self.id, self.original_name, self.upload_date),
            self.bucket,
            self.region,
            self.images.take(self.stored as int),
        )
    }

    /// The key of the object that is stored next, or that failed to be.
    pub open spec fn current_key(self) -> Seq<char> {
        if self.stored < self.images.len() {
            spec_derivative_key(self.id, self.images[self.stored as int].size_name)
        } else {
            spec_metadata_key(self.id)
        }
    }

    /// The request to perform next: the derivatives in order, then the
    /// metadata record, then nothing.
    pub open spec fn pending(self) -> UploadRequest {
        if self.finished() {
            UploadRequest::Finished
        } else if self.stored < self.images.len() {
            UploadRequest::PutDerivative {
                key: self.current_key(),
                body: self.images[self.stored as int].data,
                content_type: DERIVATIVE_CONTENT_TYPE@,
            }
        } else {
            UploadRequest::PutMetadata {
                key: self.current_key(),
                record: self.record(),
                content_type: METADATA_CONTENT_TYPE@,
            }
        }
    }

    /// The state after the store replied to the pending request. A failure
    /// ends the upload; a finished upload takes no further reply.
    pub open spec fn advance(self, reply: StoreReply) -> UploadState {
        if self.finished() {
            self
        } else if reply == StoreReply::Failed {
            UploadState { aborted: true, ..self }
        } else if self.stored < self.images.len() {
            UploadState { stored: self.stored + 1, ..self }
        } else {
            UploadState { published: true, ..self }
        }
    }

    /// The state after a sequence of replies.
    pub open spec fn advance_all(self, replies: Seq<StoreReply>) -> UploadState
        decreases replies.len(),
    {
        if replies.len() == 0 {
            self
        } else {
            self.advance_all(replies.drop_last()).advance(replies.last())
        }
    }

    /// What the upload returns: the record once it is published, and
    /// otherwise a store error for the object that was not stored.
    pub open spec fn outcome(self) -> Result<PhotoRecord, ErrorView> {
        if self.published {
            Ok(self.record())
        } else {
            Err(ErrorView::Store { key: self.current_key() })
        }
    }
}

/// What the caller is to do next for an upload.
pub enum UploadStep<'a> {
    /// Store `body` at `key`.
    PutDerivative { key: String, body: &'a Vec<u8>, content_type: &'static str },
    /// Serialise `record` and store it at `key`.
    PutMetadata { key: String, record: &'a PhotoMetadata, content_type: &'static str },
}

impl<'a> View for UploadStep<'a> {
    type V = UploadRequest;

    open spec fn view(&self) -> UploadRequest {
        match self {
            UploadStep::PutDerivative { key, body, content_type } => UploadRequest::PutDerivative {
                key: key@,
                body: body@,
                content_type: content_type@,
            },
            UploadStep::PutMetadata { key, record, content_type } => UploadRequest::PutMetadata {
                key: key@,
                record: record@,
                content_type: content_type@,
            },
        }
    }
}

/// One upload in progress: a request is pending.
pub struct UploadSession {
    bucket: String,
    region: String,
    images: Vec<CompressedImage>,
    metadata: PhotoMetadata,
    stored: usize,
}

/// Where an upload stands after a reply.
pub enum UploadProgress {
    /// Another request is pending.
    Continue(UploadSession),
    /// Every object is stored; this is the record that was published.
    Published(PhotoMetadata),
    /// A request failed; the upload is over.
    Failed(GalleryError),
}

impl View for UploadSession {
    type V = UploadState;

    closed spec fn view(&self) -> UploadState {
        UploadState {
            bucket: self.bucket@,
            region: self.region@,
            id: self.metadata.id@,
            original_name: self.metadata.original_name@,
            upload_date: self.metadata.upload_date@,
            images: derivatives_of(self.images@),
            stored: self.stored as nat,
            published: false,
            aborted: false,
        }
    }
}

impl UploadSession {
    #[verifier::type_invariant]
    spec fn inv(self) -> bool {
        &&& self@.wf()
        &&& self.metadata@ == self@.record()
    }

    /// Starts the upload of `images` under the identity `photo_id`.
    pub fn begin(
        config: &S3Config,
        photo_id: String,
        upload_date: String,
        original_name: String,
        images: Vec<CompressedImage>,
    ) -> (session: UploadSession)
        ensures
            session@ == UploadState::initial(
                config.bucket@,
                config.region@,
                photo_id@,
                original_name@,
                upload_date@,
                derivatives_of(images@),
            ),
    {
        let metadata = PhotoMetadata {
            id: photo_id,
            original_name,
            upload_date,
            file_size: 0,
            thumbnail_url: String::new(),
            small_url: String::new(),
            medium_url: String::new(),
            large_url: String::new(),
            original_url: String::new(),
            width: 0,
            height: 0,
        };
        proof {
            assert(derivatives_of(images@).take(0) =~= Seq::<Derivative>::empty());
        }
        UploadSession {
            bucket: config.bucket.clone(),
            region: config.region.clone(),
            images,
            metadata,
            stored: 0,
        }
    }

    /// Starts the upload of `images` under a freshly minted identity, dated
    /// now. Every call mints a new identity.
    pub fn start(config: &S3Config, original_name: String, images: Vec<CompressedImage>) -> (session:
        UploadSession)
        ensures
            session@ == UploadState::initial(
                config.bucket@,
                config.region@,
                session@.id,
                original_name@,
                session@.upload_date,
                derivatives_of(images@),
            ),
            is_identity(session@.id),
    {
        let photo_id = fresh_identity();
        let upload_date = current_timestamp();
        UploadSession::begin(config, photo_id, upload_date, original_name, images)
    }

    /// The request to perform next.
    pub fn pending(&self) -> (step: UploadStep<'_>)
        ensures
            step@ == self@.pending(),
            self@.wf(),
            !self@.finished(),
    {
        proof {
            use_type_invariant(self);
        }
        if self.stored < self.images.len() {
            let image = &self.images[self.stored];
            UploadStep::PutDerivative {
                key: derivative_key(self.metadata.id.as_str(), image.size_name.as_str()),
                body: &image.data,
                content_type: DERIVATIVE_CONTENT_TYPE,
            }
        } else {
            UploadStep::PutMetadata {
                key: metadata_key(self.metadata.id.as_str()),
                record: &self.metadata,
                content_type: METADATA_CONTENT_TYPE,
            }
        }
    }

    /// Takes the store's reply to the pending request.
    ///
    /// A stored derivative enters the record and the next request becomes
    /// pending; the stored record ends the upload with that record; a failure
    /// ends it with a store error for the object that was not stored.
    pub fn advance(self, reply: StoreReply) -> (progress: UploadProgress)
        ensures
            self@.wf(),
            !self@.finished(),
            match progress {
                UploadProgress::Continue(next) => next@ == self@.advance(reply)
                    && !next@.finished(),
                UploadProgress::Published(record) => self@.advance(reply).published
                    && self@.advance(reply).outcome() == Ok::<PhotoRecord, ErrorView>(record@),
                UploadProgress::Failed(error) => self@.advance(reply).aborted
                    && self@.advance(reply).outcome() == Err::<PhotoRecord, ErrorView>(error@),
            },
    {
        proof {
            use_type_invariant(&self);
        }
        let UploadSession { bucket, region, images, metadata, stored } = self;
        if reply == StoreReply::Failed {
            if stored < images.len() {
                let image = &images[stored];
                UploadProgress::Failed(
                    GalleryError::Store {
                        key: derivative_key(metadata.id.as_str(), image.size_name.as_str()),
                    },
                )
            } else {
                UploadProgress::Failed(
                    GalleryError::Store { key: metadata_key(metadata.id.as_str()) },
                )
            }
        } else if stored < images.len() {
            let mut metadata = metadata;
            let ghost before = metadata@;
            let ghost all = derivatives_of(images@);
            let image = &images[stored];
            let key = derivative_key(metadata.id.as_str(), image.size_name.as_str());
            let url = object_url(bucket.as_str(), region.as_str(), key.as_str());
            if text_equal(image.size_name.as_str(), Tier::Thumbnail.name()) {
                metadata.thumbnail_url = url;
            } else if text_equal(image.size_name.as_str(), Tier::Small.name()) {
                metadata.small_url = url;
            } else if text_equal(image.size_name.as_str(), Tier::Medium.name()) {
                metadata.medium_url = url;
            } else if text_equal(image.size_name.as_str(), Tier::Large.name()) {
                metadata.large_url = url;
            } else if text_equal(image.size_name.as_str(), Tier::Original.name()) {
                metadata.original_url = url;
                metadata.file_size = image.data.len() as u64;
                metadata.width = image.width;
                metadata.height = image.height;
            }
            proof {
                assert(all.take(stored as int + 1).drop_last() =~= all.take(stored as int));
                assert(all.take(stored as int + 1).last() == images@[stored as int]@);
                assert(metadata@ == record_with(before, bucket@, region@, images@[stored as int]@));
            }
            UploadProgress::Continue(
                UploadSession { bucket, region, images, metadata, stored: stored + 1 },
            )
        } else {
            UploadProgress::Published(metadata)
        }
    }
}

/// Whether one of `images` is named `name`.
pub open spec fn has_name(images: Seq<Derivative>, name: Seq<char>) -> bool {
    exists|i: int| 0 <= i < images.len() && (#[trigger] images[i]).size_name == name
}

/// The address of the derivative `name` of photo `id`.
pub open spec fn derivative_url(
    bucket: Seq<char>,
    region: Seq<char>,
    id: Seq<char>,
    name: Seq<char>,
) -> Seq<char> {
    spec_object_url(bucket, region, spec_derivative_key(id, name))
}

/// What storing derivatives makes of a record. Identity, name and date stay.
/// The URL of a tier is the address of its derivative if one of that tier was
/// stored, and stays as it was otherwise. File size and dimensions are those
/// of the last stored derivative named `original`, and stay as they were when
/// there is none.
pub proof fn lemma_record_after(
    record: PhotoRecord,
    bucket: Seq<char>,
    region: Seq<char>,
    images: Seq<Derivative>,
)
    ensures
        ({
            let after = record_after(record, bucket, region, images);
            &&& after.id == record.id
            &&& after.original_name == record.original_name
            &&& after.upload_date == record.upload_date
            &&& after.thumbnail_url == if has_name(images, tier_name(Tier::Thumbnail)) {
                derivative_url(bucket, region, record.id, tier_name(Tier::Thumbnail))
            } else {
                record.thumbnail_url
            }
            &&& after.small_url == if has_name(images, tier_name(Tier::Small)) {
                derivative_url(bucket, region, record.id, tier_name(Tier::Small))
            } else {
                record.small_url
            }
            &&& after.medium_url == if has_name(images, tier_name(Tier::Medium)) {
                derivative_url(bucket, region, record.id, tier_name(Tier::Medium))
            } else {
                record.medium_url
            }
            &&& after.large_url == if has_name(images, tier_name(Tier::Large)) {
                derivative_url(bucket, region, record.id, tier_name(Tier::Large))
            } else {
                record.large_url
            }
            &&& after.original_url == if has_name(images, tier_name(Tier::Original)) {
                derivative_url(bucket, region, record.id, tier_name(Tier::Original))
            } else {
                record.original_url
            }
            &&& !has_name(images, tier_name(Tier::Original)) ==> after.file_size
                == record.file_size && after.width == record.width && after.height
                == record.height
            &&& forall|i: int|
                0 <= i < images.len() && (#[trigger] images[i]).size_name == tier_name(
                    Tier::Original,
                ) && (forall|j: int|
                    i < j < images.len() ==> (#[trigger] images[j]).size_name != tier_name(
                        Tier::Original,
                    )) ==> after.file_size == images[i].data.len() as u64 && after.width
                    == images[i].width && after.height == images[i].height
        }),
    decreases images.len(),
{
    crate::tier::lemma_tier_names_differ(Tier::Thumbnail, Tier::Small);
    crate::tier::lemma_tier_names_differ(Tier::Thumbnail, Tier::Medium);
    crate::tier::lemma_tier_names_differ(Tier::Thumbnail, Tier::Large);
    crate::tier::lemma_tier_names_differ(Tier::Thumbnail, Tier::Original);
    crate::tier::lemma_tier_names_differ(Tier::Small, Tier::Medium);
    crate::tier::lemma_tier_names_differ(Tier::Small, Tier::Large);
    crate::tier::lemma_tier_names_differ(Tier::Small, Tier::Original);
    crate::tier::lemma_tier_names_differ(Tier::Medium, Tier::Large);
    crate::tier::lemma_tier_names_differ(Tier::Medium, Tier::Original);
    crate::tier::lemma_tier_names_differ(Tier::Large, Tier::Original);
    if images.len() > 0 {
        let rest = images.drop_last();
        let last = images.last();
        lemma_record_after(record, bucket, region, rest);
        assert forall|name: Seq<char>| has_name(images, name) <==> has_name(rest, name)
            || last.size_name == name by {
            if has_name(rest, name) {
                let i = choose|i: int| 0 <= i < rest.len() && rest[i].size_name == name;
                assert(images[i].size_name == name);
            }
            if last.size_name == name {
                assert(images[images.len() - 1].size_name == name);
            }
            if has_name(images, name) {
                let i = choose|i: int| 0 <= i < images.len() && images[i].size_name == name;
                if i < rest.len() {
                    assert(rest[i].size_name == name);
                }
            }
        }
        let after = record_after(record, bucket, region, images);
        assert forall|i: int|
            0 <= i < images.len() && (#[trigger] images[i]).size_name == tier_name(
                Tier::Original,
            ) && (forall|j: int|
                i < j < images.len() ==> (#[trigger] images[j]).size_name != tier_name(
                    Tier::Original,
                )) implies after.file_size == images[i].data.len() as u64 && after.width
            == images[i].width && after.height == images[i].height by {
            if i < rest.len() {
                assert(images[images.len() - 1].size_name != tier_name(Tier::Original));
                assert(rest[i] == images[i]);
                assert forall|j: int| i < j < rest.len() implies (#[trigger] rest[j]).size_name
                    != tier_name(Tier::Original) by {
                    assert(rest[j] == images[j]);
                }
            }
        }
    } else {
        assert forall|name: Seq<char>| !has_name(images, name) by {}
    }
}

/// An upload stores the derivatives in their order and then the record;
/// nothing else is asked of the store. After `count` successes the
/// derivative at position `count` is pending, and the record once all
/// derivatives are stored; the record that is then handed out for
/// serialisation names the derivatives that were stored. One more success
/// publishes it, and it is what the upload returns.
pub proof fn law_upload_stores_derivatives_then_record(start: UploadState, count: nat)
    requires
        start.stored == 0,
        !start.finished(),
        count <= start.images.len() + 1,
    ensures
        ({
            let state = start.advance_all(Seq::new(count, |i: int| StoreReply::Done));
            let record = record_after(
                blank_record(start.id, start.original_name, start.upload_date),
                start.bucket,
                start.region,
                start.images,
            );
            &&& state.wf()
            &&& state == (UploadState {
                stored: if count <= start.images.len() {
                    count
                } else {
                    start.images.len()
                },
                published: count == start.images.len() + 1,
                ..start
            })
            &&& count < start.images.len() ==> state.pending() == (UploadRequest::PutDerivative {
                key: spec_derivative_key(start.id, start.images[count as int].size_name),
                body: start.images[count as int].data,
                content_type: DERIVATIVE_CONTENT_TYPE@,
            })
            &&& count == start.images.len() ==> state.pending() == (UploadRequest::PutMetadata {
                key: spec_metadata_key(start.id),
                record,
                content_type: METADATA_CONTENT_TYPE@,
            })
            &&& count == start.images.len() + 1 ==> state.pending() == UploadRequest::Finished
                && state.outcome() == Ok::<PhotoRecord, ErrorView>(record)
        }),
    decreases count,
{
    let replies = Seq::new(count, |i: int| StoreReply::Done);
    if count > 0 {
        law_upload_stores_derivatives_then_record(start, (count - 1) as nat);
        assert(replies.drop_last() =~= Seq::new((count - 1) as nat, |i: int| StoreReply::Done));
        assert(replies.last() == StoreReply::Done);
    }
    assert(start.images.take(start.images.len() as int) =~= start.images);
}

/// A failed request ends an upload. The derivatives stored before it stay
/// where they are, without a metadata record; no further request is made,
/// whatever is replied afterwards; and the upload returns a store error for
/// the object that was not stored.
pub proof fn law_upload_failure_aborts(state: UploadState, later: Seq<StoreReply>)
    requires
        state.wf(),
        !state.finished(),
    ensures
        ({
            let failed = state.advance(StoreReply::Failed);
            &&& failed.stored == state.stored
            &&& !failed.published
            &&& failed.pending() == UploadRequest::Finished
            &&& failed.outcome() == Err::<PhotoRecord, ErrorView>(
                ErrorView::Store { key: state.current_key() },
            )
            &&& failed.advance_all(later) == failed
        }),
    decreases later.len(),
{
    if later.len() > 0 {
        law_upload_failure_aborts(state, later.drop_last());
    }
}

/// The record of a photo whose derivatives were generated from a source of
/// `width` x `height` pixels. Its dimensions are those of the source and its
/// file size is that of the original derivative. The URL of a tier is the
/// address of its derivative if the tier applies to the source, and the empty
/// string otherwise: so thumbnail and original always have an address.
pub proof fn law_record_describes_source(
    start: UploadState,
    width: u32,
    height: u32,
)
    requires
        crate::image_processor::follow_plan(
            start.images,
            crate::tier::derivative_plan(width, height),
        ),
    ensures
        ({
            let record = record_after(
                blank_record(start.id, start.original_name, start.upload_date),
                start.bucket,
                start.region,
                start.images,
            );
            &&& record.id == start.id
            &&& record.original_name == start.original_name
            &&& record.upload_date == start.upload_date
            &&& record.width == width
            &&& record.height == height
            &&& record.file_size == start.images.last().data.len() as u64
            &&& record.thumbnail_url == derivative_url(
                start.bucket,
                start.region,
                start.id,
                tier_name(Tier::Thumbnail),
            )
            &&& record.small_url == if crate::tier::tier_applies(Tier::Small, width, height) {
                derivative_url(start.bucket, start.region, start.id, tier_name(Tier::Small))
            } else {
                Seq::empty()
            }
            &&& record.medium_url == if crate::tier::tier_applies(Tier::Medium, width, height) {
                derivative_url(start.bucket, start.region, start.id, tier_name(Tier::Medium))
            } else {
                Seq::empty()
            }
            &&& record.large_url == if crate::tier::tier_applies(Tier::Large, width, height) {
                derivative_url(start.bucket, start.region, start.id, tier_name(Tier::Large))
            } else {
                Seq::empty()
            }
            &&& record.original_url == derivative_url(
                start.bucket,
                start.region,
                start.id,
                tier_name(Tier::Original),
            )
        }),
{
    let plan = crate::tier::derivative_plan(width, height);
    let images = start.images;
    let blank = blank_record(start.id, start.original_name, start.upload_date);
    lemma_record_after(blank, start.bucket, start.region, images);
    crate::tier::law_original_keeps_dimensions(width, height);
    assert forall|tier: Tier|
        has_name(images, tier_name(tier)) <==> crate::tier::tier_applies(
            tier,
            width,
            height,
        ) by {
        crate::tier::law_tier_present_iff_applies(tier, width, height);
        if crate::tier::tier_applies(tier, width, height) {
            let k = choose|k: int|
                0 <= k < plan.len() && plan[k] == crate::tier::planned(tier, width, height);
            assert(images[k].size_name == tier_name(tier));
        }
        if has_name(images, tier_name(tier)) {
            let i = choose|i: int| 0 <= i < images.len() && images[i].size_name == tier_name(tier);
            crate::tier::lemma_tier_names_differ(plan[i].tier, tier);
            assert(crate::tier::tier_applies(plan[i].tier, width, height));
        }
    }
    let last = images.len() - 1;
    assert(plan[last] == plan.last());
    assert(images[last].size_name == tier_name(Tier::Original));
    assert forall|j: int| last < j < images.len() implies (#[trigger] images[j]).size_name
        != tier_name(Tier::Original) by {}
    assert(has_name(images, tier_name(Tier::Thumbnail)));
    assert(has_name(images, tier_name(Tier::Original)));
}

} // verus!
