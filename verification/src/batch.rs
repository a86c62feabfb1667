//! Uploading a batch of files, one after the other, in the order given.
//!
//! The session says which file is next and how far the batch has come; the
//! caller generates and publishes that file and reports the record or the
//! failure. The first failure ends the batch: the files behind it are not
//! touched.

use crate::catalog::records_of;
use crate::error::{ErrorView, GalleryError};
use crate::models::{PhotoMetadata, PhotoRecord};
use vstd::prelude::*;

verus! {

/// The state of a batch as contracts speak of it.
pub struct BatchState {
    /// The files of the batch, in the order given.
    pub files: Seq<Seq<char>>,
    /// The records of the files published so far, in the same order.
    pub records: Seq<PhotoRecord>,
    /// Why the batch failed, once it has.
    pub failure: Option<ErrorView>,
}

/// What is pending in a batch as contracts speak of it.
pub enum BatchRequest {
    /// Process `file`; `completed` of `total` files are done.
    Process { file: Seq<char>, completed: nat, total: nat },
    Finished,
}

impl BatchState {
    /// The state before any file is processed.
    pub open spec fn initial(files: Seq<Seq<char>>) -> BatchState {
        BatchState { files, records: Seq::empty(), failure: None }
    }

    /// What a reachable state satisfies.
    pub open spec fn wf(self) -> bool {
        self.records.len() <= self.files.len()
    }

    /// Whether every file is published.
    pub open spec fn complete(self) -> bool {
        self.failure is None && self.records.len() == self.files.len()
    }

    /// Whether no file is left to process.
    pub open spec fn finished(self) -> bool {
        self.failure is Some || self.complete()
    }

    /// What is to be done next: the first file that is not yet published.
    pub open spec fn pending(self) -> BatchRequest {
        if self.finished() {
            BatchRequest::Finished
        } else {
            BatchRequest::Process {
                file: self.files[self.records.len() as int],
                completed: self.records.len(),
                total: self.files.len(),
            }
        }
    }

    /// The state after the pending file was processed, with the record it was
    /// published under or with the failure.
    pub open spec fn advance(self, result: Result<PhotoRecord, ErrorView>) -> BatchState {
        if self.finished() {
            self
        } else {
            match result {
                Ok(record) => BatchState { records: self.records.push(record), ..self },
                Err(error) => BatchState { failure: Some(error), ..self },
            }
        }
    }
}

/// The file to process next, and how far the batch has come.
pub struct BatchStep<'a> {
    /// The file to generate the derivatives of and to publish.
    pub file: &'a str,
    /// How many files are published.
    pub completed: usize,
    /// How many files the batch holds.
    pub total: usize,
}

impl<'a> View for BatchStep<'a> {
    type V = BatchRequest;

    open spec fn view(&self) -> BatchRequest {
        BatchRequest::Process {
            file: self.file@,
            completed: self.completed as nat,
            total: self.total as nat,
        }
    }
}

/// One batch in progress: a file is pending.
pub struct BatchSession {
    files: Vec<String>,
    photos: Vec<PhotoMetadata>,
}

/// Where a batch stands.
pub enum BatchProgress {
    /// Another file is pending.
    Continue(BatchSession),
    /// Every file is published; these are their records, in the order of the
    /// files.
    Complete(Vec<PhotoMetadata>),
    /// A file failed; the batch is over.
    Failed(GalleryError),
}

/// The result of processing a file as contracts speak of it.
pub open spec fn result_of(result: Result<PhotoMetadata, GalleryError>) -> Result<
    PhotoRecord,
    ErrorView,
> {
    match result {
        Ok(photo) => Ok(photo@),
        Err(error) => Err(error@),
    }
}

impl View for BatchSession {
    type V = BatchState;

    closed spec fn view(&self) -> BatchState {
        BatchState {
            files: crate::catalog::keys_of(self.files@),
            records: records_of(self.photos@),
            failure: None,
        }
    }
}

impl BatchSession {
    #[verifier::type_invariant]
    spec fn inv(self) -> bool {
        self.photos.len() < self.files.len()
    }

    /// Starts a batch over `files`. A batch without files is complete at
    /// once.
    pub fn begin(files: Vec<String>) -> (progress: BatchProgress)
        ensures
            match progress {
                BatchProgress::Continue(session) => session@ == BatchState::initial(
                    crate::catalog::keys_of(files@),
                ) && files.len() > 0,
                BatchProgress::Complete(photos) => files.len() == 0 && photos.len() == 0,
                BatchProgress::Failed(_) => false,
            },
    {
        if files.len() == 0 {
            BatchProgress::Complete(Vec::new())
        } else {
            let session = BatchSession { files, photos: Vec::new() };
            assert(session@.records =~= Seq::empty());
            BatchProgress::Continue(session)
        }
    }

    /// The file to process next, with the progress of the batch.
    pub fn pending(&self) -> (step: BatchStep<'_>)
        ensures
            step@ == self@.pending(),
            self@.wf(),
            !self@.finished(),
            step.completed < step.total,
    {
        proof {
            use_type_invariant(self);
        }
        BatchStep {
            file: self.files[self.photos.len()].as_str(),
            completed: self.photos.len(),
            total: self.files.len(),
        }
    }

    /// Takes the result of processing the pending file.
    ///
    /// A record is added behind those of the files before it; after the last
    /// file the batch is complete. A failure ends the batch with that
    /// failure.
    pub fn advance(self, result: Result<PhotoMetadata, GalleryError>) -> (progress: BatchProgress)
        ensures
            self@.wf(),
            !self@.finished(),
            match progress {
                BatchProgress::Continue(next) => next@ == self@.advance(result_of(result))
                    && !next@.finished(),
                BatchProgress::Complete(photos) => self@.advance(result_of(result)).complete()
                    && records_of(photos@) == self@.advance(result_of(result)).records,
                BatchProgress::Failed(error) => self@.advance(result_of(result)).failure == Some(
                    error@,
                ),
            },
    {
        proof {
            use_type_invariant(&self);
        }
        let BatchSession { files, photos } = self;
        match result {
            Ok(photo) => {
                let mut photos = photos;
                let ghost before = records_of(photos@);
                photos.push(photo);
                assert(records_of(photos@) =~= before.push(photo@));
                if photos.len() == files.len() {
                    BatchProgress::Complete(photos)
                } else {
                    BatchProgress::Continue(BatchSession { files, photos })
                }
            },
            Err(error) => BatchProgress::Failed(error),
        }
    }
}

/// Within a batch progress never goes back: a result leaves the files as
/// they are and the number of published files as it was or one higher,
/// never beyond the number of files; and the file that is pending is the
/// one at the position of that number, so files are taken in the order
/// given.
pub proof fn law_batch_progress_is_monotonic(
    state: BatchState,
    result: Result<PhotoRecord, ErrorView>,
)
    requires
        state.wf(),
    ensures
        state.advance(result).wf(),
        state.advance(result).files == state.files,
        state.records.len() <= state.advance(result).records.len() <= state.records.len() + 1,
        state.advance(result).records.len() <= state.files.len(),
        state.pending() matches BatchRequest::Process { file, completed, total } ==> completed
            < total && total == state.files.len() && file == state.files[completed as int],
        state.finished() ==> state.advance(result) == state,
{
}

} // verus!
