//! Keeping two files on the user's drive: the store configuration and the
//! photo metadata.
//!
//! A file is looked up by its name. Saving overwrites the first file of that
//! name, or creates one and then fills it; loading reads the first file of
//! that name, if there is one. The sessions decide which request comes next;
//! the caller sends it and reports the answer.

use vstd::prelude::*;
use vstd::string::StringExecFns;

verus! {

/// Where files are searched and created.
pub const FILES_URL: &'static str = "https://www.googleapis.com/drive/v3/files";

/// The content type of both files, and of the request that creates one.
pub const JSON_MIME_TYPE: &'static str = "application/json";

/// One of the two files kept on the drive.
#[derive(Clone, Copy, Debug, PartialEq, Eq, Structural)]
pub enum DriveFile {
    /// The store configuration.
    Config,
    /// The metadata of the photos.
    Metadata,
}

/// The name of a file on the drive.
pub open spec fn file_name(file: DriveFile) -> Seq<char> {
    match file {
        DriveFile::Config => "galleria_config.json"@,
        DriveFile::Metadata => "galleria_metadata.json"@,
    }
}

/// The query that finds the files of that name that are not in the bin.
pub open spec fn search_query(file: DriveFile) -> Seq<char> {
    "name='"@ + file_name(file) + "' and trashed=false"@
}

/// The address at which the content of file `file_id` is written.
pub open spec fn spec_upload_url(file_id: Seq<char>) -> Seq<char> {
    "https://www.googleapis.com/upload/drive/v3/files/"@ + file_id + "?uploadType=media"@
}

/// The address at which the content of file `file_id` is read.
pub open spec fn spec_download_url(file_id: Seq<char>) -> Seq<char> {
    "https://www.googleapis.com/drive/v3/files/"@ + file_id + "?alt=media"@
}

impl DriveFile {
    /// The name of the file on the drive.
    pub fn name(self) -> (name: &'static str)
        ensures
            name@ == file_name(self),
    {
        match self {
            DriveFile::Config => "galleria_config.json",
            DriveFile::Metadata => "galleria_metadata.json",
        }
    }

    /// The query that finds the file.
    pub fn query(self) -> (query: String)
        ensures
            query@ == search_query(self),
    {
        let mut query = String::from_str("name='");
        query.append(self.name());
        query.append("' and trashed=false");
        query
    }
}

/// The address at which the content of file `file_id` is written.
pub fn upload_url(file_id: &str) -> (url: String)
    ensures
        url@ == spec_upload_url(file_id@),
{
    let mut url = String::from_str("https://www.googleapis.com/upload/drive/v3/files/");
    url.append(file_id);
    url.append("?uploadType=media");
    url
}

/// The address at which the content of file `file_id` is read.
pub fn download_url(file_id: &str) -> (url: String)
    ensures
        url@ == spec_download_url(file_id@),
{
    let mut url = String::from_str("https://www.googleapis.com/drive/v3/files/");
    url.append(file_id);
    url.append("?alt=media");
    url
}

/// The request at which something went wrong.
#[derive(Clone, Copy, Debug, PartialEq, Eq, Structural)]
pub enum DriveStage {
    Search,
    Update,
    Create,
    Upload,
    Download,
}

/// What went wrong with a request.
#[derive(Clone, Copy, Debug, PartialEq, Eq, Structural)]
pub enum DriveFault {
    /// The request was not answered.
    Unanswered,
    /// The answer could not be read.
    Unreadable,
    /// The drive refused the request.
    Refused,
    /// The drive created a file and did not say which.
    MissingFileId,
}

/// A failure of the drive.
#[derive(Clone, Copy, Debug, PartialEq, Eq, Structural)]
pub struct DriveError {
    pub stage: DriveStage,
    pub fault: DriveFault,
}

/// What the drive answered to a request.
#[derive(Debug, Clone, PartialEq, Eq)]
pub enum DriveReply {
    /// The request was not answered.
    Unanswered,
    /// The answer could not be read.
    Unreadable,
    /// The answer to a search: the first file found, if any, with its
    /// identifier if it has one.
    Listing(Option<Option<String>>),
    /// The answer to a creation: the identifier of the new file, if the
    /// answer holds one.
    Created(Option<String>),
    /// The request was answered and the answer read; `success` says whether
    /// the drive reported success.
    Answered { success: bool },
}

/// An answer of the drive as contracts speak of it.
pub enum DriveAnswer {
    Unanswered,
    Unreadable,
    Listing(Option<Option<Seq<char>>>),
    Created(Option<Seq<char>>),
    Answered { success: bool },
}

impl View for DriveReply {
    type V = DriveAnswer;

    open spec fn view(&self) -> DriveAnswer {
        match self {
            DriveReply::Unanswered => DriveAnswer::Unanswered,
            DriveReply::Unreadable => DriveAnswer::Unreadable,
            DriveReply::Listing(first) => DriveAnswer::Listing(
                match first {
                    Some(Some(id)) => Some(Some(id@)),
                    Some(None) => Some(None),
                    None => None,
                },
            ),
            DriveReply::Created(id) => DriveAnswer::Created(
                match id {
                    Some(id) => Some(id@),
                    None => None,
                },
            ),
            DriveReply::Answered { success } => DriveAnswer::Answered { success: *success },
        }
    }
}

/// The fault of an answer that is none to the pending request: an answer
/// that never came is unanswered, any other is unreadable.
pub open spec fn fault_of(answer: DriveAnswer) -> DriveFault {
    match answer {
        DriveAnswer::Unanswered => DriveFault::Unanswered,
        _ => DriveFault::Unreadable,
    }
}

/// The identifier to go by for a file that was found: its own, or the empty
/// text if it has none.
pub open spec fn found_id(id: Option<Seq<char>>) -> Seq<char> {
    match id {
        Some(id) => id,
        None => Seq::empty(),
    }
}

/// Where a save stands, as contracts speak of it.
pub enum SaveState {
    Searching,
    Updating { file_id: Seq<char> },
    Creating,
    Uploading { file_id: Seq<char> },
}

/// What follows an answer to a save, as contracts speak of it.
pub enum SaveResult {
    Continue(SaveState),
    Saved { file_id: Seq<char> },
    Failed(DriveError),
}

/// What follows the answer of the drive to the pending request of a save.
///
/// A search that finds a file leads to its update, one that finds none to
/// the creation of a file and then to the upload of its content. The update
/// of the configuration must be reported a success; otherwise an answer
/// that could be read ends the save with the identifier of the file.
pub open spec fn save_advance(file: DriveFile, state: SaveState, answer: DriveAnswer) -> SaveResult {
    match state {
        SaveState::Searching => match answer {
            DriveAnswer::Listing(Some(id)) => SaveResult::Continue(
                SaveState::Updating { file_id: found_id(id) },
            ),
            DriveAnswer::Listing(None) => SaveResult::Continue(SaveState::Creating),
            _ => SaveResult::Failed(
                DriveError { stage: DriveStage::Search, fault: fault_of(answer) },
            ),
        },
        SaveState::Updating { file_id } => match answer {
            DriveAnswer::Answered { success } => if success || file == DriveFile::Metadata {
                SaveResult::Saved { file_id }
            } else {
                SaveResult::Failed(
                    DriveError { stage: DriveStage::Update, fault: DriveFault::Refused },
                )
            },
            _ => SaveResult::Failed(
                DriveError { stage: DriveStage::Update, fault: fault_of(answer) },
            ),
        },
        SaveState::Creating => match answer {
            DriveAnswer::Created(Some(file_id)) => SaveResult::Continue(
                SaveState::Uploading { file_id },
            ),
            DriveAnswer::Created(None) => SaveResult::Failed(
                DriveError { stage: DriveStage::Create, fault: DriveFault::MissingFileId },
            ),
            _ => SaveResult::Failed(
                DriveError { stage: DriveStage::Create, fault: fault_of(answer) },
            ),
        },
        SaveState::Uploading { file_id } => match answer {
            DriveAnswer::Answered { success } => SaveResult::Saved { file_id },
            _ => SaveResult::Failed(
                DriveError { stage: DriveStage::Upload, fault: fault_of(answer) },
            ),
        },
    }
}

/// A request to the drive as contracts speak of it.
pub enum DriveRequest {
    /// Search `url` for the files that match `query`.
    Search { url: Seq<char>, query: Seq<char> },
    /// Write the content to `url`.
    Write { url: Seq<char>, content_type: Seq<char> },
    /// Create at `url` a file named `name` of type `mime_type`.
    Create { url: Seq<char>, name: Seq<char>, mime_type: Seq<char> },
    /// Read the content from `url`.
    Read { url: Seq<char> },
}

/// The request that is pending in a save.
pub open spec fn save_pending(file: DriveFile, state: SaveState) -> DriveRequest {
    match state {
        SaveState::Searching => DriveRequest::Search { url: FILES_URL@, query: search_query(file) },
        SaveState::Updating { file_id } => DriveRequest::Write {
            url: spec_upload_url(file_id),
            content_type: JSON_MIME_TYPE@,
        },
        SaveState::Creating => DriveRequest::Create {
            url: FILES_URL@,
            name: file_name(file),
            mime_type: JSON_MIME_TYPE@,
        },
        SaveState::Uploading { file_id } => DriveRequest::Write {
            url: spec_upload_url(file_id),
            content_type: JSON_MIME_TYPE@,
        },
    }
}

/// What the caller is to ask of the drive.
#[derive(Debug, Clone, PartialEq, Eq)]
pub enum DriveStep {
    /// Search `url` for the files that match `query`.
    Search { url: String, query: String },
    /// Write the content to `url`, as `content_type`.
    Write { url: String, content_type: String },
    /// Create at `url` a file named `name` of type `mime_type`.
    Create { url: String, name: String, mime_type: String },
    /// Read the content from `url`.
    Read { url: String },
}

impl View for DriveStep {
    type V = DriveRequest;

    open spec fn view(&self) -> DriveRequest {
        match self {
            DriveStep::Search { url, query } => DriveRequest::Search { url: url@, query: query@ },
            DriveStep::Write { url, content_type } => DriveRequest::Write {
                url: url@,
                content_type: content_type@,
            },
            DriveStep::Create { url, name, mime_type } => DriveRequest::Create {
                url: url@,
                name: name@,
                mime_type: mime_type@,
            },
            DriveStep::Read { url } => DriveRequest::Read { url: url@ },
        }
    }
}

/// Where a save stands.
pub enum SavePhase {
    Searching,
    Updating { file_id: String },
    Creating,
    Uploading { file_id: String },
}

impl View for SavePhase {
    type V = SaveState;

    open spec fn view(&self) -> SaveState {
        match self {
            SavePhase::Searching => SaveState::Searching,
            SavePhase::Updating { file_id } => SaveState::Updating { file_id: file_id@ },
            SavePhase::Creating => SaveState::Creating,
            SavePhase::Uploading { file_id } => SaveState::Uploading { file_id: file_id@ },
        }
    }
}

/// One save in progress: a request is pending.
pub struct SaveSession {
    pub file: DriveFile,
    pub phase: SavePhase,
}

/// Where a save stands after an answer.
pub enum SaveProgress {
    /// Another request is pending.
    Continue(SaveSession),
    /// The content is on the drive, in the file `file_id`.
    Saved { file_id: String },
    /// The save failed.
    Failed(DriveError),
}

impl SaveSession {
    /// Starts saving `file`.
    pub fn begin(file: DriveFile) -> (session: SaveSession)
        ensures
            session.file == file,
            session.phase@ == SaveState::Searching,
    {
        SaveSession { file, phase: SavePhase::Searching }
    }

    /// The request to send next.
    pub fn pending(&self) -> (step: DriveStep)
        ensures
            step@ == save_pending(self.file, self.phase@),
    {
        match &self.phase {
            SavePhase::Searching => DriveStep::Search {
                url: String::from_str(FILES_URL),
                query: self.file.query(),
            },
            SavePhase::Updating { file_id } => DriveStep::Write {
                url: upload_url(file_id.as_str()),
                content_type: String::from_str(JSON_MIME_TYPE),
            },
            SavePhase::Creating => DriveStep::Create {
                url: String::from_str(FILES_URL),
                name: String::from_str(self.file.name()),
                mime_type: String::from_str(JSON_MIME_TYPE),
            },
            SavePhase::Uploading { file_id } => DriveStep::Write {
                url: upload_url(file_id.as_str()),
                content_type: String::from_str(JSON_MIME_TYPE),
            },
        }
    }

    /// Takes the answer of the drive to the pending request.
    pub fn advance(self, reply: DriveReply) -> (progress: SaveProgress)
        ensures
            match progress {
                SaveProgress::Continue(next) => next.file == self.file && save_advance(
                    self.file,
                    self.phase@,
                    reply@,
                ) == SaveResult::Continue(next.phase@),
                SaveProgress::Saved { file_id } => save_advance(self.file, self.phase@, reply@)
                    == (SaveResult::Saved { file_id: file_id@ }),
                SaveProgress::Failed(error) => save_advance(self.file, self.phase@, reply@)
                    == SaveResult::Failed(error),
            },
    {
        let SaveSession { file, phase } = self;
        let fault = match &reply {
            DriveReply::Unanswered => DriveFault::Unanswered,
            _ => DriveFault::Unreadable,
        };
        match phase {
            SavePhase::Searching => match reply {
                DriveReply::Listing(Some(Some(file_id))) => SaveProgress::Continue(
                    SaveSession { file, phase: SavePhase::Updating { file_id } },
                ),
                DriveReply::Listing(Some(None)) => SaveProgress::Continue(
                    SaveSession { file, phase: SavePhase::Updating { file_id: String::new() } },
                ),
                DriveReply::Listing(None) => SaveProgress::Continue(
                    SaveSession { file, phase: SavePhase::Creating },
                ),
                _ => SaveProgress::Failed(DriveError { stage: DriveStage::Search, fault }),
            },
            SavePhase::Updating { file_id } => match reply {
                DriveReply::Answered { success } => {
                    if success || file == DriveFile::Metadata {
                        SaveProgress::Saved { file_id }
                    } else {
                        SaveProgress::Failed(
                            DriveError { stage: DriveStage::Update, fault: DriveFault::Refused },
                        )
                    }
                },
                _ => SaveProgress::Failed(DriveError { stage: DriveStage::Update, fault }),
            },
            SavePhase::Creating => match reply {
                DriveReply::Created(Some(file_id)) => SaveProgress::Continue(
                    SaveSession { file, phase: SavePhase::Uploading { file_id } },
                ),
                DriveReply::Created(None) => SaveProgress::Failed(
                    DriveError { stage: DriveStage::Create, fault: DriveFault::MissingFileId },
                ),
                _ => SaveProgress::Failed(DriveError { stage: DriveStage::Create, fault }),
            },
            SavePhase::Uploading { file_id } => match reply {
                DriveReply::Answered { success } => SaveProgress::Saved { file_id },
                _ => SaveProgress::Failed(DriveError { stage: DriveStage::Upload, fault }),
            },
        }
    }
}

/// Where a load stands, as contracts speak of it.
pub enum LoadState {
    Searching,
    Downloading { file_id: Seq<char> },
}

/// What follows an answer to a load, as contracts speak of it.
pub enum LoadResult {
    Continue(LoadState),
    /// There is no file of that name.
    Absent,
    /// The content of the file was read.
    Loaded,
    Failed(DriveError),
}

/// What follows the answer of the drive to the pending request of a load.
/// A search that finds no file ends the load without content; one that finds
/// a file leads to the download of the first.
pub open spec fn load_advance(state: LoadState, answer: DriveAnswer) -> LoadResult {
    match state {
        LoadState::Searching => match answer {
            DriveAnswer::Listing(Some(id)) => LoadResult::Continue(
                LoadState::Downloading { file_id: found_id(id) },
            ),
            DriveAnswer::Listing(None) => LoadResult::Absent,
            _ => LoadResult::Failed(
                DriveError { stage: DriveStage::Search, fault: fault_of(answer) },
            ),
        },
        LoadState::Downloading { file_id } => match answer {
            DriveAnswer::Answered { success } => LoadResult::Loaded,
            _ => LoadResult::Failed(
                DriveError { stage: DriveStage::Download, fault: fault_of(answer) },
            ),
        },
    }
}

/// The request that is pending in a load.
pub open spec fn load_pending(file: DriveFile, state: LoadState) -> DriveRequest {
    match state {
        LoadState::Searching => DriveRequest::Search { url: FILES_URL@, query: search_query(file) },
        LoadState::Downloading { file_id } => DriveRequest::Read {
            url: spec_download_url(file_id),
        },
    }
}

/// Where a load stands.
pub enum LoadPhase {
    Searching,
    Downloading { file_id: String },
}

impl View for LoadPhase {
    type V = LoadState;

    open spec fn view(&self) -> LoadState {
        match self {
            LoadPhase::Searching => LoadState::Searching,
            LoadPhase::Downloading { file_id } => LoadState::Downloading { file_id: file_id@ },
        }
    }
}

/// One load in progress: a request is pending.
pub struct LoadSession {
    pub file: DriveFile,
    pub phase: LoadPhase,
}

/// Where a load stands after an answer.
pub enum LoadProgress {
    /// Another request is pending.
    Continue(LoadSession),
    /// There is no file of that name on the drive.
    Absent,
    /// The answer that was just read is the content of the file.
    Loaded,
    /// The load failed.
    Failed(DriveError),
}

impl LoadSession {
    /// Starts loading `file`.
    pub fn begin(file: DriveFile) -> (session: LoadSession)
        ensures
            session.file == file,
            session.phase@ == LoadState::Searching,
    {
        LoadSession { file, phase: LoadPhase::Searching }
    }

    /// The request to send next.
    pub fn pending(&self) -> (step: DriveStep)
        ensures
            step@ == load_pending(self.file, self.phase@),
    {
        match &self.phase {
            LoadPhase::Searching => DriveStep::Search {
                url: String::from_str(FILES_URL),
                query: self.file.query(),
            },
            LoadPhase::Downloading { file_id } => DriveStep::Read {
                url: download_url(file_id.as_str()),
            },
        }
    }

    /// Takes the answer of the drive to the pending request.
    pub fn advance(self, reply: DriveReply) -> (progress: LoadProgress)
        ensures
            match progress {
                LoadProgress::Continue(next) => next.file == self.file && load_advance(
                    self.phase@,
                    reply@,
                ) == LoadResult::Continue(next.phase@),
                LoadProgress::Absent => load_advance(self.phase@, reply@) == LoadResult::Absent,
                LoadProgress::Loaded => load_advance(self.phase@, reply@) == LoadResult::Loaded,
                LoadProgress::Failed(error) => load_advance(self.phase@, reply@)
                    == LoadResult::Failed(error),
            },
    {
        let LoadSession { file, phase } = self;
        let fault = match &reply {
            DriveReply::Unanswered => DriveFault::Unanswered,
            _ => DriveFault::Unreadable,
        };
        match phase {
            LoadPhase::Searching => match reply {
                DriveReply::Listing(Some(Some(file_id))) => LoadProgress::Continue(
                    LoadSession { file, phase: LoadPhase::Downloading { file_id } },
                ),
                DriveReply::Listing(Some(None)) => LoadProgress::Continue(
                    LoadSession { file, phase: LoadPhase::Downloading { file_id: String::new() } },
                ),
                DriveReply::Listing(None) => LoadProgress::Absent,
                _ => LoadProgress::Failed(DriveError { stage: DriveStage::Search, fault }),
            },
            LoadPhase::Downloading { file_id } => match reply {
                DriveReply::Answered { success } => LoadProgress::Loaded,
                _ => LoadProgress::Failed(DriveError { stage: DriveStage::Download, fault }),
            },
        }
    }
}

/// Where the holder of a token is asked for.
pub const USER_INFO_URL: &'static str = "https://www.googleapis.com/oauth2/v3/userinfo";

/// Where access to the drive is probed.
pub const DRIVE_ABOUT_URL: &'static str = "https://www.googleapis.com/drive/v3/about?fields=user";

/// What is wrong with a token, going by the answer to the question who holds
/// it: nothing if the answer reports success, and otherwise that the token
/// was refused, or that the question was not answered or the answer not
/// readable.
pub fn token_fault(reply: &DriveReply) -> (fault: Option<DriveFault>)
    ensures
        fault == match reply@ {
            DriveAnswer::Answered { success } => if success {
                None
            } else {
                Some(DriveFault::Refused)
            },
            _ => Some(fault_of(reply@)),
        },
{
    match reply {
        DriveReply::Answered { success } => {
            if *success {
                None
            } else {
                Some(DriveFault::Refused)
            }
        },
        DriveReply::Unanswered => Some(DriveFault::Unanswered),
        _ => Some(DriveFault::Unreadable),
    }
}

/// Whether the drive may be used, going by the answer to a probe: only if
/// the probe was answered with success.
pub fn has_drive_access(reply: &DriveReply) -> (granted: bool)
    ensures
        granted == (reply@ == (DriveAnswer::Answered { success: true })),
{
    match reply {
        DriveReply::Answered { success } => *success,
        _ => false,
    }
}

} // verus!
