use galleria::drive::{
    download_url, has_drive_access, token_fault, upload_url, DriveError, DriveFault, DriveFile,
    DriveReply, DriveStage, DriveStep, LoadProgress, LoadSession, SaveProgress, SaveSession,
    DRIVE_ABOUT_URL, FILES_URL, JSON_MIME_TYPE, USER_INFO_URL,
};

fn saved(file: DriveFile, replies: Vec<DriveReply>) -> (Vec<DriveStep>, Result<String, DriveError>) {
    let mut session = SaveSession::begin(file);
    let mut steps = Vec::new();
    for reply in replies {
        steps.push(session.pending());
        match session.advance(reply) {
            SaveProgress::Continue(next) => session = next,
            SaveProgress::Saved { file_id } => return (steps, Ok(file_id)),
            SaveProgress::Failed(error) => return (steps, Err(error)),
        }
    }
    panic!("the save is not over");
}

fn loaded(file: DriveFile, replies: Vec<DriveReply>) -> (Vec<DriveStep>, Result<bool, DriveError>) {
    let mut session = LoadSession::begin(file);
    let mut steps = Vec::new();
    for reply in replies {
        steps.push(session.pending());
        match session.advance(reply) {
            LoadProgress::Continue(next) => session = next,
            LoadProgress::Absent => return (steps, Ok(false)),
            LoadProgress::Loaded => return (steps, Ok(true)),
            LoadProgress::Failed(error) => return (steps, Err(error)),
        }
    }
    panic!("the load is not over");
}

fn found(id: &str) -> DriveReply {
    DriveReply::Listing(Some(Some(id.to_string())))
}

fn search(file: &str) -> DriveStep {
    DriveStep::Search {
        url: "https://www.googleapis.com/drive/v3/files".to_string(),
        query: format!("name='{}' and trashed=false", file),
    }
}

fn write(id: &str) -> DriveStep {
    DriveStep::Write {
        url: format!("https://www.googleapis.com/upload/drive/v3/files/{}?uploadType=media", id),
        content_type: "application/json".to_string(),
    }
}

fn failure(stage: DriveStage, fault: DriveFault) -> DriveError {
    DriveError { stage, fault }
}

#[test]
fn addresses_and_names_are_fixed() {
    assert_eq!(FILES_URL, "https://www.googleapis.com/drive/v3/files");
    assert_eq!(JSON_MIME_TYPE, "application/json");
    assert_eq!(USER_INFO_URL, "https://www.googleapis.com/oauth2/v3/userinfo");
    assert_eq!(DRIVE_ABOUT_URL, "https://www.googleapis.com/drive/v3/about?fields=user");
    assert_eq!(DriveFile::Config.name(), "galleria_config.json");
    assert_eq!(DriveFile::Metadata.name(), "galleria_metadata.json");
    assert_eq!(DriveFile::Config.query(), "name='galleria_config.json' and trashed=false");
    assert_eq!(upload_url("f1"), "https://www.googleapis.com/upload/drive/v3/files/f1?uploadType=media");
    assert_eq!(download_url("f1"), "https://www.googleapis.com/drive/v3/files/f1?alt=media");
}

#[test]
fn an_existing_file_is_overwritten() {
    let (steps, result) = saved(DriveFile::Config, vec![found("f1"), DriveReply::Answered { success: true }]);
    assert_eq!(steps, vec![search("galleria_config.json"), write("f1")]);
    assert_eq!(result, Ok("f1".to_string()));
}

#[test]
fn a_refused_update_fails_the_configuration_only() {
    let refused = vec![found("f1"), DriveReply::Answered { success: false }];
    assert_eq!(
        saved(DriveFile::Config, refused.clone()).1,
        Err(failure(DriveStage::Update, DriveFault::Refused))
    );
    assert_eq!(saved(DriveFile::Metadata, refused).1, Ok("f1".to_string()));
}

#[test]
fn a_found_file_without_identifier_is_written_under_the_empty_one() {
    let replies = vec![DriveReply::Listing(Some(None)), DriveReply::Answered { success: true }];
    let (steps, result) = saved(DriveFile::Metadata, replies);
    assert_eq!(steps, vec![search("galleria_metadata.json"), write("")]);
    assert_eq!(result, Ok(String::new()));
}

#[test]
fn a_missing_file_is_created_and_filled() {
    let replies = vec![
        DriveReply::Listing(None),
        DriveReply::Created(Some("new".to_string())),
        DriveReply::Answered { success: false },
    ];
    let (steps, result) = saved(DriveFile::Config, replies);
    assert_eq!(
        steps,
        vec![
            search("galleria_config.json"),
            DriveStep::Create {
                url: "https://www.googleapis.com/drive/v3/files".to_string(),
                name: "galleria_config.json".to_string(),
                mime_type: "application/json".to_string(),
            },
            write("new"),
        ]
    );
    assert_eq!(result, Ok("new".to_string()));
}

#[test]
fn a_save_fails_at_the_request_that_fails() {
    let unanswered = DriveReply::Unanswered;
    assert_eq!(
        saved(DriveFile::Config, vec![unanswered.clone()]).1,
        Err(failure(DriveStage::Search, DriveFault::Unanswered))
    );
    assert_eq!(
        saved(DriveFile::Config, vec![DriveReply::Unreadable]).1,
        Err(failure(DriveStage::Search, DriveFault::Unreadable))
    );
    assert_eq!(
        saved(DriveFile::Config, vec![found("f"), unanswered.clone()]).1,
        Err(failure(DriveStage::Update, DriveFault::Unanswered))
    );
    assert_eq!(
        saved(DriveFile::Config, vec![DriveReply::Listing(None), unanswered.clone()]).1,
        Err(failure(DriveStage::Create, DriveFault::Unanswered))
    );
    assert_eq!(
        saved(DriveFile::Config, vec![DriveReply::Listing(None), DriveReply::Unreadable]).1,
        Err(failure(DriveStage::Create, DriveFault::Unreadable))
    );
    assert_eq!(
        saved(DriveFile::Config, vec![DriveReply::Listing(None), DriveReply::Created(None)]).1,
        Err(failure(DriveStage::Create, DriveFault::MissingFileId))
    );
    let replies = vec![DriveReply::Listing(None), DriveReply::Created(Some("n".to_string())), unanswered];
    assert_eq!(saved(DriveFile::Metadata, replies).1, Err(failure(DriveStage::Upload, DriveFault::Unanswered)));
}

#[test]
fn an_answer_of_the_wrong_kind_is_unreadable() {
    assert_eq!(
        saved(DriveFile::Config, vec![DriveReply::Answered { success: true }]).1,
        Err(failure(DriveStage::Search, DriveFault::Unreadable))
    );
    assert_eq!(
        saved(DriveFile::Config, vec![found("f"), found("g")]).1,
        Err(failure(DriveStage::Update, DriveFault::Unreadable))
    );
    assert_eq!(
        loaded(DriveFile::Config, vec![DriveReply::Created(None)]).1,
        Err(failure(DriveStage::Search, DriveFault::Unreadable))
    );
}

#[test]
fn the_first_file_is_downloaded() {
    let (steps, result) = loaded(DriveFile::Config, vec![found("f1"), DriveReply::Answered { success: true }]);
    assert_eq!(
        steps,
        vec![
            search("galleria_config.json"),
            DriveStep::Read { url: "https://www.googleapis.com/drive/v3/files/f1?alt=media".to_string() },
        ]
    );
    assert_eq!(result, Ok(true));
    let replies = vec![DriveReply::Listing(Some(None)), DriveReply::Answered { success: false }];
    let (steps, result) = loaded(DriveFile::Metadata, replies);
    assert_eq!(steps[1], DriveStep::Read { url: "https://www.googleapis.com/drive/v3/files/?alt=media".to_string() });
    assert_eq!(result, Ok(true));
}

#[test]
fn no_file_is_no_content() {
    let (steps, result) = loaded(DriveFile::Metadata, vec![DriveReply::Listing(None)]);
    assert_eq!(steps, vec![search("galleria_metadata.json")]);
    assert_eq!(result, Ok(false));
}

#[test]
fn a_load_fails_at_the_request_that_fails() {
    assert_eq!(
        loaded(DriveFile::Config, vec![DriveReply::Unanswered]).1,
        Err(failure(DriveStage::Search, DriveFault::Unanswered))
    );
    assert_eq!(
        loaded(DriveFile::Config, vec![found("f"), DriveReply::Unanswered]).1,
        Err(failure(DriveStage::Download, DriveFault::Unanswered))
    );
    assert_eq!(
        loaded(DriveFile::Config, vec![found("f"), DriveReply::Unreadable]).1,
        Err(failure(DriveStage::Download, DriveFault::Unreadable))
    );
}

#[test]
fn a_token_is_judged_by_the_answer() {
    assert_eq!(token_fault(&DriveReply::Answered { success: true }), None);
    assert_eq!(token_fault(&DriveReply::Answered { success: false }), Some(DriveFault::Refused));
    assert_eq!(token_fault(&DriveReply::Unanswered), Some(DriveFault::Unanswered));
    assert_eq!(token_fault(&DriveReply::Unreadable), Some(DriveFault::Unreadable));
    assert_eq!(token_fault(&DriveReply::Listing(None)), Some(DriveFault::Unreadable));
}

#[test]
fn drive_access_needs_a_successful_probe() {
    assert!(has_drive_access(&DriveReply::Answered { success: true }));
    assert!(!has_drive_access(&DriveReply::Answered { success: false }));
    assert!(!has_drive_access(&DriveReply::Unanswered));
    assert!(!has_drive_access(&DriveReply::Unreadable));
    assert!(!has_drive_access(&DriveReply::Created(None)));
}
