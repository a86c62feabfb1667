use galleria::auth::CloudConfig;
use galleria::batch::{BatchProgress, BatchSession};
use galleria::error::GalleryError;
use galleria::models::{PhotoMetadata, S3Config};

fn photo(id: &str) -> PhotoMetadata {
    PhotoMetadata {
        id: id.to_string(),
        original_name: String::new(),
        upload_date: String::new(),
        file_size: 0,
        thumbnail_url: String::new(),
        small_url: String::new(),
        medium_url: String::new(),
        large_url: String::new(),
        original_url: String::new(),
        width: 0,
        height: 0,
    }
}

fn files(names: &[&str]) -> Vec<String> {
    names.iter().map(|name| name.to_string()).collect()
}

#[test]
fn a_batch_takes_files_in_order() {
    let mut session = match BatchSession::begin(files(&["a.jpg", "b.png", "c.gif"])) {
        BatchProgress::Continue(session) => session,
        _ => panic!("three files are pending"),
    };
    let mut seen = Vec::new();
    let records = loop {
        let step = session.pending();
        seen.push((step.file.to_string(), step.completed, step.total));
        let record = photo(step.file);
        match session.advance(Ok(record)) {
            BatchProgress::Continue(next) => session = next,
            BatchProgress::Complete(records) => break records,
            BatchProgress::Failed(error) => panic!("{:?}", error),
        }
    };
    assert_eq!(
        seen,
        vec![("a.jpg".to_string(), 0, 3), ("b.png".to_string(), 1, 3), ("c.gif".to_string(), 2, 3)]
    );
    assert_eq!(records, vec![photo("a.jpg"), photo("b.png"), photo("c.gif")]);
}

#[test]
fn progress_never_goes_back() {
    let mut session = match BatchSession::begin(files(&["a", "b", "c", "d"])) {
        BatchProgress::Continue(session) => session,
        _ => panic!("four files are pending"),
    };
    let mut last = 0.0f32;
    loop {
        let step = session.pending();
        let fraction = step.completed as f32 / step.total as f32 * 100.0;
        assert!(fraction >= last && fraction < 100.0);
        last = fraction;
        match session.advance(Ok(photo("x"))) {
            BatchProgress::Continue(next) => session = next,
            _ => break,
        }
    }
    assert_eq!(last, 75.0);
}

#[test]
fn the_first_failure_ends_the_batch() {
    let session = match BatchSession::begin(files(&["a.jpg", "broken", "c.jpg"])) {
        BatchProgress::Continue(session) => session,
        _ => panic!("three files are pending"),
    };
    let session = match session.advance(Ok(photo("a"))) {
        BatchProgress::Continue(session) => session,
        _ => panic!("two files are pending"),
    };
    assert_eq!(session.pending().file, "broken");
    match session.advance(Err(GalleryError::Decode)) {
        BatchProgress::Failed(error) => assert_eq!(error, GalleryError::Decode),
        _ => panic!("the batch must fail"),
    }
}

#[test]
fn a_batch_without_files_is_complete() {
    match BatchSession::begin(Vec::new()) {
        BatchProgress::Complete(records) => assert!(records.is_empty()),
        _ => panic!("nothing is pending"),
    }
}

#[test]
fn a_saved_configuration_carries_the_settings_and_a_date() {
    let config = S3Config {
        bucket: "pics".to_string(),
        region: "eu-west-1".to_string(),
        access_key: "AK".to_string(),
        secret_key: "SK".to_string(),
    };
    let saved = CloudConfig::dated(&config, "2024-05-17T09:30:00+00:00".to_string());
    assert_eq!(
        saved,
        CloudConfig {
            bucket: "pics".to_string(),
            region: "eu-west-1".to_string(),
            access_key: "AK".to_string(),
            secret_key: "SK".to_string(),
            last_updated: "2024-05-17T09:30:00+00:00".to_string(),
        }
    );
    assert_eq!(saved.store_config(), config);
    let now = CloudConfig::snapshot(&config);
    assert_eq!(now.store_config(), config);
    assert!(chrono::DateTime::parse_from_rfc3339(&now.last_updated).is_ok());
}
