use resume_backend::documents::{
    choose_file_name, staged_path, Deletion, DeletionAction, DeletionEvent, Upload, UploadAction, UploadEvent, UPLOAD_DIR,
};
use resume_backend::error::{ErrorKind, ErrorMessage};
use resume_backend::models::StoreError;

const OWNER: u128 = 99;

#[test]
fn staged_path_joins_directory_and_name() {
    assert_eq!(staged_path("./uploads/temp", "cv.pdf"), "./uploads/temp/cv.pdf");
    assert_eq!(staged_path("", "a"), "/a");
}

#[test]
fn declared_file_name_is_kept_else_fresh_one_used() {
    assert_eq!(choose_file_name(Some("cv.pdf".to_string()), 5), "cv.pdf");
    assert_eq!(choose_file_name(None, 5), "00000000-0000-0000-0000-000000000005");
}

fn expect_insert(action: UploadAction) -> (String, Option<serde_json::Value>) {
    match action {
        UploadAction::InsertRecord { owner, path, analysis } => {
            assert_eq!(owner, OWNER);
            (path, analysis)
        }
        other => panic!("expected an insert, got {:?}", other),
    }
}

#[test]
fn failed_analysis_still_records_every_part() {
    let (up, action) = Upload::start(OWNER, UPLOAD_DIR);
    assert!(matches!(action, UploadAction::CreateDirectory { ref path } if path == "./uploads/temp"));
    let (up, action) = up.step(UploadEvent::DirectoryCreated(true));
    assert!(matches!(action, UploadAction::ReadNextPart));

    // First part: analysed.
    let (up, action) = up.step(UploadEvent::PartRead { file_name: Some("a.pdf".to_string()), fresh: 1 });
    assert!(matches!(action, UploadAction::WriteFile { ref path } if path == "./uploads/temp/a.pdf"));
    let (up, action) = up.step(UploadEvent::Written(true));
    assert!(matches!(action, UploadAction::Analyze { ref path, ref file_name }
        if path == "./uploads/temp/a.pdf" && file_name == "a.pdf"));
    let result = serde_json::Value::from("skills");
    let (up, action) = up.step(UploadEvent::Analyzed(Some(result.clone())));
    let (path, analysis) = expect_insert(action);
    assert_eq!(path, "./uploads/temp/a.pdf");
    assert_eq!(analysis, Some(result));
    let (up, action) = up.step(UploadEvent::Inserted(true));
    assert!(matches!(action, UploadAction::ReadNextPart));

    // Second part: the analysis fails.
    let (up, _) = up.step(UploadEvent::PartRead { file_name: Some("b.pdf".to_string()), fresh: 2 });
    let (up, _) = up.step(UploadEvent::Written(true));
    let (up, action) = up.step(UploadEvent::Analyzed(None));
    let (path, analysis) = expect_insert(action);
    assert_eq!(path, "./uploads/temp/b.pdf");
    assert_eq!(analysis, None);
    let (up, _) = up.step(UploadEvent::Inserted(true));

    let (up, action) = up.step(UploadEvent::NoMoreParts);
    assert!(matches!(action, UploadAction::Respond(Ok(()))));
    assert_eq!(up.recorded, 2);
}

#[test]
fn unreadable_part_is_bad_request() {
    let (up, _) = Upload::start(OWNER, UPLOAD_DIR);
    let (up, _) = up.step(UploadEvent::DirectoryCreated(true));
    let (_, action) = up.step(UploadEvent::PartUnreadable);
    match action {
        UploadAction::Respond(Err(e)) => {
            assert_eq!(e.status, ErrorKind::BadRequest);
            assert_eq!(e.reason, ErrorMessage::UploadUnreadable);
        }
        other => panic!("unexpected {:?}", other),
    }
}

#[test]
fn storage_failures_are_server_errors() {
    let (up, _) = Upload::start(OWNER, UPLOAD_DIR);
    let (_, action) = up.step(UploadEvent::DirectoryCreated(false));
    assert!(matches!(action, UploadAction::Respond(Err(e)) if e.status == ErrorKind::ServerError));

    let (up, _) = Upload::start(OWNER, UPLOAD_DIR);
    let (up, _) = up.step(UploadEvent::DirectoryCreated(true));
    let (up, action) = up.step(UploadEvent::PartRead { file_name: None, fresh: 3 });
    assert!(matches!(action, UploadAction::WriteFile { ref path }
        if path == "./uploads/temp/00000000-0000-0000-0000-000000000003"));
    let (_, action) = up.step(UploadEvent::Written(false));
    assert!(matches!(action, UploadAction::Respond(Err(e)) if e.status == ErrorKind::ServerError));

    let (up, _) = Upload::start(OWNER, UPLOAD_DIR);
    let (up, _) = up.step(UploadEvent::DirectoryCreated(true));
    let (up, _) = up.step(UploadEvent::PartRead { file_name: None, fresh: 3 });
    let (up, _) = up.step(UploadEvent::Written(true));
    let (up, _) = up.step(UploadEvent::Analyzed(None));
    let (up, action) = up.step(UploadEvent::Inserted(false));
    assert!(matches!(action, UploadAction::Respond(Err(e)) if e.status == ErrorKind::ServerError));
    assert_eq!(up.recorded, 0);
}

#[test]
fn event_out_of_turn_ends_upload() {
    let (up, _) = Upload::start(OWNER, UPLOAD_DIR);
    let (up, action) = up.step(UploadEvent::Written(true));
    assert!(matches!(action, UploadAction::Respond(Err(e)) if e.status == ErrorKind::ServerError));
    let (_, action) = up.step(UploadEvent::DirectoryCreated(true));
    assert!(matches!(action, UploadAction::Respond(Err(_))));
}

#[test]
fn deletion_succeeds_when_file_already_gone() {
    let (del, action) = Deletion::start(OWNER, 7);
    assert!(matches!(action, DeletionAction::LookupRecord { owner: OWNER, resume_id: 7 }));
    let (del, action) = del.step(DeletionEvent::LookedUp(Ok(Some("./uploads/temp/a.pdf".to_string()))));
    assert!(matches!(action, DeletionAction::DeleteRecord { owner: OWNER, resume_id: 7 }));
    let (del, action) = del.step(DeletionEvent::Deleted(Ok(())));
    assert!(matches!(action, DeletionAction::RemoveFile { ref path } if path == "./uploads/temp/a.pdf"));
    let (_, action) = del.step(DeletionEvent::FileRemoved(false));
    assert!(matches!(action, DeletionAction::Respond(Ok(()))));
}

#[test]
fn deletion_failures() {
    let (del, _) = Deletion::start(OWNER, 7);
    let (_, action) = del.step(DeletionEvent::LookedUp(Ok(None)));
    assert!(matches!(action, DeletionAction::Respond(Err(e))
        if e.status == ErrorKind::BadRequest && e.reason == ErrorMessage::ResumeNotFound));

    let (del, _) = Deletion::start(OWNER, 7);
    let (_, action) = del.step(DeletionEvent::LookedUp(Err(StoreError::Other)));
    assert!(matches!(action, DeletionAction::Respond(Err(e)) if e.status == ErrorKind::ServerError));

    let (del, _) = Deletion::start(OWNER, 7);
    let (del, _) = del.step(DeletionEvent::LookedUp(Ok(Some("p".to_string()))));
    let (_, action) = del.step(DeletionEvent::Deleted(Err(StoreError::Other)));
    assert!(matches!(action, DeletionAction::Respond(Err(e)) if e.status == ErrorKind::ServerError));
}
