use smolpaste::auth::CountOutcome;
use smolpaste::protocol::{
    delete_paste_start, delete_paste_step, new_paste_start, new_paste_step, DeleteAction,
    DeleteEvent, NewPasteAction, NewPasteEvent, NewPasteState, PopOutcome, UploadField,
};
use smolpaste::types::{FileNameWrapper, IdTokenParam, TokenParam};

const BASE: &str = "http://127.0.0.1:3001";

fn is_canonical_uuid(s: &str) -> bool {
    if s.len() != 36 {
        return false;
    }
    for (i, c) in s.chars().enumerate() {
        if i == 8 || i == 13 || i == 18 || i == 23 {
            if c != '-' {
                return false;
            }
        } else if !(c.is_ascii_digit() || ('a'..='f').contains(&c)) {
            return false;
        }
    }
    uuid::Uuid::parse_str(s).is_ok()
}

fn start_upload(token: &str) -> (NewPasteState, String) {
    let (st, action) = new_paste_start(TokenParam { token: token.to_string() });
    match action {
        NewPasteAction::LookUpToken { token } => (st, token),
        _ => panic!("expected a token lookup"),
    }
}

#[test]
fn upload_txt_full_flow() {
    let (st, token) = start_upload("T1");
    assert_eq!(token, "T1");
    let (st, action) = new_paste_step(st, NewPasteEvent::TokenCount(CountOutcome::Count(1)), BASE);
    assert!(matches!(action, NewPasteAction::ReadField));

    let field = UploadField { file_name: Some("hello.txt".to_string()) };
    let (st, action) = new_paste_step(st, NewPasteEvent::FieldRead(Some(field)), BASE);
    let filename = match action {
        NewPasteAction::WriteFile { filename } => filename,
        _ => panic!("expected a file write"),
    };
    assert_eq!(filename.len(), 40);
    assert!(filename.ends_with(".txt"));
    let id = filename[..36].to_string();
    assert!(is_canonical_uuid(&id));

    let (st, action) = new_paste_step(st, NewPasteEvent::Written(Some(3)), BASE);
    let row = match action {
        NewPasteAction::InsertRow { row } => row,
        _ => panic!("expected a row insert"),
    };
    assert_eq!(row.id, id);
    assert_eq!(row.size, 3);
    assert_eq!(row.filename, filename);

    let (_st, action) = new_paste_step(st, NewPasteEvent::Inserted(true), BASE);
    match action {
        NewPasteAction::Respond { status, body } => {
            assert_eq!(status, 200);
            assert_eq!(body, format!("{}/paste/{}", BASE, filename));
        },
        _ => panic!("expected a response"),
    }
}

#[test]
fn upload_without_extension() {
    let (st, _token) = start_upload("T1");
    let (st, _action) =
        new_paste_step(st, NewPasteEvent::TokenCount(CountOutcome::Count(1)), BASE);
    let field = UploadField { file_name: Some("data".to_string()) };
    let (st, action) = new_paste_step(st, NewPasteEvent::FieldRead(Some(field)), BASE);
    let filename = match action {
        NewPasteAction::WriteFile { filename } => filename,
        _ => panic!("expected a file write"),
    };
    assert!(is_canonical_uuid(&filename));
    assert!(!filename.contains('.'));

    let (st, action) = new_paste_step(st, NewPasteEvent::Written(Some(10)), BASE);
    let row = match action {
        NewPasteAction::InsertRow { row } => row,
        _ => panic!("expected a row insert"),
    };
    assert_eq!(row.size, 10);

    let (_st, action) = new_paste_step(st, NewPasteEvent::Inserted(true), BASE);
    match action {
        NewPasteAction::Respond { status, body } => {
            assert_eq!(status, 200);
            assert!(body.ends_with(&format!("/paste/{}", filename)));
        },
        _ => panic!("expected a response"),
    }
}

#[test]
fn upload_unknown_token_is_rejected() {
    let (st, _token) = start_upload("WRONG");
    let (st, action) = new_paste_step(st, NewPasteEvent::TokenCount(CountOutcome::Count(0)), BASE);
    match action {
        NewPasteAction::Respond { status, body } => {
            assert_eq!(status, 401);
            assert_eq!(body, "");
        },
        _ => panic!("an unauthorized upload must respond at once, touching nothing"),
    }
    assert!(matches!(st, NewPasteState::Done));
}

#[test]
fn upload_no_row_report_is_rejected() {
    let (st, _token) = start_upload("WRONG");
    let (_st, action) = new_paste_step(st, NewPasteEvent::TokenCount(CountOutcome::NoRow), BASE);
    match action {
        NewPasteAction::Respond { status, .. } => assert_eq!(status, 401),
        _ => panic!("expected a response"),
    }
}

#[test]
fn upload_duplicate_token_count_is_internal() {
    let (st, _token) = start_upload("T1");
    let (_st, action) = new_paste_step(st, NewPasteEvent::TokenCount(CountOutcome::Count(2)), BASE);
    match action {
        NewPasteAction::Respond { status, .. } => assert_eq!(status, 500),
        _ => panic!("expected a response"),
    }
}

#[test]
fn upload_without_field_is_bad_request() {
    let (st, _token) = start_upload("T1");
    let (st, _action) =
        new_paste_step(st, NewPasteEvent::TokenCount(CountOutcome::Count(1)), BASE);
    let (_st, action) = new_paste_step(st, NewPasteEvent::FieldRead(None), BASE);
    match action {
        NewPasteAction::Respond { status, body } => {
            assert_eq!(status, 400);
            assert_eq!(body, "");
        },
        _ => panic!("expected a response"),
    }
}

#[test]
fn upload_without_filename_is_bad_request() {
    let (st, _token) = start_upload("T1");
    let (st, _action) =
        new_paste_step(st, NewPasteEvent::TokenCount(CountOutcome::Count(1)), BASE);
    let field = UploadField { file_name: None };
    let (_st, action) = new_paste_step(st, NewPasteEvent::FieldRead(Some(field)), BASE);
    match action {
        NewPasteAction::Respond { status, .. } => assert_eq!(status, 400),
        _ => panic!("expected a response"),
    }
}

#[test]
fn upload_write_failure_is_internal() {
    let (st, _token) = start_upload("T1");
    let (st, _action) =
        new_paste_step(st, NewPasteEvent::TokenCount(CountOutcome::Count(1)), BASE);
    let field = UploadField { file_name: Some("a.bin".to_string()) };
    let (st, _action) = new_paste_step(st, NewPasteEvent::FieldRead(Some(field)), BASE);
    let (_st, action) = new_paste_step(st, NewPasteEvent::Written(None), BASE);
    match action {
        NewPasteAction::Respond { status, .. } => assert_eq!(status, 500),
        _ => panic!("expected a response"),
    }
}

#[test]
fn upload_oversized_body_is_rejected() {
    let (st, _token) = start_upload("T1");
    let (st, _action) =
        new_paste_step(st, NewPasteEvent::TokenCount(CountOutcome::Count(1)), BASE);
    let field = UploadField { file_name: Some("big".to_string()) };
    let (st, _action) = new_paste_step(st, NewPasteEvent::FieldRead(Some(field)), BASE);
    let too_big = u32::MAX as u64 + 1;
    let (_st, action) = new_paste_step(st, NewPasteEvent::Written(Some(too_big)), BASE);
    match action {
        NewPasteAction::Respond { status, .. } => assert_eq!(status, 500),
        _ => panic!("a body over four gibibytes cannot be recorded"),
    }
}

#[test]
fn upload_insert_failure_is_internal() {
    let (st, _token) = start_upload("T1");
    let (st, _action) =
        new_paste_step(st, NewPasteEvent::TokenCount(CountOutcome::Count(1)), BASE);
    let field = UploadField { file_name: Some("a.txt".to_string()) };
    let (st, _action) = new_paste_step(st, NewPasteEvent::FieldRead(Some(field)), BASE);
    let (st, _action) = new_paste_step(st, NewPasteEvent::Written(Some(1)), BASE);
    let (_st, action) = new_paste_step(st, NewPasteEvent::Inserted(false), BASE);
    match action {
        NewPasteAction::Respond { status, .. } => assert_eq!(status, 500),
        _ => panic!("expected a response"),
    }
}

#[test]
fn upload_event_out_of_turn_is_internal() {
    let (st, _token) = start_upload("T1");
    let (_st, action) = new_paste_step(st, NewPasteEvent::Inserted(true), BASE);
    match action {
        NewPasteAction::Respond { status, .. } => assert_eq!(status, 500),
        _ => panic!("expected a response"),
    }
}

fn start_delete(token: &str, id: &str) -> (smolpaste::protocol::DeleteState, String, String) {
    let (st, action) =
        delete_paste_start(IdTokenParam { token: token.to_string(), id: id.to_string() });
    match action {
        DeleteAction::LookUpToken { token } => (st, token, id.to_string()),
        _ => panic!("expected a token lookup"),
    }
}

#[test]
fn delete_full_flow() {
    let id = "0123abcd-0123-4bcd-8123-0123456789ab";
    let (st, token, _) = start_delete("T1", id);
    assert_eq!(token, "T1");
    let (st, action) = delete_paste_step(st, DeleteEvent::TokenCount(CountOutcome::Count(1)));
    match &action {
        DeleteAction::PopRow { id: popped } => assert_eq!(popped, id),
        _ => panic!("expected the row to be popped"),
    }
    let stored = format!("{}.txt", id);
    let row = FileNameWrapper { filename: stored.clone() };
    let (st, action) = delete_paste_step(st, DeleteEvent::Popped(PopOutcome::Row(row)));
    match &action {
        DeleteAction::RemoveFile { filename } => assert_eq!(filename, &stored),
        _ => panic!("expected the file to be unlinked"),
    }
    let (_st, action) = delete_paste_step(st, DeleteEvent::Unlinked(true));
    match action {
        DeleteAction::Respond { status } => assert_eq!(status, 200),
        _ => panic!("expected a response"),
    }
}

#[test]
fn delete_unknown_id_is_not_found() {
    let (st, _token, _) = start_delete("T1", "11111111-2222-4333-8444-555555555555");
    let (st, _action) = delete_paste_step(st, DeleteEvent::TokenCount(CountOutcome::Count(1)));
    let (_st, action) = delete_paste_step(st, DeleteEvent::Popped(PopOutcome::NoRow));
    match action {
        DeleteAction::Respond { status } => assert_eq!(status, 404),
        _ => panic!("expected a response"),
    }
}

#[test]
fn delete_serialized_twice_gives_one_success() {
    // Two concurrent deletes for the same id: the store serializes the two
    // atomic pop round-trips, so one sees the row and one does not.
    let id = "0123abcd-0123-4bcd-8123-0123456789ab";

    let (st1, _, _) = start_delete("T1", id);
    let (st1, _action) = delete_paste_step(st1, DeleteEvent::TokenCount(CountOutcome::Count(1)));
    let (st2, _, _) = start_delete("T1", id);
    let (st2, _action) = delete_paste_step(st2, DeleteEvent::TokenCount(CountOutcome::Count(1)));

    let row = FileNameWrapper { filename: id.to_string() };
    let (st1, _action) = delete_paste_step(st1, DeleteEvent::Popped(PopOutcome::Row(row)));
    let (_st2, second) = delete_paste_step(st2, DeleteEvent::Popped(PopOutcome::NoRow));
    let (_st1, first) = delete_paste_step(st1, DeleteEvent::Unlinked(true));

    let first_status = match first {
        DeleteAction::Respond { status } => status,
        _ => panic!("expected a response"),
    };
    let second_status = match second {
        DeleteAction::Respond { status } => status,
        _ => panic!("expected a response"),
    };
    assert_eq!(first_status, 200);
    assert_eq!(second_status, 404);
}

#[test]
fn delete_unknown_token_is_rejected() {
    let (st, _token, _) = start_delete("WRONG", "0123abcd-0123-4bcd-8123-0123456789ab");
    let (st, action) = delete_paste_step(st, DeleteEvent::TokenCount(CountOutcome::NoRow));
    match action {
        DeleteAction::Respond { status } => assert_eq!(status, 401),
        _ => panic!("an unauthorized delete must respond at once, touching nothing"),
    }
    assert!(matches!(st, smolpaste::protocol::DeleteState::Done));
}

#[test]
fn delete_store_failure_is_internal() {
    let (st, _token, _) = start_delete("T1", "0123abcd-0123-4bcd-8123-0123456789ab");
    let (st, _action) = delete_paste_step(st, DeleteEvent::TokenCount(CountOutcome::Count(1)));
    let (_st, action) = delete_paste_step(st, DeleteEvent::Popped(PopOutcome::Failure));
    match action {
        DeleteAction::Respond { status } => assert_eq!(status, 500),
        _ => panic!("expected a response"),
    }
}

#[test]
fn delete_unlink_failure_is_internal() {
    let (st, _token, _) = start_delete("T1", "0123abcd-0123-4bcd-8123-0123456789ab");
    let (st, _action) = delete_paste_step(st, DeleteEvent::TokenCount(CountOutcome::Count(1)));
    let row = FileNameWrapper { filename: "0123abcd-0123-4bcd-8123-0123456789ab".to_string() };
    let (st, _action) = delete_paste_step(st, DeleteEvent::Popped(PopOutcome::Row(row)));
    let (_st, action) = delete_paste_step(st, DeleteEvent::Unlinked(false));
    match action {
        DeleteAction::Respond { status } => assert_eq!(status, 500),
        _ => panic!("expected a response"),
    }
}

#[test]
fn two_uploads_store_distinct_filenames() {
    // Fresh ids keep files and rows in one-to-one correspondence.
    let mut names = Vec::new();
    for _ in 0..2 {
        let (st, _token) = start_upload("T1");
        let (st, _action) =
            new_paste_step(st, NewPasteEvent::TokenCount(CountOutcome::Count(1)), BASE);
        let field = UploadField { file_name: Some("same.txt".to_string()) };
        let (_st, action) = new_paste_step(st, NewPasteEvent::FieldRead(Some(field)), BASE);
        match action {
            NewPasteAction::WriteFile { filename } => names.push(filename),
            _ => panic!("expected a file write"),
        }
    }
    assert_ne!(names[0], names[1]);
}
