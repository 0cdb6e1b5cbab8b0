use velox::dto::{CreateFolderRequest, LoginRequest, RenameFileRequest, RenameFolderRequest};
use velox::error::VeloxError;
use velox::files::FileService;
use velox::models::{File, Folder, User};
use velox::scoped::{FolderService, ScopedCommand, ScopedEvent, ScopedOutput, ScopedStep, UserService};
use velox::storage::{object_key, object_url};
use velox::time::Timestamp;

fn t0() -> Timestamp {
    Timestamp { secs: 0, nanos: 0 }
}

fn user(id: u128) -> User {
    User { id, email: "a@b.c".to_string(), name: Some("A".to_string()), avatar: None, gender: None, created_at: t0() }
}

fn folder(id: u128, user_id: u128) -> Folder {
    Folder { id, name: "f".to_string(), user_id, parent_id: None, created_at: t0() }
}

fn file(id: u128, owner: u128, url: &str) -> File {
    File {
        id,
        name: "n".to_string(),
        owner,
        url: url.to_string(),
        file_type: "text/plain".to_string(),
        size: 1,
        folder_id: None,
        created_at: t0(),
    }
}

fn run(step: ScopedStep) -> ScopedCommand {
    match step {
        ScopedStep::Run(c) => c,
        ScopedStep::Finish(r) => panic!("expected a command, got {:?}", r),
    }
}

fn finish(step: ScopedStep) -> Result<ScopedOutput, VeloxError> {
    match step {
        ScopedStep::Finish(r) => r,
        ScopedStep::Run(c) => panic!("expected a result, got {:?}", c),
    }
}

#[test]
fn create_folder_inside_a_parent() {
    let req = CreateFolderRequest { name: "docs".to_string(), parent_id: Some(3) };
    let (flow, step) = FolderService::create(&req, "a@b.c");
    assert!(matches!(run(step), ScopedCommand::FindUserByEmail(e) if e == "a@b.c"));
    let (flow, step) = flow.resume(ScopedEvent::UserLookup(Some(user(9))));
    assert!(matches!(run(step), ScopedCommand::FindParentFolder { parent: 3, user_id: 9 }));
    let (flow, step) = flow.resume(ScopedEvent::FolderLookup(Some(folder(3, 9))));
    assert!(matches!(run(step), ScopedCommand::CreateFolder { name, user_id: 9, parent_id: Some(3) } if name == "docs"));
    let (flow, step) = flow.resume(ScopedEvent::Done);
    assert!(matches!(run(step), ScopedCommand::Commit));
    let (_, step) = flow.resume(ScopedEvent::Done);
    assert!(matches!(finish(step), Ok(ScopedOutput::Nothing)));
}

#[test]
fn create_folder_refusals() {
    let req = CreateFolderRequest { name: "docs".to_string(), parent_id: Some(3) };
    let (flow, _) = FolderService::create(&req, "a@b.c");
    let (flow, _) = flow.resume(ScopedEvent::UserLookup(Some(user(9))));
    let (_, step) = flow.resume(ScopedEvent::FolderLookup(None));
    assert_eq!(finish(step).unwrap_err(), VeloxError::NotFound);

    let (flow, _) = FolderService::create(&req, "a@b.c");
    let (_, step) = flow.resume(ScopedEvent::UserLookup(None));
    assert_eq!(finish(step).unwrap_err(), VeloxError::NotFound);

    let top = CreateFolderRequest { name: "top".to_string(), parent_id: None };
    let (flow, _) = FolderService::create(&top, "a@b.c");
    let (_, step) = flow.resume(ScopedEvent::UserLookup(Some(user(9))));
    assert!(matches!(run(step), ScopedCommand::CreateFolder { user_id: 9, parent_id: None, .. }));
}

#[test]
fn rename_that_changes_no_row_is_not_found() {
    let req = RenameFolderRequest { new_name: "x".to_string() };
    let (flow, _) = FolderService::rename(4, "a@b.c", &req);
    let (flow, step) = flow.resume(ScopedEvent::UserLookup(Some(user(9))));
    assert!(matches!(run(step), ScopedCommand::RenameFolder { user_id: 9, folder_id: 4, .. }));
    let (_, step) = flow.resume(ScopedEvent::RowsAffected(0));
    assert_eq!(finish(step).unwrap_err(), VeloxError::NotFound);

    let req = RenameFileRequest { new_name: "y".to_string() };
    let (flow, _) = FileService::rename("a@b.c", 5, &req);
    let (flow, step) = flow.resume(ScopedEvent::UserLookup(Some(user(9))));
    assert!(matches!(run(step), ScopedCommand::RenameFile { user_id: 9, file_id: 5, .. }));
    let (flow, step) = flow.resume(ScopedEvent::RowsAffected(1));
    assert!(matches!(run(step), ScopedCommand::Commit));
    let (_, step) = flow.resume(ScopedEvent::Done);
    assert!(matches!(finish(step), Ok(ScopedOutput::Nothing)));
}

#[test]
fn folder_contents_and_lists() {
    let (flow, _) = FolderService::get_contents("a@b.c", 4);
    let (flow, step) = flow.resume(ScopedEvent::UserLookup(Some(user(9))));
    assert!(matches!(run(step), ScopedCommand::ListSubfolders { folder_id: 4, user_id: 9 }));
    let (flow, step) = flow.resume(ScopedEvent::Folders(vec![folder(5, 9)]));
    assert!(matches!(run(step), ScopedCommand::ListFolderFiles { user_id: 9, folder_id: 4 }));
    let (flow, _) = flow.resume(ScopedEvent::Files(vec![file(1, 9, "u")]));
    let (_, step) = flow.resume(ScopedEvent::Done);
    match finish(step) {
        Ok(ScopedOutput::Contents(c)) => {
            assert_eq!(c.folders.len(), 1);
            assert_eq!(c.files.len(), 1);
        }
        other => panic!("{:?}", other),
    }

    let (flow, _) = FolderService::get_all("a@b.c");
    let (flow, step) = flow.resume(ScopedEvent::UserLookup(Some(user(9))));
    assert!(matches!(run(step), ScopedCommand::ListFolders { user_id: 9 }));
    let (flow, _) = flow.resume(ScopedEvent::Folders(vec![]));
    let (_, step) = flow.resume(ScopedEvent::Done);
    assert!(matches!(finish(step), Ok(ScopedOutput::Folders(v)) if v.is_empty()));

    let (flow, _) = FileService::get_all("a@b.c", None);
    let (flow, step) = flow.resume(ScopedEvent::UserLookup(Some(user(9))));
    assert!(matches!(run(step), ScopedCommand::ListFiles { user_id: 9, in_folder: None }));
    let (flow, _) = flow.resume(ScopedEvent::Files(vec![file(1, 9, "u"), file(2, 9, "v")]));
    let (_, step) = flow.resume(ScopedEvent::Done);
    assert!(matches!(finish(step), Ok(ScopedOutput::Files(v)) if v.len() == 2));

    let (flow, _) = FolderService::delete("a@b.c", 4);
    let (flow, step) = flow.resume(ScopedEvent::UserLookup(Some(user(9))));
    assert!(matches!(run(step), ScopedCommand::DeleteFolder { folder_id: 4, user_id: 9 }));
    let (flow, _) = flow.resume(ScopedEvent::Done);
    let (_, step) = flow.resume(ScopedEvent::Done);
    assert!(matches!(finish(step), Ok(ScopedOutput::Nothing)));
}

#[test]
fn download_presigns_the_recorded_object() {
    let key = object_key(9, 1, "n.txt");
    let url = object_url("https://r2", "bk", &key);
    let (flow, _) = FileService::download("a@b.c", 1);
    let (flow, step) = flow.resume(ScopedEvent::UserLookup(Some(user(9))));
    assert!(matches!(run(step), ScopedCommand::FindFile { file_id: 1, user_id: 9 }));
    let (flow, step) = flow.resume(ScopedEvent::FileLookup(Some(file(1, 9, &url))));
    assert!(matches!(run(step), ScopedCommand::LoadStorageConfig));
    let (flow, step) = flow.resume(ScopedEvent::StorageConfig { endpoint: "https://r2".to_string(), bucket: "bk".to_string() });
    assert!(matches!(run(step), ScopedCommand::PresignDownload { key: k, expires_secs: 900 } if k == key));
    let (flow, _) = flow.resume(ScopedEvent::Presigned("https://signed".to_string()));
    let (_, step) = flow.resume(ScopedEvent::Done);
    assert!(matches!(finish(step), Ok(ScopedOutput::Download(l)) if l == "https://signed"));

    let (flow, _) = FileService::download("a@b.c", 1);
    let (flow, _) = flow.resume(ScopedEvent::UserLookup(Some(user(9))));
    let (_, step) = flow.resume(ScopedEvent::FileLookup(None));
    assert_eq!(finish(step).unwrap_err(), VeloxError::NotFound);
}

#[test]
fn delete_removes_record_then_object() {
    let key = object_key(9, 2, "n.txt");
    let url = object_url("https://r2", "bk", &key);
    let (flow, _) = FileService::delete("a@b.c", 2);
    let (flow, step) = flow.resume(ScopedEvent::UserLookup(Some(user(9))));
    assert!(matches!(run(step), ScopedCommand::DeleteFile { user_id: 9, file_id: 2 }));
    let (flow, _) = flow.resume(ScopedEvent::DeletedUrl(Some(url)));
    let (flow, step) = flow.resume(ScopedEvent::StorageConfig { endpoint: "https://r2".to_string(), bucket: "bk".to_string() });
    assert!(matches!(run(step), ScopedCommand::DeleteObject(k) if k == key));
    let (flow, step) = flow.resume(ScopedEvent::Done);
    assert!(matches!(run(step), ScopedCommand::Commit));
    let (_, step) = flow.resume(ScopedEvent::Done);
    assert!(matches!(finish(step), Ok(ScopedOutput::Nothing)));

    let (flow, _) = FileService::delete("a@b.c", 2);
    let (flow, _) = flow.resume(ScopedEvent::UserLookup(Some(user(9))));
    let (_, step) = flow.resume(ScopedEvent::DeletedUrl(None));
    assert_eq!(finish(step).unwrap_err(), VeloxError::NotFound);
}

#[test]
fn user_records() {
    let (flow, step) = UserService::get_current(9);
    assert!(matches!(run(step), ScopedCommand::FindUserById(9)));
    let (flow, step) = flow.resume(ScopedEvent::UserLookup(Some(user(9))));
    assert!(matches!(run(step), ScopedCommand::Commit));
    let (_, step) = flow.resume(ScopedEvent::Done);
    assert!(matches!(finish(step), Ok(ScopedOutput::User(u)) if u.id == 9));

    let (flow, _) = UserService::find_by_id(8);
    let (_, step) = flow.resume(ScopedEvent::UserLookup(None));
    assert_eq!(finish(step).unwrap_err(), VeloxError::NotFound);

    let (flow, _) = UserService::find_by_id(8);
    let (_, step) = flow.resume(ScopedEvent::Failed(VeloxError::SqlxError("x".to_string())));
    assert_eq!(finish(step).unwrap_err(), VeloxError::SqlxError("x".to_string()));
}

#[test]
fn request_validation() {
    assert_eq!(LoginRequest { email: "user@example.com".to_string() }.validate(), Ok(()));
    assert_eq!(
        LoginRequest { email: "not-an-email".to_string() }.validate(),
        Err(VeloxError::ValidationError("email: Invalid email format".to_string()))
    );
    assert!(LoginRequest { email: "".to_string() }.validate().is_err());
    assert!(LoginRequest { email: "a@".to_string() }.validate().is_err());

    assert_eq!(RenameFileRequest { new_name: "a".to_string() }.validate(), Ok(()));
    assert_eq!(RenameFileRequest { new_name: "é".repeat(100) }.validate(), Ok(()));
    assert_eq!(
        RenameFileRequest { new_name: "".to_string() }.validate(),
        Err(VeloxError::ValidationError("new_name: invalid file name".to_string()))
    );
    assert!(RenameFileRequest { new_name: "x".repeat(101) }.validate().is_err());

    assert_eq!(CreateFolderRequest { name: "x".repeat(50), parent_id: None }.validate(), Ok(()));
    assert_eq!(
        CreateFolderRequest { name: "x".repeat(51), parent_id: None }.validate(),
        Err(VeloxError::ValidationError("name: invalid folder name".to_string()))
    );
    assert_eq!(RenameFolderRequest { new_name: "ok".to_string() }.validate(), Ok(()));
    assert_eq!(
        RenameFolderRequest { new_name: "".to_string() }.validate(),
        Err(VeloxError::ValidationError("new_name: invalid folder name".to_string()))
    );
}

#[test]
fn scoped_answer_out_of_turn_ends_it() {
    let (flow, _) = UserService::get_current(9);
    let (_, step) = flow.resume(ScopedEvent::RowsAffected(1));
    assert_eq!(finish(step).unwrap_err(), VeloxError::InternalError);

    let (flow, _) = FolderService::get_all("a@b.c");
    let (flow, _) = flow.resume(ScopedEvent::UserLookup(Some(user(3))));
    let (_, step) = flow.resume(ScopedEvent::Files(vec![]));
    assert_eq!(finish(step).unwrap_err(), VeloxError::InternalError);
}
