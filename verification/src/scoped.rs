//! Requests on a user's own files and folders, and on user records.
//!
//! Each request is a state machine, as the authentication flows are: the
//! requesting user is looked up first, and every later command is scoped to
//! that user's identifier.
use vstd::prelude::*;
use crate::dto::{CreateFolderRequest, FolderContents, RenameFileRequest, RenameFolderRequest};
use crate::error::VeloxError;
use crate::files::FileService;
use crate::models::{File, Folder, User};
use crate::storage::{key_from_url, spec_key_from_url};

verus! {

/// How long a download link stays valid, in seconds.
pub const DOWNLOAD_LINK_SECS: u64 = 900;

/// What a request does once its user is known.
#[derive(Debug)]
pub enum ScopedOp {
    CreateFolder { name: String, parent_id: Option<u128> },
    RenameFolder { folder_id: u128, new_name: String },
    DeleteFolder { folder_id: u128 },
    ListFolders,
    FolderContents { folder_id: u128 },
    ListFiles { in_folder: Option<u128> },
    DownloadFile { file_id: u128 },
    DeleteFile { file_id: u128 },
    RenameFile { file_id: u128, new_name: String },
    /// Fetch the user record itself.
    GetUser,
}

/// Work that a scoped request asks to be done.
#[derive(Debug)]
pub enum ScopedCommand {
    FindUserByEmail(String),
    FindUserById(u128),
    FindParentFolder { parent: u128, user_id: u128 },
    CreateFolder { name: String, user_id: u128, parent_id: Option<u128> },
    /// Answered with the number of rows changed.
    RenameFolder { new_name: String, user_id: u128, folder_id: u128 },
    DeleteFolder { folder_id: u128, user_id: u128 },
    ListFolders { user_id: u128 },
    ListSubfolders { folder_id: u128, user_id: u128 },
    ListFiles { user_id: u128, in_folder: Option<u128> },
    ListFolderFiles { user_id: u128, folder_id: u128 },
    FindFile { file_id: u128, user_id: u128 },
    /// Answered with the URL of the deleted row, if a row was deleted.
    DeleteFile { user_id: u128, file_id: u128 },
    /// Answered with the number of rows changed.
    RenameFile { new_name: String, user_id: u128, file_id: u128 },
    /// Read the storage endpoint and bucket name.
    LoadStorageConfig,
    /// Make a download link for the object, valid for `expires_secs`
    /// seconds; answered with the link.
    PresignDownload { key: String, expires_secs: u64 },
    DeleteObject(String),
    Commit,
}

/// What running the last scoped command produced.
#[derive(Debug)]
pub enum ScopedEvent {
    Done,
    UserLookup(Option<User>),
    FolderLookup(Option<Folder>),
    RowsAffected(u64),
    Folders(Vec<Folder>),
    Files(Vec<File>),
    FileLookup(Option<File>),
    DeletedUrl(Option<String>),
    StorageConfig { endpoint: String, bucket: String },
    Presigned(String),
    Failed(VeloxError),
}

/// What a scoped request returns.
#[derive(Debug)]
pub enum ScopedOutput {
    Nothing,
    User(User),
    Folders(Vec<Folder>),
    Files(Vec<File>),
    Contents(FolderContents),
    /// A download link.
    Download(String),
}

#[derive(Debug)]
pub enum ScopedStep {
    Run(ScopedCommand),
    Finish(Result<ScopedOutput, VeloxError>),
}

/// Where a scoped request stands.
pub enum ScopedStage {
    AwaitUser,
    AwaitParent,
    /// Awaiting the outcome of the request's own change or listing.
    AwaitWork,
    AwaitFiles { folders: Vec<Folder> },
    AwaitConfig { url: String },
    AwaitObject,
    AwaitCommit { output: ScopedOutput },
    Over,
}

/// The command's user scope: the identifier it acts for, if it names one.
pub open spec fn command_user(c: ScopedCommand) -> Option<u128> {
    match c {
        ScopedCommand::FindParentFolder { user_id, .. } => Some(user_id),
        ScopedCommand::CreateFolder { user_id, .. } => Some(user_id),
        ScopedCommand::RenameFolder { user_id, .. } => Some(user_id),
        ScopedCommand::DeleteFolder { user_id, .. } => Some(user_id),
        ScopedCommand::ListFolders { user_id } => Some(user_id),
        ScopedCommand::ListSubfolders { user_id, .. } => Some(user_id),
        ScopedCommand::ListFiles { user_id, .. } => Some(user_id),
        ScopedCommand::ListFolderFiles { user_id, .. } => Some(user_id),
        ScopedCommand::FindFile { user_id, .. } => Some(user_id),
        ScopedCommand::DeleteFile { user_id, .. } => Some(user_id),
        ScopedCommand::RenameFile { user_id, .. } => Some(user_id),
        _ => None,
    }
}

/// The request's own command once its user `uid` is known; `None` for a
/// request that only fetches the user.
pub open spec fn spec_work(op: ScopedOp, uid: u128) -> Option<ScopedCommand> {
    match op {
        ScopedOp::CreateFolder { name, parent_id } => match parent_id {
            Some(p) => Some(ScopedCommand::FindParentFolder { parent: p, user_id: uid }),
            None => Some(ScopedCommand::CreateFolder { name, user_id: uid, parent_id: None }),
        },
        ScopedOp::RenameFolder { folder_id, new_name } => Some(ScopedCommand::RenameFolder { new_name, user_id: uid, folder_id }),
        ScopedOp::DeleteFolder { folder_id } => Some(ScopedCommand::DeleteFolder { folder_id, user_id: uid }),
        ScopedOp::ListFolders => Some(ScopedCommand::ListFolders { user_id: uid }),
        ScopedOp::FolderContents { folder_id } => Some(ScopedCommand::ListSubfolders { folder_id, user_id: uid }),
        ScopedOp::ListFiles { in_folder } => Some(ScopedCommand::ListFiles { user_id: uid, in_folder }),
        ScopedOp::DownloadFile { file_id } => Some(ScopedCommand::FindFile { file_id, user_id: uid }),
        ScopedOp::DeleteFile { file_id } => Some(ScopedCommand::DeleteFile { user_id: uid, file_id }),
        ScopedOp::RenameFile { file_id, new_name } => Some(ScopedCommand::RenameFile { new_name, user_id: uid, file_id }),
        ScopedOp::GetUser => None,
    }
}

/// Once its user is known, each request's own command names exactly what
/// the request names (the folder listed or changed, the file fetched,
/// deleted or renamed, the new name) and acts for that user; a creation
/// under a parent first looks the parent up for that user.
pub proof fn law_request_commands_name_their_targets(
    uid: u128,
    in_folder: Option<u128>,
    file_id: u128,
    folder_id: u128,
    name: String,
)
    ensures
        spec_work(ScopedOp::ListFiles { in_folder }, uid) matches Some(ScopedCommand::ListFiles { user_id, in_folder: f })
            && user_id == uid && f == in_folder,
        spec_work(ScopedOp::DownloadFile { file_id }, uid) matches Some(ScopedCommand::FindFile { file_id: f, user_id })
            && f == file_id && user_id == uid,
        spec_work(ScopedOp::DeleteFile { file_id }, uid) matches Some(ScopedCommand::DeleteFile { user_id, file_id: f })
            && f == file_id && user_id == uid,
        spec_work(ScopedOp::RenameFile { file_id, new_name: name }, uid) matches Some(ScopedCommand::RenameFile { new_name, user_id, file_id: f })
            && f == file_id && user_id == uid && new_name == name,
        spec_work(ScopedOp::RenameFolder { folder_id, new_name: name }, uid) matches Some(ScopedCommand::RenameFolder { new_name, user_id, folder_id: f })
            && f == folder_id && user_id == uid && new_name == name,
        spec_work(ScopedOp::DeleteFolder { folder_id }, uid) matches Some(ScopedCommand::DeleteFolder { folder_id: f, user_id })
            && f == folder_id && user_id == uid,
        spec_work(ScopedOp::FolderContents { folder_id }, uid) matches Some(ScopedCommand::ListSubfolders { folder_id: f, user_id })
            && f == folder_id && user_id == uid,
        spec_work(ScopedOp::ListFolders, uid) matches Some(ScopedCommand::ListFolders { user_id }) && user_id == uid,
        spec_work(ScopedOp::CreateFolder { name, parent_id: None }, uid) matches Some(ScopedCommand::CreateFolder { name: n, user_id, parent_id })
            && n == name && user_id == uid && parent_id is None,
        spec_work(ScopedOp::CreateFolder { name, parent_id: Some(folder_id) }, uid) matches Some(ScopedCommand::FindParentFolder { parent, user_id })
            && parent == folder_id && user_id == uid,
        spec_work(ScopedOp::GetUser, uid) is None,
{
}

/// The stages that a request of each kind can reach.
pub open spec fn stage_fits(op: ScopedOp, stage: ScopedStage) -> bool {
    match stage {
        ScopedStage::AwaitParent => op matches ScopedOp::CreateFolder { parent_id: Some(_), .. },
        ScopedStage::AwaitConfig { .. } => op is DownloadFile || op is DeleteFile,
        _ => true,
    }
}

/// Whether a request of kind `op` at `stage` waits for `event`: a failure
/// is always heard, each answer only where its command was asked.
pub open spec fn scoped_expects(op: ScopedOp, stage: ScopedStage, event: ScopedEvent) -> bool {
    match event {
        ScopedEvent::Failed(_) => true,
        ScopedEvent::UserLookup(_) => stage is AwaitUser,
        ScopedEvent::FolderLookup(_) => stage is AwaitParent,
        ScopedEvent::Done => (stage is AwaitWork && (op is CreateFolder || op is DeleteFolder))
            || (stage is AwaitObject && op is DeleteFile) || stage is AwaitCommit,
        ScopedEvent::RowsAffected(_) => stage is AwaitWork && (op is RenameFolder || op is RenameFile),
        ScopedEvent::Folders(_) => stage is AwaitWork && (op is ListFolders || op is FolderContents),
        ScopedEvent::Files(_) => (stage is AwaitWork && op is ListFiles) || stage is AwaitFiles,
        ScopedEvent::FileLookup(_) => stage is AwaitWork && op is DownloadFile,
        ScopedEvent::DeletedUrl(_) => stage is AwaitWork && op is DeleteFile,
        ScopedEvent::StorageConfig { .. } => stage is AwaitConfig,
        ScopedEvent::Presigned(_) => stage is AwaitObject && op is DownloadFile,
    }
}

/// A scoped request in progress.
pub struct ScopedFlow {
    op: ScopedOp,
    user_id: u128,
    stage: ScopedStage,
}

impl ScopedFlow {
    pub closed spec fn wf(&self) -> bool {
        stage_fits(self.op, self.stage)
    }

    pub closed spec fn op(&self) -> ScopedOp {
        self.op
    }

    /// The identifier of the requesting user, once looked up.
    pub closed spec fn user_id(&self) -> u128 {
        self.user_id
    }

    pub closed spec fn stage(&self) -> ScopedStage {
        self.stage
    }

    fn start(op: ScopedOp, lookup: ScopedCommand) -> (res: (ScopedFlow, ScopedStep))
        ensures
            res.0.wf(),
            res.0.op() == op,
            res.0.stage() is AwaitUser,
            res.1 == ScopedStep::Run(lookup),
    {
        (ScopedFlow { op, user_id: 0, stage: ScopedStage::AwaitUser }, ScopedStep::Run(lookup))
    }

    fn stop(self, result: Result<ScopedOutput, VeloxError>) -> (res: (ScopedFlow, ScopedStep))
        ensures
            res.0.op() == self.op(),
            res.0.user_id() == self.user_id(),
            res.0.stage() is Over,
            res.0.wf(),
            res.1 == ScopedStep::Finish(result),
    {
        (ScopedFlow { stage: ScopedStage::Over, ..self }, ScopedStep::Finish(result))
    }

    fn commit(self, output: ScopedOutput) -> (res: (ScopedFlow, ScopedStep))
        ensures
            res.0.op() == self.op(),
            res.0.user_id() == self.user_id(),
            res.0.stage() == (ScopedStage::AwaitCommit { output }),
            res.0.wf(),
            res.1 == ScopedStep::Run(ScopedCommand::Commit),
    {
        (ScopedFlow { stage: ScopedStage::AwaitCommit { output }, ..self }, ScopedStep::Run(ScopedCommand::Commit))
    }

    fn run(self, stage: ScopedStage, cmd: ScopedCommand) -> (res: (ScopedFlow, ScopedStep))
        requires
            stage_fits(self.op(), stage),
        ensures
            res.0.wf(),
            res.0.op() == self.op(),
            res.0.user_id() == self.user_id(),
            res.0.stage() == stage,
            res.1 == ScopedStep::Run(cmd),
    {
        (ScopedFlow { stage, ..self }, ScopedStep::Run(cmd))
    }

    /// The request's own command, once its user is known.
    fn work(&self, uid: u128) -> (res: Option<ScopedCommand>)
        ensures
            res == spec_work(self.op(), uid),
            res matches Some(c) ==> command_user(c) == Some(uid),
            res matches Some(ScopedCommand::FindParentFolder { .. }) ==> (self.op() matches ScopedOp::CreateFolder { parent_id: Some(_), .. }),
            (self.op() is GetUser) <==> res is None,
    {
        match &self.op {
            ScopedOp::CreateFolder { name, parent_id } => match parent_id {
                Some(p) => Some(ScopedCommand::FindParentFolder { parent: *p, user_id: uid }),
                None => Some(ScopedCommand::CreateFolder { name: name.clone(), user_id: uid, parent_id: None }),
            },
            ScopedOp::RenameFolder { folder_id, new_name } => Some(
                ScopedCommand::RenameFolder { new_name: new_name.clone(), user_id: uid, folder_id: *folder_id },
            ),
            ScopedOp::DeleteFolder { folder_id } => Some(ScopedCommand::DeleteFolder { folder_id: *folder_id, user_id: uid }),
            ScopedOp::ListFolders => Some(ScopedCommand::ListFolders { user_id: uid }),
            ScopedOp::FolderContents { folder_id } => Some(
                ScopedCommand::ListSubfolders { folder_id: *folder_id, user_id: uid },
            ),
            ScopedOp::ListFiles { in_folder } => Some(ScopedCommand::ListFiles { user_id: uid, in_folder: *in_folder }),
            ScopedOp::DownloadFile { file_id } => Some(ScopedCommand::FindFile { file_id: *file_id, user_id: uid }),
            ScopedOp::DeleteFile { file_id } => Some(ScopedCommand::DeleteFile { user_id: uid, file_id: *file_id }),
            ScopedOp::RenameFile { file_id, new_name } => Some(
                ScopedCommand::RenameFile { new_name: new_name.clone(), user_id: uid, file_id: *file_id },
            ),
            ScopedOp::GetUser => None,
        }
    }

    /// Answers the outcome of the last command.
    pub fn resume(self, event: ScopedEvent) -> (res: (ScopedFlow, ScopedStep))
        requires
            self.wf(),
        ensures
            res.0.wf(),
            res.0.op() == self.op(),
            !(self.stage() is AwaitUser) ==> res.0.user_id() == self.user_id(),
            // an answer that the request does not wait for ends it
            !(self.stage() is Over) && !scoped_expects(self.op(), self.stage(), event)
                ==> res.1 == ScopedStep::Finish(Err(VeloxError::InternalError)),
            // failures pass through unchanged
            self.stage() is Over ==> res.1 == ScopedStep::Finish(Err(VeloxError::InternalError)),
            !(self.stage() is Over) ==> (event matches ScopedEvent::Failed(e) ==> res.1 == ScopedStep::Finish(Err(e))),
            // the user must exist; every later command acts for that user
            self.stage() is AwaitUser ==> (event matches ScopedEvent::UserLookup(u) ==> match u {
                None => res.1 == ScopedStep::Finish(Err(VeloxError::NotFound)),
                Some(user) => res.0.user_id() == user.id && (self.op() is GetUser ==> res.1 is Run),
            }),
            self.stage() is AwaitUser ==> (event matches ScopedEvent::UserLookup(Some(user)) ==> match spec_work(self.op(), user.id) {
                Some(c) => res.1 == ScopedStep::Run(c) && res.0.user_id() == user.id
                    && (c is FindParentFolder ==> res.0.stage() is AwaitParent)
                    && (!(c is FindParentFolder) ==> res.0.stage() is AwaitWork),
                None => res.0.stage() == (ScopedStage::AwaitCommit { output: ScopedOutput::User(user) }),
            }),
            res.1 matches ScopedStep::Run(c) ==> (command_user(c) is Some ==> command_user(c) == Some(res.0.user_id())),
            // what each answer leads to
            self.stage() is AwaitWork && (self.op() is CreateFolder || self.op() is DeleteFolder) ==> (event is Done
                ==> res.0.stage() == (ScopedStage::AwaitCommit { output: ScopedOutput::Nothing })),
            self.stage() is AwaitWork && (self.op() is RenameFolder || self.op() is RenameFile) ==> (event matches ScopedEvent::RowsAffected(n)
                ==> (n > 0 ==> res.0.stage() == (ScopedStage::AwaitCommit { output: ScopedOutput::Nothing }))),
            self.stage() is AwaitWork && self.op() is ListFolders ==> (event matches ScopedEvent::Folders(fs)
                ==> res.0.stage() == (ScopedStage::AwaitCommit { output: ScopedOutput::Folders(fs) })),
            self.stage() is AwaitWork ==> (self.op() matches ScopedOp::FolderContents { folder_id } ==> (event matches ScopedEvent::Folders(fs)
                ==> res.0.stage() == (ScopedStage::AwaitFiles { folders: fs })
                && res.1 == ScopedStep::Run(ScopedCommand::ListFolderFiles { user_id: self.user_id(), folder_id }))),
            self.stage() matches ScopedStage::AwaitFiles { folders } ==> (event matches ScopedEvent::Files(fs)
                ==> res.0.stage() == (ScopedStage::AwaitCommit { output: ScopedOutput::Contents(FolderContents { files: fs, folders }) })),
            self.stage() is AwaitWork && self.op() is ListFiles ==> (event matches ScopedEvent::Files(fs)
                ==> res.0.stage() == (ScopedStage::AwaitCommit { output: ScopedOutput::Files(fs) })),
            self.stage() is AwaitWork && self.op() is DownloadFile ==> (event matches ScopedEvent::FileLookup(Some(f))
                ==> res.0.stage() == (ScopedStage::AwaitConfig { url: f.url }) && res.1 == ScopedStep::Run(ScopedCommand::LoadStorageConfig)),
            self.stage() is AwaitWork && self.op() is DeleteFile ==> (event matches ScopedEvent::DeletedUrl(Some(u))
                ==> res.0.stage() == (ScopedStage::AwaitConfig { url: u }) && res.1 == ScopedStep::Run(ScopedCommand::LoadStorageConfig)),
            self.stage() is AwaitObject && self.op() is DownloadFile ==> (event matches ScopedEvent::Presigned(l)
                ==> res.0.stage() == (ScopedStage::AwaitCommit { output: ScopedOutput::Download(l) })),
            self.stage() is AwaitObject && self.op() is DeleteFile ==> (event is Done
                ==> res.0.stage() == (ScopedStage::AwaitCommit { output: ScopedOutput::Nothing })),
            // a parent folder must be the user's
            self.stage() is AwaitParent ==> (event matches ScopedEvent::FolderLookup(f) ==> match f {
                None => res.1 == ScopedStep::Finish(Err(VeloxError::NotFound)),
                Some(_) => res.0.stage() is AwaitWork && (res.1 matches ScopedStep::Run(ScopedCommand::CreateFolder { name, user_id, parent_id }) && (
                self.op() matches ScopedOp::CreateFolder { name: n, parent_id: p } && name@ == n@ && parent_id == p)),
            }),
            // a rename that changes nothing names a missing record
            self.stage() is AwaitWork && (self.op() is RenameFolder || self.op() is RenameFile) ==> (event matches ScopedEvent::RowsAffected(n) ==> (n == 0 <==> res.1 == ScopedStep::Finish(Err(VeloxError::NotFound)))),
            // a file must exist to be fetched or deleted
            self.stage() is AwaitWork && self.op() is DownloadFile ==> (event matches ScopedEvent::FileLookup(f) ==> (f is None <==> res.1 == ScopedStep::Finish(Err(VeloxError::NotFound)))),
            self.stage() is AwaitWork && self.op() is DeleteFile ==> (event matches ScopedEvent::DeletedUrl(u) ==> (u is None <==> res.1 == ScopedStep::Finish(Err(VeloxError::NotFound)))),
            // the object is found again from the URL recorded for it
            self.stage() matches ScopedStage::AwaitConfig { url } ==> (event matches ScopedEvent::StorageConfig { endpoint, bucket } ==> (
                res.0.stage() is AwaitObject && (res.1 matches ScopedStep::Run(c) && match c {
                    ScopedCommand::PresignDownload { key, expires_secs } => key@ == spec_key_from_url(url@, endpoint@, bucket@)
                        && expires_secs == DOWNLOAD_LINK_SECS && self.op() is DownloadFile,
                    ScopedCommand::DeleteObject(key) => key@ == spec_key_from_url(url@, endpoint@, bucket@) && self.op() is DeleteFile,
                    _ => false,
                }))),
            res.0.stage() is AwaitCommit ==> res.1 == ScopedStep::Run(ScopedCommand::Commit),
            // success only once the commit went through
            (res.1 matches ScopedStep::Finish(Ok(_))) <==> (self.stage() is AwaitCommit && event is Done),
            self.stage() matches ScopedStage::AwaitCommit { output } ==> (event is Done ==> res.1 == ScopedStep::Finish(Ok(output))),
    {
        if let ScopedStage::Over = self.stage {
            return self.stop(Err(VeloxError::InternalError));
        }
        if let ScopedEvent::Failed(e) = event {
            return self.stop(Err(e));
        }
        let ScopedFlow { op, user_id, stage } = self;
        let flow = ScopedFlow { op, user_id, stage: ScopedStage::Over };
        match stage {
            ScopedStage::AwaitUser => match event {
                ScopedEvent::UserLookup(None) => flow.stop(Err(VeloxError::NotFound)),
                ScopedEvent::UserLookup(Some(user)) => {
                    let flow = ScopedFlow { user_id: user.id, ..flow };
                    match flow.work(user.id) {
                        Some(cmd) => {
                            let stage = if let ScopedCommand::FindParentFolder { .. } = cmd {
                                ScopedStage::AwaitParent
                            } else {
                                ScopedStage::AwaitWork
                            };
                            flow.run(stage, cmd)
                        },
                        None => flow.commit(ScopedOutput::User(user)),
                    }
                },
                _ => flow.stop(Err(VeloxError::InternalError)),
            },
            ScopedStage::AwaitParent => match event {
                ScopedEvent::FolderLookup(None) => flow.stop(Err(VeloxError::NotFound)),
                ScopedEvent::FolderLookup(Some(_)) => {
                    let cmd = match &flow.op {
                        ScopedOp::CreateFolder { name, parent_id } => Some(
                            ScopedCommand::CreateFolder { name: name.clone(), user_id: flow.user_id, parent_id: *parent_id },
                        ),
                        _ => None,
                    };
                    match cmd {
                        Some(cmd) => flow.run(ScopedStage::AwaitWork, cmd),
                        None => flow.stop(Err(VeloxError::InternalError)),
                    }
                },
                _ => flow.stop(Err(VeloxError::InternalError)),
            },
            ScopedStage::AwaitWork => match event {
                ScopedEvent::Done => {
                    match &flow.op {
                        ScopedOp::CreateFolder { .. } | ScopedOp::DeleteFolder { .. } => flow.commit(ScopedOutput::Nothing),
                        _ => flow.stop(Err(VeloxError::InternalError)),
                    }
                },
                ScopedEvent::RowsAffected(n) => {
                    match &flow.op {
                        ScopedOp::RenameFolder { .. } | ScopedOp::RenameFile { .. } => {
                            if n == 0 {
                                flow.stop(Err(VeloxError::NotFound))
                            } else {
                                flow.commit(ScopedOutput::Nothing)
                            }
                        },
                        _ => flow.stop(Err(VeloxError::InternalError)),
                    }
                },
                ScopedEvent::Folders(folders) => {
                    let cmd = match &flow.op {
                        ScopedOp::FolderContents { folder_id } => Some(
                            ScopedCommand::ListFolderFiles { user_id: flow.user_id, folder_id: *folder_id },
                        ),
                        _ => None,
                    };
                    match cmd {
                        Some(cmd) => flow.run(ScopedStage::AwaitFiles { folders }, cmd),
                        None => {
                            if let ScopedOp::ListFolders = flow.op {
                                flow.commit(ScopedOutput::Folders(folders))
                            } else {
                                flow.stop(Err(VeloxError::InternalError))
                            }
                        },
                    }
                },
                ScopedEvent::Files(files) => {
                    if let ScopedOp::ListFiles { .. } = flow.op {
                        flow.commit(ScopedOutput::Files(files))
                    } else {
                        flow.stop(Err(VeloxError::InternalError))
                    }
                },
                ScopedEvent::FileLookup(f) => {
                    if let ScopedOp::DownloadFile { .. } = flow.op {
                        match f {
                            None => flow.stop(Err(VeloxError::NotFound)),
                            Some(file) => flow.run(ScopedStage::AwaitConfig { url: file.url }, ScopedCommand::LoadStorageConfig),
                        }
                    } else {
                        flow.stop(Err(VeloxError::InternalError))
                    }
                },
                ScopedEvent::DeletedUrl(u) => {
                    if let ScopedOp::DeleteFile { .. } = flow.op {
                        match u {
                            None => flow.stop(Err(VeloxError::NotFound)),
                            Some(url) => flow.run(ScopedStage::AwaitConfig { url }, ScopedCommand::LoadStorageConfig),
                        }
                    } else {
                        flow.stop(Err(VeloxError::InternalError))
                    }
                },
                _ => flow.stop(Err(VeloxError::InternalError)),
            },
            ScopedStage::AwaitFiles { folders } => match event {
                ScopedEvent::Files(files) => flow.commit(ScopedOutput::Contents(FolderContents { files, folders })),
                _ => flow.stop(Err(VeloxError::InternalError)),
            },
            ScopedStage::AwaitConfig { url } => match event {
                ScopedEvent::StorageConfig { endpoint, bucket } => {
                    let key = key_from_url(url.as_str(), endpoint.as_str(), bucket.as_str());
                    if let ScopedOp::DownloadFile { .. } = flow.op {
                        flow.run(ScopedStage::AwaitObject, ScopedCommand::PresignDownload { key, expires_secs: DOWNLOAD_LINK_SECS })
                    } else {
                        flow.run(ScopedStage::AwaitObject, ScopedCommand::DeleteObject(key))
                    }
                },
                _ => flow.stop(Err(VeloxError::InternalError)),
            },
            ScopedStage::AwaitObject => match event {
                ScopedEvent::Presigned(link) => {
                    if let ScopedOp::DownloadFile { .. } = flow.op {
                        flow.commit(ScopedOutput::Download(link))
                    } else {
                        flow.stop(Err(VeloxError::InternalError))
                    }
                },
                ScopedEvent::Done => {
                    if let ScopedOp::DeleteFile { .. } = flow.op {
                        flow.commit(ScopedOutput::Nothing)
                    } else {
                        flow.stop(Err(VeloxError::InternalError))
                    }
                },
                _ => flow.stop(Err(VeloxError::InternalError)),
            },
            ScopedStage::AwaitCommit { output } => match event {
                ScopedEvent::Done => flow.stop(Ok(output)),
                _ => flow.stop(Err(VeloxError::InternalError)),
            },
            ScopedStage::Over => flow.stop(Err(VeloxError::InternalError)),
        }
    }
}


impl FileService {
    /// Starts listing the user's files in folder `folder_id` (at the top
    /// level when `None`).
    pub fn get_all(user_email: &str, folder_id: Option<u128>) -> (res: (ScopedFlow, ScopedStep))
        ensures
            res.0.wf(),
            res.0.op() == (ScopedOp::ListFiles { in_folder: folder_id }),
            res.0.stage() is AwaitUser,
            res.1 matches ScopedStep::Run(ScopedCommand::FindUserByEmail(e)) && e@ == user_email@,
    {
        ScopedFlow::start(ScopedOp::ListFiles { in_folder: folder_id }, ScopedCommand::FindUserByEmail(user_email.to_owned()))
    }

    /// Starts making a download link for one of the user's files.
    pub fn download(user_email: &str, file_id: u128) -> (res: (ScopedFlow, ScopedStep))
        ensures
            res.0.wf(),
            res.0.op() == (ScopedOp::DownloadFile { file_id }),
            res.0.stage() is AwaitUser,
            res.1 matches ScopedStep::Run(ScopedCommand::FindUserByEmail(e)) && e@ == user_email@,
    {
        ScopedFlow::start(ScopedOp::DownloadFile { file_id }, ScopedCommand::FindUserByEmail(user_email.to_owned()))
    }

    /// Starts deleting one of the user's files, record and object.
    pub fn delete(user_email: &str, file_id: u128) -> (res: (ScopedFlow, ScopedStep))
        ensures
            res.0.wf(),
            res.0.op() == (ScopedOp::DeleteFile { file_id }),
            res.0.stage() is AwaitUser,
            res.1 matches ScopedStep::Run(ScopedCommand::FindUserByEmail(e)) && e@ == user_email@,
    {
        ScopedFlow::start(ScopedOp::DeleteFile { file_id }, ScopedCommand::FindUserByEmail(user_email.to_owned()))
    }

    /// Starts renaming one of the user's files.
    pub fn rename(user_email: &str, file_id: u128, request_body: &RenameFileRequest) -> (res: (ScopedFlow, ScopedStep))
        ensures
            res.0.wf(),
            res.0.op() matches ScopedOp::RenameFile { file_id: f, new_name } && f == file_id
                && new_name@ == request_body.new_name@,
            res.0.stage() is AwaitUser,
            res.1 matches ScopedStep::Run(ScopedCommand::FindUserByEmail(e)) && e@ == user_email@,
    {
        let op = ScopedOp::RenameFile { file_id, new_name: request_body.new_name.clone() };
        ScopedFlow::start(op, ScopedCommand::FindUserByEmail(user_email.to_owned()))
    }
}

pub struct FolderService {}

impl FolderService {
    /// Starts creating a folder for the user, inside the parent the request
    /// names, if any.
    pub fn create(request_data: &CreateFolderRequest, user_email: &str) -> (res: (ScopedFlow, ScopedStep))
        ensures
            res.0.wf(),
            res.0.op() matches ScopedOp::CreateFolder { name, parent_id } && name@ == request_data.name@
                && parent_id == request_data.parent_id,
            res.0.stage() is AwaitUser,
            res.1 matches ScopedStep::Run(ScopedCommand::FindUserByEmail(e)) && e@ == user_email@,
    {
        let op = ScopedOp::CreateFolder { name: request_data.name.clone(), parent_id: request_data.parent_id };
        ScopedFlow::start(op, ScopedCommand::FindUserByEmail(user_email.to_owned()))
    }

    /// Starts renaming one of the user's folders.
    pub fn rename(folder_id: u128, user_email: &str, request_data: &RenameFolderRequest) -> (res: (ScopedFlow, ScopedStep))
        ensures
            res.0.wf(),
            res.0.op() matches ScopedOp::RenameFolder { folder_id: f, new_name } && f == folder_id
                && new_name@ == request_data.new_name@,
            res.0.stage() is AwaitUser,
            res.1 matches ScopedStep::Run(ScopedCommand::FindUserByEmail(e)) && e@ == user_email@,
    {
        let op = ScopedOp::RenameFolder { folder_id, new_name: request_data.new_name.clone() };
        ScopedFlow::start(op, ScopedCommand::FindUserByEmail(user_email.to_owned()))
    }

    /// Starts deleting one of the user's folders.
    pub fn delete(user_email: &str, folder_id: u128) -> (res: (ScopedFlow, ScopedStep))
        ensures
            res.0.wf(),
            res.0.op() == (ScopedOp::DeleteFolder { folder_id }),
            res.0.stage() is AwaitUser,
            res.1 matches ScopedStep::Run(ScopedCommand::FindUserByEmail(e)) && e@ == user_email@,
    {
        ScopedFlow::start(ScopedOp::DeleteFolder { folder_id }, ScopedCommand::FindUserByEmail(user_email.to_owned()))
    }

    /// Starts listing the user's folders.
    pub fn get_all(user_email: &str) -> (res: (ScopedFlow, ScopedStep))
        ensures
            res.0.wf(),
            res.0.op() == ScopedOp::ListFolders,
            res.0.stage() is AwaitUser,
            res.1 matches ScopedStep::Run(ScopedCommand::FindUserByEmail(e)) && e@ == user_email@,
    {
        ScopedFlow::start(ScopedOp::ListFolders, ScopedCommand::FindUserByEmail(user_email.to_owned()))
    }

    /// Starts listing what one of the user's folders holds.
    pub fn get_contents(user_email: &str, folder_id: u128) -> (res: (ScopedFlow, ScopedStep))
        ensures
            res.0.wf(),
            res.0.op() == (ScopedOp::FolderContents { folder_id }),
            res.0.stage() is AwaitUser,
            res.1 matches ScopedStep::Run(ScopedCommand::FindUserByEmail(e)) && e@ == user_email@,
    {
        ScopedFlow::start(ScopedOp::FolderContents { folder_id }, ScopedCommand::FindUserByEmail(user_email.to_owned()))
    }
}

pub struct UserService {}

impl UserService {
    /// Starts fetching the record of the signed-in user.
    pub fn get_current(user_id: u128) -> (res: (ScopedFlow, ScopedStep))
        ensures
            res.0.wf(),
            res.0.op() == ScopedOp::GetUser,
            res.0.stage() is AwaitUser,
            res.1 == ScopedStep::Run(ScopedCommand::FindUserById(user_id)),
    {
        ScopedFlow::start(ScopedOp::GetUser, ScopedCommand::FindUserById(user_id))
    }

    /// Starts fetching the record of a user by identifier.
    pub fn find_by_id(user_id: u128) -> (res: (ScopedFlow, ScopedStep))
        ensures
            res.0.wf(),
            res.0.op() == ScopedOp::GetUser,
            res.0.stage() is AwaitUser,
            res.1 == ScopedStep::Run(ScopedCommand::FindUserById(user_id)),
    {
        ScopedFlow::start(ScopedOp::GetUser, ScopedCommand::FindUserById(user_id))
    }
}

} // verus!
