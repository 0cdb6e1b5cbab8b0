//! Files: uploading within a storage quota, and the multipart form that
//! carries uploads.
use vstd::prelude::*;
use crate::error::VeloxError;
use crate::ids::{is_v4_uuid, new_uuid_v4};
use crate::models::User;
use crate::storage::{object_key, object_url, spec_object_key, spec_object_url};

verus! {

/// The storage quota of a user, in bytes.
pub const GB_IN_NUMS: i64 = 1_073_741_824;

/// Whether a file of `file_size` bytes fits beside `total_used` bytes.
pub open spec fn within_quota(total_used: i64, file_size: i64) -> bool {
    total_used + file_size <= GB_IN_NUMS
}

/// The sum of the sizes.
pub open spec fn sum_sizes(sizes: Seq<i64>) -> int
    decreases sizes.len(),
{
    if sizes.len() == 0 {
        0
    } else {
        sum_sizes(sizes.drop_last()) + sizes.last()
    }
}

/// A file of an upload request: its name and content type. Its bytes stay
/// with the caller, who streams them when asked.
#[derive(Debug)]
pub struct FileMeta {
    pub file_name: String,
    pub content_type: String,
}

/// Work that an upload asks to be done.
#[derive(Debug)]
pub enum UploadCommand {
    FindUserByEmail(String),
    GetTotalStorage(u128),
    /// Read the storage endpoint and bucket name.
    LoadStorageConfig,
    /// Stream the bytes of file `index` of the request to the object `key`.
    UploadObject { index: usize, key: String, content_type: String },
    Rollback,
    DeleteObject(String),
    InsertFile {
        file_id: u128,
        url: String,
        file_name: String,
        user_id: u128,
        folder_id: Option<u128>,
        size: i64,
        content_type: String,
    },
    Commit,
}

/// What running the last upload command produced.
#[derive(Debug)]
pub enum UploadEvent {
    Done,
    UserLookup(Option<User>),
    TotalStorage(i64),
    StorageConfig { endpoint: String, bucket: String },
    /// The object was stored; its size in bytes.
    Uploaded(i64),
    Failed(VeloxError),
}

#[derive(Debug)]
pub enum UploadStep {
    Run(UploadCommand),
    Finish(Result<(), VeloxError>),
}

/// Where an upload stands.
pub enum UploadStage {
    AwaitUser,
    AwaitTotal,
    AwaitConfig,
    AwaitUpload { index: usize, file_id: u128, key: String },
    AwaitInsert { index: usize },
    AwaitRollback { key: String },
    AwaitDelete,
    AwaitCommit,
    Over,
}

/// Whether an upload at `stage` waits for `event`: a failure is always
/// heard, each answer only where its command was asked.
pub open spec fn upload_expects(stage: UploadStage, event: UploadEvent) -> bool {
    match event {
        UploadEvent::Failed(_) => true,
        UploadEvent::UserLookup(_) => stage is AwaitUser,
        UploadEvent::TotalStorage(_) => stage is AwaitTotal,
        UploadEvent::StorageConfig { .. } => stage is AwaitConfig,
        UploadEvent::Uploaded(_) => stage is AwaitUpload,
        UploadEvent::Done => stage is AwaitInsert || stage is AwaitRollback || stage is AwaitDelete
            || stage is AwaitCommit,
    }
}

/// An upload of several files in progress.
pub struct UploadFlow {
    email: String,
    folder_id: Option<u128>,
    files: Vec<FileMeta>,
    user_id: u128,
    total_used: i64,
    endpoint: String,
    bucket: String,
    stage: UploadStage,
    /// The sizes of the files recorded so far, in order.
    inserted: Ghost<Seq<i64>>,
}

pub struct FileService {}

impl FileService {
    /// Starts storing `files` for the user with address `email`, in folder
    /// `folder_id`; the user is looked up first.
    pub fn upload(email: &str, folder_id: Option<u128>, files: Vec<FileMeta>) -> (res: (UploadFlow, UploadStep))
        ensures
            res.0.wf(),
            res.0.email() == email@,
            res.0.folder_id() == folder_id,
            res.0.files_count() == files@.len(),
            forall|i: int| #![trigger res.0.file_name(i)] #![trigger res.0.content_type(i)] 0 <= i < files@.len() ==> res.0.file_name(i) == files@[i].file_name@
                && res.0.content_type(i) == files@[i].content_type@,
            res.0.stage() is AwaitUser,
            res.0.inserted_sizes() == Seq::<i64>::empty(),
            res.1 matches UploadStep::Run(UploadCommand::FindUserByEmail(e)) && e@ == email@,
    {
        let email = email.to_owned();
        let cmd = UploadCommand::FindUserByEmail(email.clone());
        let flow = UploadFlow {
            email,
            folder_id,
            files,
            user_id: 0,
            total_used: 0,
            endpoint: String::new(),
            bucket: String::new(),
            stage: UploadStage::AwaitUser,
            inserted: Ghost(Seq::empty()),
        };
        (flow, UploadStep::Run(cmd))
    }
}

impl UploadFlow {
    pub closed spec fn wf(&self) -> bool {
        &&& forall|i: int| 0 <= i < self.inserted@.len() ==> within_quota(self.total_used, #[trigger] self.inserted@[i])
        &&& match self.stage {
            UploadStage::AwaitUser | UploadStage::AwaitTotal | UploadStage::AwaitConfig => self.inserted@.len() == 0,
            UploadStage::AwaitUpload { index, file_id, key } => {
                &&& index < self.files@.len()
                &&& self.inserted@.len() == index
                &&& is_v4_uuid(file_id)
                &&& key@ == spec_object_key(self.user_id, file_id, self.files@[index as int].file_name@)
            },
            UploadStage::AwaitInsert { index } => index < self.files@.len() && self.inserted@.len() == index + 1,
            UploadStage::AwaitCommit => self.inserted@.len() == self.files@.len(),
            _ => true,
        }
    }

    /// The sizes of the files recorded so far, in order.
    pub closed spec fn inserted_sizes(&self) -> Seq<i64> {
        self.inserted@
    }

    pub closed spec fn email(&self) -> Seq<char> {
        self.email@
    }

    pub closed spec fn folder_id(&self) -> Option<u128> {
        self.folder_id
    }

    pub closed spec fn files_count(&self) -> nat {
        self.files@.len()
    }

    pub closed spec fn file_name(&self, i: int) -> Seq<char> {
        self.files@[i].file_name@
    }

    pub closed spec fn content_type(&self, i: int) -> Seq<char> {
        self.files@[i].content_type@
    }

    pub closed spec fn user_id(&self) -> u128 {
        self.user_id
    }

    /// The bytes the user had stored when the upload began.
    pub closed spec fn total_used(&self) -> i64 {
        self.total_used
    }

    pub closed spec fn endpoint(&self) -> Seq<char> {
        self.endpoint@
    }

    pub closed spec fn bucket(&self) -> Seq<char> {
        self.bucket@
    }

    pub closed spec fn stage(&self) -> UploadStage {
        self.stage
    }

    /// Begins file `index`, or commits when every file is stored.
    fn next_file(self, index: usize) -> (res: (UploadFlow, UploadStep))
        requires
            self.wf(),
            index <= self.files@.len(),
            self.inserted@.len() == index,
        ensures
            res.0.wf(),
            res.0.same_request(&self),
            index < self.files@.len() ==> {
                &&& res.0.stage() matches UploadStage::AwaitUpload { index: i, file_id, key }
                &&& i == index
                &&& is_v4_uuid(file_id)
                &&& res.1 matches UploadStep::Run(UploadCommand::UploadObject { index: j, key: k, content_type })
                &&& j == index
                &&& k@ == key@
                &&& content_type@ == self.content_type(index as int)
            },
            index == self.files@.len() ==> (res.0.stage() is AwaitCommit && res.1 matches UploadStep::Run(
                UploadCommand::Commit,
            )),
    {
        if index < self.files.len() {
            let file_id = new_uuid_v4();
            let key = object_key(self.user_id, file_id, self.files[index].file_name.as_str());
            let content_type = self.files[index].content_type.clone();
            let cmd = UploadCommand::UploadObject { index, key: key.clone(), content_type };
            (UploadFlow { stage: UploadStage::AwaitUpload { index, file_id, key }, ..self }, UploadStep::Run(cmd))
        } else {
            (UploadFlow { stage: UploadStage::AwaitCommit, ..self }, UploadStep::Run(UploadCommand::Commit))
        }
    }

    /// The request, the user and the storage settings are unchanged.
    pub closed spec fn same_request(&self, other: &UploadFlow) -> bool {
        &&& self.email@ == other.email@
        &&& self.folder_id == other.folder_id
        &&& self.files@ == other.files@
        &&& self.user_id == other.user_id
        &&& self.total_used == other.total_used
        &&& self.endpoint@ == other.endpoint@
        &&& self.bucket@ == other.bucket@
        &&& self.inserted@ == other.inserted@
    }

    fn stop(self, result: Result<(), VeloxError>) -> (res: (UploadFlow, UploadStep))
        requires
            forall|i: int| 0 <= i < self.inserted@.len() ==> within_quota(self.total_used, #[trigger] self.inserted@[i]),
        ensures
            res.0.wf(),
            res.0.same_request(&self),
            res.0.stage() is Over,
            res.1 == UploadStep::Finish(result),
    {
        (UploadFlow { stage: UploadStage::Over, ..self }, UploadStep::Finish(result))
    }

    /// Answers the outcome of the last command.
    pub fn resume(self, event: UploadEvent) -> (res: (UploadFlow, UploadStep))
        requires
            self.wf(),
        ensures
            res.0.wf(),
            res.0.email() == self.email(),
            res.0.folder_id() == self.folder_id(),
            res.0.files_count() == self.files_count(),
            forall|i: int| #![trigger res.0.file_name(i)] #![trigger res.0.content_type(i)] 0 <= i < self.files_count() ==> res.0.file_name(i) == self.file_name(i)
                && res.0.content_type(i) == self.content_type(i),
            !(self.stage() is AwaitUser) ==> res.0.user_id() == self.user_id(),
            !(self.stage() is AwaitTotal) ==> res.0.total_used() == self.total_used(),
            !(self.stage() is AwaitConfig) ==> res.0.endpoint() == self.endpoint() && res.0.bucket() == self.bucket(),
            res.0.stage() matches UploadStage::AwaitUpload { index, file_id, key } ==> index < res.0.files_count()
                && key@ == spec_object_key(res.0.user_id(), file_id, res.0.file_name(index as int))
                && is_v4_uuid(file_id),
            self.stage() is Over ==> res.1 == UploadStep::Finish(Err(VeloxError::InternalError)),
            // an answer that the upload does not wait for ends it
            !(self.stage() is Over) && !upload_expects(self.stage(), event)
                ==> res.1 == UploadStep::Finish(Err(VeloxError::InternalError)),
            !(self.stage() is Over) ==> (event matches UploadEvent::Failed(e) ==> res.1 == UploadStep::Finish(Err(e))),
            self.stage() is AwaitUser ==> (event matches UploadEvent::UserLookup(u) ==> match u {
                None => res.1 == UploadStep::Finish(Err(VeloxError::NotFound)),
                Some(user) => res.0.user_id() == user.id && res.0.stage() is AwaitTotal
                    && (res.1 matches UploadStep::Run(UploadCommand::GetTotalStorage(id)) && id == user.id),
            }),
            self.stage() is AwaitTotal ==> (event matches UploadEvent::TotalStorage(t) ==>
                res.0.total_used() == t && res.0.stage() is AwaitConfig
                && (res.1 matches UploadStep::Run(UploadCommand::LoadStorageConfig))),
            self.stage() is AwaitConfig ==> (event matches UploadEvent::StorageConfig { endpoint, bucket } ==> {
                &&& res.0.endpoint() == endpoint@
                &&& res.0.bucket() == bucket@
                &&& res.0.user_id() == self.user_id()
                &&& res.0.total_used() == self.total_used()
                &&& self.files_count() == 0 ==> (res.1 matches UploadStep::Run(UploadCommand::Commit) && res.0.stage() is AwaitCommit)
                &&& self.files_count() > 0 ==> (res.0.stage() matches UploadStage::AwaitUpload { index, .. } && index == 0)
                &&& self.files_count() > 0 ==> (res.1 matches UploadStep::Run(UploadCommand::UploadObject { .. }))
            }),
            // each object's key names its owner, a fresh identifier and the file
            res.1 matches UploadStep::Run(UploadCommand::UploadObject { index, key, content_type }) ==> {
                &&& res.0.stage() matches UploadStage::AwaitUpload { index: i, file_id, key: k }
                &&& i == index
                &&& k@ == key@
                &&& index < res.0.files_count()
                &&& key@ == spec_object_key(res.0.user_id(), file_id, res.0.file_name(index as int))
                &&& is_v4_uuid(file_id)
                &&& content_type@ == res.0.content_type(index as int)
            },
            // the quota decides between recording the file and undoing it
            self.stage() matches UploadStage::AwaitUpload { index, file_id, key } ==> (event matches UploadEvent::Uploaded(size) ==> {
                &&& within_quota(self.total_used(), size) ==> res.0.stage() == (UploadStage::AwaitInsert { index })
                &&& within_quota(self.total_used(), size) ==> (res.1 matches UploadStep::Run(UploadCommand::InsertFile {
                    file_id: fid,
                    url,
                    file_name,
                    user_id,
                    folder_id,
                    size: sz,
                    content_type,
                }) && fid == file_id && is_v4_uuid(fid) && url@ == spec_object_url(self.endpoint(), self.bucket(), key@)
                    && file_name@ == self.file_name(index as int) && user_id == self.user_id()
                    && folder_id == self.folder_id() && sz == size
                    && content_type@ == self.content_type(index as int))
                &&& !within_quota(self.total_used(), size) ==> ((res.1 matches UploadStep::Run(UploadCommand::Rollback))
                    && (res.0.stage() matches UploadStage::AwaitRollback { key: k } && k@ == key@))
            }),
            // after the rollback the object is deleted, and the upload is refused
            self.stage() matches UploadStage::AwaitRollback { key } ==> (event is Done ==>
                (res.1 matches UploadStep::Run(UploadCommand::DeleteObject(k)) && k@ == key@) && res.0.stage() is AwaitDelete),
            self.stage() is AwaitDelete ==> (event is Done ==> res.1 == UploadStep::Finish(Err(VeloxError::StorageLimitExceeded))),
            self.stage() matches UploadStage::AwaitInsert { index } ==> (event is Done ==> {
                &&& index + 1 < self.files_count() ==> (res.0.stage() matches UploadStage::AwaitUpload { index: i, .. } && i == index + 1)
                &&& index + 1 < self.files_count() ==> (res.1 matches UploadStep::Run(UploadCommand::UploadObject { index: i, .. })
                    && i == index + 1)
                &&& index + 1 == self.files_count() ==> (res.1 matches UploadStep::Run(UploadCommand::Commit)
                    && res.0.stage() is AwaitCommit)
            }),
            // the commit comes only once every file is recorded
            res.0.stage() is AwaitCommit ==> (self.stage() is AwaitConfig && event is StorageConfig && self.files_count() == 0)
                || (self.stage() matches UploadStage::AwaitInsert { index } && event is Done && index + 1 == self.files_count()),
            // success only once the commit went through
            res.1 == UploadStep::Finish(Ok(())) <==> (self.stage() is AwaitCommit && event is Done),
            // what is recorded: one size per file, each within the quota
            // beside the total stored before the upload
            res.1 matches UploadStep::Run(UploadCommand::InsertFile { size, .. }) ==> res.0.inserted_sizes()
                == self.inserted_sizes().push(size),
            !(res.1 matches UploadStep::Run(UploadCommand::InsertFile { .. })) ==> res.0.inserted_sizes()
                == self.inserted_sizes(),
            forall|i: int| 0 <= i < res.0.inserted_sizes().len() ==> within_quota(res.0.total_used(), #[trigger] res.0.inserted_sizes()[i]),
            res.1 == UploadStep::Finish(Ok(())) ==> res.0.inserted_sizes().len() == res.0.files_count(),
            // an upload of one file never takes the user past the quota
            res.1 == UploadStep::Finish(Ok(())) && res.0.files_count() == 1 ==> res.0.total_used() + sum_sizes(
                res.0.inserted_sizes(),
            ) <= GB_IN_NUMS,
    {
        match event {
            UploadEvent::Failed(e) => {
                if let UploadStage::Over = self.stage {
                    self.stop(Err(VeloxError::InternalError))
                } else {
                    self.stop(Err(e))
                }
            },
            UploadEvent::UserLookup(u) => {
                if let UploadStage::AwaitUser = self.stage {
                    match u {
                        None => self.stop(Err(VeloxError::NotFound)),
                        Some(user) => {
                            let id = user.id;
                            (UploadFlow { user_id: id, stage: UploadStage::AwaitTotal, ..self }, UploadStep::Run(UploadCommand::GetTotalStorage(id)))
                        },
                    }
                } else {
                    self.stop(Err(VeloxError::InternalError))
                }
            },
            UploadEvent::TotalStorage(t) => {
                if let UploadStage::AwaitTotal = self.stage {
                    (UploadFlow { total_used: t, stage: UploadStage::AwaitConfig, ..self }, UploadStep::Run(UploadCommand::LoadStorageConfig))
                } else {
                    self.stop(Err(VeloxError::InternalError))
                }
            },
            UploadEvent::StorageConfig { endpoint, bucket } => {
                if let UploadStage::AwaitConfig = self.stage {
                    let flow = UploadFlow { endpoint, bucket, ..self };
                    flow.next_file(0)
                } else {
                    self.stop(Err(VeloxError::InternalError))
                }
            },
            UploadEvent::Uploaded(size) => {
                let UploadFlow { email, folder_id, files, user_id, total_used, endpoint, bucket, stage, inserted } = self;
                match stage {
                    UploadStage::AwaitUpload { index, file_id, key } => {
                        let flow = UploadFlow { email, folder_id, files, user_id, total_used, endpoint, bucket, inserted, stage: UploadStage::AwaitDelete };
                        if (total_used as i128) + (size as i128) > (GB_IN_NUMS as i128) {
                            (UploadFlow { stage: UploadStage::AwaitRollback { key }, ..flow }, UploadStep::Run(UploadCommand::Rollback))
                        } else {
                            let url = object_url(flow.endpoint.as_str(), flow.bucket.as_str(), key.as_str());
                            let cmd = UploadCommand::InsertFile {
                                file_id,
                                url,
                                file_name: flow.files[index].file_name.clone(),
                                user_id: flow.user_id,
                                folder_id: flow.folder_id,
                                size,
                                content_type: flow.files[index].content_type.clone(),
                            };
                            let recorded: Ghost<Seq<i64>> = Ghost(flow.inserted@.push(size));
                            (UploadFlow { stage: UploadStage::AwaitInsert { index }, inserted: recorded, ..flow }, UploadStep::Run(cmd))
                        }
                    },
                    other => {
                        let flow = UploadFlow { email, folder_id, files, user_id, total_used, endpoint, bucket, inserted, stage: other };
                        flow.stop(Err(VeloxError::InternalError))
                    },
                }
            },
            UploadEvent::Done => {
                let UploadFlow { email, folder_id, files, user_id, total_used, endpoint, bucket, stage, inserted } = self;
                let flow = UploadFlow { email, folder_id, files, user_id, total_used, endpoint, bucket, inserted, stage: UploadStage::Over };
                match stage {
                    UploadStage::AwaitInsert { index } => {
                        let n = flow.files.len();
                        assert(index < n);
                        flow.next_file(index + 1)
                    },
                    UploadStage::AwaitRollback { key } => {
                        (UploadFlow { stage: UploadStage::AwaitDelete, ..flow }, UploadStep::Run(UploadCommand::DeleteObject(key)))
                    },
                    UploadStage::AwaitDelete => flow.stop(Err(VeloxError::StorageLimitExceeded)),
                    UploadStage::AwaitCommit => {
                        proof {
                            reveal_with_fuel(sum_sizes, 2);
                        }
                        flow.stop(Ok(()))
                    },
                    _ => flow.stop(Err(VeloxError::InternalError)),
                }
            },
        }
    }
}

} // verus!
