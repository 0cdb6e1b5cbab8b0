//! What the HTTP handlers decide: the cookies of a session, and how the
//! fields of an upload form are read.
use vstd::prelude::*;
use crate::error::VeloxError;
use crate::files::FileMeta;
use crate::ids::{parse_uuid, parsed_uuid};
use crate::text::{str_eq, string_from_utf8};
use crate::auth::{AuthCommandView, AuthService, AuthStep, LoginFlow, LogoutFlow, RefreshFlow};
use crate::crypto::token_hash;
use crate::dto::{CreateFolderRequest, LoginRequest, RenameFileRequest};
use crate::files::FileService;
use crate::scoped::{FolderService, ScopedCommand, ScopedFlow, ScopedOp, ScopedStep};
use crate::validation::is_valid_email;

verus! {

/// How long the access token cookie lives, in seconds (15 minutes).
pub const ACCESS_COOKIE_MAX_AGE: i64 = 900;

/// How long the refresh token cookie lives, in seconds (30 days).
pub const REFRESH_COOKIE_MAX_AGE: i64 = 2_592_000;

/// A cookie to set (or, without a value and a lifetime, to remove).
#[derive(Debug)]
pub struct CookieSpec {
    pub name: String,
    pub value: String,
    pub path: String,
    pub http_only: bool,
    pub secure: bool,
    pub same_site_strict: bool,
    pub max_age_secs: Option<i64>,
}

/// A session cookie: on every path, HTTP only, secure, same-site strict.
pub open spec fn is_session_cookie(c: CookieSpec, name: Seq<char>, value: Seq<char>, max_age: Option<i64>) -> bool {
    &&& c.name@ == name
    &&& c.value@ == value
    &&& c.path@ == "/"@
    &&& c.http_only
    &&& c.secure
    &&& c.same_site_strict
    &&& c.max_age_secs == max_age
}

fn session_cookie(name: &str, value: String, max_age: Option<i64>) -> (res: CookieSpec)
    ensures
        is_session_cookie(res, name@, value@, max_age),
{
    CookieSpec {
        name: String::from_str(name),
        value,
        path: String::from_str("/"),
        http_only: true,
        secure: true,
        same_site_strict: true,
        max_age_secs: max_age,
    }
}

pub struct AuthHandler {}

impl AuthHandler {
    /// The cookies that carry a new session: the access token for 15
    /// minutes and the refresh token for 30 days.
    pub fn session_cookies(access_token: String, refresh_token: String) -> (res: (CookieSpec, CookieSpec))
        ensures
            is_session_cookie(res.0, "access_token"@, access_token@, Some(ACCESS_COOKIE_MAX_AGE)),
            is_session_cookie(res.1, "refresh_token"@, refresh_token@, Some(REFRESH_COOKIE_MAX_AGE)),
    {
        (
            session_cookie("access_token", access_token, Some(ACCESS_COOKIE_MAX_AGE)),
            session_cookie("refresh_token", refresh_token, Some(REFRESH_COOKIE_MAX_AGE)),
        )
    }

    /// A login request: the body is checked before anything else is done.
    pub fn login_user(body: &LoginRequest) -> (res: Result<(LoginFlow, AuthStep<()>), VeloxError>)
        ensures
            res is Ok <==> is_valid_email(body.email@),
            res matches Err(VeloxError::ValidationError(m)) ==> m@ == "email: Invalid email format"@,
            res is Err ==> res matches Err(VeloxError::ValidationError(_)),
            res matches Ok((flow, step)) ==> flow.wf() && flow.email() == body.email@
                && (step matches AuthStep::Run(c) && c@ == AuthCommandView::FindUserByEmail(body.email@)),
    {
        match body.validate() {
            Ok(()) => Ok(AuthService::login(body.email.as_str())),
            Err(e) => Err(e),
        }
    }

    /// A refresh request: it needs the session's refresh token cookie, and
    /// without one it is refused as unauthenticated.
    pub fn refresh(refresh_cookie: Option<String>) -> (res: Result<(RefreshFlow, AuthStep<(String, String)>), VeloxError>)
        ensures
            refresh_cookie is None <==> res == Err::<(RefreshFlow, AuthStep<(String, String)>), VeloxError>(VeloxError::AuthError),
            res is Err ==> res matches Err(VeloxError::AuthError),
            res matches Ok((flow, step)) ==> (refresh_cookie matches Some(t) && flow.wf() && flow.raw_token() == t@
                && !flow.is_over() && flow.sent() == 1
                && (step matches AuthStep::Run(c) && c@ == AuthCommandView::FindRefreshToken(token_hash(t@)))),
    {
        match refresh_cookie {
            Some(t) => Ok(AuthService::refresh(t.as_str())),
            None => Err(VeloxError::AuthError),
        }
    }

    /// A logout request: it needs the session's refresh token cookie, and
    /// without one it is refused as unauthenticated.
    pub fn logout(refresh_cookie: Option<String>) -> (res: Result<(LogoutFlow, AuthStep<()>), VeloxError>)
        ensures
            refresh_cookie is None <==> res == Err::<(LogoutFlow, AuthStep<()>), VeloxError>(VeloxError::AuthError),
            res is Err ==> res matches Err(VeloxError::AuthError),
            res matches Ok((flow, step)) ==> (refresh_cookie matches Some(t) && flow.wf() && flow.raw_token() == t@
                && !flow.is_over() && flow.issued() == seq![AuthCommandView::DeleteRefreshToken(token_hash(t@))]
                && (step matches AuthStep::Run(c) && c@ == AuthCommandView::DeleteRefreshToken(token_hash(t@)))),
    {
        match refresh_cookie {
            Some(t) => Ok(AuthService::logout(t.as_str())),
            None => Err(VeloxError::AuthError),
        }
    }

    /// The cookies a logout removes: the refresh token's, then the access
    /// token's.
    pub fn removal_cookies() -> (res: (CookieSpec, CookieSpec))
        ensures
            is_session_cookie(res.0, "refresh_token"@, Seq::empty(), None),
            is_session_cookie(res.1, "access_token"@, Seq::empty(), None),
    {
        (
            session_cookie("refresh_token", String::new(), None),
            session_cookie("access_token", String::new(), None),
        )
    }
}

pub struct FolderHandler {}

impl FolderHandler {
    /// A request to create a folder: the body is checked before anything
    /// else is done.
    pub fn create_folder(user_email: &str, body: &CreateFolderRequest) -> (res: Result<(ScopedFlow, ScopedStep), VeloxError>)
        ensures
            res is Ok <==> 1 <= body.name@.len() <= 50,
            res matches Err(VeloxError::ValidationError(m)) ==> m@ == "name: invalid folder name"@,
            res is Err ==> res matches Err(VeloxError::ValidationError(_)),
            res matches Ok((flow, step)) ==> flow.wf() && (flow.op() matches ScopedOp::CreateFolder { name, parent_id }
                && name@ == body.name@ && parent_id == body.parent_id)
                && (step matches ScopedStep::Run(ScopedCommand::FindUserByEmail(e)) && e@ == user_email@),
    {
        match body.validate() {
            Ok(()) => Ok(FolderService::create(body, user_email)),
            Err(e) => Err(e),
        }
    }
}

/// What a field of an upload form holds.
#[derive(Debug, Clone, Copy, PartialEq, Eq, Structural)]
pub enum FieldKind {
    File,
    FolderId,
    Other,
}

/// The files and the target folder that an upload form names.
#[derive(Debug)]
pub struct UploadForm {
    pub files: Vec<FileMeta>,
    pub folder_id: Option<u128>,
}

/// The name a form field goes by (an unnamed field has the empty name).
pub open spec fn field_name_or_empty(name: Option<&str>) -> Seq<char> {
    match name {
        Some(n) => n@,
        None => Seq::empty(),
    }
}

pub struct FileHandler {}

impl FileHandler {
    /// A request to rename a file: the body is checked before anything else
    /// is done.
    pub fn rename(user_email: &str, file_id: u128, body: &RenameFileRequest) -> (res: Result<(ScopedFlow, ScopedStep), VeloxError>)
        ensures
            res is Ok <==> 1 <= body.new_name@.len() <= 100,
            res matches Err(VeloxError::ValidationError(m)) ==> m@ == "new_name: invalid file name"@,
            res is Err ==> res matches Err(VeloxError::ValidationError(_)),
            res matches Ok((flow, step)) ==> flow.wf() && (flow.op() matches ScopedOp::RenameFile { file_id: f, new_name }
                && f == file_id && new_name@ == body.new_name@)
                && (step matches ScopedStep::Run(ScopedCommand::FindUserByEmail(e)) && e@ == user_email@),
    {
        match body.validate() {
            Ok(()) => Ok(FileService::rename(user_email, file_id, body)),
            Err(e) => Err(e),
        }
    }

    /// A field named `file` carries a file, one named `folder_id` the target
    /// folder; other fields are ignored.
    pub fn field_kind(field_name: Option<&str>) -> (res: FieldKind)
        ensures
            res == FieldKind::File <==> field_name_or_empty(field_name) == "file"@,
            res == FieldKind::FolderId <==> field_name_or_empty(field_name) == "folder_id"@,
    {
        proof {
            reveal_strlit("file");
            reveal_strlit("folder_id");
            reveal_strlit("");
        }
        let name = match field_name {
            Some(n) => n,
            None => "",
        };
        assert(name@ == field_name_or_empty(field_name));
        if str_eq(name, "file") {
            FieldKind::File
        } else if str_eq(name, "folder_id") {
            FieldKind::FolderId
        } else {
            FieldKind::Other
        }
    }
}

impl UploadForm {
    /// A form that names no file and no folder.
    pub fn new() -> (res: UploadForm)
        ensures
            res.files@.len() == 0,
            res.folder_id is None,
    {
        UploadForm { files: Vec::new(), folder_id: None }
    }

    /// Records a file field: its file name, `unknown` when missing, and its
    /// content type, `application/octet-stream` when missing.
    pub fn add_file(&mut self, file_name: Option<&str>, content_type: Option<&str>)
        ensures
            final(self).folder_id == old(self).folder_id,
            final(self).files@.len() == old(self).files@.len() + 1,
            forall|i: int| 0 <= i < old(self).files@.len() ==> final(self).files@[i] == old(self).files@[i],
            final(self).files@.last().file_name@ == (match file_name {
                Some(n) => n@,
                None => "unknown"@,
            }),
            final(self).files@.last().content_type@ == (match content_type {
                Some(c) => c@,
                None => "application/octet-stream"@,
            }),
    {
        let file_name = match file_name {
            Some(n) => String::from_str(n),
            None => String::from_str("unknown"),
        };
        let content_type = match content_type {
            Some(c) => String::from_str(c),
            None => String::from_str("application/octet-stream"),
        };
        self.files.push(FileMeta { file_name, content_type });
    }

    /// Records a `folder_id` field from its bytes. Bytes that are not UTF-8
    /// are refused with `invalid folder_id`; text that names no identifier
    /// clears the folder.
    pub fn set_folder_id(&mut self, data: Vec<u8>) -> (res: Result<(), VeloxError>)
        ensures
            final(self).files@ == old(self).files@,
            !vstd::utf8::valid_utf8(data@) ==> {
                &&& res matches Err(VeloxError::ValidationError(m)) && m@ == "invalid folder_id"@
                &&& final(self).folder_id == old(self).folder_id
            },
            vstd::utf8::valid_utf8(data@) ==> res is Ok && final(self).folder_id == parsed_uuid(
                vstd::utf8::decode_utf8(data@),
            ),
    {
        match string_from_utf8(data) {
            None => Err(VeloxError::ValidationError(String::from_str("invalid folder_id"))),
            Some(text) => {
                self.folder_id = parse_uuid(text.as_str());
                Ok(())
            },
        }
    }
}

} // verus!
