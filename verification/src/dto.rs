//! Request and response bodies, and the checks on requests.
use vstd::prelude::*;
use crate::error::VeloxError;
use crate::models::{File, Folder};
use crate::validation::{is_valid_email, validate_email, validate_length};

verus! {

/// Body of a login request.
#[derive(Debug)]
pub struct LoginRequest {
    pub email: String,
}

impl LoginRequest {
    /// Accepts a well-formed e-mail address, else refuses with
    /// `email: Invalid email format`.
    pub fn validate(&self) -> (res: Result<(), VeloxError>)
        ensures
            res is Ok <==> is_valid_email(self.email@),
            res matches Err(VeloxError::ValidationError(m)) ==> m@ == "email: Invalid email format"@,
            res is Err ==> res matches Err(VeloxError::ValidationError(_)),
    {
        if validate_email(self.email.as_str()) {
            Ok(())
        } else {
            Err(VeloxError::ValidationError(String::from_str("email: Invalid email format")))
        }
    }
}

/// Body of a request to rename a file.
#[derive(Debug)]
pub struct RenameFileRequest {
    pub new_name: String,
}

impl RenameFileRequest {
    /// Accepts a name of 1 to 100 characters, else refuses with
    /// `new_name: invalid file name`.
    pub fn validate(&self) -> (res: Result<(), VeloxError>)
        ensures
            res is Ok <==> 1 <= self.new_name@.len() <= 100,
            res matches Err(VeloxError::ValidationError(m)) ==> m@ == "new_name: invalid file name"@,
            res is Err ==> res matches Err(VeloxError::ValidationError(_)),
    {
        if validate_length(self.new_name.as_str(), 1, 100) {
            Ok(())
        } else {
            Err(VeloxError::ValidationError(String::from_str("new_name: invalid file name")))
        }
    }
}

/// Body of a request to create a folder, inside `parent_id` if given.
#[derive(Debug)]
pub struct CreateFolderRequest {
    pub name: String,
    pub parent_id: Option<u128>,
}

impl CreateFolderRequest {
    /// Accepts a name of 1 to 50 characters, else refuses with
    /// `name: invalid folder name`.
    pub fn validate(&self) -> (res: Result<(), VeloxError>)
        ensures
            res is Ok <==> 1 <= self.name@.len() <= 50,
            res matches Err(VeloxError::ValidationError(m)) ==> m@ == "name: invalid folder name"@,
            res is Err ==> res matches Err(VeloxError::ValidationError(_)),
    {
        if validate_length(self.name.as_str(), 1, 50) {
            Ok(())
        } else {
            Err(VeloxError::ValidationError(String::from_str("name: invalid folder name")))
        }
    }
}

/// Body of a request to rename a folder.
#[derive(Debug)]
pub struct RenameFolderRequest {
    pub new_name: String,
}

impl RenameFolderRequest {
    /// Accepts a name of 1 to 50 characters, else refuses with
    /// `new_name: invalid folder name`.
    pub fn validate(&self) -> (res: Result<(), VeloxError>)
        ensures
            res is Ok <==> 1 <= self.new_name@.len() <= 50,
            res matches Err(VeloxError::ValidationError(m)) ==> m@ == "new_name: invalid folder name"@,
            res is Err ==> res matches Err(VeloxError::ValidationError(_)),
    {
        if validate_length(self.new_name.as_str(), 1, 50) {
            Ok(())
        } else {
            Err(VeloxError::ValidationError(String::from_str("new_name: invalid folder name")))
        }
    }
}

/// What a folder holds: its files and its sub-folders.
#[derive(Debug)]
pub struct FolderContents {
    pub files: Vec<File>,
    pub folders: Vec<Folder>,
}

/// A response body: a message and, possibly, data.
#[derive(Debug)]
pub struct ApiResponse<T> {
    pub message: String,
    pub data: Option<T>,
}

} // verus!
