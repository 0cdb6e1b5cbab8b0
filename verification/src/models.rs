//! The records the service keeps: users, pending sign-ups, magic link and
//! refresh tokens, files and folders.
use vstd::prelude::*;
use crate::time::Timestamp;

verus! {

/// What a magic link does when followed: finish a sign-up or log in.
#[derive(Debug, Clone, Copy, PartialEq, Eq, Structural)]
pub enum ResponseType {
    SignIn,
    LogIn,
}

#[derive(Debug, Clone, Copy, PartialEq, Eq, Structural)]
pub enum Gender {
    Male,
    Female,
}

/// A registered user.
#[derive(Debug)]
pub struct User {
    pub id: u128,
    pub email: String,
    pub name: Option<String>,
    pub avatar: Option<String>,
    pub gender: Option<Gender>,
    pub created_at: Timestamp,
}

/// An address that asked to sign up and has not followed its link yet.
#[derive(Debug)]
pub struct TempUser {
    pub email: String,
}

/// A stored magic link token; `token` holds the hash of the raw token.
#[derive(Debug)]
pub struct MagicToken {
    pub token: String,
    pub email: String,
    pub kind: ResponseType,
    pub created_at: Timestamp,
    pub expires_at: Timestamp,
}

/// A stored refresh token; `token` holds the hash of the raw token.
#[derive(Debug)]
pub struct RefreshToken {
    pub token: String,
    pub user_id: u128,
    pub expires_at: Timestamp,
}

/// A stored file: `url` locates its object in the bucket.
#[derive(Debug)]
pub struct File {
    pub id: u128,
    pub name: String,
    pub owner: u128,
    pub url: String,
    pub file_type: String,
    pub size: i64,
    pub folder_id: Option<u128>,
    pub created_at: Timestamp,
}

/// A folder of a user, possibly inside another folder.
#[derive(Debug)]
pub struct Folder {
    pub id: u128,
    pub name: String,
    pub user_id: u128,
    pub parent_id: Option<u128>,
    pub created_at: Timestamp,
}

} // verus!
