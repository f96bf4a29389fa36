//! The data model shared by every part of TimesMan.

use vstd::prelude::*;

use crate::text::copy_bytes;
use crate::time::DateTime;

verus! {

/// Identifier of a times.
pub type Tid = u64;

/// Identifier of a post inside a times.
pub type Pid = u64;

/// Identifier of a todo inside a times.
pub type Tdid = u64;

/// Identifier of a tag inside a times.
pub type TagId = u64;

/// A titled log that posts, tags and todos belong to.
#[derive(Clone, Debug, PartialEq, Eq)]
pub struct Times {
    pub id: Tid,
    pub title: String,
    pub created_at: DateTime,
    pub updated_at: Option<DateTime>,
}

/// The mathematical value of a [`Times`].
pub struct TimesV {
    pub id: Tid,
    pub title: Seq<char>,
    pub created_at: DateTime,
    pub updated_at: Option<DateTime>,
}

impl View for Times {
    type V = TimesV;

    open spec fn view(&self) -> TimesV {
        TimesV {
            id: self.id,
            title: self.title@,
            created_at: self.created_at,
            updated_at: self.updated_at,
        }
    }
}

impl Times {
    /// A field-by-field copy.
    pub fn duplicate(&self) -> (r: Times)
        ensures
            r@ == self@,
    {
        Times {
            id: self.id,
            title: self.title.clone(),
            created_at: self.created_at,
            updated_at: self.updated_at,
        }
    }
}

/// The content of an attached file.
#[derive(Clone, Debug, PartialEq, Eq)]
pub enum FileType {
    Image(Vec<u8>),
    Text(String),
    Other(Vec<u8>),
}

/// The mathematical value of a [`FileType`].
pub enum FileTypeV {
    Image(Seq<u8>),
    Text(Seq<char>),
    Other(Seq<u8>),
}

impl View for FileType {
    type V = FileTypeV;

    open spec fn view(&self) -> FileTypeV {
        match self {
            FileType::Image(d) => FileTypeV::Image(d@),
            FileType::Text(t) => FileTypeV::Text(t@),
            FileType::Other(d) => FileTypeV::Other(d@),
        }
    }
}

impl FileType {
    /// A copy of the content.
    pub fn duplicate(&self) -> (r: FileType)
        ensures
            r@ == self@,
    {
        match self {
            FileType::Image(d) => FileType::Image(copy_bytes(d)),
            FileType::Text(t) => FileType::Text(t.clone()),
            FileType::Other(d) => FileType::Other(copy_bytes(d)),
        }
    }
}

/// A file attached to a post.
#[derive(Clone, Debug, PartialEq, Eq)]
pub struct File {
    pub name: String,
    pub ftype: FileType,
}

/// The mathematical value of a [`File`].
pub struct FileV {
    pub name: Seq<char>,
    pub ftype: FileTypeV,
}

impl View for File {
    type V = FileV;

    open spec fn view(&self) -> FileV {
        FileV { name: self.name@, ftype: self.ftype@ }
    }
}

impl File {
    /// A copy of the file.
    pub fn duplicate(&self) -> (r: File)
        ensures
            r@ == self@,
    {
        File { name: self.name.clone(), ftype: self.ftype.duplicate() }
    }
}

/// The view of an optional file.
pub open spec fn opt_file_view(f: Option<File>) -> Option<FileV> {
    match f {
        Some(f) => Some(f@),
        None => None,
    }
}

/// A copy of an optional file.
pub fn duplicate_opt_file(f: &Option<File>) -> (r: Option<File>)
    ensures
        opt_file_view(r) == opt_file_view(*f),
{
    match f {
        Some(f) => Some(f.duplicate()),
        None => None,
    }
}

/// The view of an optional string.
pub open spec fn opt_str_view(s: Option<String>) -> Option<Seq<char>> {
    match s {
        Some(s) => Some(s@),
        None => None,
    }
}

/// A copy of an optional string.
pub fn duplicate_opt_string(s: &Option<String>) -> (r: Option<String>)
    ensures
        opt_str_view(r) == opt_str_view(*s),
{
    match s {
        Some(s) => Some(s.clone()),
        None => None,
    }
}

/// A post of a times.
#[derive(Clone, Debug, PartialEq, Eq)]
pub struct Post {
    pub id: Pid,
    pub post: String,
    pub created_at: DateTime,
    pub updated_at: Option<DateTime>,
    pub file: Option<File>,
    pub tag: Option<TagId>,
}

/// The mathematical value of a [`Post`].
pub struct PostV {
    pub id: Pid,
    pub post: Seq<char>,
    pub created_at: DateTime,
    pub updated_at: Option<DateTime>,
    pub file: Option<FileV>,
    pub tag: Option<TagId>,
}

impl View for Post {
    type V = PostV;

    open spec fn view(&self) -> PostV {
        PostV {
            id: self.id,
            post: self.post@,
            created_at: self.created_at,
            updated_at: self.updated_at,
            file: opt_file_view(self.file),
            tag: self.tag,
        }
    }
}

impl Post {
    /// A field-by-field copy.
    pub fn duplicate(&self) -> (r: Post)
        ensures
            r@ == self@,
    {
        Post {
            id: self.id,
            post: self.post.clone(),
            created_at: self.created_at,
            updated_at: self.updated_at,
            file: duplicate_opt_file(&self.file),
            tag: self.tag,
        }
    }
}

/// A tag that posts of a times can carry.
#[derive(Clone, Debug, PartialEq, Eq)]
pub struct Tag {
    pub id: TagId,
    pub name: String,
}

/// The mathematical value of a [`Tag`].
pub struct TagV {
    pub id: TagId,
    pub name: Seq<char>,
}

impl View for Tag {
    type V = TagV;

    open spec fn view(&self) -> TagV {
        TagV { id: self.id, name: self.name@ }
    }
}

impl Tag {
    /// A field-by-field copy.
    pub fn duplicate(&self) -> (r: Tag)
        ensures
            r@ == self@,
    {
        Tag { id: self.id, name: self.name.clone() }
    }
}

/// A todo of a times; it is done when `done_at` holds a time.
#[derive(Clone, Debug, PartialEq, Eq)]
pub struct Todo {
    pub id: Tdid,
    pub content: String,
    pub detail: Option<String>,
    pub created_at: DateTime,
    pub done_at: Option<DateTime>,
}

/// The mathematical value of a [`Todo`].
pub struct TodoV {
    pub id: Tdid,
    pub content: Seq<char>,
    pub detail: Option<Seq<char>>,
    pub created_at: DateTime,
    pub done_at: Option<DateTime>,
}

impl View for Todo {
    type V = TodoV;

    open spec fn view(&self) -> TodoV {
        TodoV {
            id: self.id,
            content: self.content@,
            detail: opt_str_view(self.detail),
            created_at: self.created_at,
            done_at: self.done_at,
        }
    }
}

impl Todo {
    /// A field-by-field copy.
    pub fn duplicate(&self) -> (r: Todo)
        ensures
            r@ == self@,
    {
        Todo {
            id: self.id,
            content: self.content.clone(),
            detail: duplicate_opt_string(&self.detail),
            created_at: self.created_at,
            done_at: self.done_at,
        }
    }
}

/// Identifier of a user: the 128 bits of a UUID.
pub type UserId = u128;

/// What a user may do.
#[derive(Clone, Copy, Debug, PartialEq, Eq)]
pub enum UserRole {
    Admin,
    User,
}

/// A registered user.
#[derive(Clone, Debug, PartialEq, Eq)]
pub struct User {
    pub id: UserId,
    pub username: String,
    pub email: String,
    pub password_hash: String,
    pub role: UserRole,
    pub created_at: DateTime,
    pub updated_at: Option<DateTime>,
    pub is_active: bool,
}

/// The mathematical value of a [`User`].
pub struct UserV {
    pub id: UserId,
    pub username: Seq<char>,
    pub email: Seq<char>,
    pub password_hash: Seq<char>,
    pub role: UserRole,
    pub created_at: DateTime,
    pub updated_at: Option<DateTime>,
    pub is_active: bool,
}

impl View for User {
    type V = UserV;

    open spec fn view(&self) -> UserV {
        UserV {
            id: self.id,
            username: self.username@,
            email: self.email@,
            password_hash: self.password_hash@,
            role: self.role,
            created_at: self.created_at,
            updated_at: self.updated_at,
            is_active: self.is_active,
        }
    }
}

impl User {
    /// A field-by-field copy.
    pub fn duplicate(&self) -> (r: User)
        ensures
            r@ == self@,
    {
        User {
            id: self.id,
            username: self.username.clone(),
            email: self.email.clone(),
            password_hash: self.password_hash.clone(),
            role: self.role,
            created_at: self.created_at,
            updated_at: self.updated_at,
            is_active: self.is_active,
        }
    }
}

/// What a client learns of a user.
#[derive(Clone, Debug, PartialEq, Eq)]
pub struct UserInfo {
    pub id: UserId,
    pub username: String,
    pub email: String,
    pub role: UserRole,
}

/// The answer to a successful registration or login.
#[derive(Clone, Debug, PartialEq, Eq)]
pub struct AuthResponse {
    pub access_token: String,
    pub token_type: String,
    pub expires_in: usize,
    pub user: UserInfo,
}

/// The claims that an access token carries.
#[derive(Clone, Debug, PartialEq, Eq)]
pub struct Claims {
    pub sub: String,
    pub username: String,
    pub role: UserRole,
    pub exp: usize,
    pub iat: usize,
    pub iss: String,
}

/// A login attempt.
#[derive(Clone, Debug, PartialEq, Eq)]
pub struct LoginRequest {
    pub username: String,
    pub password: String,
}

/// A registration.
#[derive(Clone, Debug, PartialEq, Eq)]
pub struct RegisterRequest {
    pub username: String,
    pub email: String,
    pub password: String,
}

} // verus!
