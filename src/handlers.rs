//! The data shapes of the API and the request handlers.
//!
//! Handlers are pure: each returns its response together with the console
//! line that the server prints for it, and holds no state between calls.
use vstd::prelude::*;
use crate::decimal::{parse_i32, parse_i32_spec};

verus! {

pub const STATUS_OK: u16 = 200;

pub const STATUS_CREATED: u16 = 201;

pub const STATUS_BAD_REQUEST: u16 = 400;

pub const STATUS_INTERNAL_ERROR: u16 = 500;

/// A user as returned by the fetch handler.
pub struct User {
    pub id: i32,
    pub username: String,
}

/// The JSON body that creates a user.
pub struct CreateUserRequest {
    pub username: String,
    pub email: String,
}

/// An uploaded file: what its part header said, and its contents.
pub struct UploadedFile {
    pub file_name: Option<String>,
    pub content_type: Option<String>,
    pub contents: Vec<u8>,
}

/// The decoded multipart body of an upload.
pub struct UploadFileRequest {
    pub file: UploadedFile,
    pub description: String,
}

/// A plain-text response and the console line that goes with it.
pub struct Reply {
    pub status: u16,
    pub body: String,
    pub log_line: String,
}

/// Why a request was refused before it reached its handler.
#[derive(PartialEq, Eq, Structural, Clone, Copy, Debug)]
pub enum RequestError {
    /// The `{id}` segment of `/user/{id}` is not an `i32`.
    InvalidUserId,
}

impl RequestError {
    /// The HTTP status that the error is answered with.
    pub fn status(&self) -> (r: u16)
        ensures
            r == STATUS_BAD_REQUEST,
    {
        STATUS_BAD_REQUEST
    }
}

pub open spec fn placeholder_username() -> Seq<char> {
    "rust_dev test"@
}

pub open spec fn opt_view(o: Option<String>) -> Option<Seq<char>> {
    match o {
        Some(s) => Some(s@),
        None => None,
    }
}

pub open spec fn create_log_spec(username: Seq<char>, email: Seq<char>) -> Seq<char> {
    "Creating user: "@ + username + ", with email: "@ + email
}

pub open spec fn created_body() -> Seq<char> {
    "User created"@
}

pub open spec fn upload_text_spec(name: Seq<char>, description: Seq<char>) -> Seq<char> {
    "Uploaded "@ + name + " with description: "@ + description
}

pub open spec fn unknown_file_name() -> Seq<char> {
    "Unknown file_name"@
}

/// Builds the user that `GET /user/{id}` returns: the requested id and the
/// fixed placeholder name.
pub fn get_user(id: i32) -> (r: User)
    ensures
        r.id == id,
        r.username@ == placeholder_username(),
{
    User { id, username: String::from_str("rust_dev test") }
}

/// Serves `GET /user/{segment}`: the segment must read as an `i32`.
pub fn fetch_user(segment: &str) -> (r: Result<User, RequestError>)
    ensures
        match parse_i32_spec(segment@) {
            Some(id) => r matches Ok(u) && u.id == id && u.username@ == placeholder_username(),
            None => r == Err::<User, RequestError>(RequestError::InvalidUserId),
        },
{
    match parse_i32(segment) {
        Some(id) => Ok(get_user(id)),
        None => Err(RequestError::InvalidUserId),
    }
}

/// Serves `POST /user`: nothing is stored; the answer is a fixed text.
pub fn create_user(payload: &CreateUserRequest) -> (r: Reply)
    ensures
        r.status == STATUS_CREATED,
        r.body@ == created_body(),
        r.log_line@ == create_log_spec(payload.username@, payload.email@),
{
    let log_line = String::from_str("Creating user: ").concat(payload.username.as_str()).concat(
        ", with email: ",
    ).concat(payload.email.as_str());
    Reply { status: STATUS_CREATED, body: String::from_str("User created"), log_line }
}

fn upload_text(name: &str, description: &str) -> (r: String)
    ensures
        r@ == upload_text_spec(name@, description@),
{
    String::from_str("Uploaded ").concat(name).concat(" with description: ").concat(description)
}

/// Serves `POST /upload` once the body is decoded. The console line names the
/// file, or a placeholder when the part gave no file name; the response needs
/// the name, and without one the request ends in an internal error.
pub fn upload_file(request: &UploadFileRequest) -> (r: Reply)
    ensures
        r.log_line@ == upload_text_spec(
            match request.file.file_name {
                Some(n) => n@,
                None => unknown_file_name(),
            },
            request.description@,
        ),
        match request.file.file_name {
            Some(n) => r.status == STATUS_OK && r.body@ == upload_text_spec(
                n@,
                request.description@,
            ),
            None => r.status == STATUS_INTERNAL_ERROR && r.body@.len() == 0,
        },
{
    match &request.file.file_name {
        Some(name) => {
            let text = upload_text(name.as_str(), request.description.as_str());
            let log_line = upload_text(name.as_str(), request.description.as_str());
            Reply { status: STATUS_OK, body: text, log_line }
        },
        None => {
            let log_line = upload_text("Unknown file_name", request.description.as_str());
            Reply { status: STATUS_INTERNAL_ERROR, body: String::new(), log_line }
        },
    }
}

/// The fixed landing page served at `/`.
pub fn landing_page() -> (r: String)
    ensures
        r@ == "<html><body><h1>Check Source test</h1></body></html>"@,
{
    String::from_str("<html><body><h1>Check Source test</h1></body></html>")
}

} // verus!
