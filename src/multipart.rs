//! Decoding the parts of a multipart body into an upload request.
//!
//! A part whose name is absent or empty is skipped, as is one whose name is
//! not a field of the request. When a field comes more than once the last
//! one wins. The text field must be UTF-8; both fields are required.
use vstd::prelude::*;
use vstd::utf8::{valid_utf8, decode_utf8};
use crate::handlers::{UploadedFile, UploadFileRequest, opt_view, STATUS_BAD_REQUEST};

verus! {

/// One part of a multipart body, as the transport layer split it.
pub struct Part {
    pub name: Option<String>,
    pub file_name: Option<String>,
    pub content_type: Option<String>,
    pub data: Vec<u8>,
}

/// A field of the upload request.
#[derive(PartialEq, Eq, Structural, Clone, Copy, Debug)]
pub enum UploadField {
    File,
    Description,
}

/// Why a multipart body does not decode into an upload request.
#[derive(PartialEq, Eq, Structural, Clone, Copy, Debug)]
pub enum DecodeError {
    MissingField(UploadField),
    WrongFieldType(UploadField),
}

impl DecodeError {
    /// The HTTP status that the error is answered with.
    pub fn status(&self) -> (r: u16)
        ensures
            r == STATUS_BAD_REQUEST,
    {
        STATUS_BAD_REQUEST
    }
}

pub open spec fn file_field_name() -> Seq<char> {
    "file"@
}

pub open spec fn description_field_name() -> Seq<char> {
    "description"@
}

pub open spec fn named(p: Part, name: Seq<char>) -> bool {
    opt_view(p.name) == Some(name)
}

/// The file field holds what the part held.
pub open spec fn file_of(f: UploadedFile, p: Part) -> bool {
    &&& opt_view(f.file_name) == opt_view(p.file_name)
    &&& opt_view(f.content_type) == opt_view(p.content_type)
    &&& f.contents@ == p.data@
}

/// The fields found in the first `k` parts: the index of the last file part
/// and the text of the last description part, or the first error met.
pub open spec fn scan_parts(parts: Seq<Part>, k: int) -> Result<
    (Option<int>, Option<Seq<char>>),
    DecodeError,
>
    decreases k,
{
    if k <= 0 {
        Ok((None, None))
    } else {
        match scan_parts(parts, k - 1) {
            Err(e) => Err(e),
            Ok((file, description)) => {
                let p = parts[k - 1];
                if named(p, file_field_name()) {
                    Ok((Some(k - 1), description))
                } else if named(p, description_field_name()) {
                    if valid_utf8(p.data@) {
                        Ok((file, Some(decode_utf8(p.data@))))
                    } else {
                        Err(DecodeError::WrongFieldType(UploadField::Description))
                    }
                } else {
                    Ok((file, description))
                }
            },
        }
    }
}

proof fn lemma_scan_error_stays(parts: Seq<Part>, j: int, m: int)
    requires
        j <= m,
        scan_parts(parts, j) is Err,
    ensures
        scan_parts(parts, m) == scan_parts(parts, j),
    decreases m - j,
{
    if j < m {
        lemma_scan_error_stays(parts, j, m - 1);
    }
}

/// Relies on std's `String::from_utf8`: it accepts exactly the UTF-8 byte
/// sequences, and the text is the one they encode.
#[verifier::external_body]
fn text_from_utf8(bytes: Vec<u8>) -> (r: Option<String>)
    ensures
        match r {
            Some(s) => valid_utf8(bytes@) && s@ == decode_utf8(bytes@),
            None => !valid_utf8(bytes@),
        },
{
    String::from_utf8(bytes).ok()
}

fn copy_text(o: &Option<String>) -> (r: Option<String>)
    ensures
        opt_view(r) == opt_view(*o),
{
    match o {
        Some(s) => Some(s.clone()),
        None => None,
    }
}

fn copy_bytes(v: &Vec<u8>) -> (r: Vec<u8>)
    ensures
        r@ == v@,
{
    let mut r: Vec<u8> = Vec::new();
    let mut i: usize = 0;
    while i < v.len()
        invariant
            i <= v.len(),
            r@ == v@.subrange(0, i as int),
        decreases v.len() - i,
    {
        r.push(v[i]);
        i = i + 1;
        proof {
            assert(r@ =~= v@.subrange(0, i as int));
        }
    }
    proof {
        assert(r@ =~= v@);
    }
    r
}

fn is_named(p: &Part, name: &str) -> (r: bool)
    ensures
        r == named(*p, name@),
{
    match &p.name {
        Some(n) => *n == String::from_str(name),
        None => false,
    }
}

/// Decodes the parts of an upload body.
pub fn decode_upload(parts: &Vec<Part>) -> (r: Result<UploadFileRequest, DecodeError>)
    ensures
        match scan_parts(parts@, parts@.len() as int) {
            Err(e) => r == Err::<UploadFileRequest, DecodeError>(e),
            Ok((None, _)) => r == Err::<UploadFileRequest, DecodeError>(
                DecodeError::MissingField(UploadField::File),
            ),
            Ok((Some(_), None)) => r == Err::<UploadFileRequest, DecodeError>(
                DecodeError::MissingField(UploadField::Description),
            ),
            Ok((Some(i), Some(d))) => r matches Ok(req) && file_of(req.file, parts@[i])
                && req.description@ == d,
        },
{
    let mut file: Option<UploadedFile> = None;
    let mut description: Option<String> = None;
    let mut k: usize = 0;
    while k < parts.len()
        invariant
            k <= parts.len(),
            scan_parts(parts@, k as int) matches Ok((f, d)) && opt_view(description) == d && (
            match f {
                None => file is None,
                Some(i) => 0 <= i < k && (file matches Some(uf) && file_of(uf, parts@[i])),
            }),
        decreases parts.len() - k,
    {
        let p = &parts[k];
        if is_named(p, "file") {
            file = Some(
                UploadedFile {
                    file_name: copy_text(&p.file_name),
                    content_type: copy_text(&p.content_type),
                    contents: copy_bytes(&p.data),
                },
            );
        } else if is_named(p, "description") {
            match text_from_utf8(copy_bytes(&p.data)) {
                Some(text) => {
                    description = Some(text);
                },
                None => {
                    proof {
                        lemma_scan_error_stays(parts@, k + 1, parts@.len() as int);
                    }
                    return Err(DecodeError::WrongFieldType(UploadField::Description));
                },
            }
        }
        k = k + 1;
    }
    match file {
        None => Err(DecodeError::MissingField(UploadField::File)),
        Some(f) => match description {
            None => Err(DecodeError::MissingField(UploadField::Description)),
            Some(d) => Ok(UploadFileRequest { file: f, description: d }),
        },
    }
}

} // verus!
