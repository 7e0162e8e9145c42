//! The upload pipeline's decisions: which multipart field is uploaded, under
//! which key, and which response each outcome of the backend call gets.
//!
//! The transport around it parses the multipart body and performs the
//! put-object call; this module decides, on plain values, everything in
//! between.

use vstd::prelude::*;
use crate::response::ResponseMessage;

verus! {

/// What the gateway reads of one multipart field: its metadata, either of
/// which a sender may omit, and its buffered bytes.
pub struct MultipartField {
    pub file_name: Option<String>,
    pub content_type: Option<String>,
    pub data: Vec<u8>,
}

/// A field can be uploaded only when both its file name and its content
/// type were sent.
pub open spec fn field_usable(f: MultipartField) -> bool {
    f.file_name is Some && f.content_type is Some
}

/// One put-object call, fully determined: bucket, key (the file name,
/// verbatim), content type, and payload.
pub struct UploadRequest {
    pub bucket: String,
    pub key: String,
    pub content_type: String,
    pub payload: Vec<u8>,
}

/// What the upload route does with a request: either issue exactly one
/// put-object call, or answer at once without touching storage.
pub enum UploadPlan {
    Store(UploadRequest),
    Respond(ResponseMessage),
}

/// The plan answers immediately with the given status and message.
pub open spec fn plan_responds(p: UploadPlan, status: u16, message: Seq<char>) -> bool {
    p matches UploadPlan::Respond(m) && m.status == status && m.message@ == message
}

/// The plan issues exactly one put-object call with these parameters.
pub open spec fn plan_stores(
    p: UploadPlan,
    bucket: Seq<char>,
    key: Seq<char>,
    content_type: Seq<char>,
    payload: Seq<u8>,
) -> bool {
    p matches UploadPlan::Store(r) && r.bucket@ == bucket && r.key@ == key && r.content_type@
        == content_type && r.payload@ == payload
}

/// Exactly what the plan for one upload request must be.
///
/// Missing or empty bucket configuration is a server error (500); an absent
/// or unusable first field is a client error (400) and storage is never
/// touched — in particular, a field that lacks its file name or content
/// type is never uploaded under a fabricated key. A usable field becomes
/// exactly one put-object call whose key, content type and payload are the
/// field's own, byte for byte.
pub open spec fn correct_plan(
    p: UploadPlan,
    bucket_name: Option<String>,
    first_field: Option<MultipartField>,
) -> bool {
    if !crate::config::value_present(bucket_name) {
        plan_responds(p, 500, "Failed to upload file"@)
    } else {
        match first_field {
            None => plan_responds(p, 400, "No file found"@),
            Some(f) => if !field_usable(f) {
                plan_responds(p, 400, "No file found"@)
            } else {
                plan_stores(
                    p,
                    bucket_name.unwrap()@,
                    f.file_name.unwrap()@,
                    f.content_type.unwrap()@,
                    f.data@,
                )
            },
        }
    }
}

/// Decides what the upload route does with one request, given the
/// per-request bucket name and the first multipart field, if any.
pub fn plan_upload(bucket_name: Option<String>, first_field: Option<MultipartField>) -> (p:
    UploadPlan)
    ensures
        correct_plan(p, bucket_name, first_field),
{
    let bucket = match crate::config::take_present(bucket_name) {
        Some(b) => b,
        None => { return UploadPlan::Respond(ResponseMessage::upload_failed()) },
    };
    let field = match first_field {
        Some(f) => f,
        None => { return UploadPlan::Respond(ResponseMessage::no_file_found()) },
    };
    let file_name = match field.file_name {
        Some(n) => n,
        None => { return UploadPlan::Respond(ResponseMessage::no_file_found()) },
    };
    let content_type = match field.content_type {
        Some(c) => c,
        None => { return UploadPlan::Respond(ResponseMessage::no_file_found()) },
    };
    UploadPlan::Store(
        UploadRequest { bucket, key: file_name, content_type, payload: field.data },
    )
}

/// The backend's answer to a put-object call, as the gateway sees it: an
/// opaque failure description, or nothing.
pub struct StorageError {
    pub message: String,
}

/// Maps the outcome of the one put-object call to the route's response:
/// 201 on success, 500 on any backend failure, with no distinction among
/// failures.
pub fn upload_response(result: Result<(), StorageError>) -> (r: ResponseMessage)
    ensures
        result is Ok ==> r.status == 201 && r.message@ == "File uploaded successfully"@,
        result is Err ==> r.status == 500 && r.message@ == "Failed to upload file"@,
{
    match result {
        Ok(_) => ResponseMessage::file_uploaded(),
        Err(_) => ResponseMessage::upload_failed(),
    }
}

} // verus!
