use upload_gateway::response::get_ping;
use upload_gateway::upload::{
    plan_upload, upload_response, MultipartField, StorageError, UploadPlan,
};

fn field(file_name: Option<&str>, content_type: Option<&str>, data: &[u8]) -> MultipartField {
    MultipartField {
        file_name: file_name.map(String::from),
        content_type: content_type.map(String::from),
        data: data.to_vec(),
    }
}

#[test]
fn usable_field_becomes_one_put_object_call() {
    let plan = plan_upload(
        Some(String::from("files")),
        Some(field(Some("report.pdf"), Some("application/pdf"), b"%PDF-1.4 body")),
    );
    match plan {
        UploadPlan::Store(request) => {
            assert_eq!(request.bucket, "files");
            assert_eq!(request.key, "report.pdf");
            assert_eq!(request.content_type, "application/pdf");
            assert_eq!(request.payload, b"%PDF-1.4 body".to_vec());
        },
        UploadPlan::Respond(_) => panic!("a usable field must be stored"),
    }
}

#[test]
fn empty_body_is_rejected_without_storage() {
    let plan = plan_upload(Some(String::from("files")), None);
    match plan {
        UploadPlan::Respond(message) => {
            assert_eq!(message.status, 400);
            assert_eq!(message.message, "No file found");
        },
        UploadPlan::Store(_) => panic!("an empty body must not reach storage"),
    }
}

#[test]
fn field_without_file_name_is_rejected() {
    let plan = plan_upload(
        Some(String::from("files")),
        Some(field(None, Some("text/plain"), b"anonymous bytes")),
    );
    match plan {
        UploadPlan::Respond(message) => {
            assert_eq!(message.status, 400);
            assert_eq!(message.message, "No file found");
        },
        UploadPlan::Store(_) => panic!("a field without a file name must not be uploaded"),
    }
}

#[test]
fn field_without_content_type_is_rejected() {
    let plan = plan_upload(
        Some(String::from("files")),
        Some(field(Some("notes.txt"), None, b"untyped bytes")),
    );
    match plan {
        UploadPlan::Respond(message) => {
            assert_eq!(message.status, 400);
            assert_eq!(message.message, "No file found");
        },
        UploadPlan::Store(_) => panic!("a field without a content type must not be uploaded"),
    }
}

#[test]
fn missing_bucket_is_a_server_error() {
    let plan = plan_upload(None, Some(field(Some("a.txt"), Some("text/plain"), b"abc")));
    match plan {
        UploadPlan::Respond(message) => {
            assert_eq!(message.status, 500);
            assert_eq!(message.message, "Failed to upload file");
        },
        UploadPlan::Store(_) => panic!("an unconfigured bucket must not reach storage"),
    }
}

#[test]
fn empty_bucket_is_a_server_error() {
    let plan = plan_upload(
        Some(String::new()),
        Some(field(Some("a.txt"), Some("text/plain"), b"abc")),
    );
    match plan {
        UploadPlan::Respond(message) => assert_eq!(message.status, 500),
        UploadPlan::Store(_) => panic!("an empty bucket name must not reach storage"),
    }
}

#[test]
fn successful_upload_answers_201() {
    let r = upload_response(Ok(()));
    assert_eq!(r.status, 201);
    assert_eq!(r.message, "File uploaded successfully");
}

#[test]
fn failed_upload_answers_500_and_service_stays_alive() {
    let r = upload_response(Err(StorageError { message: String::from("connection reset") }));
    assert_eq!(r.status, 500);
    assert_eq!(r.message, "Failed to upload file");
    // The failure is answered, not propagated: the next request is served.
    assert_eq!(get_ping(), "pong!");
    let next = upload_response(Ok(()));
    assert_eq!(next.status, 201);
}
