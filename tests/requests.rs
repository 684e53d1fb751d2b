use docbox::completion::{
    get_object_parts, route_decoded, route_notification, IgnoreReason, NotificationRecord,
    NotificationRoute, PurgeExpiredPresignedError,
};
use docbox::error::{DynHttpError, HttpCommonError, HttpDocumentBoxError, HttpError,
    HttpFileError, HttpFolderError, HttpLinkError, HttpTaskError, InvalidUserId};
use docbox::http::{
    request_url, to_search_pattern, ActionUser, ApiKeyDecision, ApiKeyLayer,
    TenantDocumentBoxesRequest,
};
use docbox::models::{GetPresignedRequest, DEFAULT_MAX_FILE_SIZE_BYTES};
use docbox::presigned::{CompletionOutcome, CreatePresigned, InitiateError, UploadTasks};
use docbox::scope::{CreateDocumentBoxRequest, DocumentBoxScope};
use docbox::tenant::{ExtractTenantError, HeaderText, Tenant};
use docbox::raw::{
    content_disposition, security_policy, DEFAULT_FILE_POLICY, GENERATED_IMAGE_POLICY,
    IMAGE_FILE_POLICY,
};
use docbox::text::push_decimal;
use docbox::upload::{
    get_file_name_ext, mime_from_guess, presigned_file_key, upload_mime, CreatePresignedRequest,
    PresignedStatusResponse,
};

fn text(s: &str) -> HeaderText {
    HeaderText::Text(s.to_string())
}

#[test]
fn scope_validation() {
    assert!(DocumentBoxScope::validate_scope("user:1:files"));
    assert!(DocumentBoxScope::validate_scope("A-b_c.9"));
    assert!(!DocumentBoxScope::validate_scope(""));
    assert!(!DocumentBoxScope::validate_scope("   "));
    assert!(!DocumentBoxScope::validate_scope("has space"));
    assert!(!DocumentBoxScope::validate_scope("slash/inside"));
    assert!(!DocumentBoxScope::validate_scope("é"));
    assert_eq!(DocumentBoxScope::from_str("user:1").unwrap().as_str(), "user:1");
    assert!(DocumentBoxScope::from_str("bad scope").is_err());
    assert_eq!(
        "x".parse::<DocumentBoxScope>().unwrap(),
        DocumentBoxScope("x".to_string())
    );
    assert!(CreateDocumentBoxRequest { scope: "a".to_string() }.validate());
    assert!(!CreateDocumentBoxRequest { scope: String::new() }.validate());
}

#[test]
fn api_key_check() {
    let layer = ApiKeyLayer::new("secret".to_string());
    let mw = layer.layer(());
    assert_eq!(mw.check(&HeaderText::Absent), ApiKeyDecision::MissingKey);
    assert_eq!(mw.check(&text("other")), ApiKeyDecision::WrongKey);
    assert_eq!(mw.check(&text("secret")), ApiKeyDecision::Forward);
    assert_eq!(mw.check(&HeaderText::Invalid), ApiKeyDecision::WrongKey);
    assert_eq!(ApiKeyDecision::MissingKey.message(), Some("Missing x-docbox-api-key"));
    assert_eq!(
        ApiKeyDecision::WrongKey.message(),
        Some("Missing or invalid x-docbox-api-key")
    );
    assert_eq!(ApiKeyDecision::Forward.message(), None);
}

#[test]
fn acting_user() {
    let none = ActionUser::from_headers(&HeaderText::Absent, &text("n"), &text("i")).unwrap();
    assert!(none.0.is_none());
    assert!(ActionUser::from_headers(&HeaderText::Invalid, &HeaderText::Absent, &HeaderText::Absent).is_err());
    let user = ActionUser::from_headers(&text("u1"), &text("Jo"), &HeaderText::Invalid).unwrap();
    let data = user.0.unwrap();
    assert_eq!(data.id, "u1");
    assert_eq!(data.name, Some("Jo".to_string()));
    assert_eq!(data.image_id, None);
}

#[test]
fn router_url() {
    assert_eq!(request_url(None, None, "/box/a", None), "/box/a");
    assert_eq!(
        request_url(None, Some("api.example"), "/box/a", Some("x=1")),
        "https://api.example/box/a?x=1"
    );
    assert_eq!(
        request_url(Some("http"), Some("h"), "/p", None),
        "http://h/p"
    );
    assert_eq!(request_url(None, None, "/p", Some("")), "/p?");
}

#[test]
fn document_box_search_pattern() {
    assert_eq!(to_search_pattern("user"), "user%");
    assert_eq!(to_search_pattern("user*files"), "user%files");
    assert_eq!(to_search_pattern("a_b"), "a\\_b%");
    assert_eq!(to_search_pattern("50%"), "50%");
    let req = TenantDocumentBoxesRequest { query: Some("box".to_string()), size: None, offset: None };
    let q = req.to_query();
    assert_eq!(q.pattern, Some("box%".to_string()));
    assert_eq!(q.offset, 0);
    assert_eq!(q.limit, 100);
    let req = TenantDocumentBoxesRequest { query: Some(String::new()), size: Some(5), offset: Some(10) };
    let q = req.to_query();
    assert_eq!(q.pattern, None);
    assert_eq!(q.offset, 10);
    assert_eq!(q.limit, 5);
}

fn dyn_of<E: HttpError>(e: &E) -> (u16, String) {
    let d = DynHttpError::from_error(e);
    (d.status, d.body().reason)
}

#[test]
fn error_responses() {
    assert_eq!(dyn_of(&HttpCommonError::ServerError), (500, "internal server error".to_string()));
    assert_eq!(
        dyn_of(&HttpFileError::FileTooLarge(2000, 1000)),
        (
            400,
            "file size is larger than the maximum allowed size (requested: 2000, maximum: 1000)"
                .to_string()
        )
    );
    assert_eq!(
        dyn_of(&HttpFileError::FileTooLarge(-5, i32::MAX)).1,
        "file size is larger than the maximum allowed size (requested: -5, maximum: 2147483647)"
    );
    assert_eq!(dyn_of(&HttpFileError::UnknownFile), (404, "unknown file".to_string()));
    assert_eq!(dyn_of(&HttpFileError::UnknownTask), (404, "unknown task".to_string()));
    assert_eq!(dyn_of(&HttpFileError::NoMatchingGenerated).0, 404);
    assert_eq!(dyn_of(&HttpFileError::UnsupportedFileType).0, 400);
    assert_eq!(dyn_of(&HttpDocumentBoxError::ScopeAlreadyExists).0, 409);
    assert_eq!(
        dyn_of(&HttpDocumentBoxError::UnknownDocumentBox),
        (404, "unknown document box".to_string())
    );
    assert_eq!(dyn_of(&HttpTaskError::UnknownTask), (404, "unknown task".to_string()));
    assert_eq!(dyn_of(&HttpFolderError::CannotMoveIntoSelf).0, 400);
    assert_eq!(dyn_of(&HttpFolderError::UnknownTargetFolder).0, 404);
    assert_eq!(
        dyn_of(&HttpFolderError::CreateError("boom".to_string())),
        (500, "boom".to_string())
    );
    assert_eq!(dyn_of(&HttpLinkError::InvalidLinkUrl).0, 400);
    assert_eq!(dyn_of(&HttpLinkError::NoFavicon), (404, "website favicon not present".to_string()));
    assert_eq!(dyn_of(&ExtractTenantError::TenantNotFound), (400, "tenant not found".to_string()));
    assert_eq!(dyn_of(&InvalidUserId).1, "user id was not a valid utf8 string");
    let d = InitiateError::FileTooLarge { size: 3, max: 2 }.to_http();
    assert_eq!(d.status, 400);
    assert_eq!(InitiateError::UnknownTargetFolder.to_http().status, 404);
    assert_eq!(InitiateError::FileKeyTaken.to_http().reason, "internal server error");
    assert_eq!(PurgeExpiredPresignedError::QueryTenants.message(), "failed to query available tenants");
}

#[test]
fn decimal_rendering() {
    let mut s = "n=".to_string();
    push_decimal(&mut s, i64::MIN);
    assert_eq!(s, "n=-9223372036854775808");
    let mut z = String::new();
    push_decimal(&mut z, 0);
    assert_eq!(z, "0");
}

#[test]
fn file_extensions() {
    assert_eq!(get_file_name_ext("report.pdf"), Some("pdf".to_string()));
    assert_eq!(get_file_name_ext("a.tar.gz"), Some("gz".to_string()));
    assert_eq!(get_file_name_ext(".bashrc"), None);
    assert_eq!(get_file_name_ext("noext"), None);
    assert_eq!(get_file_name_ext("trailing."), Some(String::new()));
}

#[test]
fn content_type_sniffing() {
    assert_eq!(upload_mime("photo.png", "application/octet-stream", None), "image/png");
    assert_eq!(upload_mime("photo.png", "application/octet-stream", Some(false)), "image/png");
    assert_eq!(
        upload_mime("photo.png", "application/octet-stream", Some(true)),
        "application/octet-stream"
    );
    assert_eq!(upload_mime("photo.png", "text/plain", None), "text/plain");
    assert_eq!(
        upload_mime("noext", "application/octet-stream", None),
        "application/octet-stream"
    );
    assert_eq!(
        upload_mime("x.unknownext", "application/octet-stream", None),
        "application/octet-stream"
    );
    assert_eq!(mime_from_guess("a/b", Some("c/d".to_string())), "c/d");
    assert_eq!(mime_from_guess("a/b", None), "a/b");
}

#[test]
fn presigned_request_and_key() {
    let req = CreatePresignedRequest {
        name: "doc.pdf".to_string(),
        folder_id: 3,
        size: 10,
        mime: "application/octet-stream".to_string(),
        parent_id: None,
        processing_config: None,
        disable_mime_sniffing: None,
    };
    assert!(req.validate());
    let scope = DocumentBoxScope("abc".to_string());
    let key = presigned_file_key(&scope, 0x67e5504410b1426f9247bb680e5fe0c8);
    assert_eq!(key, "abc/67e55044-10b1-426f-9247-bb680e5fe0c8");
    let create: CreatePresigned = req.into_create(&scope, 9, key.clone(), 1, 2);
    assert_eq!(create.mime, "application/pdf");
    assert_eq!(create.file_key, key);
    assert_eq!(create.document_box, "abc");
    let bad = CreatePresignedRequest {
        name: String::new(),
        folder_id: 3,
        size: 0,
        mime: "text/plain".to_string(),
        parent_id: None,
        processing_config: None,
        disable_mime_sniffing: None,
    };
    assert!(!bad.validate());
    assert_eq!(DEFAULT_MAX_FILE_SIZE_BYTES, 102_400_000);
    assert_eq!(GetPresignedRequest { expires_at: None }.expires_in(), 900);
    assert_eq!(GetPresignedRequest { expires_at: Some(60) }.expires_in(), 60);
}

#[test]
fn upload_status_poll() {
    let mut tasks = UploadTasks::new();
    let make = |id: u128, key: &str| CreatePresigned {
        id,
        document_box: "abc".to_string(),
        folder_id: 1,
        file_key: key.to_string(),
        name: "n".to_string(),
        mime: "m".to_string(),
        size: 1,
        processing_config: None,
        created_at: 0,
        expires_at: 10,
    };
    tasks.initiate(make(1, "k1"), 10, true).unwrap();
    tasks.initiate(make(2, "k2"), 10, true).unwrap();
    assert_eq!(tasks.presigned_status("abc", 1), Ok(PresignedStatusResponse::Pending));
    assert_eq!(tasks.presigned_status("other", 1), Err(HttpFileError::UnknownTask));
    assert_eq!(tasks.presigned_status("abc", 3), Err(HttpFileError::UnknownTask));
    tasks.complete("k1", CompletionOutcome::Processed { file_id: 8 });
    tasks.complete("k2", CompletionOutcome::ProcessingFailed { error: "e".to_string() });
    assert_eq!(tasks.presigned_status("abc", 1), Ok(PresignedStatusResponse::Complete { file_id: 8 }));
    assert_eq!(
        tasks.presigned_status("abc", 2),
        Ok(PresignedStatusResponse::Failed { error: "e".to_string() })
    );
}

fn tenant() -> Tenant {
    Tenant {
        id: 1,
        name: "t".to_string(),
        env: "prod".to_string(),
        db_name: "d".to_string(),
        db_secret_name: "s".to_string(),
        s3_name: "bucket".to_string(),
        os_index_name: "i".to_string(),
        event_queue_url: None,
    }
}

#[test]
fn notification_routing() {
    let records = vec![
        NotificationRecord { bucket_name: Some("bucket".to_string()), object_key: Some("abc/1".to_string()) },
        NotificationRecord { bucket_name: None, object_key: None },
    ];
    assert_eq!(get_object_parts(&records), Some(("bucket".to_string(), "abc/1".to_string())));
    assert_eq!(get_object_parts(&vec![]), None);
    assert_eq!(
        get_object_parts(&vec![NotificationRecord { bucket_name: Some("b".to_string()), object_key: None }]),
        None
    );

    assert!(matches!(
        route_notification(None, "abc/1"),
        NotificationRoute::Ignore(IgnoreReason::UnknownBucket)
    ));
    match route_notification(Some(tenant()), "abc/my%20file.pdf") {
        NotificationRoute::Complete { tenant, object_key } => {
            assert_eq!(tenant.s3_name, "bucket");
            assert_eq!(object_key, "abc/my file.pdf");
        }
        other => panic!("unexpected route {:?}", other),
    }
    assert!(matches!(
        route_notification(Some(tenant()), "abc/%FF"),
        NotificationRoute::Ignore(IgnoreReason::InvalidObjectKey)
    ));
    assert!(matches!(
        route_decoded(Some(tenant()), None),
        NotificationRoute::Ignore(IgnoreReason::InvalidObjectKey)
    ));
}

#[test]
fn raw_file_headers() {
    assert_eq!(security_policy("image/png", false), IMAGE_FILE_POLICY);
    assert_eq!(security_policy("image/png", true), GENERATED_IMAGE_POLICY);
    assert_eq!(security_policy("application/pdf", false), DEFAULT_FILE_POLICY);
    assert_eq!(security_policy("not a mime", false), DEFAULT_FILE_POLICY);
    assert_eq!(content_disposition("a.pdf", true), "attachment;filename=\"a.pdf\"");
    assert_eq!(content_disposition("a.pdf", false), "inline;filename=\"a.pdf\"");
}
