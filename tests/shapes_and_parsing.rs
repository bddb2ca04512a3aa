use blob_store::{
    bearer_token, check_batch_size, eq_ignore_ascii_case, is_image_type, is_pdf_type,
    parse_order_from_string, parse_order_term, parse_url_list, result_error_to_status,
    result_error_to_status_failed_dependency, sdk_error_to_status, split_at_char,
    stage_canonical_image, stage_document, stage_document_named, stage_image_with_digest,
    transaction_error_to_status, trim_whitespace, ApiTokenClaims, BlobError, CalendarDate,
    DocumentAction, DocumentEvent, DocumentSession, ImageItemForUpdate, ItemForUpdate,
    ListResponse, OrderDirection, Pagination, RemoteFailure, StoreFailure, TransactionError,
    UpdateAuthorForm, ValidationError, MAX_BATCH_ITEMS, TOKEN_LIFETIME_SECS,
};

#[test]
fn media_families() {
    assert!(is_image_type(Some("image/png")));
    assert!(is_image_type(Some("IMAGE/jpeg")));
    assert!(is_image_type(Some("image/webp; charset=binary")));
    assert!(!is_image_type(Some("png")));
    assert!(!is_image_type(Some("text/plain")));
    assert!(!is_image_type(Some("not a media type at all")));
    assert!(!is_image_type(None));
    assert!(is_pdf_type(Some("application/pdf")));
    assert!(is_pdf_type(Some("Application/PDF")));
    assert!(is_pdf_type(Some("pdf")));
    assert!(!is_pdf_type(Some("application/json")));
    assert!(!is_pdf_type(None));
}

#[test]
fn caseless_comparison() {
    assert!(eq_ignore_ascii_case("Image", "iMAGE"));
    assert!(!eq_ignore_ascii_case("image", "images"));
    assert!(!eq_ignore_ascii_case("a", "b"));
}

#[test]
fn image_identity_and_key() {
    let s = stage_image_with_digest(vec![1, 2, 3], "abc".to_string());
    assert_eq!(s.id, "abc");
    assert_eq!(s.file_name, "abc.webp");
    assert_eq!(s.storage_key, "image/abc.webp");
    assert_eq!(s.content_type, "image/webp");
    assert_eq!(s.data, vec![1, 2, 3]);
}

#[test]
fn digest_of_canonical_bytes() {
    let s = stage_canonical_image(b"abc".to_vec());
    assert_eq!(s.id, "900150983cd24fb0d6963f7d28e17f72");
    assert_eq!(s.storage_key, "image/900150983cd24fb0d6963f7d28e17f72.webp");
    let empty = stage_canonical_image(Vec::new());
    assert_eq!(empty.id, "d41d8cd98f00b204e9800998ecf8427e");
}

#[test]
fn document_staging() {
    let s = stage_document(Some("application/pdf"), b"%PDF-1.4".to_vec()).unwrap();
    assert_eq!(s.id.len(), 32);
    assert_eq!(s.data, b"%PDF-1.4".to_vec());
    assert_eq!(s.content_type, "application/pdf");
    assert_eq!(s.file_name.len(), 40);
    assert!(s.file_name.ends_with(".pdf"));
    assert_eq!(s.storage_key, format!("novel/{}", s.file_name));
    let e = stage_document(Some("image/png"), vec![1]).unwrap_err();
    assert_eq!(e, BlobError::Validation(ValidationError::UnsupportedMediaType));
    let n = stage_document_named(vec![9], "h".to_string(), "name".to_string());
    assert_eq!(n.file_name, "name.pdf");
    assert_eq!(n.storage_key, "novel/name.pdf");
}

#[test]
fn document_dedup_returns_existing_row() {
    let s = stage_document_named(vec![1, 2], "h".to_string(), "n".to_string());
    let (mut session, first) = DocumentSession::start(s);
    assert!(matches!(first, DocumentAction::FindDocument(ref h) if h == "h"));
    match session.step(DocumentEvent::Found(Ok(Some(17)))) {
        DocumentAction::Finish(r) => assert_eq!(r, Ok(17)),
        other => panic!("unexpected {:?}", other),
    }
}

#[test]
fn document_create_inserts_then_puts_then_commits() {
    let s = stage_document_named(vec![1, 2, 3], "h".to_string(), "n".to_string());
    let (mut session, _) = DocumentSession::start(s);
    match session.step(DocumentEvent::Found(Ok(None))) {
        DocumentAction::InsertDocument { size, hash, storage_key, .. } => {
            assert_eq!(size, 3);
            assert_eq!(hash, "h");
            assert_eq!(storage_key, "novel/n.pdf");
        }
        other => panic!("unexpected {:?}", other),
    }
    assert!(matches!(
        session.step(DocumentEvent::Inserted(Ok(5))),
        DocumentAction::PutObject { .. }
    ));
    assert!(matches!(session.step(DocumentEvent::Put(Ok(()))), DocumentAction::Commit));
    match session.step(DocumentEvent::Committed(Ok(()))) {
        DocumentAction::Finish(r) => assert_eq!(r, Ok(5)),
        other => panic!("unexpected {:?}", other),
    }
}

#[test]
fn document_put_failure_rolls_back() {
    let s = stage_document_named(vec![1], "h".to_string(), "n".to_string());
    let (mut session, _) = DocumentSession::start(s);
    session.step(DocumentEvent::Found(Ok(None)));
    session.step(DocumentEvent::Inserted(Ok(5)));
    assert!(matches!(
        session.step(DocumentEvent::Put(Err(RemoteFailure::Transport))),
        DocumentAction::Rollback
    ));
    match session.step(DocumentEvent::RolledBack) {
        DocumentAction::Finish(r) => {
            assert_eq!(r, Err(BlobError::DependencyFailure(RemoteFailure::Transport)))
        }
        other => panic!("unexpected {:?}", other),
    }
}

#[test]
fn error_statuses() {
    assert_eq!(sdk_error_to_status(RemoteFailure::Service), 424);
    assert_eq!(sdk_error_to_status(RemoteFailure::Transport), 502);
    assert_eq!(result_error_to_status(StoreFailure::NotFound), 404);
    assert_eq!(result_error_to_status(StoreFailure::Other), 500);
    assert_eq!(result_error_to_status_failed_dependency(StoreFailure::NotFound), 424);
    assert_eq!(result_error_to_status_failed_dependency(StoreFailure::DuplicateKey), 500);
    assert_eq!(transaction_error_to_status(TransactionError::SdkError(RemoteFailure::Service)), 424);
    assert_eq!(transaction_error_to_status(TransactionError::ResultError(StoreFailure::NotFound)), 404);
    assert_eq!(BlobError::Validation(ValidationError::BatchSize).status_code(), 422);
}

#[test]
fn batch_size_bounds() {
    assert_eq!(check_batch_size(0), Err(BlobError::Validation(ValidationError::BatchSize)));
    assert_eq!(check_batch_size(1), Ok(()));
    assert_eq!(check_batch_size(MAX_BATCH_ITEMS), Ok(()));
    assert_eq!(check_batch_size(21), Err(BlobError::Validation(ValidationError::BatchSize)));
}

#[test]
fn splitting_and_trimming() {
    assert_eq!(split_at_char("a,b,,c", ','), vec!["a", "b", "", "c"]);
    assert_eq!(split_at_char("", ','), vec![""]);
    assert_eq!(split_at_char("x,", ','), vec!["x", ""]);
    assert_eq!(trim_whitespace("  a b \t\n"), "a b");
    assert_eq!(trim_whitespace("\u{3000}x\u{a0}"), "x");
    assert_eq!(trim_whitespace("   "), "");
}

#[test]
fn url_lists() {
    assert_eq!(
        parse_url_list(" http://a/1.png , ,http://b/2.png,"),
        vec!["http://a/1.png", "http://b/2.png"]
    );
    assert!(parse_url_list("").is_empty());
}

#[test]
fn ordering_terms() {
    let p = parse_order_term("-date").unwrap();
    assert_eq!(p.column, "date");
    assert_eq!(p.direction, OrderDirection::Descending);
    let p = parse_order_term("+id").unwrap();
    assert_eq!(p.direction, OrderDirection::Ascending);
    let p = parse_order_term("nsfw").unwrap();
    assert_eq!(p.column, "nsfw");
    assert_eq!(p.direction, OrderDirection::Ascending);
    assert!(parse_order_term("*id").is_none());
    assert!(parse_order_term("abcdefghijklmnopqrstuvwxyz").is_none());
    let all = parse_order_from_string("+id, -date ,bad col".to_string());
    assert_eq!(all.len(), 3);
    assert_eq!(all[0].as_ref().unwrap().column, "id");
    assert_eq!(all[1].as_ref().unwrap().column, "date");
    assert_eq!(all[1].as_ref().unwrap().direction, OrderDirection::Descending);
    assert!(all[2].is_none());
}

#[test]
fn bearer_tokens() {
    assert_eq!(bearer_token("Bearer abc.def").unwrap(), "abc.def");
    assert!(bearer_token("Bearer ").is_none());
    assert!(bearer_token("Basic abc").is_none());
    assert!(bearer_token("Bearer a b").is_none());
}

#[test]
fn issued_claims() {
    let c = ApiTokenClaims::issued_at(1_700_000_000);
    assert_eq!(c.iat, 1_700_000_000);
    assert_eq!(c.exp, 1_700_000_000 + TOKEN_LIFETIME_SECS);
    assert_eq!(c.exp, 4_853_600_000);
    assert_eq!(c.iss, "uhq_blog");
    assert!(!c.admin);
}

#[test]
fn list_response_count() {
    let r = ListResponse::new(vec![1, 2, 3]);
    assert_eq!(r.count, None);
    let r = r.count(42);
    assert_eq!(r.items, vec![1, 2, 3]);
    assert_eq!(r.count, Some(42));
}

#[test]
fn pagination_defaults_and_bounds() {
    let p = Pagination::default();
    assert_eq!((p.offset, p.limit, p.order, p.order_by.as_str()), (0, 20, 1, "+id"));
    assert!(p.is_valid());
    let q = Pagination { offset: 0, limit: 101, order: 1, order_by: "+id".to_string() };
    assert!(!q.is_valid());
    let q = Pagination { offset: -1, limit: 10, order: 0, order_by: "+id".to_string() };
    assert!(!q.is_valid());
}

#[test]
fn update_forms_emptiness() {
    let f = UpdateAuthorForm { name: Some("x".to_string()), urls: None };
    assert!(f.is_empty());
    let f = UpdateAuthorForm { name: Some("x".to_string()), urls: Some(vec![]) };
    assert!(!f.is_empty());
    let i = ItemForUpdate {
        title: None,
        description: None,
        author_name: None,
        author_url: None,
        object_id: None,
        created_by: None,
    };
    assert!(i.is_empty());
    let i = ItemForUpdate { object_id: Some(3), ..i };
    assert!(!i.is_empty());
    let m = ImageItemForUpdate { urls: None, date: None, nsfw: Some(true), author_id: None };
    assert!(m.is_empty());
    let m = ImageItemForUpdate {
        date: Some(CalendarDate { year: 2024, month: 2, day: 29 }),
        ..m
    };
    assert!(!m.is_empty());
}

#[test]
fn sweeps_do_not_overlap() {
    let mut guard = blob_store::SweepGuard::new();
    assert!(guard.try_begin());
    assert!(!guard.try_begin());
    guard.finish();
    assert!(guard.try_begin());
}

#[test]
fn references_are_found_by_blob_id() {
    let refs = vec![blob_store::OwnerReference { id: 1, owner_id: 2, blob_id: "abc".to_string() }];
    assert!(blob_store::has_reference(&refs, &"abc".to_string()));
    assert!(!blob_store::has_reference(&refs, &"abd".to_string()));
    assert!(!blob_store::has_reference(&vec![], &"abc".to_string()));
}
