use vmod_cloudbucket::aws::{key_of_path, S3};

fn bucket() -> S3 {
    S3::new("media".to_string(), "us-east-1".to_string())
}

#[test]
fn one_leading_slash_is_dropped() {
    assert_eq!(key_of_path("/a/b"), "a/b");
    assert_eq!(key_of_path("a/b"), "a/b");
    assert_eq!(key_of_path("//a"), "/a");
    assert_eq!(key_of_path("/"), "");
    assert_eq!(key_of_path(""), "");
    assert_eq!(key_of_path("/\u{e9}\u{1f600}/x"), "\u{e9}\u{1f600}/x");
}

#[test]
fn object_is_asked_for_in_its_bucket() {
    let object = bucket().object_request("/k");
    assert_eq!(object.bucket, "media");
    assert_eq!(object.key, "k");
    assert_eq!(object.expires_in_secs, 60);
}

#[test]
fn signed_url_is_logged_and_passed_on() {
    let r = bucket().get_presigned_request("/k", Ok("https://u".to_string()));
    assert_eq!(r.uri, Ok("https://u".to_string()));
    assert_eq!(
        r.log.unwrap(),
        "Presigned URL for region: 'us-east-1', bucket: 'media', key: 'k', presigned: 'https://u'"
    );
}

#[test]
fn signing_error_is_reported_and_not_logged() {
    let r = bucket().get_presigned_request("k", Err("expired".to_string()));
    assert_eq!(
        r.uri.unwrap_err(),
        "Presigning URL of region: 'us-east-1', bucket: 'media', key: 'k', got error: expired"
    );
    assert_eq!(r.log, None);
}

#[test]
fn bucket_can_be_cloned() {
    let copy = bucket().clone();
    assert_eq!(copy.bucket, "media");
    assert_eq!(copy.region, "us-east-1");
}
