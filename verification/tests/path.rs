use rustree::path::S3Path;

#[test]
fn parses_bucket_and_key() {
    let p = S3Path::from_str("s3://my-bucket/some/key/prefix").unwrap();
    assert_eq!(p.bucket, "my-bucket");
    assert_eq!(p.key, "some/key/prefix");
}

#[test]
fn key_defaults_to_empty_without_slash() {
    let p = S3Path::from_str("s3://my-bucket").unwrap();
    assert_eq!(p.bucket, "my-bucket");
    assert_eq!(p.key, "");
}

#[test]
fn slash_right_after_bucket_gives_empty_key() {
    let p = S3Path::from_str("s3://my-bucket/").unwrap();
    assert_eq!(p.bucket, "my-bucket");
    assert_eq!(p.key, "");
}

#[test]
fn key_may_hold_further_slashes() {
    let p = S3Path::from_str("s3://b/a//b/").unwrap();
    assert_eq!(p.bucket, "b");
    assert_eq!(p.key, "a//b/");
}

#[test]
fn rejects_other_scheme() {
    assert!(S3Path::from_str("http://bucket/key").is_err());
}

#[test]
fn rejects_empty_string_and_bare_scheme() {
    assert!(S3Path::from_str("").is_err());
    assert!(S3Path::from_str("s3:").is_err());
    assert!(S3Path::from_str("s3://").is_err());
}

#[test]
fn rejects_empty_bucket() {
    assert!(S3Path::from_str("s3:///key").is_err());
}
