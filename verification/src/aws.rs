//! Objects in an S3 bucket, and the signed URLs under which they can be fetched.
use vstd::prelude::*;
use vstd::string::*;

verus! {

/// How long a signed URL stays valid, in seconds.
pub const PRESIGNED_SECS: u64 = 60;

/// A bucket, and the region it is in.
#[derive(Debug, Clone)]
pub struct S3 {
    pub bucket: String,
    pub region: String,
}

/// An object to sign a URL for, and how long the URL is to be valid.
#[derive(Debug)]
pub struct ObjectRequest {
    pub bucket: String,
    pub key: String,
    pub expires_in_secs: u64,
}

/// What became of signing a URL, and what is to be logged of it.
#[derive(Debug)]
pub struct Presigned {
    /// The URL, or the message of the failure.
    pub uri: Result<String, String>,
    /// The line to log; a failure is not logged.
    pub log: Option<String>,
}

/// The key of the object that a URL path names: the path without one leading slash.
pub open spec fn object_key(path: Seq<char>) -> Seq<char> {
    if path.len() > 0 && path[0] == '/' {
        path.skip(1)
    } else {
        path
    }
}

/// The line that is logged for a signed URL.
pub open spec fn presigned_line(
    region: Seq<char>,
    bucket: Seq<char>,
    key: Seq<char>,
    uri: Seq<char>,
) -> Seq<char> {
    "Presigned URL for region: '"@ + region + "', bucket: '"@ + bucket + "', key: '"@ + key
        + "', presigned: '"@ + uri + "'"@
}

/// The message of a URL that could not be signed.
pub open spec fn presigning_failure(
    region: Seq<char>,
    bucket: Seq<char>,
    key: Seq<char>,
    error: Seq<char>,
) -> Seq<char> {
    "Presigning URL of region: '"@ + region + "', bucket: '"@ + bucket + "', key: '"@ + key
        + "', got error: "@ + error
}

/// What is to be signed for the object under a path in a bucket.
pub open spec fn requests(s3: S3, path: Seq<char>, object: ObjectRequest) -> bool {
    &&& object.bucket@ == s3.bucket@
    &&& object.key@ == object_key(path)
    &&& object.expires_in_secs == PRESIGNED_SECS
}

/// What is made of the outcome of signing a URL for the object under a path: a URL is logged
/// and passed on, an error is reported with what it was about.
pub open spec fn signs(
    s3: S3,
    path: Seq<char>,
    outcome: Result<String, String>,
    presigned: Presigned,
) -> bool {
    let key = object_key(path);
    match outcome {
        Ok(uri) => {
            &&& presigned.uri == Ok::<String, String>(uri)
            &&& presigned.log matches Some(line)
            &&& line@ == presigned_line(s3.region@, s3.bucket@, key, uri@)
        },
        Err(error) => {
            &&& presigned.uri matches Err(message)
            &&& message@ == presigning_failure(s3.region@, s3.bucket@, key, error@)
            &&& presigned.log is None
        },
    }
}

/// The key of the object that a URL path names.
pub fn key_of_path(path: &str) -> (key: &str)
    ensures
        key@ == object_key(path@),
{
    if !path.is_empty() && path.get_char(0) == '/' {
        path.substring_char(1, path.unicode_len())
    } else {
        path
    }
}

impl S3 {
    /// The bucket of that name, in that region.
    pub fn new(bucket: String, region: String) -> (r: S3)
        ensures
            r.bucket == bucket,
            r.region == region,
    {
        S3 { bucket, region }
    }

    /// What is to be signed for the object under `path`.
    pub fn object_request(&self, path: &str) -> (r: ObjectRequest)
        ensures
            requests(*self, path@, r),
    {
        ObjectRequest {
            bucket: self.bucket.clone(),
            key: key_of_path(path).to_owned(),
            expires_in_secs: PRESIGNED_SECS,
        }
    }

    /// What is made of the outcome of signing a URL for the object under `path`.
    pub fn get_presigned_request(
        &self,
        path: &str,
        outcome: Result<String, String>,
    ) -> (r: Presigned)
        ensures
            signs(*self, path@, outcome, r),
    {
        let key: &str = key_of_path(path);
        match outcome {
            Ok(uri) => {
                let line = String::from_str("Presigned URL for region: '").concat(
                    self.region.as_str(),
                ).concat("', bucket: '").concat(self.bucket.as_str()).concat("', key: '").concat(
                    key,
                ).concat("', presigned: '").concat(uri.as_str()).concat("'");
                Presigned { uri: Ok(uri), log: Some(line) }
            },
            Err(error) => {
                let message = String::from_str("Presigning URL of region: '").concat(
                    self.region.as_str(),
                ).concat("', bucket: '").concat(self.bucket.as_str()).concat("', key: '").concat(
                    key,
                ).concat("', got error: ").concat(error.as_str());
                Presigned { uri: Err(message), log: None }
            },
        }
    }
}

/// A path that does not begin with a slash names the same object as that path behind one.
pub proof fn law_leading_slash_is_optional(path: Seq<char>)
    requires
        path.len() == 0 || path[0] != '/',
    ensures
        object_key(seq!['/'] + path) == object_key(path),
{
    assert((seq!['/'] + path).skip(1) =~= path);
}

/// A path names a key if it is the key behind a slash, or the key itself where that does not
/// begin with one.
pub open spec fn path_names(path: Seq<char>, key: Seq<char>) -> bool {
    ||| path == seq!['/'] + key
    ||| path == key && (key.len() > 0 ==> key[0] != '/')
}

/// A slash followed by any text, however long, has that text for its key.
pub proof fn law_key_is_what_follows_the_slash(text: Seq<char>, path: &str, key: &str)
    requires
        call_ensures(key_of_path, (path,), key),
        path@ == seq!['/'] + text,
    ensures
        key@ == text,
{
    assert((seq!['/'] + text).skip(1) =~= text);
}

/// A path that does not begin with a slash is its own key.
pub proof fn law_bare_path_is_its_key(path: &str, key: &str)
    requires
        call_ensures(key_of_path, (path,), key),
        path@.len() > 0 ==> path@[0] != '/',
    ensures
        key@ == path@,
{
}

/// Different paths that begin with a slash have different keys.
pub proof fn law_paths_have_keys_of_their_own(
    path: &str,
    other_path: &str,
    key: &str,
    other_key: &str,
)
    requires
        call_ensures(key_of_path, (path,), key),
        call_ensures(key_of_path, (other_path,), other_key),
        path@.len() > 0 && path@[0] == '/',
        other_path@.len() > 0 && other_path@[0] == '/',
        path@ != other_path@,
    ensures
        key@ != other_key@,
{
    let text = path@.skip(1);
    let other_text = other_path@.skip(1);
    assert(path@ =~= seq!['/'] + text);
    assert(other_path@ =~= seq!['/'] + other_text);
    law_key_is_what_follows_the_slash(text, path, key);
    law_key_is_what_follows_the_slash(other_text, other_path, other_key);
}

/// A bucket keeps the name and the region it is given.
pub proof fn law_bucket_keeps_its_name(bucket: String, region: String, s3: S3)
    requires
        call_ensures(S3::new, (bucket, region), s3),
    ensures
        s3.bucket@ == bucket@,
        s3.region@ == region@,
{
}

/// What is signed is the object that the path names, in this bucket, for a minute.
pub proof fn law_object_of_the_path_is_signed(
    s3: S3,
    path: &str,
    key: Seq<char>,
    object: ObjectRequest,
)
    requires
        call_ensures(S3::object_request, (&s3, path), object),
        path_names(path@, key),
    ensures
        object.bucket@ == s3.bucket@,
        object.key@ == key,
        object.expires_in_secs == 60,
{
    assert((seq!['/'] + key).skip(1) =~= key);
}

/// A signed URL is passed on as it is, and the line that is logged tells the region, the
/// bucket, the key and the URL.
pub proof fn law_signed_url_is_passed_on(
    s3: S3,
    path: &str,
    key: Seq<char>,
    uri: String,
    presigned: Presigned,
)
    requires
        call_ensures(S3::get_presigned_request, (&s3, path, Ok(uri)), presigned),
        path_names(path@, key),
    ensures
        presigned.uri matches Ok(passed_on) && passed_on@ == uri@,
        presigned.log matches Some(line) && line@ == "Presigned URL for region: '"@ + s3.region@
            + "', bucket: '"@ + s3.bucket@ + "', key: '"@ + key + "', presigned: '"@ + uri@ + "'"@,
{
    assert((seq!['/'] + key).skip(1) =~= key);
}

/// An error of the signer is passed on as the end of a message that tells the region, the
/// bucket and the key, and nothing is logged.
pub proof fn law_signing_error_is_passed_on(
    s3: S3,
    path: &str,
    key: Seq<char>,
    error: String,
    presigned: Presigned,
)
    requires
        call_ensures(S3::get_presigned_request, (&s3, path, Err(error)), presigned),
        path_names(path@, key),
    ensures
        presigned.uri matches Err(message) && message@ == "Presigning URL of region: '"@ + s3.region@
            + "', bucket: '"@ + s3.bucket@ + "', key: '"@ + key + "', got error: "@ + error@,
        presigned.log is None,
{
    assert((seq!['/'] + key).skip(1) =~= key);
}

} // verus!
