//! Temporary credentials and signed firmware download URLs.
//!
//! When the update target is an object in protected storage, the
//! device first exchanges its client certificate for temporary
//! credentials at the provider's token endpoint, then signs a
//! time-limited download URL with them.  The HTTP exchange and the
//! JSON decoding live with the transport; the response checks and the
//! URL signing stand here.

use vstd::prelude::*;

verus! {

/// Size in bytes of the credential download buffer and the least
/// acceptable `Content-Length` of the token endpoint's response.
pub const CREDENTIAL_BUF_SIZE: usize = 1024;

/// Lifetime in seconds of a signed download URL.
pub const AWS_TOKEN_LIFETIME: u64 = 600;

/// Failures of the credential exchange and of URL signing.
#[derive(Clone, Copy, Debug, PartialEq, Eq, Structural)]
pub enum AwsError {
    /// The exchange failed: transport error, bad status, missing or
    /// implausible `Content-Length`, undecodable body, or an endpoint
    /// the signer refuses.
    AwsCredentialsError,
}

/// Temporary credentials handed out by the token endpoint.
pub struct Credentials {
    pub access_key_id: String,
    pub secret_access_key: String,
    pub session_token: String,
    pub expiration: String,
}

/// The token endpoint's response document: the credentials.
pub struct Root {
    pub credentials: Credentials,
}

/// Judge the opened response of the token endpoint: only status 200
/// with a declared `Content-Length` of at least one buffer is
/// accepted.
pub fn credential_response_check(status: u16, content_length: Option<usize>) -> (r: Result<
    (),
    AwsError,
>)
    ensures
        r == if status == 200 && (content_length matches Some(len) && len
            >= CREDENTIAL_BUF_SIZE) {
            Ok::<(), AwsError>(())
        } else {
            Err::<(), AwsError>(AwsError::AwsCredentialsError)
        },
{
    if status != 200 {
        return Err(AwsError::AwsCredentialsError);
    }
    match content_length {
        None => Err(AwsError::AwsCredentialsError),
        Some(len) => {
            if len < CREDENTIAL_BUF_SIZE {
                Err(AwsError::AwsCredentialsError)
            } else {
                Ok(())
            }
        },
    }
}

/// Whether the URL signer accepts these inputs: the endpoint parses
/// as an http(s) URL with a host, the bucket's base URL can be formed
/// on it for the region, and the object name joins onto it as a valid
/// path.
pub uninterp spec fn signer_accepts(
    endpoint: Seq<char>,
    bucket: Seq<char>,
    region: Seq<char>,
    object: Seq<char>,
) -> bool;

/// Relies on the `rusty_s3` crate: `Bucket::new` accepts exactly an
/// http(s) endpoint URL with a host on which the bucket's base URL
/// can be formed, `object_url` accepts exactly an object name that
/// joins onto it as a valid path, `Credentials::new_with_token`
/// carries the temporary credentials, `get_object` builds the GET
/// action, and `S3Action::sign` produces a presigned URL for the
/// given lifetime (the text depends on the signing time).  All those
/// acceptance decisions are functions of the arguments alone.  The
/// `url` crate parses the endpoint.
#[verifier::external_body]
fn presign_get_url(
    endpoint: &str,
    bucket_name: &str,
    region: &str,
    access_key_id: &str,
    secret_access_key: &str,
    session_token: &str,
    object: &str,
    expires_secs: u64,
) -> (r: Option<String>)
    ensures
        r is Some <==> signer_accepts(endpoint@, bucket_name@, region@, object@),
{
    let parsed = url::Url::parse(endpoint).ok()?;
    let style = rusty_s3::UrlStyle::VirtualHost;
    let bucket =
        rusty_s3::Bucket::new(parsed, style, bucket_name.to_string(), region.to_string()).ok()?;
    bucket.object_url(object).ok()?;
    let creds = rusty_s3::Credentials::new_with_token(access_key_id, secret_access_key, session_token);
    let action = bucket.get_object(Some(&creds), object);
    Some(rusty_s3::S3Action::sign(&action, core::time::Duration::from_secs(expires_secs)).to_string())
}

/// Sign a time-limited download URL for the firmware object with the
/// given temporary credentials.  Signing succeeds exactly when the
/// signer accepts the endpoint, bucket, region and object name;
/// anything it refuses (no http(s) scheme, no host, an unusable
/// object path) is reported as a credential failure.  The signed
/// URL's text depends on the signing time.
pub fn signe_url(
    aws_credentials: &Credentials,
    endpoint: &str,
    region: &str,
    bucket_name: &str,
    fw_file_name: &str,
) -> (r: Result<String, AwsError>)
    ensures
        r is Ok <==> signer_accepts(endpoint@, bucket_name@, region@, fw_file_name@),
        r matches Err(e) ==> e == AwsError::AwsCredentialsError,
{
    match presign_get_url(
        endpoint,
        bucket_name,
        region,
        aws_credentials.access_key_id.as_str(),
        aws_credentials.secret_access_key.as_str(),
        aws_credentials.session_token.as_str(),
        fw_file_name,
        AWS_TOKEN_LIFETIME,
    ) {
        Some(url) => Ok(url),
        None => Err(AwsError::AwsCredentialsError),
    }
}

} // verus!
