use anemometer::credentials::{
    credential_response_check, signe_url, AwsError, Credentials, Root,
};

fn sample_credentials() -> Credentials {
    Credentials {
        access_key_id: "SECRET-REDACTED".to_string(),
        secret_access_key: "SECRET-REDACTED".to_string(),
        session_token: "SECRET-REDACTED".to_string(),
        expiration: "2023-06-01T12:00:00Z".to_string(),
    }
}

#[test]
fn token_endpoint_response_checks() {
    assert_eq!(credential_response_check(200, Some(2048)), Ok(()));
    assert_eq!(credential_response_check(200, Some(1024)), Ok(()));
    assert_eq!(
        credential_response_check(200, Some(100)),
        Err(AwsError::AwsCredentialsError)
    );
    assert_eq!(
        credential_response_check(200, None),
        Err(AwsError::AwsCredentialsError)
    );
    assert_eq!(
        credential_response_check(403, Some(2048)),
        Err(AwsError::AwsCredentialsError)
    );
}

#[test]
fn signed_url_carries_object_and_signature() {
    let creds = sample_credentials();
    let signed = signe_url(
        &creds,
        "https://s3.eu-central-1.amazonaws.com",
        "eu-central-1",
        "firmware-bucket",
        "anemometer-1.2.bin",
    )
    .expect("a valid endpoint must sign");

    assert!(signed.starts_with("https://firmware-bucket.s3.eu-central-1.amazonaws.com/"));
    assert!(signed.contains("anemometer-1.2.bin"));
    assert!(signed.contains("X-Amz-Signature="));
    assert!(signed.contains("X-Amz-Expires=600"));
}

#[test]
fn unusable_endpoint_is_a_credential_error() {
    let creds = sample_credentials();
    assert_eq!(
        signe_url(&creds, "not a url", "r", "b", "f.bin"),
        Err(AwsError::AwsCredentialsError)
    );
    assert_eq!(
        signe_url(&creds, "ftp://host/x", "r", "b", "f.bin"),
        Err(AwsError::AwsCredentialsError)
    );
}

#[test]
fn unusable_object_name_is_a_credential_error() {
    let creds = sample_credentials();
    // an object name starting with a double slash cannot join the
    // bucket URL as a path
    assert_eq!(
        signe_url(
            &creds,
            "https://s3.eu-central-1.amazonaws.com",
            "eu-central-1",
            "firmware-bucket",
            "//"
        ),
        Err(AwsError::AwsCredentialsError)
    );
    assert_eq!(
        signe_url(
            &creds,
            "https://s3.eu-central-1.amazonaws.com",
            "eu-central-1",
            "firmware-bucket",
            "///fw.bin"
        ),
        Err(AwsError::AwsCredentialsError)
    );
}

#[test]
fn response_document_holds_the_credentials() {
    let root = Root { credentials: sample_credentials() };
    assert_eq!(root.credentials.access_key_id, "SECRET-REDACTED");
    assert_eq!(root.credentials.expiration, "2023-06-01T12:00:00Z");
}
