use aws_credential_types::provider::error::CredentialsError;
use vault_iam_auth::error::{Error, InvalidParameters, VaultError};

fn refusal(reasons: &[&str]) -> VaultError {
    VaultError { errors: reasons.iter().map(|r| String::from(*r)).collect() }
}

#[test]
fn a_refusal_reads_with_all_its_reasons() {
    assert_eq!(refusal(&["permission denied"]).message(), "Vault error: permission denied");
    assert_eq!(
        refusal(&["permission denied", "role not found", "x"]).message(),
        "Vault error: permission denied, role not found, x"
    );
}

#[test]
fn a_refusal_without_reasons_reads_bare() {
    assert_eq!(refusal(&[]).message(), "Vault error: ");
}

#[test]
fn invalid_parameters_read_with_their_fault() {
    assert_eq!(InvalidParameters::EmptyRole.message(), "invalid parameters: the role is empty");
    assert_eq!(
        Error::InvalidParameters(InvalidParameters::AddressNotAbsolute).message(),
        "invalid parameters: the Vault address is not an absolute URL with a host"
    );
}

#[test]
fn an_empty_token_reads_as_such() {
    assert_eq!(Error::EmptyToken.message(), "Vault error: returned token was empty");
}

#[test]
fn a_vault_error_reads_as_its_refusal() {
    let error = Error::VaultError(refusal(&["a", "b"]));
    assert_eq!(error.message(), "Vault error: a, b");
}

#[test]
fn outside_errors_read_as_they_print() {
    let credentials = CredentialsError::not_loaded("nothing configured");
    let said = format!("{}", credentials);
    assert_eq!(Error::CredentialsError(credentials).message(), said);

    let io = std::io::Error::new(std::io::ErrorKind::TimedOut, "timed out");
    let said = format!("{}", io);
    assert_eq!(Error::ConnectError(io).message(), said);

    let json = serde_json::from_str::<serde_json::Value>("[").unwrap_err();
    let said = format!("{}", json);
    assert_eq!(Error::DeserializationError(json).message(), said);
}

#[test]
fn http_errors_convert_into_their_variant() {
    let runtime = tokio::runtime::Builder::new_current_thread().enable_io().build().unwrap();
    let failure: hyper::Error = runtime.block_on(async {
        let (stream, peer) = tokio::net::UnixStream::pair().unwrap();
        drop(peer);
        let io = hyper_util::rt::TokioIo::new(stream);
        let (mut sender, connection) =
            hyper::client::conn::http1::handshake::<_, String>(io).await.unwrap();
        tokio::task::spawn(connection);
        let request = hyper::Request::builder().uri("/").body(String::new()).unwrap();
        sender.send_request(request).await.unwrap_err()
    });
    let said = format!("{}", failure);
    let error: Error = failure.into();
    assert!(matches!(error, Error::HTTPError(_)));
    assert_eq!(error.message(), said);
}

#[test]
fn outside_errors_convert_into_their_variant() {
    let error: Error = CredentialsError::not_loaded("nothing configured").into();
    assert!(matches!(error, Error::CredentialsError(_)));

    let error: Error = std::io::Error::new(std::io::ErrorKind::TimedOut, "timed out").into();
    assert!(matches!(error, Error::ConnectError(_)));

    let error: Error = serde_json::from_str::<serde_json::Value>("[").unwrap_err().into();
    assert!(matches!(error, Error::DeserializationError(_)));
}
