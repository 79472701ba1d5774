use bigtable_rs::error::{rpc_result, Error};

fn transport_error() -> tonic::transport::Error {
    tonic::transport::Endpoint::from_shared("not a uri").unwrap_err()
}

fn auth_error() -> gcp_auth::Error {
    gcp_auth::Error::Io("no credentials", std::io::Error::other("missing file"))
}

#[test]
fn each_error_has_its_message() {
    let said = |error: Error| error.message();
    assert_eq!(said(Error::AccessTokenError("expired".to_string())), "AccessToken error: expired");
    assert_eq!(said(Error::CertificateError("bad".to_string())), "Certificate error: bad");
    assert_eq!(said(Error::IoError(std::io::Error::other("broken pipe"))), "I/O Error: broken pipe");
    assert_eq!(
        said(Error::TransportError(transport_error())),
        format!("Transport error: {}", transport_error())
    );
    assert_eq!(said(Error::ChunkError("hidden".to_string())), "Chunk error");
    assert_eq!(said(Error::RowNotFound), "Row not found");
    assert_eq!(said(Error::RowWriteFailed), "Row write failed");
    assert_eq!(said(Error::ObjectNotFound("x".to_string())), "Object not found: x");
    assert_eq!(said(Error::ObjectCorrupt("y".to_string())), "Object is corrupt: y");
    let status = tonic::Status::not_found("no table");
    assert_eq!(said(Error::RpcError(status.clone())), format!("RPC error: {}", status));
    assert_eq!(
        said(Error::GCPAuthError(auth_error())),
        "GCPAuthError error: no credentials: missing file"
    );
}

#[test]
fn a_timeout_tells_its_seconds_in_decimal() {
    for seconds in [0, 7, 9, 10, 42, 100, 1234567890, u64::MAX] {
        assert_eq!(
            Error::TimeoutError(seconds).message(),
            format!("Timeout error after {} seconds", seconds)
        );
    }
}

#[test]
fn outside_errors_become_errors_of_their_kind() {
    assert!(matches!(Error::from(std::io::Error::other("x")), Error::IoError(_)));
    assert!(matches!(Error::from(transport_error()), Error::TransportError(_)));
    assert!(matches!(Error::from(auth_error()), Error::GCPAuthError(_)));
    let Error::RpcError(status) = Error::from(tonic::Status::aborted("conflict")) else {
        panic!("not an RPC error");
    };
    assert_eq!(status.code(), tonic::Code::Aborted);
}

#[test]
fn a_reply_is_handed_on() {
    assert_eq!(rpc_result(Ok::<u8, tonic::Status>(3)).unwrap(), 3);
}

#[test]
fn a_refused_call_is_an_rpc_error() {
    let refused: Result<u8, Error> = rpc_result(Err(tonic::Status::permission_denied("no")));
    let Err(Error::RpcError(status)) = refused else {
        panic!("not an RPC error");
    };
    assert_eq!(status.code(), tonic::Code::PermissionDenied);
    assert_eq!(status.message(), "no");
}
