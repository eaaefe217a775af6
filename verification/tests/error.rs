use dragonfly_client::error::{
    DFError, DownloadFromRemotePeerFailed, ErrorType, ExternalError, HTTPError,
    SendTimeoutCondition,
};

#[test]
fn should_convert_externalerror_to_dferror() {
    let inner_error = std::io::Error::new(std::io::ErrorKind::Other, "inner error");
    let result: Result<(), std::io::Error> = Err(inner_error);
    let err = DFError::from_external(
        ExternalError::new(ErrorType::StorageError).with_cause(result.err().unwrap().to_string()),
    );
    assert_eq!(err.message(), "StorageError cause: inner error");
}

#[test]
fn external_error_without_cause_renders_category_alone() {
    let err = ExternalError::new(ErrorType::StorageError);
    assert_eq!(err.message(), "StorageError");
    let err = DFError::from_external(ExternalError::new(ErrorType::ParseError));
    assert_eq!(err.message(), "ParseError");
}

#[test]
fn external_error_with_cause_renders_category_and_cause() {
    let err = ExternalError::new(ErrorType::ParseError).with_cause("relative URL".to_string());
    assert_eq!(err.message(), "ParseError cause: relative URL");
}

#[test]
fn simple_kinds_render_fixed_messages() {
    assert_eq!(DFError::SendTimeout.message(), "send timeout");
    assert_eq!(
        DFError::AvailableManagerNotFound.message(),
        "available manager not found"
    );
    assert_eq!(
        DFError::AvailableSchedulersNotFound.message(),
        "available schedulers not found"
    );
    assert_eq!(
        DFError::SchedulerClientNotFound.message(),
        "scheduler client not found"
    );
    assert_eq!(DFError::UnexpectedResponse.message(), "unexpected response");
    assert_eq!(
        DFError::PieceDigestMismatch.message(),
        "piece digest mismatch"
    );
    assert_eq!(
        DFError::InvalidContentLength.message(),
        "invalid content length"
    );
    assert_eq!(DFError::InvalidParameter.message(), "invalid parameter");
    assert_eq!(DFError::Unimplemented.message(), "unimplemented");
    assert_eq!(
        DFError::EmptyHTTPRangeError.message(),
        "RangeUnsatisfiable: Failed to parse range fallback error, please file an issue"
    );
}

#[test]
fn structured_kinds_interpolate_their_fields() {
    assert_eq!(
        DFError::MpscSend("channel closed".to_string()).message(),
        "mpsc send: channel closed"
    );
    assert_eq!(
        DFError::HashRing("ring-a".to_string()).message(),
        "hashring ring-a is failed"
    );
    assert_eq!(
        DFError::HostNotFound("host-a".to_string()).message(),
        "host host-a not found"
    );
    assert_eq!(
        DFError::TaskNotFound("t1".to_string()).message(),
        "task t1 not found"
    );
    assert_eq!(
        DFError::PieceNotFound("p1".to_string()).message(),
        "piece p1 not found"
    );
    assert_eq!(
        DFError::PieceStateIsFailed("p2".to_string()).message(),
        "piece p2 state is failed"
    );
    assert_eq!(
        DFError::WaitForPieceFinishedTimeout("p3".to_string()).message(),
        "wait for piece p3 finished timeout"
    );
    assert_eq!(
        DFError::ColumnFamilyNotFound("cf".to_string()).message(),
        "column family cf not found"
    );
    assert_eq!(
        DFError::InvalidStateTransition("A".to_string(), "B".to_string()).message(),
        "can not transit from A to B"
    );
    assert_eq!(
        DFError::InvalidState("Bad".to_string()).message(),
        "invalid state Bad"
    );
    assert_eq!(
        DFError::InvalidURI("foo".to_string()).message(),
        "invalid uri foo"
    );
    assert_eq!(
        DFError::InvalidPeer("peer-1".to_string()).message(),
        "invalid peer peer-1"
    );
    assert_eq!(
        DFError::Unknown("mystery".to_string()).message(),
        "unknown mystery"
    );
    assert_eq!(
        DFError::MaxScheduleCountExceeded(30).message(),
        "max schedule count 30 exceeded"
    );
    assert_eq!(
        DFError::DownloadFromRemotePeerFailed(DownloadFromRemotePeerFailed {
            piece_number: 7,
            parent_id: "peer-1".to_string(),
        })
        .message(),
        "download piece 7 from remote peer peer-1 failed"
    );
    assert_eq!(
        DFError::TonicStatus(5, "not found".to_string()).message(),
        "status 5: not found"
    );
    assert_eq!(
        DFError::HTTP(HTTPError { status_code: 404 }).message(),
        "HTTP 404"
    );
}

#[test]
fn wrapping_kinds_render_their_cause_transparently() {
    assert_eq!(
        DFError::from_io_error("inner error".to_string()).message(),
        "inner error"
    );
    assert_eq!(
        DFError::from_utf8_error("invalid utf-8".to_string()).message(),
        "invalid utf-8"
    );
}

#[test]
fn send_failures_map_to_their_kinds() {
    let err = DFError::from_send_error("channel closed".to_string());
    assert!(matches!(err, DFError::MpscSend(_)));
    assert_eq!(err.message(), "mpsc send: channel closed");

    let timed_out = DFError::from_send_timeout_error(SendTimeoutCondition::Timeout);
    assert!(matches!(timed_out, DFError::SendTimeout));
    let closed = DFError::from_send_timeout_error(SendTimeoutCondition::Closed);
    assert!(matches!(closed, DFError::SendTimeout));
}

#[test]
fn tonic_status_conversion_keeps_code_and_message() {
    let err = DFError::from_tonic_status(5, "not found".to_string());
    assert!(matches!(err, DFError::TonicStatus(5, _)));
    assert_eq!(err.message(), "status 5: not found");
}

#[test]
fn error_type_names_render() {
    assert_eq!(ErrorType::StorageError.name(), "StorageError");
    assert_eq!(ErrorType::ParseError.name(), "ParseError");
    assert_eq!(ErrorType::SerializeError.name(), "SerializeError");
    assert_eq!(ErrorType::ConfigError.name(), "ConfigError");
    assert_eq!(ErrorType::ConnectError.name(), "ConnectError");
    assert_eq!(ErrorType::AsyncRuntimeError.name(), "AsyncRuntimeError");
    assert_eq!(ErrorType::PluginError.name(), "PluginError");
}
