use eigen_server::error::EigenError;

#[test]
fn every_kind_is_written_by_its_name() {
    assert_eq!(EigenError::ConnectionError.to_string(), "ConnectionError");
    assert_eq!(EigenError::ListenError.to_string(), "ListenError");
    assert_eq!(EigenError::AggregateError.to_string(), "AggregateError");
    assert_eq!(EigenError::ParseError.to_string(), "ParseError");
    assert_eq!(EigenError::InvalidQuery.to_string(), "InvalidQuery");
    assert_eq!(EigenError::InvalidRequest.to_string(), "InvalidRequest");
}

#[test]
fn the_name_is_the_debug_form() {
    let kinds = [
        EigenError::ConnectionError,
        EigenError::ListenError,
        EigenError::AggregateError,
        EigenError::ParseError,
        EigenError::InvalidQuery,
        EigenError::InvalidRequest,
    ];
    for kind in kinds {
        assert_eq!(kind.to_string(), format!("{:?}", kind));
    }
}

#[test]
fn binding_and_accepting_failures_are_fatal() {
    assert!(EigenError::ListenError.is_fatal());
    assert!(EigenError::ConnectionError.is_fatal());
}

#[test]
fn request_failures_are_not_fatal() {
    assert!(!EigenError::AggregateError.is_fatal());
    assert!(!EigenError::ParseError.is_fatal());
    assert!(!EigenError::InvalidQuery.is_fatal());
    assert!(!EigenError::InvalidRequest.is_fatal());
}

#[test]
fn kinds_compare_by_tag() {
    assert_eq!(EigenError::ParseError, EigenError::ParseError);
    assert_ne!(EigenError::ParseError, EigenError::AggregateError);
}
