use google_ai_rs::error::{status_into_error, ActionError, ActionErrorBlame, Error, NetError, ServiceError, SetupError};
use google_ai_rs::proto::code_execution_result::Outcome;
use google_ai_rs::proto::{HarmCategory, TaskType};

#[test]
fn blame_looks_through_streams() {
    let action: ActionError<std::io::Error> = ActionError::Action(std::io::Error::other("disk"));
    assert_eq!(action.blame(), ActionErrorBlame::Action);
    let net: ActionError<std::io::Error> =
        ActionError::Error(Box::new(Error::Net(NetError::TransportFailure("down".to_owned()))));
    assert_eq!(net.blame(), ActionErrorBlame::Network);
    let nested: ActionError<std::io::Error> = ActionError::Error(Box::new(Error::Stream(ActionError::Error(
        Box::new(Error::Service(ServiceError::InvalidResponse("x".to_owned()))),
    ))));
    assert_eq!(nested.blame(), ActionErrorBlame::Service);
    let other: ActionError<std::io::Error> = ActionError::Error(Box::new(Error::InvalidArgument("a".to_owned())));
    assert_eq!(other.blame(), ActionErrorBlame::Unknown);
}

#[test]
fn status_without_cause_is_an_api_error() {
    let e = status_into_error(tonic::Status::new(tonic::Code::NotFound, "no such model"));
    match e {
        Error::Service(ServiceError::ApiError(s)) => assert_eq!(s.message(), "no such model"),
        other => panic!("unexpected {other:?}"),
    }
}

#[test]
fn status_with_cause_is_a_network_error() {
    let cause = std::io::Error::new(std::io::ErrorKind::ConnectionRefused, "refused");
    let e = status_into_error(tonic::Status::from_error(Box::new(cause)));
    match e {
        Error::Net(NetError::ServiceUnavailable(s)) => assert_eq!(s.message(), "refused"),
        other => panic!("unexpected {other:?}"),
    }
}

#[test]
fn error_conversions() {
    assert!(matches!(Error::from(ServiceError::InvalidContent("c".to_owned())), Error::InvalidContent(m) if m == "c"));
    assert!(matches!(Error::from(ServiceError::InvalidResponse("r".to_owned())), Error::Service(_)));
    assert!(matches!(Error::from("bad".to_owned()), Error::InvalidArgument(m) if m == "bad"));
    match SetupError::new("TLS configuration", "no roots") {
        Error::Setup(s) => assert_eq!((s.context.as_str(), s.err.as_str()), ("TLS configuration", "no roots")),
        other => panic!("unexpected {other:?}"),
    }
}

#[test]
fn protocol_names_round_trip() {
    assert_eq!(TaskType::RetrievalDocument.as_str_name(), "RETRIEVAL_DOCUMENT");
    assert_eq!(TaskType::from_str_name("RETRIEVAL_QUERY"), Some(TaskType::RetrievalQuery));
    assert_eq!(TaskType::from_str_name("retrieval_query"), None);
    assert_eq!(TaskType::from_i32(2), Some(TaskType::RetrievalDocument));
    assert_eq!(TaskType::from_i32(99), None);
    assert_eq!(HarmCategory::from_str_name(HarmCategory::Harassment.as_str_name()), Some(HarmCategory::Harassment));
    assert_eq!(Outcome::OutcomeOk.as_str_name(), "OUTCOME_OK");
}
