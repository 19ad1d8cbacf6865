use grid_daemon::event_error::{EventError, EventIoError, EventProcessorError};
use grid_daemon::rest_api_error::{CliError, CliErrorSource, RestApiResponseError, RestApiServerError};

#[test]
fn event_error_messages() {
    assert_eq!(EventProcessorError("boom".to_string()).to_string(), "Event Processor Error: boom");
    assert_eq!(EventError("bad".to_string()).to_string(), "Event Error: bad");
    assert_eq!(
        EventIoError::ConnectionError("down".to_string()).to_string(),
        "event connection encountered an error: down"
    );
    assert_eq!(
        EventIoError::InvalidMessage("junk".to_string()).to_string(),
        "connection received invalid message: junk"
    );
}

#[test]
fn server_error_from_io_error() {
    let err: RestApiServerError = std::io::Error::new(std::io::ErrorKind::Other, "port taken").into();
    assert!(matches!(err, RestApiServerError::StdError(_)));
    assert_eq!(err.to_string(), "Std Error: port taken");
    assert_eq!(err.source().map(|e| e.to_string()), Some("port taken".to_string()));
    assert_eq!(err.message_with_cause("closed"), "Std Error: closed");
    let start = RestApiServerError::StartUpError("no config".to_string());
    assert_eq!(start.message_with_cause("ignored"), "Start-up Error: no config");
    assert_eq!(start.to_string(), "Start-up Error: no config");
    assert!(start.source().is_none());
}

#[test]
fn response_error_messages() {
    let cases = vec![
        (RestApiResponseError::BadRequest("m".to_string()), "Bad Request: m"),
        (RestApiResponseError::SawtoothConnectionError("m".to_string()), "Zmq Connection Error: m"),
        (
            RestApiResponseError::SawtoothValidatorResponseError("m".to_string()),
            "Sawtooth Validator Response Error: m",
        ),
        (RestApiResponseError::RequestHandlerError("m".to_string()), "Request Handler Error Error: m"),
        (RestApiResponseError::DatabaseError("m".to_string()), "Database Error: m"),
        (RestApiResponseError::NotFoundError("m".to_string()), "Not Found Error: m"),
        (RestApiResponseError::UserError("m".to_string()), "Error: m"),
        (RestApiResponseError::GridProtoError("m".to_string()), "Grid Proto Error: m"),
    ];
    for (err, text) in cases {
        assert_eq!(err.to_string(), text);
    }
}

#[test]
fn response_error_answers() {
    let answer = RestApiResponseError::BadRequest("bad".to_string()).error_response();
    assert_eq!((answer.status, answer.message.as_str()), (400, "bad"));
    let answer = RestApiResponseError::SawtoothConnectionError("zmq".to_string()).error_response();
    assert_eq!((answer.status, answer.message.as_str()), (503, "zmq"));
    let answer = RestApiResponseError::DatabaseError("db".to_string()).error_response();
    assert_eq!((answer.status, answer.message.as_str()), (503, "db"));
    let answer = RestApiResponseError::NotFoundError("gone".to_string()).error_response();
    assert_eq!((answer.status, answer.message.as_str()), (404, "gone"));
    for err in vec![
        RestApiResponseError::SawtoothValidatorResponseError("x".to_string()),
        RestApiResponseError::RequestHandlerError("x".to_string()),
        RestApiResponseError::UserError("x".to_string()),
        RestApiResponseError::GridProtoError("x".to_string()),
    ] {
        let answer = err.error_response();
        assert_eq!((answer.status, answer.message.as_str()), (500, "Internal Server Error"));
    }
}

#[test]
fn response_errors_from_outside_errors() {
    match RestApiResponseError::from_payload_error("eof") {
        RestApiResponseError::BadRequest(m) => assert_eq!(m, "Payload was not well formated. eof"),
        other => panic!("{:?}", other),
    }
    match RestApiResponseError::from_mailbox_error("closed") {
        RestApiResponseError::RequestHandlerError(m) => {
            assert_eq!(m, "Failed to deliver message to request handler. closed")
        }
        other => panic!("{:?}", other),
    }
    match RestApiResponseError::from_url_generation_error("none") {
        RestApiResponseError::RequestHandlerError(m) => assert_eq!(m, "Failed generate response URL. none"),
        other => panic!("{:?}", other),
    }
    match RestApiResponseError::from_database_error("pool") {
        RestApiResponseError::DatabaseError(m) => assert_eq!(m, "Database Error occured: pool"),
        other => panic!("{:?}", other),
    }
    match RestApiResponseError::from_query_error("NotFound") {
        RestApiResponseError::DatabaseError(m) => assert_eq!(m, "Database Result Error occured: NotFound"),
        other => panic!("{:?}", other),
    }
    assert_eq!(RestApiResponseError::GridProtoError("x".to_string()).source(), Some(&"x".to_string()));
    assert_eq!(RestApiResponseError::UserError("x".to_string()).source(), None);
}

#[test]
fn cli_error_messages() {
    assert_eq!(CliError::UserError("u".to_string()).to_string(), "Error: u");
    assert_eq!(CliError::InvalidYamlError("y".to_string()).to_string(), "InvalidYamlError: y");
    assert_eq!(CliError::PayloadError("p".to_string()).to_string(), "PayloadError: p");
    assert_eq!(CliError::DatabaseError("d".to_string()).to_string(), "DatabaseError: d");
    assert_eq!(CliError::SigningError("s".to_string()).to_string(), "SigningError: s");
    assert_eq!(
        CliError::LoggingInitializationError("l".to_string()).to_string(),
        "LoggingInitializationError: l"
    );
    assert_eq!(CliError::ReqwestError("r".to_string()).to_string(), "Reqwest Error: r");
    assert_eq!(CliError::GridProtoError("g".to_string()).to_string(), "Grid Proto Error: g");
    assert_eq!(CliError::SabreProtoError("s".to_string()).to_string(), "Sabre Proto Error: s");
    let io: CliError = std::io::Error::new(std::io::ErrorKind::Other, "disk").into();
    assert_eq!(io.to_string(), "IoError: disk");
    let proto: CliError =
        protobuf::ProtobufError::MessageNotInitialized { message: "Batch" }.into();
    assert_eq!(proto.to_string(), "ProtobufError: not all message fields set");
    assert!(matches!(proto.source(), Some(CliErrorSource::Protobuf(_))));
    assert!(matches!(io.source(), Some(CliErrorSource::Io(e)) if e.to_string() == "disk"));
    assert!(matches!(
        CliError::ReqwestError("r".to_string()).source(),
        Some(CliErrorSource::Text(t)) if t == "r"
    ));
    assert!(CliError::UserError("u".to_string()).source().is_none());
    assert!(CliError::InvalidYamlError("y".to_string()).source().is_none());
    assert_eq!(io.message_with_cause("full"), "IoError: full");
    assert_eq!(proto.message_with_cause("bad"), "ProtobufError: bad");
    assert_eq!(CliError::UserError("u".to_string()).message_with_cause("ignored"), "Error: u");
}
