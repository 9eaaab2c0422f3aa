use approval_receiver::protocol::{Error, Response};
use approval_receiver::service::ApprovalCallbackService;

fn notify(
    service: &ApprovalCallbackService,
    caller: &str,
    msg: &str,
) -> Result<(approval_receiver::protocol::LogRecord, Response), Error> {
    service.handle_approval_notification(
        String::from(caller),
        30_000_000_000_000,
        String::from("receiver.example"),
        String::from("T1"),
        String::from("alice"),
        7,
        String::from(msg),
    )
}

#[test]
fn handler_before_initialization_is_refused() {
    let service = ApprovalCallbackService::new();
    let outcome = notify(&service, "nft.example", "return-now");
    assert!(matches!(outcome, Err(Error::UninitializedUse)));
}

#[test]
fn second_initialization_is_refused() {
    let mut service = ApprovalCallbackService::new();
    assert!(service.initialize(String::from("nft.example")).is_ok());
    let outcome = service.initialize(String::from("other.example"));
    assert!(matches!(outcome, Err(Error::DoubleInitialization)));
    // The failed attempt leaves the original configuration in place.
    let (_, response) = notify(&service, "nft.example", "return-now").unwrap();
    assert!(matches!(response, Response::Value(v) if v == "cool"));
}

#[test]
fn initialized_service_delegates_to_receiver() {
    let mut service = ApprovalCallbackService::new();
    service.initialize(String::from("nft.example")).unwrap();
    let (log, response) = notify(&service, "nft.example", "hello-world").unwrap();
    assert_eq!(log.token_id, "T1");
    match response {
        Response::Call(call) => assert_eq!(call.msg, "hello-world"),
        Response::Value(_) => panic!("a non-directive message must take the deferred path"),
    }
    let outcome = notify(&service, "mallory", "hello-world");
    assert!(matches!(outcome, Err(Error::UnauthorizedCaller)));
}
