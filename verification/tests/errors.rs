use lampod::error::Error;

#[test]
fn messages_name_what_failed() {
    assert_eq!(
        Error::MethodNotFound { method: "getinfo".to_string() }.message(),
        "method `getinfo` not found"
    );
    assert_eq!(Error::Handler { reason: "plugin crashed".to_string() }.message(), "plugin crashed");
    assert_eq!(Error::HandlerAlreadySet.message(), "handler already set");
    assert_eq!(Error::OutOfTurn.message(), "report out of turn");
    assert_eq!(
        Error::MethodNotFound { method: String::new() }.message(),
        "method `` not found"
    );
}
