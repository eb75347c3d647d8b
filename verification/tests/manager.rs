use beanstalkc::Beanstalkc;
use r2d2_beanstalkd::BeanstalkdConnectionManager;
use r2d2_beanstalkd::Connection;
use r2d2_beanstalkd::Error;

fn tubes(names: &[&str]) -> Vec<String> {
    names.iter().map(|name| name.to_string()).collect()
}

/// A connection whose client was never connected: every request on it fails.
fn severed() -> Connection {
    Connection::adopt(Beanstalkc::new())
}

fn connection_error(result: Result<(), Error>) -> String {
    match result {
        Err(Error::ConnectionError(message)) => message,
        other => panic!("expected a connection error, got {:?}", other),
    }
}

#[test]
fn new_stores_what_it_is_given() {
    let manager = BeanstalkdConnectionManager::new(
        "queue.example".to_string(),
        11301,
        tubes(&["default", "urgent"]),
    );
    assert_eq!(manager.host(), "queue.example");
    assert_eq!(manager.port(), 11301);
    assert_eq!(manager.watch_list(), &tubes(&["default", "urgent"]));
}

#[test]
fn new_keeps_the_order_and_repeats_of_the_watch_list() {
    let manager =
        BeanstalkdConnectionManager::new("h".to_string(), 1, tubes(&["b", "a", "b"]));
    assert_eq!(manager.watch_list(), &tubes(&["b", "a", "b"]));
}

#[test]
fn new_accepts_an_empty_watch_list() {
    let manager = BeanstalkdConnectionManager::new("localhost".to_string(), 11300, Vec::new());
    assert_eq!(manager.host(), "localhost");
    assert_eq!(manager.port(), 11300);
    assert!(manager.watch_list().is_empty());
}

#[test]
fn new_checks_nothing() {
    let manager = BeanstalkdConnectionManager::new(String::new(), 0, tubes(&[""]));
    assert_eq!(manager.host(), "");
    assert_eq!(manager.port(), 0);
    assert_eq!(manager.watch_list(), &tubes(&[""]));
    let manager = BeanstalkdConnectionManager::new("h".to_string(), u16::MAX, Vec::new());
    assert_eq!(manager.port(), 65535);
}

#[test]
fn debug_shows_the_settings() {
    let manager = BeanstalkdConnectionManager::new(
        "localhost".to_string(),
        11300,
        tubes(&["default", "urgent"]),
    );
    assert_eq!(
        format!("{:?}", manager),
        "BeanstalkdConnectionManager { host: \"localhost\", port: 11300, \
         watch_list: [\"default\", \"urgent\"] }"
    );
}

#[test]
fn connect_fails_where_nothing_listens() {
    let manager = BeanstalkdConnectionManager::new("127.0.0.1".to_string(), 1, Vec::new());
    assert!(matches!(manager.connect(), Err(Error::ConnectionError(_))));
}

#[test]
fn connect_fails_before_any_subscription_where_nothing_listens() {
    let manager =
        BeanstalkdConnectionManager::new("127.0.0.1".to_string(), 1, tubes(&["default"]));
    assert!(matches!(manager.connect(), Err(Error::ConnectionError(_))));
}

#[test]
fn connect_reports_a_host_that_cannot_be_resolved() {
    let manager = BeanstalkdConnectionManager::new("no\0host".to_string(), 11300, Vec::new());
    assert!(matches!(manager.connect(), Err(Error::ConnectionError(_))));
}

#[test]
fn connect_can_be_asked_again() {
    let manager =
        BeanstalkdConnectionManager::new("127.0.0.1".to_string(), 1, tubes(&["default"]));
    assert!(manager.connect().is_err());
    assert!(manager.connect().is_err());
    assert_eq!(manager.host(), "127.0.0.1");
    assert_eq!(manager.port(), 1);
    assert_eq!(manager.watch_list(), &tubes(&["default"]));
}

#[test]
fn complete_hands_a_failed_attempt_on() {
    let manager =
        BeanstalkdConnectionManager::new("localhost".to_string(), 11300, tubes(&["default"]));
    let refused = Error::ConnectionError("refused".to_string());
    match manager.complete(Err(refused)) {
        Err(Error::ConnectionError(message)) => assert_eq!(message, "refused"),
        _ => panic!("the attempt's own error was expected"),
    }
    let odd = Error::UnexpectedResponse("DRAINING".to_string());
    match manager.complete(Err(odd)) {
        Err(Error::UnexpectedResponse(message)) => assert_eq!(message, "DRAINING"),
        _ => panic!("the attempt's own error was expected"),
    }
    let failed = Error::CommandFailed("NOT_FOUND".to_string());
    match manager.complete(Err(failed)) {
        Err(Error::CommandFailed(message)) => assert_eq!(message, "NOT_FOUND"),
        _ => panic!("the attempt's own error was expected"),
    }
}

#[test]
fn complete_asks_nothing_for_an_empty_watch_list() {
    let manager = BeanstalkdConnectionManager::new("localhost".to_string(), 11300, Vec::new());
    // On this connection any request would fail, so success shows that none was made.
    assert!(manager.complete(Ok(severed())).is_ok());
}

#[test]
fn complete_fails_with_the_error_of_the_subscription() {
    let manager = BeanstalkdConnectionManager::new(
        "localhost".to_string(),
        11300,
        tubes(&["default", "urgent"]),
    );
    match manager.complete(Ok(severed())) {
        Err(Error::ConnectionError(message)) => assert_eq!(message, "invalid connection"),
        Err(other) => panic!("expected a connection error, got {:?}", other),
        Ok(_) => panic!("a subscription on a severed connection cannot succeed"),
    }
}

#[test]
fn is_valid_fails_with_the_transport_error() {
    let manager = BeanstalkdConnectionManager::new("localhost".to_string(), 11300, Vec::new());
    let mut conn = severed();
    assert_eq!(connection_error(manager.is_valid(&mut conn)), "invalid connection");
    assert_eq!(connection_error(manager.is_valid(&mut conn)), "invalid connection");
}

#[test]
fn has_broken_is_false_on_a_connection_never_tested() {
    let manager = BeanstalkdConnectionManager::new("localhost".to_string(), 11300, Vec::new());
    let mut conn = severed();
    assert!(!manager.has_broken(&mut conn));
}

#[test]
fn has_broken_is_false_right_after_a_failed_validation() {
    let manager =
        BeanstalkdConnectionManager::new("localhost".to_string(), 11300, tubes(&["default"]));
    let mut conn = severed();
    assert!(manager.is_valid(&mut conn).is_err());
    assert!(!manager.has_broken(&mut conn));
    assert!(!manager.has_broken(&mut conn));
    assert!(manager.is_valid(&mut conn).is_err());
}

#[test]
fn localhost_with_default_and_urgent() {
    let manager = BeanstalkdConnectionManager::new(
        "localhost".to_string(),
        11300,
        tubes(&["default", "urgent"]),
    );
    match manager.connect() {
        Ok(mut conn) => {
            let watched = conn.client().watching().unwrap();
            assert!(watched.contains(&"default".to_string()));
            assert!(watched.contains(&"urgent".to_string()));
            assert!(manager.is_valid(&mut conn).is_ok());
            assert!(!manager.has_broken(&mut conn));
        }
        // No daemon runs at that address.
        Err(error) => assert!(matches!(error, Error::ConnectionError(_))),
    }
}
