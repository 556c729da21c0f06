use signal_bridge::transport::{Error, ReceivedMessage, Receiver, Sender};

#[test]
fn error_keeps_the_cause_it_was_given() {
    let error = Error::from_error(String::from("Os { code: 104, kind: ConnectionReset }"));
    assert_eq!(error.cause(), "Os { code: 104, kind: ConnectionReset }");
    assert_eq!(error.to_text(), "Errors: Os { code: 104, kind: ConnectionReset }");
}

#[test]
fn error_for_a_closed_source_says_closed() {
    assert_eq!(Error::closed().cause(), "Closed");
    assert_eq!(Error::closed().to_text(), "Errors: Closed");
    assert_eq!(Error::closed(), Error::from_error(String::from("Closed")));
}

#[test]
fn sender_holds_its_sink() {
    let mut sender = Sender::new(vec![1u8, 2]);
    sender.get_mut().push(3);
    assert_eq!(*sender.get_mut(), vec![1u8, 2, 3]);
}

#[test]
fn receiver_holds_its_source() {
    let mut receiver = Receiver::new(vec![String::from("a")]);
    assert_eq!(receiver.get_mut().pop(), Some(String::from("a")));
    assert_eq!(receiver.get_mut().pop(), None);
}

#[test]
fn sender_reports_what_the_sink_answered() {
    let sender = Sender::new(());
    assert_eq!(sender.sent(Ok(())), Ok(()));
    assert_eq!(
        sender.sent(Err(String::from("BrokenPipe"))),
        Err(Error::from_error(String::from("BrokenPipe")))
    );
    assert_eq!(sender.closed(Ok(())), Ok(()));
    assert_eq!(
        sender.closed(Err(String::from("NotConnected"))),
        Err(Error::from_error(String::from("NotConnected")))
    );
}

#[test]
fn receiver_hands_a_frame_on_as_text() {
    let receiver = Receiver::new(());
    assert_eq!(
        receiver.received(Some(Ok(String::from("{\"id\":1}")))),
        Ok(ReceivedMessage::Text(String::from("{\"id\":1}")))
    );
}

#[test]
fn receiver_reports_the_end_of_the_source_as_closed() {
    let receiver = Receiver::new(());
    let report = receiver.received(None);
    assert_eq!(report, Err(Error::closed()));
    assert_eq!(report.unwrap_err().cause(), "Closed");
}

#[test]
fn receiver_reports_a_failure_of_the_source_with_its_cause() {
    let receiver = Receiver::new(());
    let report = receiver.received(Some(Err(String::from("Custom { kind: Other, error: \"invalid UTF-8\" }"))));
    assert_eq!(
        report.unwrap_err().cause(),
        "Custom { kind: Other, error: \"invalid UTF-8\" }"
    );
}
