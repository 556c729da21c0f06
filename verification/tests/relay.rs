use signal_bridge::relay::{Reaction, Relay, RelayAction, RelayError, RelayEvent, RelayState};

fn quiet<P>(action: RelayAction<P>) -> Option<Reaction<P>> {
    Some(Reaction { report: None, action })
}

fn forwarding() -> Relay {
    let mut relay = Relay::new();
    assert_eq!(
        relay.step(RelayEvent::<String>::Subscribed(Ok(()))),
        quiet(RelayAction::AwaitItem)
    );
    relay
}

#[test]
fn relay_starts_out_subscribing() {
    assert_eq!(Relay::new().state(), RelayState::Subscribing);
}

#[test]
fn relay_forwards_once_subscribed() {
    let relay = forwarding();
    assert_eq!(relay.state(), RelayState::AwaitingItem);
}

#[test]
fn relay_gives_up_when_the_subscription_fails() {
    let mut relay = Relay::new();
    let reaction = relay.step(RelayEvent::<String>::Subscribed(Err(String::from("refused"))));
    assert_eq!(
        reaction,
        quiet(RelayAction::Finish(Err(RelayError::Subscribe(String::from("refused")))))
    );
    assert_eq!(relay.state(), RelayState::Terminated);
    assert_eq!(relay.step(RelayEvent::<String>::Unsubscribed(Ok(()))), None);
}

#[test]
fn relay_posts_a_notification_as_it_is() {
    let mut relay = forwarding();
    let payload = String::from("{\"envelope\":{\"source\":\"+15551234567\"}}");
    assert_eq!(
        relay.step(RelayEvent::Item(Some(Ok(payload.clone())))),
        quiet(RelayAction::Post(payload))
    );
    assert_eq!(relay.state(), RelayState::Delivering);
    assert_eq!(
        relay.step(RelayEvent::<String>::Delivered(Ok(()))),
        quiet(RelayAction::AwaitItem)
    );
    assert_eq!(relay.state(), RelayState::AwaitingItem);
}

#[test]
fn relay_survives_a_webhook_that_fails_every_other_time() {
    let notifications: Vec<u32> = (0..7).collect();
    let mut relay = Relay::new();
    assert_eq!(
        relay.step(RelayEvent::<u32>::Subscribed(Ok(()))),
        quiet(RelayAction::AwaitItem)
    );
    let mut attempts = Vec::new();
    let mut reports = Vec::new();
    for (index, notification) in notifications.iter().enumerate() {
        let reaction = relay.step(RelayEvent::Item(Some(Ok(*notification)))).unwrap();
        assert_eq!(reaction.report, None);
        match reaction.action {
            RelayAction::Post(payload) => attempts.push(payload),
            other => panic!("expected a post, got {:?}", other),
        }
        let answer = if index % 2 == 1 {
            Err(format!("attempt {} failed", index))
        } else {
            Ok(())
        };
        let reaction = relay.step(RelayEvent::<u32>::Delivered(answer)).unwrap();
        assert_eq!(reaction.action, RelayAction::AwaitItem);
        if let Some(cause) = reaction.report {
            reports.push(cause);
        }
        assert_eq!(relay.state(), RelayState::AwaitingItem);
    }
    assert_eq!(attempts, notifications);
    assert_eq!(
        reports,
        vec![
            String::from("attempt 1 failed"),
            String::from("attempt 3 failed"),
            String::from("attempt 5 failed"),
        ]
    );
}

#[test]
fn relay_reports_an_item_that_cannot_be_decoded_and_goes_on() {
    let mut relay = forwarding();
    let reaction = relay.step(RelayEvent::<String>::Item(Some(Err(String::from("expected value")))));
    assert_eq!(
        reaction,
        Some(Reaction { report: Some(String::from("expected value")), action: RelayAction::AwaitItem })
    );
    assert_eq!(relay.state(), RelayState::AwaitingItem);
    assert_eq!(
        relay.step(RelayEvent::Item(Some(Ok(String::from("next"))))),
        quiet(RelayAction::Post(String::from("next")))
    );
}

#[test]
fn relay_unsubscribes_once_when_the_stream_ends() {
    let mut relay = forwarding();
    assert_eq!(
        relay.step(RelayEvent::<String>::Item(None)),
        quiet(RelayAction::Unsubscribe)
    );
    assert_eq!(relay.state(), RelayState::Unsubscribing);
    assert_eq!(relay.step(RelayEvent::<String>::Item(None)), None);
    assert_eq!(
        relay.step(RelayEvent::<String>::Unsubscribed(Ok(()))),
        quiet(RelayAction::Finish(Ok(())))
    );
    assert_eq!(relay.state(), RelayState::Terminated);
    assert_eq!(relay.step(RelayEvent::<String>::Item(None)), None);
    assert_eq!(relay.step(RelayEvent::<String>::Unsubscribed(Ok(()))), None);
    assert_eq!(relay.step(RelayEvent::<String>::Subscribed(Ok(()))), None);
    assert_eq!(relay.state(), RelayState::Terminated);
}

#[test]
fn relay_ends_with_the_failure_of_the_unsubscribe_call() {
    let mut relay = forwarding();
    relay.step(RelayEvent::<String>::Item(None));
    assert_eq!(
        relay.step(RelayEvent::<String>::Unsubscribed(Err(String::from("connection closed")))),
        quiet(RelayAction::Finish(Err(RelayError::Unsubscribe(String::from(
            "connection closed"
        )))))
    );
    assert_eq!(relay.state(), RelayState::Terminated);
}

#[test]
fn relay_passes_over_what_it_does_not_wait_for() {
    let mut relay = Relay::new();
    assert_eq!(relay.step(RelayEvent::Item(Some(Ok(1u8)))), None);
    assert_eq!(relay.step(RelayEvent::<u8>::Delivered(Ok(()))), None);
    assert_eq!(relay.step(RelayEvent::<u8>::Unsubscribed(Ok(()))), None);
    assert_eq!(relay.state(), RelayState::Subscribing);

    let mut relay = forwarding();
    assert_eq!(relay.step(RelayEvent::<String>::Delivered(Ok(()))), None);
    assert_eq!(relay.step(RelayEvent::<String>::Subscribed(Ok(()))), None);
    assert_eq!(relay.state(), RelayState::AwaitingItem);

    relay.step(RelayEvent::Item(Some(Ok(String::from("held")))));
    assert_eq!(relay.step(RelayEvent::Item(Some(Ok(String::from("early"))))), None);
    assert_eq!(relay.step(RelayEvent::<String>::Item(None)), None);
    assert_eq!(relay.state(), RelayState::Delivering);
}
