use outage_reports::thirdparty::pagerduty::{
    PDEvent, PDEventAction, PDPayload, PDSeverity, EVENTS_ENDPOINT,
};

#[test]
fn action_words() {
    assert_eq!(PDEventAction::Trigger.as_str(), "tirgger");
    assert_eq!(PDEventAction::Acknowledge.as_str(), "acknowledge");
    assert_eq!(PDEventAction::Resolve.as_str(), "resolve");
}

#[test]
fn severity_words() {
    assert_eq!(PDSeverity::Critical.as_str(), "critical");
    assert_eq!(PDSeverity::Warning.as_str(), "warning");
    assert_eq!(PDSeverity::Error.as_str(), "error");
    assert_eq!(PDSeverity::Info.as_str(), "info");
}

#[test]
fn event_holds_its_fields() {
    let event = PDEvent {
        payload: PDPayload {
            summary: "tunnels down".to_string(),
            severity: PDSeverity::Critical,
            source: "reports".to_string(),
            component: None,
            group: Some("edge".to_string()),
            class: None,
        },
        routing_key: "key".to_string(),
        event_action: PDEventAction::Trigger,
        dedup_key: Some("incident-70".to_string()),
        client: None,
        client_url: None,
    };
    let copy = event.clone();
    assert_eq!(copy, event);
    assert_eq!(copy.payload.severity, PDSeverity::Critical);
    assert_eq!(copy.dedup_key.as_deref(), Some("incident-70"));
    assert_eq!(EVENTS_ENDPOINT, "https://events.pagerduty.com/v2/enqueue");
}

#[test]
fn words_read_back() {
    for action in [PDEventAction::Trigger, PDEventAction::Acknowledge, PDEventAction::Resolve] {
        assert_eq!(PDEventAction::from_word(action.as_str()), Some(action));
    }
    for severity in [PDSeverity::Critical, PDSeverity::Warning, PDSeverity::Error, PDSeverity::Info] {
        assert_eq!(PDSeverity::from_word(severity.as_str()), Some(severity));
    }
}

#[test]
fn unknown_words_are_refused() {
    assert_eq!(PDEventAction::from_word("trigger"), None);
    assert_eq!(PDEventAction::from_word(""), None);
    assert_eq!(PDEventAction::from_word("Resolve"), None);
    assert_eq!(PDSeverity::from_word("fatal"), None);
    assert_eq!(PDSeverity::from_word("resolve"), None);
    assert_eq!(PDSeverity::from_word("Info"), None);
}
