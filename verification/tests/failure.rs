use network_p2p_types::{InboundFailure, OutboundFailure, RequestFailure, ResponseFailure};

#[test]
fn plain_request_failures_render_as_their_names() {
    assert_eq!(RequestFailure::NotConnected.to_string(), "NotConnected");
    assert_eq!(RequestFailure::UnknownProtocol.to_string(), "UnknownProtocol");
    assert_eq!(RequestFailure::Refused.to_string(), "Refused");
    assert_eq!(RequestFailure::Obsolete.to_string(), "Obsolete");
}

#[test]
fn network_request_failure_renders_its_cause() {
    assert_eq!(
        RequestFailure::Network(OutboundFailure::DialFailure).to_string(),
        "Problem on the network: DialFailure"
    );
    assert_eq!(
        RequestFailure::Network(OutboundFailure::Timeout).to_string(),
        "Problem on the network: Timeout"
    );
    assert_eq!(
        RequestFailure::Network(OutboundFailure::ConnectionClosed).to_string(),
        "Problem on the network: ConnectionClosed"
    );
    assert_eq!(
        RequestFailure::Network(OutboundFailure::UnsupportedProtocols).to_string(),
        "Problem on the network: UnsupportedProtocols"
    );
}

#[test]
fn network_response_failure_renders_its_cause() {
    assert_eq!(
        ResponseFailure::Network(InboundFailure::Timeout).to_string(),
        "Problem on the network: Timeout"
    );
    assert_eq!(
        ResponseFailure::Network(InboundFailure::ConnectionClosed).to_string(),
        "Problem on the network: ConnectionClosed"
    );
    assert_eq!(
        ResponseFailure::Network(InboundFailure::UnsupportedProtocols).to_string(),
        "Problem on the network: UnsupportedProtocols"
    );
    assert_eq!(
        ResponseFailure::Network(InboundFailure::ResponseOmission).to_string(),
        "Problem on the network: ResponseOmission"
    );
}

#[test]
fn request_failures_are_told_apart() {
    let all = [
        RequestFailure::NotConnected,
        RequestFailure::UnknownProtocol,
        RequestFailure::Refused,
        RequestFailure::Obsolete,
        RequestFailure::Network(OutboundFailure::Timeout),
    ];
    let retried: Vec<bool> =
        all.iter().map(|failure| matches!(failure, RequestFailure::NotConnected)).collect();
    assert_eq!(retried, vec![true, false, false, false, false]);
    let mut messages: Vec<String> = all.iter().map(|failure| failure.to_string()).collect();
    messages.sort();
    messages.dedup();
    assert_eq!(messages.len(), 5);
}

#[test]
fn network_failure_keeps_its_cause() {
    match RequestFailure::Network(OutboundFailure::ConnectionClosed) {
        RequestFailure::Network(OutboundFailure::ConnectionClosed) => {}
        other => panic!("unexpected: {:?}", other),
    }
    match ResponseFailure::Network(InboundFailure::ResponseOmission) {
        ResponseFailure::Network(InboundFailure::ResponseOmission) => {}
        other => panic!("unexpected: {:?}", other),
    }
}

#[test]
fn failures_have_a_debug_form() {
    assert_eq!(format!("{:?}", RequestFailure::Refused), "Refused");
    assert_eq!(
        format!("{:?}", RequestFailure::Network(OutboundFailure::Timeout)),
        "Network(Timeout)"
    );
    assert_eq!(
        format!("{:?}", ResponseFailure::Network(InboundFailure::Timeout)),
        "Network(Timeout)"
    );
}
