use monitoring_client::response::{find_response, MessageKind, OutboundItem};
use monitoring_client::wait::ProbeError;

#[test]
fn finds_the_first_external_outbound_message() {
    let items = vec![
        OutboundItem::Failure,
        OutboundItem::Message(MessageKind::Internal),
        OutboundItem::Missing,
        OutboundItem::Message(MessageKind::ExternalOutbound),
        OutboundItem::Message(MessageKind::ExternalOutbound),
    ];
    assert!(matches!(find_response(&items), Ok(3)));
    assert!(matches!(
        find_response(&vec![OutboundItem::Message(MessageKind::ExternalOutbound)]),
        Ok(0)
    ));
}

#[test]
fn reports_a_call_without_an_answer() {
    let items = vec![
        OutboundItem::Message(MessageKind::Internal),
        OutboundItem::Message(MessageKind::ExternalInbound),
        OutboundItem::Message(MessageKind::Unknown),
        OutboundItem::Missing,
        OutboundItem::Failure,
    ];
    match find_response(&items) {
        Err(ProbeError::Transport(m)) => assert_eq!(m, "erro unwrap out message 2"),
        other => panic!("unexpected: {:?}", other),
    }
    assert!(find_response(&Vec::new()).is_err());
}
