use livedoc::document_id::DocumentId;
use livedoc::protocol::{Command, Event};
use livedoc::relay::{request, Relay, RelayStage};

const D1: &str = "507f1f77bcf86cd799439011";

fn id() -> DocumentId {
    DocumentId::parse(D1).unwrap()
}

#[test]
fn identifier_is_written_in_lower_case_hexadecimal() {
    assert_eq!(id().to_hex(), D1);
    assert_eq!(DocumentId { bytes: [0; 12] }.to_hex(), "000000000000000000000000");
    assert_eq!(DocumentId { bytes: [0xff; 12] }.to_hex(), "ffffffffffffffffffffffff");
    assert_eq!(
        DocumentId { bytes: [0x01, 0x23, 0x45, 0x67, 0x89, 0xab, 0xcd, 0xef, 0x0a, 0xa0, 0x10, 0x0f] }
            .to_hex(),
        "0123456789abcdef0aa0100f"
    );
}

#[test]
fn written_identifier_parses_back() {
    for bytes in [[0u8; 12], [0xffu8; 12], [0x5au8; 12], id().bytes] {
        let written = DocumentId { bytes }.to_hex();
        assert_eq!(DocumentId::parse(&written), Some(DocumentId { bytes }));
    }
    assert_eq!(
        DocumentId::parse("ABCDEF0123456789ABCDEF01").unwrap().to_hex(),
        "abcdef0123456789abcdef01"
    );
}

#[test]
fn request_for_a_document_key_is_fetched() {
    assert_eq!(request(D1), (RelayStage::Fetching(id()), Command::FetchDocument { id: id() }));
}

#[test]
fn request_for_anything_else_is_passed_over() {
    assert_eq!(request("hello"), (RelayStage::Listening, Command::Idle));
    assert_eq!(request(""), (RelayStage::Listening, Command::Idle));
    assert_eq!(request(" 507f1f77bcf86cd799439011"), (RelayStage::Listening, Command::Idle));
}

#[test]
fn relay_trims_the_request() {
    let mut relay = Relay::new();
    assert_eq!(relay.stage, RelayStage::Listening);
    assert_eq!(
        relay.step(Event::ClientText("  507f1f77bcf86cd799439011\r\n".to_string())),
        Command::FetchDocument { id: id() }
    );
    assert_eq!(relay.stage, RelayStage::Fetching(id()));
}

#[test]
fn relay_publishes_a_found_document_on_the_channel_of_its_identifier() {
    let mut relay = Relay::new();
    relay.step(Event::ClientText("507F1F77BCF86CD799439011".to_string()));
    assert_eq!(
        relay.step(Event::DocumentFound("content".to_string())),
        Command::Publish { channel: D1.to_string(), content: "content".to_string() }
    );
    assert_eq!(relay.stage, RelayStage::Listening);
}

#[test]
fn relay_passes_over_a_missing_document() {
    let mut relay = Relay::new();
    relay.step(Event::ClientText(D1.to_string()));
    assert_eq!(relay.step(Event::DocumentMissing), Command::Idle);
    assert_eq!(relay.stage, RelayStage::Listening);
}

#[test]
fn relay_passes_over_a_malformed_request() {
    let mut relay = Relay::new();
    assert_eq!(relay.step(Event::ClientText("not a key".to_string())), Command::Idle);
    assert_eq!(relay.stage, RelayStage::Listening);
}

#[test]
fn relay_forwards_what_the_channel_delivers() {
    let mut relay = Relay::new();
    assert_eq!(
        relay.step(Event::FanoutMessage("news".to_string())),
        Command::Forward { content: "news".to_string() }
    );
    assert_eq!(relay.stage, RelayStage::Listening);
}

#[test]
fn relay_ends_with_the_connection_or_a_failed_backend() {
    for event in [Event::ClientClosed, Event::TransportFailed, Event::BackendFailed] {
        let mut relay = Relay::new();
        assert_eq!(relay.step(event), Command::Done);
        assert_eq!(relay.stage, RelayStage::Closed);
        assert_eq!(relay.step(Event::ClientText(D1.to_string())), Command::Idle);
        assert_eq!(relay.stage, RelayStage::Closed);
    }
    let mut relay = Relay { stage: RelayStage::Fetching(id()) };
    assert_eq!(relay.step(Event::BackendFailed), Command::Done);
    assert_eq!(relay.stage, RelayStage::Closed);
}

#[test]
fn fetching_relay_waits_for_the_store() {
    let mut relay = Relay { stage: RelayStage::Fetching(id()) };
    assert_eq!(relay.step(Event::ClientText(D1.to_string())), Command::Idle);
    assert_eq!(relay.step(Event::FanoutMessage("x".to_string())), Command::Idle);
    assert_eq!(relay.stage, RelayStage::Fetching(id()));
}
