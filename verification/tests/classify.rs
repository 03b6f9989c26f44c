use rori_endpoint::account::Account;
use rori_endpoint::endpoint::Endpoint;
use rori_endpoint::interaction::{decode_payload, Datatype, Interaction, OutboundMessage};
use rori_endpoint::session::SessionState;

fn endpoint() -> Endpoint {
    Endpoint {
        account: Account::null(),
        rori_server: String::new(),
        rori_ring_id: String::new(),
        to_say: Vec::new(),
        session: SessionState::Unconfirmed,
    }
}

#[test]
fn link_is_a_command() {
    assert!(endpoint().is_a_command(&"/link alice".to_string()));
}

#[test]
fn whole_allow_list_is_accepted() {
    let ep = endpoint();
    for text in [
        "/register bob",
        "/unregister",
        "/add_device tablet",
        "/rm_device tablet",
        "/link",
    ] {
        assert!(ep.is_a_command(&text.to_string()), "{} should be a command", text);
    }
}

#[test]
fn any_whitespace_delimits_the_command_token() {
    let ep = endpoint();
    assert!(ep.is_a_command(&"/link\talice".to_string()));
    assert!(ep.is_a_command(&"/register\nbob".to_string()));
    assert!(ep.is_a_command(&"/unregister\r".to_string()));
}

#[test]
fn ordinary_text_is_not_a_command() {
    let ep = endpoint();
    assert!(!ep.is_a_command(&"hello there".to_string()));
    assert!(!ep.is_a_command(&"/linkx alice".to_string()));
    assert!(!ep.is_a_command(&"/set_types music".to_string()));
    assert!(!ep.is_a_command(&" /link alice".to_string()));
    assert!(!ep.is_a_command(&String::new()));
}

#[test]
fn command_text_is_sent_as_command() {
    let msg = endpoint().classify_user_text(&"/link alice".to_string());
    match msg {
        Some(m) => {
            assert_eq!(m.datatype, Datatype::Command);
            assert_eq!(m.body, "/link alice");
        },
        None => panic!("a command must be sent"),
    }
}

#[test]
fn plain_text_is_sent_as_plain_text() {
    let msg = endpoint().classify_user_text(&"hello there".to_string());
    match msg {
        Some(m) => {
            assert_eq!(m.datatype, Datatype::PlainText);
            assert_eq!(m.body, "hello there");
        },
        None => panic!("plain text must be sent"),
    }
}

#[test]
fn empty_text_is_never_sent() {
    assert!(endpoint().classify_user_text(&String::new()).is_none());
}

#[test]
fn outbound_payload_round_trips() {
    let msg = OutboundMessage { datatype: Datatype::PlainText, body: "hello".to_string() };
    let payload = msg.payload();
    assert_eq!(payload, vec![("text/plain".to_string(), "hello".to_string())]);
    match decode_payload(&payload) {
        Some((datatype, body)) => {
            assert_eq!(datatype, Datatype::PlainText);
            assert_eq!(body, "hello");
        },
        None => panic!("the encoded payload must decode"),
    }
}

#[test]
fn media_payload_round_trips() {
    let msg = OutboundMessage { datatype: Datatype::MediaControl, body: "play jazz".to_string() };
    match decode_payload(&msg.payload()) {
        Some((datatype, body)) => {
            assert_eq!(datatype, Datatype::MediaControl);
            assert_eq!(body, "play jazz");
        },
        None => panic!("the encoded payload must decode"),
    }
}

#[test]
fn client_commands_are_not_honoured_inbound() {
    let msg = OutboundMessage { datatype: Datatype::Command, body: "/register bob".to_string() };
    assert!(decode_payload(&msg.payload()).is_none());
}

#[test]
fn last_recognized_key_wins() {
    let payload = vec![
        ("music".to_string(), "play jazz".to_string()),
        ("note".to_string(), "metadata".to_string()),
        ("text/plain".to_string(), "hello".to_string()),
    ];
    match decode_payload(&payload) {
        Some((datatype, body)) => {
            assert_eq!(datatype, Datatype::PlainText);
            assert_eq!(body, "hello");
        },
        None => panic!("a recognized key is present"),
    }
}

#[test]
fn metadata_only_payload_decodes_to_nothing() {
    let payload = vec![("note".to_string(), "metadata".to_string())];
    assert!(decode_payload(&payload).is_none());
}

#[test]
fn interaction_from_payload_keeps_author() {
    let payload = vec![("alarm".to_string(), "wake at 7".to_string())];
    match Interaction::from_payload("serverid".to_string(), &payload) {
        Some(i) => {
            assert_eq!(i.author_ring_id, "serverid");
            assert_eq!(i.datatype, Datatype::AlarmControl);
            assert_eq!(i.body, "wake at 7");
        },
        None => panic!("the payload names a datatype"),
    }
}

#[test]
fn interaction_from_metadata_only_payload_is_nothing() {
    let payload = vec![("note".to_string(), "metadata".to_string())];
    assert!(Interaction::from_payload("serverid".to_string(), &payload).is_none());
}
