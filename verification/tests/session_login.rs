use rori_endpoint::account::Account;
use rori_endpoint::endpoint::{Endpoint, LoginOutcome};
use rori_endpoint::interaction::Datatype;
use rori_endpoint::session::{HandshakeKind, SessionState};

fn bob_endpoint() -> Endpoint {
    match Endpoint::init(
        Account {
            id: "acc1".to_string(),
            alias: "bob".to_string(),
            ring_id: "deadbeef".to_string(),
            enabled: true,
        },
        "rori.example".to_string(),
        "serverid".to_string(),
    ) {
        Ok(ep) => ep,
        Err(e) => panic!("init refused a complete account: {}", e),
    }
}

#[test]
fn init_rejects_account_without_address() {
    let r = Endpoint::init(
        Account {
            id: "acc1".to_string(),
            alias: "bob".to_string(),
            ring_id: String::new(),
            enabled: true,
        },
        "rori.example".to_string(),
        "serverid".to_string(),
    );
    assert!(r.is_err());
}

#[test]
fn init_starts_unconfirmed_with_empty_queue() {
    let ep = bob_endpoint();
    assert_eq!(ep.session, SessionState::Unconfirmed);
    assert!(ep.to_say.is_empty());
    assert_eq!(ep.account.alias, "bob");
}

#[test]
fn unclaimed_and_unregistered_leads_to_register() {
    let mut ep = bob_endpoint();
    let outcome = ep.login(&String::new(), &String::new());
    match outcome {
        LoginOutcome::RegisterRequested(msg) => {
            assert_eq!(msg.datatype, Datatype::Command);
            assert_eq!(msg.body, "/register bob");
        },
        _ => panic!("expected a register request"),
    }
    assert_eq!(
        ep.session,
        SessionState::AwaitingConfirmation(HandshakeKind::Register)
    );
    assert_eq!(ep.to_say, vec!["Waiting registering confirmation...".to_string()]);
}

#[test]
fn registered_alias_leads_to_link() {
    let mut ep = bob_endpoint();
    let outcome = ep.login(&String::new(), &"cafe1234".to_string());
    match outcome {
        LoginOutcome::LinkRequested(msg) => {
            assert_eq!(msg.datatype, Datatype::Command);
            assert_eq!(msg.body, "/link bob");
        },
        _ => panic!("expected a link request"),
    }
    assert_eq!(
        ep.session,
        SessionState::AwaitingConfirmation(HandshakeKind::Link)
    );
    assert_eq!(ep.to_say, vec!["Linking with another device...".to_string()]);
}

#[test]
fn foreign_claim_is_fatal_and_sends_nothing() {
    let mut ep = bob_endpoint();
    let outcome = ep.login(&"carol".to_string(), &String::new());
    assert!(matches!(outcome, LoginOutcome::Misconfigured));
    assert_eq!(ep.session, SessionState::Unconfirmed);
    assert!(ep.to_say.is_empty());
}

#[test]
fn matching_reverse_lookup_confirms_at_once() {
    let mut ep = bob_endpoint();
    let outcome = ep.login(&"bob".to_string(), &String::new());
    match outcome {
        LoginOutcome::AlreadyConfirmed(msg) => {
            assert_eq!(msg.datatype, Datatype::Command);
            assert_eq!(msg.body, "/set_types music command alarm");
        },
        _ => panic!("expected immediate confirmation"),
    }
    assert_eq!(ep.session, SessionState::Confirmed);
}
