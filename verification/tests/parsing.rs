use rori_endpoint::account::{creation_details, find_account, Account};
use rori_endpoint::config::ConfigFile;
use rori_endpoint::endpoint::Endpoint;
use rori_endpoint::lookup::{
    addr_lookup_url, name_lookup_url, parse_addr_reply, parse_name_reply, parse_say_request,
};
use rori_endpoint::session::SessionState;
use rori_endpoint::sharedprop::SharedProp;

fn pairs(raw: &[(&str, &str)]) -> Vec<(String, String)> {
    raw.iter().map(|(k, v)| (k.to_string(), v.to_string())).collect()
}

#[test]
fn account_decodes_its_details() {
    let details = pairs(&[
        ("Account.enable", "true"),
        ("Account.alias", "bob"),
        ("Account.username", "ring:deadbeef"),
        ("Account.displayName", "ignored"),
    ]);
    let account = Account::from_details("acc1", &details);
    assert_eq!(account.id, "acc1");
    assert_eq!(account.alias, "bob");
    assert_eq!(account.ring_id, "deadbeef");
    assert!(account.enabled);
}

#[test]
fn account_fields_default_to_empty() {
    let account = Account::from_details("acc1", &Vec::new());
    assert_eq!(account.id, "acc1");
    assert_eq!(account.alias, "");
    assert_eq!(account.ring_id, "");
    assert!(!account.enabled);
}

#[test]
fn enable_is_only_true_on_true() {
    let details = pairs(&[("Account.enable", "false")]);
    assert!(!Account::from_details("acc1", &details).enabled);
    let details = pairs(&[("Account.enable", "TRUE")]);
    assert!(!Account::from_details("acc1", &details).enabled);
}

#[test]
fn later_details_overwrite_earlier_ones() {
    let details = pairs(&[("Account.alias", "old"), ("Account.alias", "new")]);
    assert_eq!(Account::from_details("acc1", &details).alias, "new");
}

#[test]
fn username_keeps_text_without_marker() {
    let details = pairs(&[("Account.username", "deadbeef")]);
    assert_eq!(Account::from_details("acc1", &details).ring_id, "deadbeef");
}

#[test]
fn creation_details_name_the_alias() {
    let details = creation_details(&"bob".to_string(), &"secret".to_string(), false);
    assert_eq!(
        details,
        vec![
            ("Account.alias".to_string(), "bob".to_string()),
            ("Account.type".to_string(), "RING".to_string()),
            ("Account.archivePassword".to_string(), "secret".to_string()),
        ]
    );
}

#[test]
fn creation_details_name_the_archive() {
    let details = creation_details(&"/tmp/bob.gz".to_string(), &String::new(), true);
    assert_eq!(details[0], ("Account.archivePath".to_string(), "/tmp/bob.gz".to_string()));
}

#[test]
fn find_account_picks_the_last_match() {
    let accounts = vec![
        Account { id: "a".to_string(), alias: "bob".to_string(), ring_id: String::new(), enabled: false },
        Account { id: "b".to_string(), alias: "carol".to_string(), ring_id: String::new(), enabled: false },
        Account { id: "c".to_string(), alias: "bob".to_string(), ring_id: String::new(), enabled: false },
    ];
    assert_eq!(find_account(&accounts, &"bob".to_string()), Some(2));
    assert_eq!(find_account(&accounts, &"carol".to_string()), Some(1));
    assert_eq!(find_account(&accounts, &"dave".to_string()), None);
}

#[test]
fn config_decodes_from_json() {
    let text = "{\"ring_id\": \"acc1\", \"rori_server\": \"rori.example\", \
                \"rori_ring_id\": \"serverid\", \"username\": \"bob\"}";
    let config = ConfigFile::from_json_text(text);
    assert_eq!(config.ring_id, "acc1");
    assert_eq!(config.rori_server, "rori.example");
    assert_eq!(config.rori_ring_id, "serverid");
    assert_eq!(config.username, "bob");
}

#[test]
fn config_tolerates_missing_fields() {
    let config = ConfigFile::from_json_text("{\"ring_id\": \"acc1\"}");
    assert_eq!(config.ring_id, "acc1");
    assert_eq!(config.username, "");
    let config = ConfigFile::from_json_text("not json at all");
    assert_eq!(config.ring_id, "");
}

#[test]
fn name_reply_carries_the_alias() {
    assert_eq!(parse_name_reply("{\"name\": \"carol\"}"), "carol");
}

#[test]
fn unclaimed_address_reads_as_empty() {
    assert_eq!(parse_name_reply("{\"name\": null}"), "");
    assert_eq!(parse_name_reply("{}"), "");
    assert_eq!(parse_name_reply("garbage"), "");
}

#[test]
fn addr_reply_drops_the_base_marker() {
    assert_eq!(parse_addr_reply("{\"addr\": \"0xdeadbeef\"}"), "deadbeef");
}

#[test]
fn short_or_missing_addr_reads_as_empty() {
    assert_eq!(parse_addr_reply("{\"addr\": \"0x\"}"), "");
    assert_eq!(parse_addr_reply("{\"addr\": 17}"), "");
    assert_eq!(parse_addr_reply("{}"), "");
    assert_eq!(parse_addr_reply("garbage"), "");
}

#[test]
fn say_request_carries_the_text() {
    assert_eq!(parse_say_request("{\"say\": \"turn it up\"}"), "turn it up");
    assert_eq!(parse_say_request("{}"), "");
}

#[test]
fn bare_server_gets_a_secure_scheme() {
    assert_eq!(
        name_lookup_url(&"rori.example".to_string(), &"bob".to_string()),
        "https://rori.example/name/bob"
    );
    assert_eq!(
        addr_lookup_url(&"rori.example".to_string(), &"deadbeef".to_string()),
        "https://rori.example/addr/deadbeef"
    );
}

#[test]
fn explicit_scheme_is_kept() {
    assert_eq!(
        name_lookup_url(&"http://localhost:3000".to_string(), &"bob".to_string()),
        "http://localhost:3000/name/bob"
    );
}

#[test]
fn say_queue_drains_in_order() {
    let mut ep = Endpoint {
        account: Account::null(),
        rori_server: String::new(),
        rori_ring_id: String::new(),
        to_say: Vec::new(),
        session: SessionState::Unconfirmed,
    };
    ep.add_to_say_queue(&"a".to_string());
    ep.add_to_say_queue(&"b".to_string());
    let batch = ep.process_say();
    assert_eq!(batch, vec!["a".to_string(), "b".to_string()]);
    assert!(ep.to_say.is_empty());
    assert!(ep.process_say().is_empty());
}

#[test]
fn shared_fields_hold_their_last_write() {
    let mut props = SharedProp::new();
    assert_eq!(props.get_api_text(), "");
    assert_eq!(props.get_rori_text(), "");
    assert!(!props.get_logged());
    assert!(!props.get_is_listening());
    props.set_user_text("hello".to_string());
    assert_eq!(props.user_text, "hello");
    props.set_api_text("proxied".to_string());
    props.set_api_text("again".to_string());
    assert_eq!(props.get_api_text(), "again");
}
