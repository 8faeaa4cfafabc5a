use kaspa_ng_core::modules::credentials::{
    complete_credentials, credentials_on_enable, refresh_credentials, renew_credentials,
    repair_due, restore_credentials, Repair,
};
use kaspa_ng_core::network::Network;
use kaspa_ng_core::settings::{NodeSettings, RothschildSettings};
use kaspa_ng_core::utils::rothschild::{
    rothschild_address_from_private_key, rothschild_mnemonic_from_private_key,
};

const KEY_ONE: &str = "0000000000000000000000000000000000000000000000000000000000000001";
const KEY_TWO: &str = "0000000000000000000000000000000000000000000000000000000000000002";

fn address_of(network: Network, key: &str) -> String {
    rothschild_address_from_private_key(network, key).unwrap()
}

fn phrase_of(key: &str) -> String {
    rothschild_mnemonic_from_private_key(key).unwrap()
}

fn with_key(key: &str) -> RothschildSettings {
    let mut s = RothschildSettings::default();
    s.private_key = key.to_string();
    s
}

fn assert_belong_together(network: Network, s: &RothschildSettings) {
    assert_eq!(s.private_key.len(), 64);
    assert_eq!(s.address, address_of(network, &s.private_key));
    assert_eq!(s.mnemonic, phrase_of(&s.private_key));
}

#[test]
fn renewed_credentials_belong_together() {
    let mut s = with_key(KEY_ONE);
    s.address = "old".to_string();
    s.mnemonic = "old words".to_string();
    s.tps = 7;
    s.threads = 3;
    s.rpc_server = "host:1".to_string();
    renew_credentials(Network::Testnet10, &mut s);
    assert_ne!(s.private_key, KEY_ONE);
    assert_belong_together(Network::Testnet10, &s);
    assert!(s.address.starts_with("kaspatest:"));
    assert_eq!((s.tps, s.threads, s.rpc_server.as_str()), (7, 3, "host:1"));
}

#[test]
fn missing_key_is_generated_on_completion() {
    for blank in ["", "   ", "\t\n"] {
        let mut s = with_key(blank);
        s.address = "stale".to_string();
        s.mnemonic = "stale".to_string();
        assert!(complete_credentials(Network::Mainnet, &mut s));
        assert_belong_together(Network::Mainnet, &s);
        assert!(s.address.starts_with("kaspa:"));
    }
}

#[test]
fn missing_address_and_phrase_are_derived_on_completion() {
    let mut s = with_key(KEY_ONE);
    assert!(complete_credentials(Network::Testnet12, &mut s));
    assert_eq!(s.private_key, KEY_ONE);
    assert_eq!(s.address, address_of(Network::Testnet12, KEY_ONE));
    assert_eq!(s.mnemonic, phrase_of(KEY_ONE));
    // Nothing is left to derive.
    let before = s.clone();
    assert!(!complete_credentials(Network::Testnet12, &mut s));
    assert_eq!(s, before);
}

#[test]
fn completion_keeps_what_is_there() {
    let mut s = with_key(KEY_ONE);
    s.address = "kaspatest:mine".to_string();
    s.mnemonic = "my own words".to_string();
    assert!(!complete_credentials(Network::Testnet10, &mut s));
    assert_eq!(s.address, "kaspatest:mine");
    assert_eq!(s.mnemonic, "my own words");
    s.mnemonic = " ".to_string();
    assert!(complete_credentials(Network::Testnet10, &mut s));
    assert_eq!(s.address, "kaspatest:mine");
    assert_eq!(s.mnemonic, phrase_of(KEY_ONE));
}

#[test]
fn completion_with_a_broken_key_changes_nothing() {
    let mut s = with_key("not a key");
    assert!(!complete_credentials(Network::Testnet10, &mut s));
    assert_eq!(s, with_key("not a key"));
    // Sixteen bytes: no private key, and too short for a phrase.
    let short = "00".repeat(16);
    let mut s = with_key(&short);
    assert!(!complete_credentials(Network::Testnet10, &mut s));
    assert_eq!(s, with_key(&short));
    // Thirty-two bytes that are no key of the curve still spell a phrase.
    let zero = "00".repeat(32);
    let mut s = with_key(&zero);
    assert!(complete_credentials(Network::Testnet10, &mut s));
    assert_eq!(s.address, "");
    assert_eq!(s.mnemonic, phrase_of(&zero));
}

#[test]
fn changed_key_takes_address_and_phrase_along() {
    let mut s = with_key(KEY_ONE);
    complete_credentials(Network::Testnet10, &mut s);
    s.private_key = KEY_TWO.to_string();
    refresh_credentials(Network::Testnet10, &mut s, true);
    assert_eq!(s.address, address_of(Network::Testnet10, KEY_TWO));
    assert_eq!(s.mnemonic, phrase_of(KEY_TWO));
}

#[test]
fn unchanged_key_keeps_address_and_phrase() {
    let mut s = with_key(KEY_ONE);
    s.address = "kaspatest:mine".to_string();
    s.mnemonic = "my own words".to_string();
    refresh_credentials(Network::Testnet10, &mut s, false);
    assert_eq!(s.address, "kaspatest:mine");
    assert_eq!(s.mnemonic, "my own words");
    s.address = String::new();
    refresh_credentials(Network::Testnet10, &mut s, false);
    assert_eq!(s.address, address_of(Network::Testnet10, KEY_ONE));
    assert_eq!(s.mnemonic, "my own words");
}

#[test]
fn changed_key_that_is_broken_keeps_the_old_values() {
    let mut s = with_key("zz");
    s.address = "kaspatest:mine".to_string();
    s.mnemonic = "my own words".to_string();
    refresh_credentials(Network::Testnet10, &mut s, true);
    assert_eq!(s.private_key, "zz");
    assert_eq!(s.address, "kaspatest:mine");
    assert_eq!(s.mnemonic, "my own words");
}

#[test]
fn emptied_key_is_generated_anew() {
    let mut s = with_key("");
    s.address = "kaspatest:mine".to_string();
    s.mnemonic = "my own words".to_string();
    refresh_credentials(Network::Testnet10, &mut s, true);
    assert_belong_together(Network::Testnet10, &s);
}

#[test]
fn switching_on_gives_the_miner_an_address() {
    let mut node = NodeSettings::default();
    node.network = Network::Testnet10;
    node.cpu_miner.mining_address = "  ".to_string();
    let before = node.clone();
    assert!(credentials_on_enable(&mut node));
    assert_belong_together(Network::Testnet10, &node.rothschild);
    assert_eq!(node.cpu_miner.mining_address, node.rothschild.address);
    // Nothing else has changed.
    let mut expected = before;
    expected.rothschild = node.rothschild.clone();
    expected.cpu_miner.mining_address = node.cpu_miner.mining_address.clone();
    assert_eq!(node, expected);
    // A second time nothing is left to do.
    let again = node.clone();
    assert!(!credentials_on_enable(&mut node));
    assert_eq!(node, again);
}

#[test]
fn switching_on_keeps_the_miners_own_address() {
    let mut node = NodeSettings::default();
    node.cpu_miner.mining_address = "kaspa:own".to_string();
    node.rothschild.private_key = KEY_ONE.to_string();
    assert!(credentials_on_enable(&mut node));
    assert_eq!(node.cpu_miner.mining_address, "kaspa:own");
    assert_eq!(node.rothschild.address, address_of(node.network, KEY_ONE));
}

#[test]
fn switching_on_with_a_broken_key_leaves_the_miner_alone() {
    let mut node = NodeSettings::default();
    node.rothschild.private_key = "zz".to_string();
    node.cpu_miner.mining_address = String::new();
    let before = node.clone();
    assert!(!credentials_on_enable(&mut node));
    assert_eq!(node, before);
}

#[test]
fn stored_settings_are_repaired_only_while_switched_on() {
    let mut node = NodeSettings::default();
    node.network = Network::Testnet10;
    node.rothschild_enabled = false;
    assert_eq!(repair_due(&node), Repair::Keep);
    let before = node.clone();
    assert!(!restore_credentials(&mut node));
    assert_eq!(node, before);
}

#[test]
fn stored_settings_get_a_key_on_test_networks_only() {
    let mut node = NodeSettings::default();
    node.rothschild_enabled = true;
    node.network = Network::Mainnet;
    assert_eq!(repair_due(&node), Repair::Keep);
    assert!(!restore_credentials(&mut node));
    assert_eq!(node.rothschild.private_key, "");
    for network in [Network::Testnet10, Network::Testnet12] {
        let mut node = NodeSettings::default();
        node.rothschild_enabled = true;
        node.network = network;
        node.cpu_miner.mining_address = String::new();
        assert_eq!(repair_due(&node), Repair::Renew);
        assert!(restore_credentials(&mut node));
        assert_belong_together(network, &node.rothschild);
        assert_eq!(node.cpu_miner.mining_address, node.rothschild.address);
        assert_eq!(repair_due(&node), Repair::Keep);
    }
}

#[test]
fn stored_key_gets_its_phrase() {
    let mut node = NodeSettings::default();
    node.rothschild_enabled = true;
    node.rothschild.private_key = KEY_ONE.to_string();
    node.rothschild.address = "kaspa:kept".to_string();
    node.cpu_miner.mining_address = String::new();
    assert_eq!(repair_due(&node), Repair::DerivePhrase);
    assert!(restore_credentials(&mut node));
    assert_eq!(node.rothschild.mnemonic, phrase_of(KEY_ONE));
    assert_eq!(node.rothschild.address, "kaspa:kept");
    assert_eq!(node.cpu_miner.mining_address, "");
    assert_eq!(repair_due(&node), Repair::Keep);
}

#[test]
fn stored_key_that_is_broken_gets_no_phrase() {
    let mut node = NodeSettings::default();
    node.rothschild_enabled = true;
    node.rothschild.private_key = "abcd".to_string();
    assert_eq!(repair_due(&node), Repair::DerivePhrase);
    let before = node.clone();
    assert!(!restore_credentials(&mut node));
    assert_eq!(node, before);
}
