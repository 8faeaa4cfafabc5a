//! Keeping the credentials of the transaction generator complete: a
//! private key, the address that belongs to it and the mnemonic phrase
//! that spells it.
//!
//! A key that is missing is generated; an address or a phrase that is
//! missing is derived from the key. What is there is never replaced,
//! unless the operator has just changed the key.

use crate::network::Network;
use crate::settings::{CpuMinerSettings, NodeSettings, RothschildSettings};
use crate::text::{is_blank, trim};
use crate::utils::rothschild::{
    address_of_key, generate_rothschild_credentials, key_bytes, mnemonic_of_key,
    rothschild_address_from_private_key, rothschild_mnemonic_from_private_key, KeyError, KEY_LEN,
};
use vstd::prelude::*;

verus! {

/// Whether a text holds nothing but white space.
pub open spec fn blank(s: Seq<char>) -> bool {
    trim(s).len() == 0
}

/// The credentials as texts.
pub ghost struct Credentials {
    pub key: Seq<char>,
    pub address: Seq<char>,
    pub mnemonic: Seq<char>,
}

/// The credentials that the settings hold.
pub open spec fn credentials(s: RothschildSettings) -> Credentials {
    Credentials { key: s.private_key@, address: s.address@, mnemonic: s.mnemonic@ }
}

/// Whether two settings differ in their credentials at most.
pub open spec fn same_tuning(a: RothschildSettings, b: RothschildSettings) -> bool {
    a.tps == b.tps && a.rpc_server@ == b.rpc_server@ && a.threads == b.threads
}

/// The credentials with the address of their key, where the key has one.
pub open spec fn with_address(network: Network, c: Credentials) -> Credentials {
    match address_of_key(network, c.key) {
        Ok(address) => Credentials { key: c.key, address, mnemonic: c.mnemonic },
        Err(_) => c,
    }
}

/// The credentials with the phrase of their key, where the key has one.
pub open spec fn with_mnemonic(c: Credentials) -> Credentials {
    match mnemonic_of_key(c.key) {
        Ok(mnemonic) => Credentials { key: c.key, address: c.address, mnemonic },
        Err(_) => c,
    }
}

/// Whether the credentials belong together: the key is thirty-two bytes
/// in hexadecimal, and the address and the phrase are those of the key.
pub open spec fn belong_together(network: Network, c: Credentials) -> bool {
    &&& key_bytes(c.key) matches Ok(bytes) && bytes.len() == KEY_LEN
    &&& address_of_key(network, c.key) == Ok::<Seq<char>, KeyError>(c.address)
    &&& mnemonic_of_key(c.key) == Ok::<Seq<char>, KeyError>(c.mnemonic)
}

/// The credentials of a key that is there, after what is missing was
/// derived: the address first, then the phrase.
pub open spec fn completed(network: Network, c: Credentials) -> Credentials {
    let a = if blank(c.address) {
        with_address(network, c)
    } else {
        c
    };
    if blank(a.mnemonic) {
        with_mnemonic(a)
    } else {
        a
    }
}

/// Whether completing the credentials derived anything.
pub open spec fn completion_derives(network: Network, c: Credentials) -> bool {
    let a = if blank(c.address) {
        with_address(network, c)
    } else {
        c
    };
    (blank(c.address) && address_of_key(network, c.key) is Ok) || (blank(a.mnemonic)
        && mnemonic_of_key(c.key) is Ok)
}

/// The credentials of a key that is there, after the operator edited
/// them: where the key was changed, phrase and address follow it; then
/// what is missing is derived.
pub open spec fn refreshed(network: Network, c: Credentials, key_changed: bool) -> Credentials {
    let a = if key_changed {
        with_address(network, with_mnemonic(c))
    } else {
        c
    };
    let b = if blank(a.mnemonic) {
        with_mnemonic(a)
    } else {
        a
    };
    if blank(b.address) {
        with_address(network, b)
    } else {
        b
    }
}

/// Derives the address from the key, and keeps the old one where the key
/// has none.
fn derive_address(network: Network, s: &mut RothschildSettings) -> (derived: bool)
    ensures
        credentials(*final(s)) == with_address(network, credentials(*old(s))),
        derived == address_of_key(network, old(s).private_key@) is Ok,
        same_tuning(*old(s), *final(s)),
{
    match rothschild_address_from_private_key(network, s.private_key.as_str()) {
        Ok(address) => {
            s.address = address;
            true
        },
        Err(_) => false,
    }
}

/// Derives the phrase from the key, and keeps the old one where the key
/// has none.
fn derive_mnemonic(s: &mut RothschildSettings) -> (derived: bool)
    ensures
        credentials(*final(s)) == with_mnemonic(credentials(*old(s))),
        derived == mnemonic_of_key(old(s).private_key@) is Ok,
        same_tuning(*old(s), *final(s)),
{
    match rothschild_mnemonic_from_private_key(s.private_key.as_str()) {
        Ok(mnemonic) => {
            s.mnemonic = mnemonic;
            true
        },
        Err(_) => false,
    }
}

/// Replaces the credentials by fresh ones for `network`.
pub fn renew_credentials(network: Network, s: &mut RothschildSettings)
    ensures
        belong_together(network, credentials(*final(s))),
        final(s).private_key@.len() == 2 * KEY_LEN,
        same_tuning(*old(s), *final(s)),
{
    let (private_key, address) = generate_rothschild_credentials(network);
    s.private_key = private_key;
    s.address = address;
    let derived = derive_mnemonic(s);
    assert(derived);
}

/// Completes the credentials when the transaction generator is switched
/// on: a missing key is generated with its address and phrase; with a
/// key, a missing address and a missing phrase are derived from it.
/// Answers whether anything was generated or derived.
pub fn complete_credentials(network: Network, s: &mut RothschildSettings) -> (changed: bool)
    ensures
        same_tuning(*old(s), *final(s)),
        blank(old(s).private_key@) ==> changed && belong_together(network, credentials(*final(s))),
        !blank(old(s).private_key@) ==> credentials(*final(s)) == completed(
            network,
            credentials(*old(s)),
        ) && changed == completion_derives(network, credentials(*old(s))),
{
    if is_blank(s.private_key.as_str()) {
        renew_credentials(network, s);
        return true;
    }
    let mut changed = false;
    if is_blank(s.address.as_str()) {
        if derive_address(network, s) {
            changed = true;
        }
    }
    if is_blank(s.mnemonic.as_str()) {
        if derive_mnemonic(s) {
            changed = true;
        }
    }
    changed
}

/// Completes the credentials after the operator edited them. Where the
/// key was changed, its phrase and address replace the old ones; a
/// missing phrase or address is derived; a missing key is generated with
/// its address and phrase.
pub fn refresh_credentials(network: Network, s: &mut RothschildSettings, key_changed: bool)
    ensures
        same_tuning(*old(s), *final(s)),
        blank(old(s).private_key@) ==> belong_together(network, credentials(*final(s))),
        !blank(old(s).private_key@) ==> credentials(*final(s)) == refreshed(
            network,
            credentials(*old(s)),
            key_changed,
        ),
{
    if is_blank(s.private_key.as_str()) {
        renew_credentials(network, s);
        return ;
    }
    if key_changed {
        let _ = derive_mnemonic(s);
        let _ = derive_address(network, s);
    }
    if is_blank(s.mnemonic.as_str()) {
        let _ = derive_mnemonic(s);
    }
    if is_blank(s.address.as_str()) {
        let _ = derive_address(network, s);
    }
}

/// Whether two nodes differ at most in the credentials of the
/// transaction generator and in the mining address.
pub open spec fn same_but_credentials(a: NodeSettings, b: NodeSettings) -> bool {
    b == (NodeSettings {
        rothschild: b.rothschild,
        cpu_miner: CpuMinerSettings { mining_address: b.cpu_miner.mining_address, ..a.cpu_miner },
        ..a
    })
}

/// The mining address after the transaction generator was switched on:
/// its address, where the miner had none and the generator has one.
pub open spec fn mining_address_after(mining_address: Seq<char>, address: Seq<char>) -> Seq<char> {
    if blank(mining_address) && !blank(address) {
        address
    } else {
        mining_address
    }
}

/// Completes the credentials of a node whose transaction generator is
/// switched on, and lets the miner mine to the generator's address where
/// it has none of its own. Answers whether anything changed.
pub fn credentials_on_enable(node: &mut NodeSettings) -> (changed: bool)
    ensures
        same_but_credentials(*old(node), *final(node)),
        same_tuning(old(node).rothschild, final(node).rothschild),
        blank(old(node).rothschild.private_key@) ==> belong_together(
            old(node).network,
            credentials(final(node).rothschild),
        ),
        !blank(old(node).rothschild.private_key@) ==> credentials(final(node).rothschild)
            == completed(old(node).network, credentials(old(node).rothschild)),
        final(node).cpu_miner.mining_address@ == mining_address_after(
            old(node).cpu_miner.mining_address@,
            final(node).rothschild.address@,
        ),
        changed == (blank(old(node).rothschild.private_key@) || completion_derives(
            old(node).network,
            credentials(old(node).rothschild),
        ) || (blank(old(node).cpu_miner.mining_address@) && !blank(
            final(node).rothschild.address@,
        ))),
{
    let network = node.network;
    let mut rothschild = node.rothschild.duplicate();
    let mut changed = complete_credentials(network, &mut rothschild);
    if is_blank(node.cpu_miner.mining_address.as_str()) && !is_blank(rothschild.address.as_str()) {
        node.cpu_miner.mining_address = rothschild.address.clone();
        changed = true;
    }
    node.rothschild = rothschild;
    changed
}

/// Whether fresh credentials are due for stored settings: the
/// transaction generator is switched on for a test network and has no
/// private key.
pub open spec fn lacks_key(node: NodeSettings) -> bool {
    node.rothschild_enabled && blank(node.rothschild.private_key@) && node.network.is_testnet()
}

/// Whether a phrase is to be derived for stored settings: the
/// transaction generator is switched on and has a key but no phrase.
pub open spec fn lacks_mnemonic(node: NodeSettings) -> bool {
    node.rothschild_enabled && blank(node.rothschild.mnemonic@) && !blank(
        node.rothschild.private_key@,
    )
}

/// Gives the node fresh credentials, and lets the miner mine to the new
/// address where it has none of its own.
fn install_fresh_credentials(node: &mut NodeSettings)
    ensures
        same_but_credentials(*old(node), *final(node)),
        same_tuning(old(node).rothschild, final(node).rothschild),
        belong_together(old(node).network, credentials(final(node).rothschild)),
        final(node).cpu_miner.mining_address@ == if blank(old(node).cpu_miner.mining_address@) {
            final(node).rothschild.address@
        } else {
            old(node).cpu_miner.mining_address@
        },
{
    let network = node.network;
    let mut rothschild = node.rothschild.duplicate();
    renew_credentials(network, &mut rothschild);
    if is_blank(node.cpu_miner.mining_address.as_str()) {
        node.cpu_miner.mining_address = rothschild.address.clone();
    }
    node.rothschild = rothschild;
}

/// Gives the node the phrase of its key, where the key has one.
fn install_mnemonic(node: &mut NodeSettings) -> (derived: bool)
    ensures
        same_but_credentials(*old(node), *final(node)),
        same_tuning(old(node).rothschild, final(node).rothschild),
        final(node).cpu_miner.mining_address@ == old(node).cpu_miner.mining_address@,
        credentials(final(node).rothschild) == with_mnemonic(credentials(old(node).rothschild)),
        derived == mnemonic_of_key(old(node).rothschild.private_key@) is Ok,
{
    let mut rothschild = node.rothschild.duplicate();
    let derived = derive_mnemonic(&mut rothschild);
    node.rothschild = rothschild;
    derived
}

/// What is done to the credentials of stored settings.
#[derive(Clone, Copy, Debug, PartialEq, Eq, Structural)]
pub enum Repair {
    /// Fresh credentials are generated.
    Renew,
    /// The phrase is derived from the key.
    DerivePhrase,
    /// Nothing is done.
    Keep,
}

/// What is due for stored settings. Nothing is done while the
/// transaction generator is switched off; a missing key is generated on
/// test networks only.
pub open spec fn repair_of(node: NodeSettings) -> Repair {
    if lacks_key(node) {
        Repair::Renew
    } else if lacks_mnemonic(node) {
        Repair::DerivePhrase
    } else {
        Repair::Keep
    }
}

pub fn repair_due(node: &NodeSettings) -> (r: Repair)
    ensures
        r == repair_of(*node),
{
    if !node.rothschild_enabled {
        Repair::Keep
    } else if is_blank(node.rothschild.private_key.as_str()) {
        if node.network.is_test() {
            Repair::Renew
        } else {
            Repair::Keep
        }
    } else if is_blank(node.rothschild.mnemonic.as_str()) {
        Repair::DerivePhrase
    } else {
        Repair::Keep
    }
}

/// Whether `new` is `old` with its credentials completed as stored
/// settings are, and `changed` says whether anything changed.
pub open spec fn is_repair_of(new: NodeSettings, old: NodeSettings, changed: bool) -> bool {
    &&& same_but_credentials(old, new)
    &&& same_tuning(old.rothschild, new.rothschild)
    &&& match repair_of(old) {
        Repair::Renew => {
            &&& changed
            &&& belong_together(old.network, credentials(new.rothschild))
            &&& new.cpu_miner.mining_address@ == if blank(old.cpu_miner.mining_address@) {
                new.rothschild.address@
            } else {
                old.cpu_miner.mining_address@
            }
        },
        Repair::DerivePhrase => {
            &&& new.cpu_miner.mining_address@ == old.cpu_miner.mining_address@
            &&& credentials(new.rothschild) == with_mnemonic(credentials(old.rothschild))
            &&& changed == mnemonic_of_key(old.rothschild.private_key@) is Ok
        },
        Repair::Keep => !changed && new == old,
    }
}

/// Completes the credentials of stored settings whose transaction
/// generator is switched on. On a test network a missing key is
/// generated with its address and phrase, and the miner mines to the new
/// address where it has none of its own; with a key, a missing phrase is
/// derived from it. Answers whether anything changed.
pub fn restore_credentials(node: &mut NodeSettings) -> (changed: bool)
    ensures
        is_repair_of(*final(node), *old(node), changed),
{
    match repair_due(node) {
        Repair::Renew => {
            install_fresh_credentials(node);
            true
        },
        Repair::DerivePhrase => install_mnemonic(node),
        Repair::Keep => false,
    }
}

/// Credentials that belong together are complete: completing them
/// derives nothing that they do not hold already.
pub proof fn lemma_complete_credentials_stay(network: Network, c: Credentials)
    requires
        belong_together(network, c),
    ensures
        completed(network, c) == c,
        refreshed(network, c, true) == c,
        refreshed(network, c, false) == c,
        with_address(network, c) == c,
        with_mnemonic(c) == c,
{
}

/// Completing credentials twice is completing them once.
pub proof fn lemma_completion_is_idempotent(network: Network, c: Credentials)
    ensures
        completed(network, completed(network, c)) == completed(network, c),
{
}

} // verus!
