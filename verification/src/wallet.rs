//! The keys of the on-chain wallet.

use crate::network::Network;
use crate::seed::StoredSeed;
use crate::text::{decimal, decimal_has_digits, decimal_reads_back, decimal_value, is_decimal};
use vstd::prelude::*;

verus! {

/// The number that is added to the index of a hardened step.
pub const HARDENED: u32 = 0x8000_0000;

/// The path, below the master key, of the node's native segwit accounts.
pub const NATIVE_SEGWIT_BASE_PATH: &'static str = "m/84";

/// The account that the node keeps its coins in.
pub const ACCOUNT_NUMBER: u32 = 0;

/// Why the wallet's descriptors cannot be made.
#[derive(Clone, Copy, Debug, PartialEq, Eq, Structural)]
pub enum WalletError {
    /// The seed gives no valid master key.
    InvalidSeed,
    /// The extended key does not hold a private key.
    NoPrivateKey,
    /// The base path is not a derivation path.
    InvalidBasePath,
    /// The account number does not fit in 31 bits.
    InvalidAccount,
    /// The account lies more than 255 steps below the master key.
    PathTooDeep,
    /// A key on the way has no valid value.
    InvalidChildKey,
}

/// The coin type of a network: one for Bitcoin itself, another for all test networks.
pub open spec fn coin_type(network: Network) -> u32 {
    if network == Network::Bitcoin {
        0
    } else {
        1
    }
}

/// The steps from the base path to an account, both of them hardened.
pub open spec fn account_path(base: Seq<u32>, network: Network, account: u32) -> Seq<u32> {
    base + seq![(coin_type(network) + HARDENED) as u32, (account + HARDENED) as u32]
}

/// The steps to the addresses that are given to others.
pub open spec fn receive_path(base: Seq<u32>, network: Network, account: u32) -> Seq<u32> {
    account_path(base, network, account).push(0)
}

/// The steps to the addresses that take the wallet's own change.
pub open spec fn change_path(base: Seq<u32>, network: Network, account: u32) -> Seq<u32> {
    account_path(base, network, account).push(1)
}

/// How many derivations an extended key is from its master key.
pub open spec fn key_depth(key: Seq<u8>) -> u8 {
    key[4]
}

/// What `bip32` reports of a key or a path that is not valid.
#[verifier::external_type_specification]
#[verifier::external_body]
pub struct ExBip32Error(bitcoin::util::bip32::Error);

/// The parts of a text between its slashes. There is one more of them than there are slashes.
pub open spec fn parts(text: Seq<char>) -> Seq<Seq<char>>
    decreases text.len(),
{
    if text.len() == 0 {
        seq![Seq::empty()]
    } else {
        let front = parts(text.drop_last());
        if text.last() == '/' {
            front.push(Seq::empty())
        } else {
            front.update(front.len() - 1, front.last().push(text.last()))
        }
    }
}

/// The index that a text stands for: a decimal number below [`HARDENED`], with or without a
/// plus sign.
pub open spec fn step_index(text: Seq<char>) -> Option<u32> {
    let digits = if text.len() > 0 && text[0] == '+' {
        text.skip(1)
    } else {
        text
    };
    if is_decimal(digits) && decimal_value(digits) < HARDENED {
        Some(decimal_value(digits) as u32)
    } else {
        None
    }
}

/// The step that a text stands for: an index, to which [`HARDENED`] is added where the text
/// ends in `'` or `h`.
pub open spec fn path_step(text: Seq<char>) -> Option<u32> {
    if text.len() > 0 && (text.last() == '\'' || text.last() == 'h') {
        match step_index(text.drop_last()) {
            Some(index) => Some((index + HARDENED) as u32),
            None => None,
        }
    } else {
        step_index(text)
    }
}

/// The steps of a path's text: `m`, and then a slash and a step any number of times.
pub open spec fn path_steps(text: Seq<char>) -> Option<Seq<u32>> {
    let all = parts(text);
    if all[0] == "m"@ && forall|i: int| 1 <= i < all.len() ==> path_step(#[trigger] all[i]) is Some {
        Some(Seq::new((all.len() - 1) as nat, |i: int| path_step(all[i + 1])->0))
    } else {
        None
    }
}

/// Calls `bitcoin::util::bip32::DerivationPath::from_str`. It gives the steps of a text that
/// is a path, and fails on every other text.
#[verifier::external_body]
fn parse_path(text: &str) -> (r: Result<Vec<u32>, bitcoin::util::bip32::Error>)
    ensures
        match r {
            Ok(steps) => path_steps(text@) == Some(steps@),
            Err(_) => path_steps(text@) is None,
        },
{
    let path: bitcoin::util::bip32::DerivationPath = text.parse()?;
    Ok(path.into_iter().map(|step| u32::from(*step)).collect())
}

/// The serialized master key of a seed, as `bitcoin::util::bip32::ExtendedPrivKey` makes it.
pub uninterp spec fn master_key(network: Network, seed: Seq<u8>) -> Option<Seq<u8>>;

/// Calls `bitcoin::util::bip32::ExtendedPrivKey::new_master`. The key depends on the network
/// and the seed alone. Its depth is 0, and it holds a private key of the network.
#[verifier::external_body]
fn new_master(network: Network, seed: &[u8; 32]) -> (r: Result<
    [u8; 78],
    bitcoin::util::bip32::Error,
>)
    ensures
        match r {
            Ok(key) => {
                &&& master_key(network, seed@) == Some(key@)
                &&& key_depth(key@) == 0
                &&& private_key_on(key@, network) == Some(key@)
            },
            Err(_) => master_key(network, seed@) is None,
        },
{
    let network = match network {
        Network::Bitcoin => bitcoin::Network::Bitcoin,
        Network::Testnet => bitcoin::Network::Testnet,
        Network::Regtest => bitcoin::Network::Regtest,
        Network::Signet => bitcoin::Network::Signet,
    };
    Ok(bitcoin::util::bip32::ExtendedPrivKey::new_master(network, seed)?.encode())
}

/// The bytes that the private keys of a network begin with.
pub open spec fn private_version(network: Network) -> Seq<u8> {
    if network == Network::Bitcoin {
        seq![0x04, 0x88, 0xad, 0xe4]
    } else {
        seq![0x04, 0x35, 0x83, 0x94]
    }
}

/// The number that bytes stand for, the most significant byte first.
pub open spec fn big_endian(bytes: Seq<u8>) -> nat
    decreases bytes.len(),
{
    if bytes.len() == 0 {
        0
    } else {
        big_endian(bytes.drop_last()) * 256 + bytes.last() as nat
    }
}

/// The number of points of the curve that keys belong to.
pub open spec fn curve_order() -> nat {
    0xffffffff_ffffffff_ffffffff_fffffffe_baaedce6_af48a03b_bfd25e8c_d0364141nat
}

/// An extended key holds a private key: it begins as one of some network does, and its last
/// 32 bytes are a number above 0 and below the order of the curve.
pub open spec fn holds_private_key(key: Seq<u8>) -> bool {
    &&& exists|network: Network| #[trigger] private_version(network) == key.take(4)
    &&& 0 < big_endian(key.subrange(46, 78)) < curve_order()
}

/// An extended key that holds a private key, moved to a network. Nothing else of it changes,
/// but that the byte before the private part is always 0.
pub open spec fn private_key_on(key: Seq<u8>, network: Network) -> Option<Seq<u8>> {
    if holds_private_key(key) {
        Some(private_version(network) + key.subrange(4, 45) + seq![0u8] + key.subrange(46, 78))
    } else {
        None
    }
}

/// Calls `bdk::keys::ExtendedKey::into_xprv` on the key that the bytes serialize, which
/// `bitcoin::util::bip32::ExtendedPrivKey::decode` reads and `encode` writes again. There is
/// a result where the bytes hold a private key, and it is that key on the network.
#[verifier::external_body]
fn into_xprv(key: &[u8; 78], network: Network) -> (r: Option<[u8; 78]>)
    ensures
        match r {
            Some(xprv) => private_key_on(key@, network) == Some(xprv@),
            None => private_key_on(key@, network) is None,
        },
{
    let network = match network {
        Network::Bitcoin => bitcoin::Network::Bitcoin,
        Network::Testnet => bitcoin::Network::Testnet,
        Network::Regtest => bitcoin::Network::Regtest,
        Network::Signet => bitcoin::Network::Signet,
    };
    let xprv = bitcoin::util::bip32::ExtendedPrivKey::decode(key).ok()?;
    let xkey: bdk::keys::ExtendedKey = bdk::keys::ExtendedKey::from(xprv);
    Some(xkey.into_xprv(network)?.encode())
}

/// The text of the descriptor of a private key's native segwit addresses below a path, as
/// `bdk::template::P2Wpkh` builds it.
pub uninterp spec fn wpkh_descriptor(xprv: Seq<u8>, path: Seq<u32>) -> Option<Seq<char>>;

/// Calls `bdk::template::P2Wpkh::build` on a private key and a path, and writes the
/// descriptor out with its private key. The text depends on the key and the path alone;
/// there is none where the bytes do not serialize a private key or a key on the way has no
/// valid value. All steps up to the last hardened one are derived, and each adds one to a
/// depth that must stay below 256.
#[verifier::external_body]
fn build_wpkh(xprv: &[u8; 78], path: &Vec<u32>) -> (r: Option<String>)
    requires
        path@.len() > 0,
        path@.last() < HARDENED,
        key_depth(xprv@) + path@.len() <= 256,
    ensures
        match r {
            Some(text) => wpkh_descriptor(xprv@, path@) == Some(text@),
            None => wpkh_descriptor(xprv@, path@) is None,
        },
{
    let xprv = bitcoin::util::bip32::ExtendedPrivKey::decode(xprv).ok()?;
    let steps = path.iter().map(|step| bitcoin::util::bip32::ChildNumber::from(*step));
    let template = bdk::template::P2Wpkh((xprv, steps.collect::<bitcoin::util::bip32::DerivationPath>()));
    let (descriptor, keys, _) = bdk::template::DescriptorTemplate::build(template).ok()?;
    Some(descriptor.to_string_with_secret(&keys))
}

/// The paths of the receive and the change addresses of an account, from the steps of a base
/// path below a key of this depth.
pub fn descriptor_paths(depth: u8, base: &Vec<u32>, network: Network, account_number: u32) -> (r:
    Result<(Vec<u32>, Vec<u32>), WalletError>)
    ensures
        match r {
            Ok((receive, change)) => {
                &&& account_number < HARDENED
                &&& depth + base@.len() + 2 <= 255
                &&& receive@ == receive_path(base@, network, account_number)
                &&& change@ == change_path(base@, network, account_number)
                &&& receive@.take(base@.len() as int) == base@
                &&& receive@.len() == base@.len() + 3
                &&& receive@.drop_last() == change@.drop_last()
                &&& receive@.last() == 0
                &&& change@.last() == 1
            },
            Err(e) => if account_number >= HARDENED {
                e == WalletError::InvalidAccount
            } else {
                e == WalletError::PathTooDeep && depth + base@.len() + 2 > 255
            },
        },
{
    if account_number >= HARDENED {
        return Err(WalletError::InvalidAccount);
    }
    if base.len() > 253 || depth as usize + base.len() + 2 > 255 {
        return Err(WalletError::PathTooDeep);
    }
    let coin: u32 = match network {
        Network::Bitcoin => 0,
        _ => 1,
    };
    let mut receive: Vec<u32> = base.clone();
    receive.push(coin + HARDENED);
    receive.push(account_number + HARDENED);
    let mut change: Vec<u32> = receive.clone();
    receive.push(0);
    change.push(1);
    assert(receive@ =~= receive_path(base@, network, account_number));
    assert(change@ =~= change_path(base@, network, account_number));
    Ok((receive, change))
}

/// The receive and the change descriptor of an account, or why there are none.
pub open spec fn account_descriptors(
    xkey: Seq<u8>,
    network: Network,
    base_path: Seq<char>,
    account: u32,
) -> Result<(Seq<char>, Seq<char>), WalletError> {
    match (private_key_on(xkey, network), path_steps(base_path)) {
        (None, _) => Err(WalletError::NoPrivateKey),
        (_, None) => Err(WalletError::InvalidBasePath),
        (Some(xprv), Some(base)) => if account >= HARDENED {
            Err(WalletError::InvalidAccount)
        } else if key_depth(xkey) + base.len() + 2 > 255 {
            Err(WalletError::PathTooDeep)
        } else {
            match (
                wpkh_descriptor(xprv, receive_path(base, network, account)),
                wpkh_descriptor(xprv, change_path(base, network, account)),
            ) {
                (Some(receive), Some(change)) => Ok((receive, change)),
                _ => Err(WalletError::InvalidChildKey),
            }
        },
    }
}

/// A pair of descriptors, or an error, is the one that is expected.
pub open spec fn are_descriptors(
    r: Result<(String, String), WalletError>,
    expected: Result<(Seq<char>, Seq<char>), WalletError>,
) -> bool {
    match (r, expected) {
        (Ok((receive, change)), Ok(texts)) => receive@ == texts.0 && change@ == texts.1,
        (Err(e), Err(expected_e)) => e == expected_e,
        _ => false,
    }
}

/// The descriptors of the receive and the change addresses of an account below `base_path`.
/// `xkey` is an extended key in its serialized form.
pub fn get_wpkh_descriptors_for_extended_key(
    xkey: &[u8; 78],
    network: Network,
    base_path: &str,
    account_number: u32,
) -> (r: Result<(String, String), WalletError>)
    ensures
        are_descriptors(r, account_descriptors(xkey@, network, base_path@, account_number)),
        r matches Ok((receive, change)) ==> {
            let coin = if network == Network::Bitcoin {
                0x8000_0000u32
            } else {
                0x8000_0001u32
            };
            let account = (account_number + 0x8000_0000) as u32;
            &&& private_key_on(xkey@, network) matches Some(xprv)
            &&& path_steps(base_path@) matches Some(base)
            &&& wpkh_descriptor(xprv, base + seq![coin, account, 0]) == Some(receive@)
            &&& wpkh_descriptor(xprv, base + seq![coin, account, 1]) == Some(change@)
        },
{
    proof {
        descriptors_belong_to_key_and_account(xkey@, network, base_path@, account_number);
    }
    let xprv = match into_xprv(xkey, network) {
        Some(xprv) => xprv,
        None => {
            return Err(WalletError::NoPrivateKey);
        },
    };
    assert(key_depth(xprv@) == key_depth(xkey@));
    let base = match parse_path(base_path) {
        Ok(base) => base,
        Err(_) => {
            return Err(WalletError::InvalidBasePath);
        },
    };
    let (receive_steps, change_steps) = match descriptor_paths(
        xprv[4],
        &base,
        network,
        account_number,
    ) {
        Ok(paths) => paths,
        Err(e) => {
            return Err(e);
        },
    };
    match (build_wpkh(&xprv, &receive_steps), build_wpkh(&xprv, &change_steps)) {
        (Some(receive), Some(change)) => Ok((receive, change)),
        _ => Err(WalletError::InvalidChildKey),
    }
}

/// The base path of the node's accounts is a single step, which is not hardened.
pub proof fn base_path_has_one_step()
    ensures
        path_steps(NATIVE_SEGWIT_BASE_PATH@) == Some(seq![84u32]),
{
    reveal_strlit("m/84");
    reveal_strlit("m");
    reveal_with_fuel(parts, 5);
    reveal_with_fuel(decimal_value, 3);
    let text = NATIVE_SEGWIT_BASE_PATH@;
    assert(text =~= seq!['m', '/', '8', '4']);
    assert(text.drop_last() =~= seq!['m', '/', '8']);
    assert(text.drop_last().drop_last() =~= seq!['m', '/']);
    assert(text.drop_last().drop_last().drop_last() =~= seq!['m']);
    assert(text.drop_last().drop_last().drop_last().drop_last() =~= Seq::<char>::empty());
    assert(parts(text) =~= seq![seq!['m'], seq!['8', '4']]) by {
        assert(parts(seq!['m']) =~= seq![seq!['m']]) by {
            assert(Seq::<char>::empty().push('m') =~= seq!['m']);
        }
        assert(Seq::<char>::empty().push('8').push('4') =~= seq!['8', '4']);
    }
    assert("m"@ =~= seq!['m']);
    let digits = seq!['8', '4'];
    assert(digits.drop_last() =~= seq!['8']);
    assert(digits.drop_last().drop_last() =~= Seq::<char>::empty());
    assert(decimal_value(digits) == 84);
    assert(is_decimal(digits));
    assert(path_step(digits) == Some(84u32));
    assert(path_steps(text)->0 =~= seq![84u32]);
}

/// The descriptors of the node's own account, from its seed.
pub open spec fn node_descriptors(network: Network, seed: Seq<u8>) -> Result<
    (Seq<char>, Seq<char>),
    WalletError,
> {
    match master_key(network, seed) {
        Some(key) => match (
            wpkh_descriptor(key, receive_path(seq![84u32], network, ACCOUNT_NUMBER)),
            wpkh_descriptor(key, change_path(seq![84u32], network, ACCOUNT_NUMBER)),
        ) {
            (Some(receive), Some(change)) => Ok((receive, change)),
            _ => Err(WalletError::InvalidChildKey),
        },
        None => Err(WalletError::InvalidSeed),
    }
}

/// Makes the wallet's descriptors from the node's seed, which is on disk by then. They fail
/// only where a key that is derived from the seed has no valid value.
pub fn wallet_descriptors(network: Network, seed: &StoredSeed) -> (r: Result<
    (String, String),
    WalletError,
>)
    ensures
        are_descriptors(r, node_descriptors(network, seed@)),
        r matches Err(e) ==> e == WalletError::InvalidSeed || e == WalletError::InvalidChildKey,
        r == Err::<(String, String), WalletError>(WalletError::InvalidSeed) <==> master_key(
            network,
            seed@,
        ) is None,
        r matches Ok((receive, change)) ==> {
            let coin = if network == Network::Bitcoin {
                0x8000_0000u32
            } else {
                0x8000_0001u32
            };
            &&& master_key(network, seed@) matches Some(key)
            &&& wpkh_descriptor(key, seq![84u32, coin, 0x8000_0000, 0]) == Some(receive@)
            &&& wpkh_descriptor(key, seq![84u32, coin, 0x8000_0000, 1]) == Some(change@)
        },
{
    proof {
        base_path_has_one_step();
        node_descriptors_belong_to_the_seed(network, seed@);
    }
    match new_master(network, &seed.bytes()) {
        Ok(key) => get_wpkh_descriptors_for_extended_key(
            &key,
            network,
            NATIVE_SEGWIT_BASE_PATH,
            ACCOUNT_NUMBER,
        ),
        Err(_) => Err(WalletError::InvalidSeed),
    }
}

/// The receive and the change addresses of an account lie side by side: their paths differ in
/// the last step and in no other.
pub proof fn receive_and_change_are_apart(base: Seq<u32>, network: Network, account: u32)
    ensures
        receive_path(base, network, account) != change_path(base, network, account),
        receive_path(base, network, account).drop_last() == change_path(
            base,
            network,
            account,
        ).drop_last(),
{
    assert(receive_path(base, network, account).last() == 0);
    assert(change_path(base, network, account).last() == 1);
    assert(receive_path(base, network, account).drop_last() =~= account_path(
        base,
        network,
        account,
    ));
    assert(change_path(base, network, account).drop_last() =~= account_path(
        base,
        network,
        account,
    ));
}

/// Two accounts below one base path have the same path only if they are the same account of
/// the same kind of network.
pub proof fn accounts_are_apart(
    base: Seq<u32>,
    network: Network,
    account: u32,
    other_network: Network,
    other_account: u32,
)
    requires
        account < HARDENED,
        other_account < HARDENED,
    ensures
        account_path(base, network, account) == account_path(base, other_network, other_account)
            <==> account == other_account && (network == Network::Bitcoin <==> other_network
            == Network::Bitcoin),
{
    let path = account_path(base, network, account);
    let other = account_path(base, other_network, other_account);
    let n = base.len() as int;
    assert(path[n] == coin_type(network) + HARDENED);
    assert(path[n + 1] == account + HARDENED);
    assert(other[n] == coin_type(other_network) + HARDENED);
    assert(other[n + 1] == other_account + HARDENED);
}

/// The path to the addresses of an account is the base path, and then the coin type, which is 1
/// on every network but the main one, and the account, both of them hardened. The last step
/// tells addresses for others from those for change.
pub proof fn account_paths_are_written_out(base: Seq<u32>, network: Network, account: u32)
    requires
        account < 0x8000_0000,
    ensures
        network == Network::Bitcoin ==> {
            &&& receive_path(base, network, account) == base + seq![
                0x8000_0000u32,
                (0x8000_0000 + account) as u32,
                0,
            ]
            &&& change_path(base, network, account) == base + seq![
                0x8000_0000u32,
                (0x8000_0000 + account) as u32,
                1,
            ]
        },
        network != Network::Bitcoin ==> {
            &&& receive_path(base, network, account) == base + seq![
                0x8000_0001u32,
                (0x8000_0000 + account) as u32,
                0,
            ]
            &&& change_path(base, network, account) == base + seq![
                0x8000_0001u32,
                (0x8000_0000 + account) as u32,
                1,
            ]
        },
{
}

/// The descriptors of an account are of the very key that is given, moved to the network, and
/// of the path that the base path's own steps lead to. They are refused, in this order, where
/// the key is not private, the base path is no path, the account number does not fit in 31
/// bits, or the account lies too deep below the master key.
pub proof fn descriptors_belong_to_key_and_account(
    xkey: Seq<u8>,
    network: Network,
    base_path: Seq<char>,
    account: u32,
)
    ensures
        match account_descriptors(xkey, network, base_path, account) {
            Err(WalletError::NoPrivateKey) => private_key_on(xkey, network) is None,
            Err(WalletError::InvalidBasePath) => {
                &&& private_key_on(xkey, network) is Some
                &&& path_steps(base_path) is None
            },
            Err(WalletError::InvalidAccount) => {
                &&& private_key_on(xkey, network) is Some
                &&& path_steps(base_path) is Some
                &&& account >= 0x8000_0000
            },
            Err(WalletError::PathTooDeep) => {
                &&& private_key_on(xkey, network) is Some
                &&& path_steps(base_path) matches Some(base)
                &&& account < 0x8000_0000
                &&& xkey[4] + base.len() > 253
            },
            Err(WalletError::InvalidSeed) => false,
            Err(WalletError::InvalidChildKey) => {
                let coin = if network == Network::Bitcoin {
                    0x8000_0000u32
                } else {
                    0x8000_0001u32
                };
                let steps = seq![coin, (account + 0x8000_0000) as u32];
                &&& private_key_on(xkey, network) matches Some(xprv)
                &&& path_steps(base_path) matches Some(base)
                &&& account < 0x8000_0000 && xkey[4] + base.len() <= 253
                &&& wpkh_descriptor(xprv, (base + steps).push(0)) is None || wpkh_descriptor(
                    xprv,
                    (base + steps).push(1),
                ) is None
            },
            Ok((receive, change)) => {
                let coin = if network == Network::Bitcoin {
                    0x8000_0000u32
                } else {
                    0x8000_0001u32
                };
                let account_step = (account + 0x8000_0000) as u32;
                &&& private_key_on(xkey, network) matches Some(xprv)
                &&& path_steps(base_path) matches Some(base)
                &&& account < 0x8000_0000 && xkey[4] + base.len() <= 253
                &&& wpkh_descriptor(xprv, base + seq![coin, account_step, 0]) == Some(receive)
                &&& wpkh_descriptor(xprv, base + seq![coin, account_step, 1]) == Some(change)
            },
        },
{
    if account < 0x8000_0000 {
        if let Some(base) = path_steps(base_path) {
            account_paths_are_written_out(base, network, account);
            let steps = seq![
                (coin_type(network) + HARDENED) as u32,
                (account + HARDENED) as u32,
            ];
            assert(receive_path(base, network, account) =~= (base + steps).push(0));
            assert(change_path(base, network, account) =~= (base + steps).push(1));
        }
    }
}

/// The node's descriptors are those of the master key of its seed, of all its bytes in their
/// order, along `84`, the coin type and the first account.
pub proof fn node_descriptors_belong_to_the_seed(network: Network, seed: Seq<u8>)
    ensures
        match master_key(network, seed) {
            None => node_descriptors(network, seed) == Err::<(Seq<char>, Seq<char>), WalletError>(
                WalletError::InvalidSeed,
            ),
            Some(key) => {
                let coin = if network == Network::Bitcoin {
                    0x8000_0000u32
                } else {
                    0x8000_0001u32
                };
                match node_descriptors(network, seed) {
                    Ok((receive, change)) => {
                        &&& wpkh_descriptor(key, seq![84u32, coin, 0x8000_0000, 0]) == Some(
                            receive,
                        )
                        &&& wpkh_descriptor(key, seq![84u32, coin, 0x8000_0000, 1]) == Some(change)
                    },
                    Err(e) => {
                        &&& e == WalletError::InvalidChildKey
                        &&& wpkh_descriptor(key, seq![84u32, coin, 0x8000_0000, 0]) is None
                            || wpkh_descriptor(key, seq![84u32, coin, 0x8000_0000, 1]) is None
                    },
                }
            },
        },
{
    account_paths_are_written_out(seq![84u32], network, ACCOUNT_NUMBER);
    let coin = if network == Network::Bitcoin {
        0x8000_0000u32
    } else {
        0x8000_0001u32
    };
    assert(receive_path(seq![84u32], network, ACCOUNT_NUMBER) =~= seq![
        84u32,
        coin,
        0x8000_0000,
        0,
    ]);
    assert(change_path(seq![84u32], network, ACCOUNT_NUMBER) =~= seq![
        84u32,
        coin,
        0x8000_0000,
        1,
    ]);
}

/// Moving a key to a network changes the bytes that it begins with and clears the byte before
/// its private part. All else stays where it was: the depth, the parent, the chain code and the
/// private part.
pub proof fn moved_keys_stay_the_same(key: Seq<u8>, network: Network)
    requires
        key.len() == 78,
    ensures
        private_key_on(key, network) matches Some(moved) ==> {
            &&& moved.len() == 78
            &&& network == Network::Bitcoin ==> moved.take(4) == seq![0x04u8, 0x88, 0xad, 0xe4]
            &&& network != Network::Bitcoin ==> moved.take(4) == seq![0x04u8, 0x35, 0x83, 0x94]
            &&& moved.subrange(4, 45) == key.subrange(4, 45)
            &&& moved[45] == 0
            &&& moved.skip(46) == key.skip(46)
        },
        private_key_on(key, network) is Some <==> {
            &&& key.take(4) == seq![0x04u8, 0x88, 0xad, 0xe4] || key.take(4) == seq![
                0x04u8,
                0x35,
                0x83,
                0x94,
            ]
            &&& 0 < big_endian(key.skip(46)) < curve_order()
        },
{
    assert(key.skip(46) =~= key.subrange(46, 78));
    assert(private_version(Network::Bitcoin) =~= seq![0x04u8, 0x88, 0xad, 0xe4]);
    assert(private_version(Network::Testnet) =~= seq![0x04u8, 0x35, 0x83, 0x94]);
}

/// Each byte counts 256 times as much as the one behind it.
pub proof fn bytes_have_places(bytes: Seq<u8>, b: u8)
    ensures
        big_endian(Seq::empty()) == 0,
        big_endian(bytes.push(b)) == 256 * big_endian(bytes) + b,
{
    assert(bytes.push(b).drop_last() =~= bytes);
}

/// A word without slashes makes the last part of a text longer and leaves the others.
proof fn words_lengthen_the_last_part(text: Seq<char>, word: Seq<char>)
    requires
        !word.contains('/'),
    ensures
        parts(text).len() > 0,
        parts(text + word) == parts(text).update(
            parts(text).len() - 1,
            parts(text).last() + word,
        ),
    decreases text.len() + word.len(),
{
    if word.len() == 0 {
        if text.len() > 0 {
            words_lengthen_the_last_part(text.drop_last(), word);
        }
        assert(text + word =~= text);
        assert(parts(text).last() + word =~= parts(text).last());
        assert(parts(text + word) =~= parts(text).update(
            parts(text).len() - 1,
            parts(text).last() + word,
        ));
    } else {
        let front = word.drop_last();
        assert(word.contains(word.last()));
        assert forall|i: int| 0 <= i < front.len() implies front[i] != '/' by {
            assert(word.contains(word[i]));
        }
        words_lengthen_the_last_part(text, front);
        assert((text + word).drop_last() =~= text + front);
        assert((parts(text).last() + front).push(word.last()) =~= parts(text).last() + word);
        assert(parts(text + word) =~= parts(text).update(
            parts(text).len() - 1,
            parts(text).last() + word,
        ));
    }
}

/// A slash and a word lead from a path to one with one more step, which is the word's, and the
/// steps before it stay as they were. Where either is no good, so is the whole.
pub proof fn steps_are_taken_in_order(text: Seq<char>, word: Seq<char>)
    requires
        !word.contains('/'),
    ensures
        path_steps("m"@) == Some(Seq::<u32>::empty()),
        path_steps(text + seq!['/'] + word) == (match (path_steps(text), path_step(word)) {
            (Some(steps), Some(step)) => Some(steps.push(step)),
            _ => None,
        }),
{
    reveal_strlit("m");
    let slash = text + seq!['/'];
    words_lengthen_the_last_part(text, Seq::empty());
    words_lengthen_the_last_part(slash, word);
    assert(slash.drop_last() =~= text);
    assert(Seq::<char>::empty() + word =~= word);
    let before = parts(text);
    let all = parts(slash + word);
    assert(all =~= before.push(word));
    assert(forall|i: int| 0 <= i < before.len() ==> all[i] == before[i]);
    if path_steps(text) is Some && path_step(word) is Some {
        assert forall|i: int| 1 <= i < all.len() implies path_step(#[trigger] all[i]) is Some by {
            if i < before.len() {
                assert(path_step(before[i]) is Some);
            }
        }
        assert(path_steps(slash + word)->0 =~= path_steps(text)->0.push(path_step(word)->0));
    } else if path_steps(slash + word) is Some {
        assert(path_step(all[before.len() as int]) is Some);
        assert forall|i: int| 1 <= i < before.len() implies path_step(
            #[trigger] before[i],
        ) is Some by {
            assert(path_step(all[i]) is Some);
        }
    }
    let m = "m"@;
    assert(m.drop_last() =~= Seq::<char>::empty());
    reveal_with_fuel(parts, 2);
    assert(Seq::<char>::empty().push('m') =~= m);
    assert(parts(m) =~= seq![m]);
    assert(path_steps(m)->0 =~= Seq::<u32>::empty());
}

/// The digits of an index are its step, and with `'` or `h` behind them the hardened one.
/// Without digits there is no step.
pub proof fn steps_are_read_by_their_digits(index: u32)
    requires
        index < 0x8000_0000,
    ensures
        path_step(decimal(index as nat)) == Some(index),
        path_step(decimal(index as nat).push('\'')) == Some((index + 0x8000_0000) as u32),
        path_step(decimal(index as nat).push('h')) == Some((index + 0x8000_0000) as u32),
        path_step(Seq::empty()) is None,
{
    let digits = decimal(index as nat);
    decimal_has_digits(index as nat);
    decimal_reads_back(index as nat);
    assert('0' <= digits[0] <= '9');
    assert('0' <= digits[digits.len() - 1] <= '9');
    assert(digits.push('\'').drop_last() =~= digits);
    assert(digits.push('h').drop_last() =~= digits);
}

/// Descriptors meet what is expected only text by text, the receive one first, and a refusal
/// only by the same error.
pub proof fn expectations_are_met_exactly(
    r: Result<(String, String), WalletError>,
    expected: Result<(Seq<char>, Seq<char>), WalletError>,
)
    requires
        are_descriptors(r, expected),
    ensures
        r matches Ok((receive, change)) ==> expected == Ok::<(Seq<char>, Seq<char>), WalletError>(
            (receive@, change@),
        ),
        r matches Err(e) ==> expected == Err::<(Seq<char>, Seq<char>), WalletError>(e),
{
}

} // verus!
