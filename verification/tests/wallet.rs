use bdk_ldk_sample::network::Network;
use bdk_ldk_sample::seed::StoredSeed;
use bdk_ldk_sample::wallet::{
    descriptor_paths, get_wpkh_descriptors_for_extended_key, wallet_descriptors, WalletError,
    HARDENED,
};
use bitcoin::util::bip32::ExtendedPrivKey;

const TPRV: &str = "tprv8ZgxMBicQKsPdDdJFAqvG3mt4VqsVV125X4vsor5NxK366upt6qvovLQqaCi5SJiCE1aLkt3HtxsnTpzeGu27kPC5RUCr4h3oPBPYnAvhdE";
const XPRV: &str = "xprv9s21ZrQH143K2QPmabzR6Q9tkNRfFxy1jy9p1PRctypZJWAjtjWBJAxxvQ3454vPpnUoLfGH8YP5KcHFX4Z5Jh7bYnFuBhxztHRy72yXmnC";

fn key(text: &str) -> [u8; 78] {
    text.parse::<ExtendedPrivKey>().unwrap().encode()
}

#[test]
fn the_node_has_its_own_account_on_test_networks() {
    let seed = StoredSeed::from_file(&vec![1; 32]).unwrap();
    for network in [Network::Testnet, Network::Regtest, Network::Signet] {
        let (receive, change) = wallet_descriptors(network, &seed).unwrap();
        assert_eq!(receive, format!("wpkh({}/84/1'/0'/0/*)#0gp4r2xa", TPRV));
        assert_eq!(change, format!("wpkh({}/84/1'/0'/1/*)#7uy57lk9", TPRV));
    }
}

#[test]
fn the_main_network_has_a_coin_type_of_its_own() {
    let seed = StoredSeed::from_file(&vec![1; 32]).unwrap();
    let (receive, change) = wallet_descriptors(Network::Bitcoin, &seed).unwrap();
    assert_eq!(receive, format!("wpkh({}/84/0'/0'/0/*)#6dutw959", XPRV));
    assert_eq!(change, format!("wpkh({}/84/0'/0'/1/*)#tee2nsya", XPRV));
}

#[test]
fn keys_are_moved_to_the_network() {
    let (receive, _) =
        get_wpkh_descriptors_for_extended_key(&key(XPRV), Network::Testnet, "m/84'", 7).unwrap();
    assert_eq!(receive, format!("wpkh({}/84'/1'/7'/0/*)#hmwqhmlc", TPRV));
    let (receive, _) =
        get_wpkh_descriptors_for_extended_key(&key(TPRV), Network::Bitcoin, "m/84h", 7).unwrap();
    assert_eq!(receive, format!("wpkh({}/84'/0'/7'/0/*)#f4uktm4p", XPRV));
}

#[test]
fn keys_without_a_private_part_are_refused() {
    let mut public = key(TPRV);
    public[..4].copy_from_slice(&[0x04, 0x35, 0x87, 0xcf]);
    assert_eq!(
        get_wpkh_descriptors_for_extended_key(&public, Network::Testnet, "m/84", 0),
        Err(WalletError::NoPrivateKey)
    );
    let mut empty = key(TPRV);
    empty[45..].copy_from_slice(&[0; 33]);
    assert_eq!(
        get_wpkh_descriptors_for_extended_key(&empty, Network::Testnet, "m/84", 0),
        Err(WalletError::NoPrivateKey)
    );
}

#[test]
fn private_keys_lie_below_the_order_of_the_curve() {
    let mut order = [0xff; 32];
    order[15] = 0xfe;
    order[16..].copy_from_slice(&[
        0xba, 0xae, 0xdc, 0xe6, 0xaf, 0x48, 0xa0, 0x3b, 0xbf, 0xd2, 0x5e, 0x8c, 0xd0, 0x36, 0x41,
        0x41,
    ]);
    let mut k = key(TPRV);
    k[46..].copy_from_slice(&order);
    assert_eq!(
        get_wpkh_descriptors_for_extended_key(&k, Network::Testnet, "m/84", 0),
        Err(WalletError::NoPrivateKey)
    );
    k[77] = 0x40;
    assert!(get_wpkh_descriptors_for_extended_key(&k, Network::Testnet, "m/84", 0).is_ok());
    k[46..].copy_from_slice(&[0xff; 32]);
    assert_eq!(
        get_wpkh_descriptors_for_extended_key(&k, Network::Testnet, "m/84", 0),
        Err(WalletError::NoPrivateKey)
    );
}

#[test]
fn the_byte_before_the_private_part_is_dropped() {
    let mut k = key(XPRV);
    k[45] = 9;
    let (receive, _) =
        get_wpkh_descriptors_for_extended_key(&k, Network::Testnet, "m/84'", 7).unwrap();
    assert_eq!(receive, format!("wpkh({}/84'/1'/7'/0/*)#hmwqhmlc", TPRV));
}

#[test]
fn base_paths_begin_at_the_master_key() {
    for path in [
        "", "84", "m/", "m/x", "m/2147483648", "n/84", "/m", "m//84", "m/84/", "m/+", "m/-1", "m/84''", "m/h",
        "m/+'", "m/84H", "m/ 84", "m/4294967380", "m/2147483648'", "mm/84",
    ] {
        assert_eq!(
            get_wpkh_descriptors_for_extended_key(&key(TPRV), Network::Testnet, path, 0),
            Err(WalletError::InvalidBasePath)
        );
    }
    assert!(get_wpkh_descriptors_for_extended_key(&key(TPRV), Network::Testnet, "m", 0).is_ok());
}

#[test]
fn base_paths_can_be_written_in_several_ways() {
    let descriptors =
        |path| get_wpkh_descriptors_for_extended_key(&key(TPRV), Network::Testnet, path, 0).unwrap();
    let (receive, _) = descriptors("m/84'/2147483647h/0");
    assert!(receive.starts_with(&format!("wpkh({}/84'/2147483647'/0/1'/0'/0/*)#", TPRV)));
    assert_eq!(descriptors("m/+84"), descriptors("m/84"));
    assert_eq!(descriptors("m/0000000000084"), descriptors("m/84"));
    assert_eq!(descriptors("m/+84'"), descriptors("m/84h"));
    assert_ne!(descriptors("m/84'"), descriptors("m/84"));
}

#[test]
fn account_numbers_fit_in_31_bits() {
    let k = key(TPRV);
    assert_eq!(
        get_wpkh_descriptors_for_extended_key(&k, Network::Testnet, "m/84", HARDENED),
        Err(WalletError::InvalidAccount)
    );
    assert!(
        get_wpkh_descriptors_for_extended_key(&k, Network::Testnet, "m/84", HARDENED - 1).is_ok()
    );
}

#[test]
fn accounts_lie_at_most_255_steps_down() {
    let deepest = format!("m{}", "/0".repeat(253));
    let k = key(TPRV);
    assert!(get_wpkh_descriptors_for_extended_key(&k, Network::Testnet, &deepest, 0).is_ok());
    let too_deep = format!("m{}", "/0".repeat(254));
    assert_eq!(
        get_wpkh_descriptors_for_extended_key(&k, Network::Testnet, &too_deep, 0),
        Err(WalletError::PathTooDeep)
    );
    let mut child = key(TPRV);
    child[4] = 253;
    assert!(get_wpkh_descriptors_for_extended_key(&child, Network::Testnet, "m", 0).is_ok());
    assert_eq!(
        get_wpkh_descriptors_for_extended_key(&child, Network::Testnet, "m/84", 0),
        Err(WalletError::PathTooDeep)
    );
}

#[test]
fn paths_end_in_receive_and_change() {
    let (receive, change) = descriptor_paths(0, &vec![84], Network::Regtest, 3).unwrap();
    assert_eq!(receive, vec![84, HARDENED + 1, HARDENED + 3, 0]);
    assert_eq!(change, vec![84, HARDENED + 1, HARDENED + 3, 1]);
    let (receive, _) = descriptor_paths(0, &vec![], Network::Bitcoin, 0).unwrap();
    assert_eq!(receive, vec![HARDENED, HARDENED, 0]);
}

#[test]
fn paths_have_bounds() {
    assert_eq!(
        descriptor_paths(0, &vec![84], Network::Regtest, HARDENED),
        Err(WalletError::InvalidAccount)
    );
    assert!(descriptor_paths(253, &vec![], Network::Regtest, 0).is_ok());
    assert!(descriptor_paths(0, &vec![0; 253], Network::Regtest, 0).is_ok());
    assert_eq!(
        descriptor_paths(254, &vec![], Network::Regtest, 0),
        Err(WalletError::PathTooDeep)
    );
    assert_eq!(
        descriptor_paths(1, &vec![0; 253], Network::Regtest, 0),
        Err(WalletError::PathTooDeep)
    );
}

#[test]
fn different_accounts_have_different_paths() {
    let base = vec![84];
    let first = descriptor_paths(0, &base, Network::Testnet, 0).unwrap();
    assert_ne!(first, descriptor_paths(0, &base, Network::Testnet, 1).unwrap());
    assert_ne!(first, descriptor_paths(0, &base, Network::Bitcoin, 0).unwrap());
    assert_eq!(first, descriptor_paths(0, &base, Network::Signet, 0).unwrap());
}
