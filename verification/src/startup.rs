//! What the node works out when it starts.

use crate::args::{network_place, StartupArgs};
use crate::bytes::same_bytes;
use crate::network::Network;
use crate::text::{
    decimal, decimal_has_digits, decimal_has_no_leading_zero, decimal_reads_back, decimal_str,
    decimal_value, is_decimal,
};
use vstd::prelude::*;

verus! {

/// How often a payment is tried again.
pub const PAYMENT_RETRY_ATTEMPTS: usize = 5;

/// The colour of the node in its announcements: red, green and blue.
pub const ANNOUNCED_COLOR: [u8; 3] = [0, 0, 0];

/// Whether a peer has to want what the node wants of a channel's announcement.
pub const FORCE_ANNOUNCED_CHANNEL_PREFERENCE: bool = false;

/// The directory that the node keeps its data in, within the storage directory.
pub open spec fn data_dir(storage_dir: Seq<char>) -> Seq<char> {
    storage_dir + "/.ldk"@
}

/// The places of the node's files.
#[derive(Debug)]
pub struct DataFiles {
    pub ldk_data_dir: String,
    pub seed_path: String,
    pub manager_path: String,
    pub network_graph_path: String,
    pub scorer_path: String,
    pub peer_data_path: String,
}

impl DataFiles {
    /// These are the places for a storage directory.
    pub open spec fn lie_in(self, storage_dir: Seq<char>) -> bool {
        let dir = data_dir(storage_dir);
        &&& self.ldk_data_dir@ == dir
        &&& self.seed_path@ == dir + "/seed"@
        &&& self.manager_path@ == dir + "/manager"@
        &&& self.network_graph_path@ == dir + "/network_graph"@
        &&& self.scorer_path@ == dir + "/scorer"@
        &&& self.peer_data_path@ == dir + "/channel_peer_data"@
    }

    /// Finds the places for a storage directory.
    pub fn new(storage_dir: &str) -> (files: DataFiles)
        ensures
            files.lie_in(storage_dir@),
    {
        let dir = storage_dir.to_owned().concat("/.ldk");
        DataFiles {
            seed_path: dir.clone().concat("/seed"),
            manager_path: dir.clone().concat("/manager"),
            network_graph_path: dir.clone().concat("/network_graph"),
            scorer_path: dir.clone().concat("/scorer"),
            peer_data_path: dir.clone().concat("/channel_peer_data"),
            ldk_data_dir: dir,
        }
    }
}

/// No two of the node's files share a place.
pub proof fn files_are_apart(files: DataFiles, storage_dir: Seq<char>)
    requires
        files.lie_in(storage_dir),
    ensures
        seq![
            files.ldk_data_dir@,
            files.seed_path@,
            files.manager_path@,
            files.network_graph_path@,
            files.scorer_path@,
            files.peer_data_path@,
        ].no_duplicates(),
{
    reveal_strlit("/seed");
    reveal_strlit("/manager");
    reveal_strlit("/network_graph");
    reveal_strlit("/scorer");
    reveal_strlit("/channel_peer_data");
    let n = data_dir(storage_dir).len();
    assert(files.ldk_data_dir@.len() == n);
    assert(files.seed_path@.len() == n + 5);
    assert(files.manager_path@.len() == n + 8);
    assert(files.network_graph_path@.len() == n + 14);
    assert(files.scorer_path@.len() == n + 7);
    assert(files.peer_data_path@.len() == n + 18);
}

/// The hash of a network's first block, in the order in which its bytes are hashed on.
pub open spec fn genesis_hash(network: Network) -> Seq<u8> {
    match network {
        Network::Bitcoin => seq![
            0x6f, 0xe2, 0x8c, 0x0a, 0xb6, 0xf1, 0xb3, 0x72,
            0xc1, 0xa6, 0xa2, 0x46, 0xae, 0x63, 0xf7, 0x4f,
            0x93, 0x1e, 0x83, 0x65, 0xe1, 0x5a, 0x08, 0x9c,
            0x68, 0xd6, 0x19, 0x00, 0x00, 0x00, 0x00, 0x00,
        ],
        Network::Testnet => seq![
            0x43, 0x49, 0x7f, 0xd7, 0xf8, 0x26, 0x95, 0x71,
            0x08, 0xf4, 0xa3, 0x0f, 0xd9, 0xce, 0xc3, 0xae,
            0xba, 0x79, 0x97, 0x20, 0x84, 0xe9, 0x0e, 0xad,
            0x01, 0xea, 0x33, 0x09, 0x00, 0x00, 0x00, 0x00,
        ],
        Network::Regtest => seq![
            0x06, 0x22, 0x6e, 0x46, 0x11, 0x1a, 0x0b, 0x59,
            0xca, 0xaf, 0x12, 0x60, 0x43, 0xeb, 0x5b, 0xbf,
            0x28, 0xc3, 0x4f, 0x3a, 0x5e, 0x33, 0x2a, 0x1f,
            0xc7, 0xb2, 0xb7, 0x3c, 0xf1, 0x88, 0x91, 0x0f,
        ],
        Network::Signet => seq![
            0xf6, 0x1e, 0xee, 0x3b, 0x63, 0xa3, 0x80, 0xa4,
            0x77, 0xa0, 0x63, 0xaf, 0x32, 0xb2, 0xbb, 0xc9,
            0x7c, 0x9f, 0xf9, 0xf0, 0x1f, 0x2c, 0x42, 0x25,
            0xe9, 0x73, 0x98, 0x81, 0x08, 0x00, 0x00, 0x00,
        ],
    }
}

/// No two networks start from the same block.
pub proof fn chains_are_apart(network: Network, other: Network)
    ensures
        genesis_hash(network) == genesis_hash(other) <==> network == other,
{
    assert(genesis_hash(network)[0] == genesis_hash(other)[0] ==> network == other);
}

/// Calls `bitcoin::blockdata::constants::genesis_block` and takes the hash of the block's
/// header. The blocks are fixed, and so are their hashes.
#[verifier::external_body]
fn genesis_block_hash(network: Network) -> (hash: [u8; 32])
    ensures
        hash@ == genesis_hash(network),
{
    let network = match network {
        Network::Bitcoin => bitcoin::Network::Bitcoin,
        Network::Testnet => bitcoin::Network::Testnet,
        Network::Regtest => bitcoin::Network::Regtest,
        Network::Signet => bitcoin::Network::Signet,
    };
    let hash = bitcoin::blockdata::constants::genesis_block(network).header.block_hash();
    bitcoin::hashes::Hash::into_inner(hash)
}

/// What follows from the arguments alone.
#[derive(Debug)]
pub struct StartupPlan {
    pub files: DataFiles,
    pub genesis_hash: [u8; 32],
    pub listen_address: String,
}

/// The address that the node listens on: the port, on every interface.
pub open spec fn listen_address(port: u16) -> Seq<char> {
    "0.0.0.0:"@ + decimal(port as nat)
}

/// A node announces itself where it has an address to announce.
pub open spec fn announces(args: StartupArgs) -> bool {
    args.ldk_announced_listen_addr@.len() > 0
}

/// A node that is given no address never announces itself, whatever its name.
pub proof fn announcing_takes_an_address(args: Seq<String>, parsed: StartupArgs)
    requires
        parsed.stand_for(args),
    ensures
        announces(parsed) <==> args.len() > network_place(args) + 2,
{
}

/// Works out where the node keeps its files, which chain it starts from, and where it listens.
pub fn plan_startup(args: &StartupArgs) -> (plan: StartupPlan)
    ensures
        plan.files.lie_in(args.ldk_storage_dir_path@),
        plan.genesis_hash@ == genesis_hash(args.network),
        plan.listen_address@ == listen_address(args.ldk_peer_listening_port),
{
    StartupPlan {
        files: DataFiles::new(args.ldk_storage_dir_path.as_str()),
        genesis_hash: genesis_block_hash(args.network),
        listen_address: "0.0.0.0:".to_owned().concat(
            decimal_str(args.ldk_peer_listening_port as u64).as_str(),
        ),
    }
}

/// The nodes that are this peer.
pub open spec fn is_peer(peer: [u8; 33]) -> spec_fn([u8; 33]) -> bool {
    |node_id: [u8; 33]| node_id == peer
}

/// How often a known peer is connected to: once for each of our channels with it.
pub open spec fn channels_with(peer: [u8; 33], counterparties: Seq<[u8; 33]>) -> nat {
    counterparties.filter(is_peer(peer)).len()
}

/// Counts our channels with a peer, among the counterparties of all our channels.
pub fn reconnect_attempts(peer: &[u8; 33], counterparties: &Vec<[u8; 33]>) -> (attempts: usize)
    ensures
        attempts == channels_with(*peer, counterparties@),
        attempts == counterparties@.to_multiset().count(*peer),
        attempts > 0 <==> counterparties@.contains(*peer),
{
    let mut attempts: usize = 0;
    let mut i: usize = 0;
    reveal(Seq::filter);
    assert(counterparties@.take(0).filter(is_peer(*peer)).len() == 0);
    while i < counterparties.len()
        invariant
            i <= counterparties@.len(),
            attempts <= i,
            attempts == counterparties@.take(i as int).filter(is_peer(*peer)).len(),
        decreases counterparties@.len() - i,
    {
        proof {
            reveal(Seq::filter);
            assert(counterparties@.take(i + 1).drop_last() =~= counterparties@.take(i as int));
            assert(counterparties@.take(i + 1).last() == counterparties@[i as int]);
        }
        if same_bytes(&counterparties[i], peer) {
            attempts = attempts + 1;
        }
        i = i + 1;
    }
    assert(counterparties@.take(i as int) =~= counterparties@);
    proof {
        peers_are_counted_by_their_keys(*peer, counterparties@);
    }
    attempts
}

/// A peer is connected to as often as its key stands among the counterparties, so at all only
/// if it stands there.
pub proof fn peers_are_counted_by_their_keys(peer: [u8; 33], counterparties: Seq<[u8; 33]>)
    ensures
        channels_with(peer, counterparties) == counterparties.to_multiset().count(peer),
        channels_with(peer, counterparties) > 0 <==> counterparties.contains(peer),
    decreases counterparties.len(),
{
    broadcast use vstd::seq_lib::group_to_multiset_ensures;

    reveal(Seq::filter);
    if counterparties.len() > 0 {
        let front = counterparties.drop_last();
        peers_are_counted_by_their_keys(peer, front);
        assert(front.push(counterparties.last()) =~= counterparties);
    } else {
        assert(counterparties =~= Seq::empty());
    }
}

/// One more channel with a peer is one more attempt to connect to it. A channel with another
/// peer is none.
pub proof fn every_channel_counts_for_its_peer(
    peer: [u8; 33],
    other: [u8; 33],
    counterparties: Seq<[u8; 33]>,
)
    ensures
        channels_with(peer, Seq::empty()) == 0,
        channels_with(peer, counterparties.push(peer)) == channels_with(peer, counterparties) + 1,
        other != peer ==> channels_with(peer, counterparties.push(other)) == channels_with(
            peer,
            counterparties,
        ),
{
    reveal(Seq::filter);
    assert(counterparties.push(peer).drop_last() =~= counterparties);
    assert(counterparties.push(other).drop_last() =~= counterparties);
}

/// All of the node's files lie below `.ldk` in its storage directory, each under its own name.
pub proof fn files_have_their_names(files: DataFiles, storage_dir: Seq<char>)
    requires
        files.lie_in(storage_dir),
    ensures
        files.ldk_data_dir@ == storage_dir + "/.ldk"@,
        files.seed_path@ == storage_dir + "/.ldk/seed"@,
        files.manager_path@ == storage_dir + "/.ldk/manager"@,
        files.network_graph_path@ == storage_dir + "/.ldk/network_graph"@,
        files.scorer_path@ == storage_dir + "/.ldk/scorer"@,
        files.peer_data_path@ == storage_dir + "/.ldk/channel_peer_data"@,
{
    reveal_strlit("/.ldk");
    reveal_strlit("/seed");
    reveal_strlit("/manager");
    reveal_strlit("/network_graph");
    reveal_strlit("/scorer");
    reveal_strlit("/channel_peer_data");
    reveal_strlit("/.ldk/seed");
    reveal_strlit("/.ldk/manager");
    reveal_strlit("/.ldk/network_graph");
    reveal_strlit("/.ldk/scorer");
    reveal_strlit("/.ldk/channel_peer_data");
}

/// The node listens on every interface, on the port that it is given: what follows the colon
/// reads as that port.
pub proof fn the_port_is_listened_on(port: u16)
    ensures
        listen_address(port).take(8) == "0.0.0.0:"@,
        is_decimal(listen_address(port).skip(8)),
        decimal_value(listen_address(port).skip(8)) == port,
        port > 0 ==> listen_address(port)[8] != '0',
        port == 0 ==> listen_address(port).len() == 9,
{
    reveal_strlit("0.0.0.0:");
    decimal_has_digits(port as nat);
    decimal_reads_back(port as nat);
    decimal_has_no_leading_zero(port as nat);
    assert(listen_address(port).skip(8) =~= decimal(port as nat));
}

/// A node announces itself if and only if it has an address to announce.
pub proof fn announcing_is_for_addresses(args: StartupArgs)
    ensures
        announces(args) <==> args.ldk_announced_listen_addr@ != Seq::<String>::empty(),
{
    assert(args.ldk_announced_listen_addr@.len() == 0 ==> args.ldk_announced_listen_addr@
        =~= Seq::<String>::empty());
}

} // verus!
