//! The arguments that the node is started with.

use crate::network::Network;
use crate::text::{
    decimal, decimal_has_digits, decimal_reads_back, decimal_value, digits_are_not_negative,
    is_decimal,
};
use vstd::prelude::*;
use vstd::string::StringSliceAdditionalSpecFns;

verus! {

/// The port that the node listens on where no other is given.
pub const DEFAULT_LISTENING_PORT: u16 = 9735;

/// What the node is started with.
#[derive(Debug)]
pub struct StartupArgs {
    pub electrum_url: String,
    pub ldk_storage_dir_path: String,
    pub ldk_peer_listening_port: u16,
    pub network: Network,
    pub ldk_announced_node_name: [u8; 32],
    pub ldk_announced_listen_addr: Vec<String>,
}

/// Why arguments are not accepted.
#[derive(Clone, Copy, Debug, PartialEq, Eq, Structural)]
pub enum ArgsError {
    /// The server or the storage directory is missing.
    MissingArguments,
    /// The port is not a decimal number below 65536.
    InvalidPort,
    /// The network is none of those that the node runs on.
    UnsupportedNetwork,
    /// The node's name has more than 32 bytes.
    NodeNameTooLong,
}

/// The port that a text stands for: a decimal number below 65536.
pub open spec fn port_of(text: Seq<char>) -> Option<u16> {
    if is_decimal(text) && decimal_value(text) < 0x1_0000 {
        Some(decimal_value(text) as u16)
    } else {
        None
    }
}

/// The network that a text names.
pub open spec fn network_of(text: Seq<char>) -> Option<Network> {
    if text == "testnet"@ {
        Some(Network::Testnet)
    } else if text == "regtest"@ {
        Some(Network::Regtest)
    } else if text == "signet"@ {
        Some(Network::Signet)
    } else {
        None
    }
}

/// A name of at most 32 bytes, filled up with zeros.
pub open spec fn padded_name(bytes: Seq<u8>) -> Seq<u8> {
    Seq::new(
        32,
        |i: int|
            if i < bytes.len() {
                bytes[i]
            } else {
                0
            },
    )
}

/// Reads a port.
fn parse_port(text: &str) -> (r: Option<u16>)
    ensures
        r == port_of(text@),
{
    let n: usize = text.unicode_len();
    if n == 0 {
        return None;
    }
    let mut value: u32 = 0;
    let mut i: usize = 0;
    assert(text@.take(0) =~= Seq::empty());
    while i < n
        invariant
            i <= n == text@.len(),
            value <= 0x1_0000,
            value < 0x1_0000 ==> value == decimal_value(text@.take(i as int)),
            value == 0x1_0000 ==> decimal_value(text@.take(i as int)) >= 0x1_0000,
            forall|j: int| 0 <= j < i ==> '0' <= #[trigger] text@[j] <= '9',
        decreases n - i,
    {
        let c: char = text.get_char(i);
        if c < '0' || c > '9' {
            return None;
        }
        proof {
            let longer = text@.take(i + 1);
            assert(longer.drop_last() =~= text@.take(i as int));
            assert(longer.last() == c);
        }
        let digit: u32 = c as u32 - 48;
        value = value * 10 + digit;
        if value > 0x1_0000 {
            value = 0x1_0000;
        }
        i = i + 1;
    }
    assert(text@.take(n as int) =~= text@);
    if value < 0x1_0000 {
        Some(value as u16)
    } else {
        None
    }
}

/// Reads the name of a network.
fn parse_network(text: &String) -> (r: Option<Network>)
    ensures
        r == network_of(text@),
{
    if text.eq(&"testnet".to_owned()) {
        Some(Network::Testnet)
    } else if text.eq(&"regtest".to_owned()) {
        Some(Network::Regtest)
    } else if text.eq(&"signet".to_owned()) {
        Some(Network::Signet)
    } else {
        None
    }
}

/// Fills a name up with zeros. There is no result for one of more than 32 bytes.
fn pad_name(name: &str) -> (r: Option<[u8; 32]>)
    ensures
        match r {
            Some(padded) => name.spec_bytes().len() <= 32 && padded@ == padded_name(
                name.spec_bytes(),
            ),
            None => name.spec_bytes().len() > 32,
        },
{
    let bytes: &[u8] = name.as_bytes();
    if bytes.len() > 32 {
        return None;
    }
    let mut padded: [u8; 32] = [0u8; 32];
    let mut i: usize = 0;
    while i < bytes.len()
        invariant
            i <= bytes@.len() <= 32,
            forall|j: int| 0 <= j < i ==> padded@[j] == bytes@[j],
            forall|j: int| i <= j < 32 ==> padded@[j] == 0,
        decreases bytes@.len() - i,
    {
        padded[i] = bytes[i];
        i = i + 1;
    }
    assert(padded@ =~= padded_name(bytes@));
    Some(padded)
}

/// The text of the argument in place `i`, if there is one.
pub open spec fn argument(args: Seq<String>, i: int) -> Option<Seq<char>> {
    if 0 <= i < args.len() {
        Some(args[i]@)
    } else {
        None
    }
}

/// The place of the network among the arguments: the third where that names a network, for
/// then the port is left out, and otherwise the one after the port.
pub open spec fn network_place(args: Seq<String>) -> int {
    match argument(args, 2) {
        Some(text) if network_of(text) is Some => 2,
        _ => 3,
    }
}

/// The port that the arguments ask for.
pub open spec fn port_argument(args: Seq<String>) -> Option<u16> {
    match argument(args, 2) {
        Some(text) if network_place(args) == 3 => port_of(text),
        _ => Some(DEFAULT_LISTENING_PORT),
    }
}

/// The network that the arguments ask for.
pub open spec fn network_argument(args: Seq<String>) -> Option<Network> {
    match argument(args, network_place(args)) {
        Some(text) => network_of(text),
        None => Some(Network::Testnet),
    }
}

/// The bytes of the name that the arguments give the node.
pub open spec fn name_argument(args: Seq<String>) -> Seq<u8> {
    match argument(args, network_place(args) + 1) {
        Some(text) => vstd::utf8::encode_utf8(text),
        None => Seq::empty(),
    }
}

/// Why the arguments are not accepted, if they are not.
pub open spec fn args_error(args: Seq<String>) -> Option<ArgsError> {
    if args.len() < 2 {
        Some(ArgsError::MissingArguments)
    } else if port_argument(args) is None {
        Some(ArgsError::InvalidPort)
    } else if network_argument(args) is None {
        Some(ArgsError::UnsupportedNetwork)
    } else if name_argument(args).len() > 32 {
        Some(ArgsError::NodeNameTooLong)
    } else {
        None
    }
}

impl StartupArgs {
    /// These are the values that the arguments stand for: the server, the directory, the
    /// port, the network, the name of the node, and addresses to announce.
    pub open spec fn stand_for(self, args: Seq<String>) -> bool {
        &&& self.electrum_url@ == args[0]@
        &&& self.ldk_storage_dir_path@ == args[1]@
        &&& Some(self.ldk_peer_listening_port) == port_argument(args)
        &&& Some(self.network) == network_argument(args)
        &&& self.ldk_announced_node_name@ == padded_name(name_argument(args))
        &&& self.ldk_announced_listen_addr@.len() == (if args.len() > network_place(args) + 2 {
            args.len() - network_place(args) - 2
        } else {
            0
        })
        &&& forall|i: int|
            0 <= i < self.ldk_announced_listen_addr@.len()
                ==> #[trigger] self.ldk_announced_listen_addr@[i]@ == args[network_place(args) + 2
                + i]@
    }
}

/// Reads the arguments, the program's own name not among them.
pub fn parse_startup_args(args: &Vec<String>) -> (r: Result<StartupArgs, ArgsError>)
    ensures
        match r {
            Ok(parsed) => args_error(args@) is None && parsed.stand_for(args@),
            Err(e) => args_error(args@) == Some(e),
        },
{
    if args.len() < 2 {
        return Err(ArgsError::MissingArguments);
    }
    let place: usize = if args.len() > 2 && parse_network(&args[2]).is_some() {
        2
    } else {
        3
    };
    assert(place == network_place(args@));
    let port: u16 = if args.len() > 2 && place == 3 {
        match parse_port(args[2].as_str()) {
            Some(port) => port,
            None => {
                return Err(ArgsError::InvalidPort);
            },
        }
    } else {
        DEFAULT_LISTENING_PORT
    };
    let network = if args.len() > place {
        match parse_network(&args[place]) {
            Some(network) => network,
            None => {
                return Err(ArgsError::UnsupportedNetwork);
            },
        }
    } else {
        Network::Testnet
    };
    let name: [u8; 32] = if args.len() > place + 1 {
        match pad_name(args[place + 1].as_str()) {
            Some(name) => name,
            None => {
                return Err(ArgsError::NodeNameTooLong);
            },
        }
    } else {
        [0u8; 32]
    };
    assert(name@ =~= padded_name(name_argument(args@)));
    let mut addresses: Vec<String> = Vec::new();
    let mut i: usize = place + 2;
    while i < args.len()
        invariant
            place == 2 || place == 3,
            place + 2 <= i,
            i <= args@.len() || i == place + 2,
            addresses@.len() == i - place - 2,
            forall|j: int|
                0 <= j < addresses@.len() ==> #[trigger] addresses@[j]@ == args@[place + 2 + j]@,
        decreases args@.len() - i,
    {
        addresses.push(args[i].clone());
        i = i + 1;
    }
    Ok(
        StartupArgs {
            electrum_url: args[0].clone(),
            ldk_storage_dir_path: args[1].clone(),
            ldk_peer_listening_port: port,
            network,
            ldk_announced_node_name: name,
            ldk_announced_listen_addr: addresses,
        },
    )
}

/// With a server and a directory alone the node runs on testnet, listens on port 9735 and
/// announces nothing.
pub proof fn defaults(args: Seq<String>, parsed: StartupArgs)
    requires
        args.len() == 2,
        parsed.stand_for(args),
    ensures
        args_error(args) is None,
        parsed.network == Network::Testnet,
        parsed.ldk_peer_listening_port == 9735,
        parsed.ldk_announced_node_name@ == Seq::new(32, |i: int| 0u8),
        parsed.ldk_announced_listen_addr@.len() == 0,
{
    assert(padded_name(Seq::empty()) =~= Seq::new(32, |i: int| 0u8));
}

/// The port can be left out before a network: the arguments then stand for what they stand
/// for with the default port, however written, in its place.
pub proof fn port_may_be_left_out(args: Seq<String>, port: String, parsed: StartupArgs)
    requires
        args.len() > 2,
        network_of(args[2]@) is Some,
        port_of(port@) == Some(DEFAULT_LISTENING_PORT),
    ensures
        args_error(args) == args_error(args.insert(2, port)),
        parsed.stand_for(args) <==> parsed.stand_for(args.insert(2, port)),
{
    reveal_strlit("testnet");
    reveal_strlit("regtest");
    reveal_strlit("signet");
    let full = args.insert(2, port);
    assert('0' <= port@[0] <= '9');
    assert(network_place(args) == 2);
    assert(network_place(full) == 3);
    assert forall|i: int| 2 <= i < args.len() implies #[trigger] args[i] == full[i + 1] by {}
    assert(network_argument(args) == network_argument(full));
    assert(name_argument(args) == name_argument(full));
    let n = parsed.ldk_announced_listen_addr@.len();
    if parsed.stand_for(full) {
        assert forall|i: int| 0 <= i < n implies #[trigger] parsed.ldk_announced_listen_addr@[i]@
            == args[4 + i]@ by {
            assert(parsed.ldk_announced_listen_addr@[i]@ == full[5 + i]@);
        }
    }
    if parsed.stand_for(args) {
        assert forall|i: int| 0 <= i < n implies #[trigger] parsed.ldk_announced_listen_addr@[i]@
            == full[5 + i]@ by {
            assert(parsed.ldk_announced_listen_addr@[i]@ == args[4 + i]@);
        }
    }
}

/// The node never runs on the main network.
pub proof fn main_network_is_refused(args: Seq<String>, parsed: StartupArgs)
    requires
        parsed.stand_for(args),
    ensures
        parsed.network != Network::Bitcoin,
{
}

/// Arguments are refused for want of some exactly where there are fewer than two. The first
/// two are taken as they stand.
pub proof fn server_and_directory_come_first(
    args: Seq<String>,
    r: Result<StartupArgs, ArgsError>,
)
    requires
        match r {
            Ok(parsed) => args_error(args) is None && parsed.stand_for(args),
            Err(e) => args_error(args) == Some(e),
        },
    ensures
        (r matches Err(ArgsError::MissingArguments)) <==> args.len() < 2,
        r matches Ok(parsed) ==> {
            &&& parsed.electrum_url@ == args[0]@
            &&& parsed.ldk_storage_dir_path@ == args[1]@
        },
{
}

/// A third argument that is no network is the port, and is refused exactly where it is no
/// decimal number below 65536. Where it is a network, or is missing, the port is 9735.
pub proof fn the_third_argument_is_a_port_or_a_network(
    args: Seq<String>,
    r: Result<StartupArgs, ArgsError>,
)
    requires
        args.len() >= 2,
        match r {
            Ok(parsed) => args_error(args) is None && parsed.stand_for(args),
            Err(e) => args_error(args) == Some(e),
        },
    ensures
        args.len() > 2 && args[2]@ != "testnet"@ && args[2]@ != "regtest"@ && args[2]@
            != "signet"@ ==> {
            &&& (r matches Err(ArgsError::InvalidPort)) <==> {
                ||| args[2]@.len() == 0
                ||| exists|i: int|
                    0 <= i < args[2]@.len() && !('0' <= #[trigger] args[2]@[i] <= '9')
                ||| decimal_value(args[2]@) > 65535
            }
            &&& r matches Ok(parsed) ==> parsed.ldk_peer_listening_port == decimal_value(args[2]@)
        },
        args.len() == 2 || args[2]@ == "testnet"@ || args[2]@ == "regtest"@ || args[2]@
            == "signet"@ ==> {
            &&& !(r matches Err(ArgsError::InvalidPort))
            &&& r matches Ok(parsed) ==> parsed.ldk_peer_listening_port == 9735
        },
{
    if args.len() > 2 && is_decimal(args[2]@) {
        digits_are_not_negative(args[2]@);
    }
}

/// Every port can be asked for by its digits.
pub proof fn every_port_can_be_asked_for(port: u16)
    ensures
        port_of(decimal(port as nat)) == Some(port),
{
    decimal_has_digits(port as nat);
    decimal_reads_back(port as nat);
}

/// The argument in the place of the network names it, and is refused where it is none of the
/// three. Without one the node runs on testnet. The place is the third where a network stands
/// there, and the fourth otherwise.
pub proof fn networks_are_known_by_name(
    args: Seq<String>,
    place: int,
    r: Result<StartupArgs, ArgsError>,
)
    requires
        args.len() >= 2,
        place == 2 || place == 3,
        place == 2 <==> args.len() > 2 && (args[2]@ == "testnet"@ || args[2]@ == "regtest"@
            || args[2]@ == "signet"@),
        match r {
            Ok(parsed) => args_error(args) is None && parsed.stand_for(args),
            Err(e) => args_error(args) == Some(e),
        },
        !(r matches Err(ArgsError::InvalidPort)),
    ensures
        (r matches Err(ArgsError::UnsupportedNetwork)) <==> {
            &&& args.len() > place
            &&& args[place]@ != "testnet"@
            &&& args[place]@ != "regtest"@
            &&& args[place]@ != "signet"@
        },
        r matches Ok(parsed) ==> {
            &&& args.len() <= place ==> parsed.network == Network::Testnet
            &&& args.len() > place ==> {
                &&& parsed.network == Network::Testnet <==> args[place]@ == "testnet"@
                &&& parsed.network == Network::Regtest <==> args[place]@ == "regtest"@
                &&& parsed.network == Network::Signet <==> args[place]@ == "signet"@
            }
        },
{
    reveal_strlit("testnet");
    reveal_strlit("regtest");
    reveal_strlit("signet");
    assert("testnet"@[0] == 't' && "regtest"@[0] == 'r' && "signet"@[0] == 's');
}

/// What follows the network is the node's name, which is kept byte by byte and filled up with
/// zeros, or refused where it has more than 32 bytes. Then come the addresses, each as it
/// stands and in order.
pub proof fn name_and_addresses_follow_the_network(
    args: Seq<String>,
    place: int,
    r: Result<StartupArgs, ArgsError>,
)
    requires
        args.len() >= 2,
        place == 2 || place == 3,
        place == 2 <==> args.len() > 2 && (args[2]@ == "testnet"@ || args[2]@ == "regtest"@
            || args[2]@ == "signet"@),
        match r {
            Ok(parsed) => args_error(args) is None && parsed.stand_for(args),
            Err(e) => args_error(args) == Some(e),
        },
        !(r matches Err(ArgsError::InvalidPort)),
        !(r matches Err(ArgsError::UnsupportedNetwork)),
    ensures
        (r matches Err(ArgsError::NodeNameTooLong)) <==> args.len() > place + 1
            && vstd::utf8::encode_utf8(args[place + 1]@).len() > 32,
        r is Ok || (r matches Err(ArgsError::NodeNameTooLong)),
        r matches Ok(parsed) ==> {
            let name = parsed.ldk_announced_node_name@;
            let addresses = parsed.ldk_announced_listen_addr@;
            &&& name.len() == 32
            &&& args.len() > place + 1 ==> {
                let bytes = vstd::utf8::encode_utf8(args[place + 1]@);
                &&& name.take(bytes.len() as int) == bytes
                &&& forall|i: int| bytes.len() <= i < 32 ==> #[trigger] name[i] == 0
            }
            &&& args.len() <= place + 1 ==> forall|i: int| 0 <= i < 32 ==> #[trigger] name[i] == 0
            &&& args.len() <= place + 2 ==> addresses.len() == 0
            &&& args.len() > place + 2 ==> {
                &&& addresses.len() == args.len() - (place + 2)
                &&& forall|i: int|
                    0 <= i < addresses.len() ==> #[trigger] addresses[i]@ == args[place + 2 + i]@
            }
        },
{
    if let Ok(parsed) = r {
        assert(parsed.ldk_announced_node_name@ == padded_name(name_argument(args)));
        if args.len() > place + 1 {
            let bytes = vstd::utf8::encode_utf8(args[place + 1]@);
            assert(parsed.ldk_announced_node_name@.take(bytes.len() as int) =~= bytes);
        }
    }
}

} // verus!
