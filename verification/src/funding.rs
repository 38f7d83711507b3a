//! The output that funds a channel.

use crate::network::Network;
use vstd::prelude::*;

verus! {

/// Why an output cannot fund a channel.
#[derive(Clone, Copy, Debug, PartialEq, Eq, Structural)]
pub enum FundingError {
    /// The script does not pay to a witness program.
    NotSegwit,
}

/// The witness version that the first byte of an output script stands for: bytes above
/// `OP_RESERVED` are the opcodes that push a small number.
pub open spec fn witness_version(opcode: u8) -> int {
    if opcode > 0x50 {
        opcode - 0x50
    } else {
        opcode as int
    }
}

/// The second byte counts the bytes that follow it, of which there are at least two.
pub open spec fn counts_its_program(script: Seq<u8>) -> bool {
    script.len() >= 4 && script.len() == 2 + script[1]
}

/// An output script that pays to a witness program: a version up to 16 and a program of
/// 2 to 40 bytes, which under version 0 are 20 or 32.
pub open spec fn is_witness_script(script: Seq<u8>) -> bool {
    &&& counts_its_program(script)
    &&& witness_version(script[0]) <= 16
    &&& script[1] <= 40
    &&& witness_version(script[0]) == 0 ==> script[1] == 20 || script[1] == 32
}

/// The address of a witness program on a network, in the text form of
/// `bitcoin_bech32::WitnessProgram`.
pub uninterp spec fn witness_address(script: Seq<u8>, network: Network) -> Seq<char>;

/// What `bitcoin_bech32` reports of a script that it cannot turn into an address.
#[verifier::external_type_specification]
#[verifier::external_body]
pub struct ExWitnessError(bitcoin_bech32::Error);

/// Calls `bitcoin_bech32::WitnessProgram::from_scriptpubkey` and takes the address of what
/// it returns. It succeeds exactly on the witness scripts, and the address depends on the
/// script and the network alone. A version that does not fit in five bits makes it panic
/// once it has accepted the lengths, so such scripts are left out.
#[verifier::external_body]
fn address_from_scriptpubkey(script: &Vec<u8>, network: Network) -> (r: Result<
    String,
    bitcoin_bech32::Error,
>)
    requires
        counts_its_program(script@) ==> witness_version(script@[0]) < 32,
    ensures
        r is Ok <==> is_witness_script(script@),
        r matches Ok(address) ==> address@ == witness_address(script@, network),
{
    let network = match network {
        Network::Bitcoin => bitcoin_bech32::constants::Network::Bitcoin,
        Network::Testnet => bitcoin_bech32::constants::Network::Testnet,
        Network::Regtest => bitcoin_bech32::constants::Network::Regtest,
        Network::Signet => bitcoin_bech32::constants::Network::Signet,
    };
    match bitcoin_bech32::WitnessProgram::from_scriptpubkey(script, network) {
        Ok(program) => Ok(program.to_address()),
        Err(e) => Err(e),
    }
}

/// The address that a channel's funding output pays to.
pub fn funding_address(output_script: &Vec<u8>, network: Network) -> (r: Result<
    String,
    FundingError,
>)
    ensures
        r matches Ok(address) ==> address@ == witness_address(output_script@, network),
        r is Ok <==> is_witness_script(output_script@),
        r == Err::<String, FundingError>(FundingError::NotSegwit) <==> !is_witness_script(
            output_script@,
        ),
{
    if output_script.len() >= 4 {
        let opcode: u8 = output_script[0];
        if opcode >= 0x70 || (32 <= opcode && opcode <= 0x50) {
            return Err(FundingError::NotSegwit);
        }
    }
    match address_from_scriptpubkey(output_script, network) {
        Ok(address) => Ok(address),
        Err(_) => Err(FundingError::NotSegwit),
    }
}

/// A script pays to a witness program if it has between 4 and 42 bytes, of which the second
/// counts those after it, and begins with a version of 0 to 16, either as it is or as the
/// opcode that pushes it. Under version 0 the program is the hash of a key or of a script.
pub proof fn witness_scripts_are_known_by_their_bytes(script: Seq<u8>)
    ensures
        is_witness_script(script) <==> {
            &&& 4 <= script.len() <= 42
            &&& script[1] as int == script.len() - 2
            &&& script[0] <= 16 || (0x51 <= script[0] && script[0] <= 0x60)
            &&& script[0] != 0 || script.len() == 22 || script.len() == 34
        },
{
}

} // verus!
