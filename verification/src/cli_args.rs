//! Parsing of the command-line values that the miner's subcommands take.
use crate::address::{decode_hex_address, parse_hex_address, Address};
use crate::u256::{u256_modulus, U256};
use crate::units::{ether_cut_splits_char, ether_text_has_stray_char, ether_text_kept_whole, parse_ether_wei, parsed_ether, plain_ether_value};
use vstd::string::*;
use vstd::prelude::*;

verus! {

/// Parses an amount written in ether (e.g. "0.5") into wei. Text on which
/// alloy's parser would cut a character in two (see
/// `parse_ether_splits_char`) is left out: there it panics.
pub fn eth_amount_parser(s: &str) -> (r: Result<U256, &'static str>)
    requires
        !ether_cut_splits_char(s.spec_bytes()),
    ensures
        match parsed_ether(s@) {
            Some(v) => r matches Ok(x) && x@ == v,
            None => r matches Err(e) && e@ == "invalid eth amount"@,
        },
        plain_ether_value(s@) is Some && plain_ether_value(s@)->0 < u256_modulus() ==> r is Ok
            && r->Ok_0@ == plain_ether_value(s@)->0,
        ether_text_kept_whole(s@) && ether_text_has_stray_char(s@) ==> (r matches Err(e) && e@
            == "invalid eth amount"@),
{
    proof {
        reveal_strlit("invalid eth amount");
    }
    match parse_ether_wei(s) {
        Some(v) => Ok(v),
        None => Err("invalid eth amount"),
    }
}

/// Parses a hex address, with or without a `0x` prefix.
pub fn eth_address_parser(s: &str) -> (r: Result<Address, &'static str>)
    ensures
        match decode_hex_address(s@) {
            Some(b) => r matches Ok(a) && a@ == b,
            None => r matches Err(e) && e@ == "invalid address"@,
        },
{
    match parse_hex_address(s) {
        Ok(a) => Ok(a),
        Err(_) => Err("invalid address"),
    }
}

} // verus!
