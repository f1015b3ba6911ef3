//! The BETH-to-ETH swap contract: the post-mint hook that sells minted BETH for ETH.
use crate::abi::{
    abi_encode_address_u256_bytes, abi_encode_u256_address, abi_params_address_u256_bytes,
    abi_params_u256_address, keccak256, keccak256_digest,
};
use crate::address::{decode_hex_address, Address};
use crate::contracts::network::{address_text, opt_view, Network, NetworkError, WormContractKind};
use crate::u256::U256;
use vstd::prelude::*;
use vstd::string::*;

verus! {

/// The Solidity signature of the swap function, whose hash gives the selector.
pub open spec fn swap_signature() -> Seq<char> {
    "swapBethWithEth(uint256,address)"@
}

/// The four-byte selector of `swapBethWithEth(uint256,address)`.
pub open spec fn swap_selector() -> Seq<u8> {
    keccak256_digest(vstd::utf8::encode_utf8(swap_signature())).subrange(0, 4)
}

/// The call data of `swapBethWithEth(swap_amount, recipient)`.
pub open spec fn swap_calldata(swap_amount: U256, recipient: Seq<u8>) -> Seq<u8> {
    swap_selector() + abi_params_u256_address(swap_amount, recipient)
}

/// The hook run after a mint: the swap contract, the amount handed to it and
/// the call to make, ABI-encoded as `(address, uint256, bytes)`.
pub open spec fn swap_hook(contract: Seq<u8>, swap_amount: U256, recipient: Seq<u8>) -> Seq<u8> {
    abi_params_address_u256_bytes(contract, swap_amount, swap_calldata(swap_amount, recipient))
}

/// Builds calls to the BETH-to-ETH swap contract.
pub struct BETHToETHContract;

impl BETHToETHContract {
    /// The post-mint hook that swaps `swap_amount` BETH for ETH sent to `recipient`,
    /// through the swap contract of `network`. On Anvil the contract's address
    /// is the caller-supplied `anvil_address`.
    pub fn create_swap_hook(
        network: Network,
        swap_amount: U256,
        recipient: Address,
        anvil_address: Option<&str>,
    ) -> (r: Result<Vec<u8>, NetworkError>)
        requires
            network is Anvil ==> anvil_address is Some,
        ensures
            match decode_hex_address(address_text(network, WormContractKind::BethToEth, opt_view(anvil_address))) {
                Some(contract) => r matches Ok(hook) && hook@ == swap_hook(contract, swap_amount, recipient@)
                    && hook@.len() == 224,
                None => r matches Err(NetworkError::InvalidContractAddress { .. }),
            },
    {
        let calldata = Self::create_swap_beth_with_eth_calldata(swap_amount, recipient);
        let contract = network.beth_to_eth_address(anvil_address)?;
        Ok(abi_encode_address_u256_bytes(&contract, &swap_amount, calldata.as_slice()))
    }

    /// The call data of `swapBethWithEth(swap_amount, recipient)`: the selector,
    /// then the ABI-encoded arguments.
    pub fn create_swap_beth_with_eth_calldata(swap_amount: U256, recipient: Address) -> (r: Vec<u8>)
        ensures
            r@ == swap_calldata(swap_amount, recipient@),
            r@.len() == 68,
    {
        let digest = keccak256("swapBethWithEth(uint256,address)".as_bytes());
        let mut call: Vec<u8> = Vec::new();
        call.push(digest[0]);
        call.push(digest[1]);
        call.push(digest[2]);
        call.push(digest[3]);
        let mut args = abi_encode_u256_address(&swap_amount, &recipient);
        call.append(&mut args);
        assert(call@ =~= swap_calldata(swap_amount, recipient@));
        call
    }
}

} // verus!
