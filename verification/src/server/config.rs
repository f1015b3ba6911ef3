//! The server's configuration: fee policy, the key that signs its
//! transactions, and the port it listens on.
use crate::address::Address;
use crate::ether_text_laws::law_short_ether_text_reads_back;
use crate::u256::{lemma_view_bound, u256_modulus, U256};
use crate::units::{
    digit_value, digits_value, ether_cut_splits_char, ether_short_text, parse_ether_wei, plain_ether_split, plain_ether_value, plain_ether_wei, pow10,
};
use alloy::signers::local::PrivateKeySigner;
use vstd::prelude::*;
use vstd::string::StringSliceAdditionalSpecFns;
use vstd::utf8::encode_utf8;

verus! {

/// The server's settings.
#[derive(Clone, Copy, Debug)]
pub struct Config {
    /// The prover fee must be at least `max(min_prover_fee, burnt amount / prover_fee_share_inv)`;
    /// a share of 0 leaves only the minimum.
    pub prover_fee_share_inv: u64,
    /// The least prover fee accepted, in wei.
    pub min_prover_fee: U256,
    /// The least broadcaster fee accepted, in wei.
    pub min_broadcaster_fee: U256,
    /// The secret key that signs the server's transactions and earns its fees.
    pub private_key: [u8; 32],
    pub port: u16,
}

/// Why a configuration was refused.
#[derive(Debug, PartialEq, Eq, Structural)]
pub enum ConfigError {
    /// The private key is all zeros, the placeholder of a fresh configuration.
    ZeroPrivateKey,
}

/// Whether every byte of a key is zero.
pub open spec fn is_zero_key(k: Seq<u8>) -> bool {
    forall|i: int| 0 <= i < k.len() ==> k[i] == 0
}

/// The address of the account that a 32-byte secret key controls, or `None`
/// when the bytes are not a valid secp256k1 secret key.
pub uninterp spec fn secret_key_address(key: Seq<u8>) -> Option<Seq<u8>>;

/// Calls alloy's `PrivateKeySigner::from_bytes` and then `address()`. The
/// address is named, not computed here; the one fact stated is the one the
/// source shows plainly: a zero scalar is refused.
#[verifier::external_body]
pub(crate) fn address_of_secret_key(key: &[u8; 32]) -> (r: Option<Address>)
    ensures
        match secret_key_address(key@) {
            Some(a) => r matches Some(x) && x@ == a,
            None => r is None,
        },
        is_zero_key(key@) ==> r is None,
{
    match PrivateKeySigner::from_bytes(&alloy::primitives::B256::from(*key)) {
        Ok(signer) => Some(Address { bytes: signer.address().into_array() }),
        Err(_) => None,
    }
}

/// The least prover fee accepted for proving a burn of `burnt` wei:
/// `max(min_prover_fee, burnt / prover_fee_share_inv)`, or just the minimum
/// when the share is 0.
pub open spec fn required_prover_fee(c: Config, burnt: nat) -> nat {
    if c.prover_fee_share_inv == 0 || burnt / (c.prover_fee_share_inv as nat) <= c.min_prover_fee@ {
        c.min_prover_fee@
    } else {
        burnt / (c.prover_fee_share_inv as nat)
    }
}

/// The required prover fee is the larger of the minimum and the burnt
/// amount's share: never below either, and equal to one of them.
pub proof fn law_required_fee_is_the_larger_bound(c: Config, burnt: nat)
    ensures
        required_prover_fee(c, burnt) >= c.min_prover_fee@,
        c.prover_fee_share_inv > 0 ==> required_prover_fee(c, burnt) >= burnt / (c.prover_fee_share_inv as nat),
        required_prover_fee(c, burnt) == c.min_prover_fee@ || (c.prover_fee_share_inv > 0
            && required_prover_fee(c, burnt) == burnt / (c.prover_fee_share_inv as nat)),
{
}

/// A configuration's fees, saved as `format_ether_short` writes them, load
/// back unchanged through `eth_amount_parser`: each text is a plain amount
/// of the same value, and the parser's no-cut condition holds for it.
pub proof fn law_saved_fees_load_back(c: Config)
    ensures
        plain_ether_value(ether_short_text(c.min_prover_fee@)) == Some(c.min_prover_fee@),
        !ether_cut_splits_char(encode_utf8(ether_short_text(c.min_prover_fee@))),
        plain_ether_value(ether_short_text(c.min_broadcaster_fee@)) == Some(c.min_broadcaster_fee@),
        !ether_cut_splits_char(encode_utf8(ether_short_text(c.min_broadcaster_fee@))),
{
    lemma_view_bound(c.min_prover_fee);
    lemma_view_bound(c.min_broadcaster_fee);
    law_short_ether_text_reads_back(c.min_prover_fee@);
    law_short_ether_text_reads_back(c.min_broadcaster_fee@);
}

/// 0.001 ether in wei.
pub open spec fn one_milliether() -> nat {
    1_000_000_000_000_000
}

impl Default for Config {
    /// The configuration written on first start: fees of 0.001 ether, a 5%
    /// prover fee share, port 8080, and a zero key that has to be replaced.
    fn default() -> (r: Config)
        ensures
            is_default_config(r),
    {
        let fee = parse_milliether();
        Config {
            prover_fee_share_inv: 20,
            min_prover_fee: fee,
            min_broadcaster_fee: fee,
            private_key: [0u8; 32],
            port: 8080,
        }
    }
}

/// `parse_ether("0.001")`, which is 10^15 wei.
fn parse_milliether() -> (r: U256)
    ensures
        r@ == one_milliether(),
{
    let text = "0.001";
    proof {
        reveal_strlit("0.001");
        let s = text@;
        assert(s.len() == 5);
        assert(s.subrange(0, 1) =~= seq!['0']);
        assert(s.subrange(2, 5) =~= seq!['0', '0', '1']);
        assert(plain_ether_split(s, 1));
        assert forall|p: int| plain_ether_split(s, p) implies p == 1 by {
            if p > 1 {
                assert(s.subrange(0, p)[1] == '.');
            }
        }
        let p = choose|p: int| plain_ether_split(s, p);
        assert(p == 1);
        assert(seq!['0', '0', '1'].drop_last() =~= seq!['0', '0']);
        assert(seq!['0', '0'].drop_last() =~= seq!['0']);
        assert(seq!['0'].drop_last() =~= Seq::<char>::empty());
        assert(digits_value(Seq::<char>::empty()) == 0);
        assert(digits_value(seq!['0']) == 10 * digits_value(Seq::<char>::empty()) + digit_value('0'));
        assert(digits_value(seq!['0']) == 0);
        assert(digits_value(seq!['0', '0']) == 10 * digits_value(seq!['0']) + digit_value('0'));
        assert(digits_value(seq!['0', '0', '1']) == 10 * digits_value(seq!['0', '0']) + digit_value('1'));
        assert(digits_value(seq!['0', '0', '1']) == 1);
        reveal_with_fuel(pow10, 19);
        assert(pow10(15) == 1_000_000_000_000_000);
        assert(plain_ether_wei(s, 1) == one_milliether());
        assert(vstd::utf8::is_ascii_chars(s));
        vstd::string::is_ascii_spec_bytes(text);
        assert(text.spec_bytes().len() == 5);
    }
    match parse_ether_wei(text) {
        Some(v) => v,
        None => {
            proof {
                assert(false);
            }
            U256::zero()
        },
    }
}

impl Config {
    /// The least prover fee accepted for proving a burn of `burnt` wei.
    pub fn required_prover_fee(&self, burnt: &U256) -> (r: U256)
        ensures
            r@ == required_prover_fee(*self, burnt@),
    {
        if self.prover_fee_share_inv == 0 {
            return self.min_prover_fee;
        }
        let share = burnt.div_u64(self.prover_fee_share_inv);
        if self.min_prover_fee.lt(&share) {
            share
        } else {
            self.min_prover_fee
        }
    }

    /// Refuses a configuration whose private key was left all zeros.
    pub fn check_private_key(&self) -> (r: Result<(), ConfigError>)
        ensures
            r == key_check_result(*self),
    {
        let mut i: usize = 0;
        while i < 32
            invariant
                i <= 32,
                forall|j: int| 0 <= j < i ==> self.private_key@[j] == 0,
            decreases 32 - i,
        {
            if self.private_key[i] != 0 {
                return Ok(());
            }
            i = i + 1;
        }
        Err(ConfigError::ZeroPrivateKey)
    }

    /// The address of the server's account, or `None` when the key is not a
    /// valid secret key.
    pub fn signer_address(&self) -> (r: Option<Address>)
        ensures
            match secret_key_address(self.private_key@) {
                Some(a) => r matches Some(x) && x@ == a,
                None => r is None,
            },
    {
        match address_of_secret_key(&self.private_key) {
            Some(_) => Some(self.address()),
            None => None,
        }
    }

    /// The address of the server's account; the key must be a valid secret key.
    pub fn address(&self) -> (r: Address)
        requires
            secret_key_address(self.private_key@) is Some,
        ensures
            r@ == secret_key_address(self.private_key@)->0,
    {
        match address_of_secret_key(&self.private_key) {
            Some(a) => a,
            None => {
                proof {
                    assert(false);
                }
                Address { bytes: [0u8; 20] }
            },
        }
    }
}

/// Whether a configuration is refused: `Err` exactly when the key is all zeros.
pub open spec fn key_check_result(c: Config) -> Result<(), ConfigError> {
    if is_zero_key(c.private_key@) {
        Err(ConfigError::ZeroPrivateKey)
    } else {
        Ok(())
    }
}

/// Only the all-zero placeholder key is refused: a key with any non-zero
/// byte passes the check, and a key whose thirty-two bytes are all zero does not.
pub proof fn law_only_the_zero_key_is_refused(c: Config)
    ensures
        (exists|i: int| 0 <= i < 32 && #[trigger] c.private_key@[i] != 0) ==> key_check_result(c) == Ok::<
            (),
            ConfigError,
        >(()),
        (forall|i: int| 0 <= i < 32 ==> #[trigger] c.private_key@[i] == 0) ==> key_check_result(c) == Err::<
            (),
            ConfigError,
        >(ConfigError::ZeroPrivateKey),
{
}

/// The configuration `Config::default` writes, as its contract describes it.
pub open spec fn is_default_config(c: Config) -> bool {
    &&& c.prover_fee_share_inv == 20
    &&& c.min_prover_fee@ == one_milliether()
    &&& c.min_broadcaster_fee@ == one_milliether()
    &&& is_zero_key(c.private_key@)
    &&& c.port == 8080
}

/// A freshly written default configuration is refused until its key is replaced.
pub proof fn law_default_config_is_refused(c: Config)
    requires
        is_default_config(c),
    ensures
        key_check_result(c) == Err::<(), ConfigError>(ConfigError::ZeroPrivateKey),
{
}

/// The default configuration in numbers: a prover fee share of one
/// twentieth, minimum fees of 10^15 wei (0.001 ether), port 8080, and a
/// placeholder key of thirty-two zero bytes.
pub proof fn law_default_config_values(c: Config)
    requires
        is_default_config(c),
    ensures
        c.prover_fee_share_inv == 20,
        c.min_prover_fee@ == 1_000_000_000_000_000,
        c.min_broadcaster_fee@ == 1_000_000_000_000_000,
        c.port == 8080,
        forall|i: int| 0 <= i < 32 ==> #[trigger] c.private_key@[i] == 0,
{
}

} // verus!
