use worm_miner::cli_args::{eth_address_parser, eth_amount_parser};
use worm_miner::u256::U256;
use worm_miner::units::{format_ether_short, parse_ether_splits_char, trim_end_matches_char};

#[test]
fn plain_amounts_parse_to_wei() {
    assert_eq!(eth_amount_parser("1").unwrap(), U256::from_u64(1_000_000_000_000_000_000));
    assert_eq!(eth_amount_parser("0.5").unwrap(), U256::from_u64(500_000_000_000_000_000));
    assert_eq!(eth_amount_parser("0.000000000000000001").unwrap(), U256::from_u64(1));
    assert_eq!(eth_amount_parser("18.446744073709551615").unwrap(), U256::from_u64(u64::MAX));
    assert_eq!(eth_amount_parser("20").unwrap(), U256 { l0: 1_553_255_926_290_448_384, l1: 1, l2: 0, l3: 0 });
}

#[test]
fn bad_amounts_are_refused() {
    assert_eq!(eth_amount_parser("abc"), Err("invalid eth amount"));
    assert_eq!(eth_amount_parser("1.2.3"), Err("invalid eth amount"));
    assert_eq!(eth_amount_parser("\u{e9}"), Err("invalid eth amount"));
}

#[test]
fn addresses_parse_with_or_without_prefix() {
    let a = eth_address_parser("59Cd66cbb73D99e126Fa557E588f3d8dE8011b2C").unwrap();
    let b = eth_address_parser("0x59cd66cbb73d99e126fa557e588f3d8de8011b2c").unwrap();
    assert_eq!(a.bytes, b.bytes);
    assert_eq!(a.bytes[0], 0x59);
    assert_eq!(eth_address_parser("0x59cd").unwrap_err(), "invalid address");
    assert!(eth_address_parser("0x59cd66cbb73d99e126fa557e588f3d8de8011b2g").is_err());
}

#[test]
fn ether_amounts_are_shown_without_trailing_zeros() {
    assert_eq!(format_ether_short(&U256::from_u64(1_000_000_000_000_000)), "0.001");
    assert_eq!(format_ether_short(&U256::from_u64(1_000_000_000_000_000_000)), "1");
    assert_eq!(format_ether_short(&U256::from_u64(1_500_000_000_000_000_000)), "1.5");
    assert_eq!(format_ether_short(&U256::from_u64(0)), "0");
    assert_eq!(format_ether_short(&eth_amount_parser("10").unwrap()), "10");
}

#[test]
fn trimming_takes_every_trailing_match() {
    assert_eq!(trim_end_matches_char("1.2000", '0'), "1.2");
    assert_eq!(trim_end_matches_char("000", '0'), "");
    assert_eq!(trim_end_matches_char("10.", '.'), "10");
    assert_eq!(trim_end_matches_char("", '.'), "");
}

#[test]
fn shown_amounts_read_back_exactly() {
    for v in [
        U256::from_u64(0),
        U256::from_u64(1),
        U256::from_u64(1_000_000_000_000_000),
        U256::from_u64(123_456_789_000_000_000),
        U256::from_u64(u64::MAX),
        U256 { l0: 7, l1: 0, l2: 3, l3: 1 << 40 },
    ] {
        assert_eq!(eth_amount_parser(&format_ether_short(&v)).unwrap(), v);
    }
}

#[test]
fn long_fractions_are_cut_by_bytes() {
    assert!(!parse_ether_splits_char("1.000000000000000000\u{e9}"));
    assert_eq!(eth_amount_parser("1.000000000000000000\u{e9}").unwrap(), U256::from_u64(1_000_000_000_000_000_000));
    assert!(parse_ether_splits_char("1.00000000000000000\u{e9}"));
    assert!(!parse_ether_splits_char("1.5\u{e9}"));
    assert_eq!(eth_amount_parser("1.5\u{e9}"), Err("invalid eth amount"));
    assert!(!parse_ether_splits_char("12.5"));
    assert!(!parse_ether_splits_char("no point \u{e9}\u{e9}\u{e9}\u{e9}\u{e9}\u{e9}\u{e9}\u{e9}\u{e9}\u{e9}"));
}

#[test]
fn stray_characters_are_refused() {
    assert_eq!(eth_amount_parser("+1"), Err("invalid eth amount"));
    assert_eq!(eth_amount_parser("1 "), Err("invalid eth amount"));
    assert_eq!(eth_amount_parser("1-2"), Err("invalid eth amount"));
    assert_eq!(eth_amount_parser("0x10"), Err("invalid eth amount"));
    assert_eq!(
        eth_amount_parser("1_000").unwrap(),
        U256 { l0: 3_875_820_019_684_212_736, l1: 54, l2: 0, l3: 0 }
    );
    // A leading minus is read, and the result is the two's complement bits.
    assert_eq!(
        eth_amount_parser("-1").unwrap(),
        U256 { l0: 17_446_744_073_709_551_616, l1: u64::MAX, l2: u64::MAX, l3: u64::MAX }
    );
}
