use op_zisk::deployment::{
    build_all, checked_address, elf_failure_message, find_project_root, get_address,
    get_shared_config_data, parse_addresses, parse_b256_hex, DeploymentVars, SharedConfigStep,
    TWO_WEEKS_IN_SECONDS,
};

const ZERO: &str = "0x0000000000000000000000000000000000000000";
const KEY: &str = "0x0000000000000000000000000000000000000000000000000000000000000001";
const ADDRESS: &str = "0x7E5F4552091A69125d5DfCb7b8C2659029395Bdf";

fn set(text: &str) -> Option<String> {
    Some(text.to_string())
}

#[test]
fn two_weeks_are_so_many_seconds() {
    assert_eq!(TWO_WEEKS_IN_SECONDS, 1_209_600);
}

#[test]
fn address_has_three_sources() {
    assert_eq!(get_address(&set("0xabc"), true, &set(KEY)), "0xabc");
    assert_eq!(get_address(&None, true, &set(KEY)), ADDRESS);
    assert_eq!(get_address(&None, true, &set(&KEY[2..])), ADDRESS);
    assert_eq!(get_address(&None, false, &set(KEY)), ZERO);
    assert_eq!(get_address(&None, true, &None), ZERO);
    assert_eq!(get_address(&None, false, &set("no key")), ZERO);
}

#[test]
fn bad_private_key_has_no_address() {
    assert_eq!(checked_address(&None, true, &set("no key")), None);
    assert_eq!(checked_address(&None, true, &set(KEY)), set(ADDRESS));
    assert_eq!(checked_address(&set("x"), true, &set("no key")), set("x"));
    assert_eq!(checked_address(&None, false, &set("no key")), set(ZERO));
}

#[test]
fn addresses_are_listed_between_commas() {
    assert_eq!(parse_addresses(&set(" 0x1 ,, 0x2,\t")), vec!["0x1", "0x2"]);
    assert_eq!(parse_addresses(&set("")).len(), 0);
    assert_eq!(parse_addresses(&None).len(), 0);
}

#[test]
fn words_are_read_as_the_primitives_read_them() {
    let digits = "00112233445566778899aabbccddeeff00112233445566778899AABBCCDDEEFF";
    let texts = [
        digits.to_string(),
        format!("0x{digits}"),
        format!("  0x{digits}\n"),
        format!("0X{digits}"),
        format!("0x0x{digits}"),
        digits[2..].to_string(),
        format!("{digits}0"),
        format!("0x{}g", &digits[1..]),
        String::new(),
        "0x".to_string(),
    ];
    for text in texts {
        let expected: Option<alloy_primitives::B256> = text.trim().parse().ok();
        assert_eq!(parse_b256_hex(&text), expected.map(|w| w.0), "{text}");
    }
    assert_eq!(parse_b256_hex(digits).unwrap()[1], 0x11);
}

fn vars() -> DeploymentVars {
    DeploymentVars {
        op_zisk_mock: None,
        verifier_address: None,
        aggregation_vkey: set("agg"),
        agg_vkey: set("other"),
        range_vkey_commitment: set("given"),
        range_elf_path: None,
    }
}

#[test]
fn shared_configuration_takes_what_is_set() {
    match get_shared_config_data(&vars(), [0xab; 32], &None) {
        SharedConfigStep::Done(data) => {
            assert_eq!(data.rollup_config_hash, format!("0x{}", "ab".repeat(32)));
            assert_eq!(data.aggregation_vkey, "agg");
            assert_eq!(data.range_vkey_commitment, "given");
            assert_eq!(data.verifier_address, ZERO);
            assert!(!data.use_sp1_mock_verifier);
        }
        other => panic!("{other:?}"),
    }
    let v = DeploymentVars {
        op_zisk_mock: set("true"),
        verifier_address: set("0x9"),
        aggregation_vkey: None,
        ..vars()
    };
    match get_shared_config_data(&v, [0; 32], &None) {
        SharedConfigStep::Done(data) => {
            assert_eq!(data.aggregation_vkey, "other");
            assert_eq!(data.verifier_address, "0x9");
            assert!(data.use_sp1_mock_verifier);
        }
        other => panic!("{other:?}"),
    }
}

#[test]
fn commitment_comes_from_the_program_where_none_is_set() {
    let v = DeploymentVars { range_vkey_commitment: None, ..vars() };
    let path = "target/riscv64ima-zisk-zkvm-elf/release/range";
    assert!(matches!(
        get_shared_config_data(&v, [0; 32], &None),
        SharedConfigStep::ReadElf(p) if p == path
    ));
    let v = DeploymentVars { range_elf_path: set("my.elf"), ..v };
    assert!(matches!(
        get_shared_config_data(&v, [0; 32], &Some(None)),
        SharedConfigStep::Fail(p) if p == "my.elf"
    ));
    assert_eq!(elf_failure_message("my.elf"), "failed to derive commitment from ELF: my.elf");
    match get_shared_config_data(&v, [0; 32], &Some(Some(vec![]))) {
        SharedConfigStep::Done(data) => assert_eq!(
            data.range_vkey_commitment,
            "0xc5d2460186f7233c927e7db2dcc703c0e500b653ca82273b7bfad8045d85a470"
        ),
        other => panic!("{other:?}"),
    }
}

#[test]
fn project_root_is_the_nearest_repository() {
    assert_eq!(find_project_root(&vec![false, true, true]), Some(1));
    assert_eq!(find_project_root(&vec![true]), Some(0));
    assert_eq!(find_project_root(&vec![false, false]), None);
    assert_eq!(find_project_root(&vec![]), None);
}

#[test]
fn nothing_is_left_to_build() {
    build_all();
}
