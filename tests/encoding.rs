use pusd_connector::abi::{address_value, encode_call, AbiValue, U256};
use pusd_connector::contract::{denom_of, require_owner, ContractError};
use pusd_connector::state::{ChainRegistry, ChainSetting, State};

fn decode_word(word: &[u8]) -> [u8; 32] {
    let mut b = [0u8; 32];
    b.copy_from_slice(word);
    b
}

#[test]
fn uint_round_trip_at_the_bounds() {
    let mut one = [0u8; 32];
    one[31] = 1;
    for bytes in [[0u8; 32], one, [0xffu8; 32]] {
        let n = U256::from_be_bytes(bytes);
        let data = encode_call("update_gas_fee", Some(AbiValue::Uint(n)));
        assert_eq!(data.len(), 36);
        let back = U256::from_be_bytes(decode_word(&data[4..36]));
        assert_eq!(back, n);
        assert_eq!(back.to_be_bytes(), bytes);
    }
}

#[test]
fn call_without_argument_is_selector_only() {
    assert_eq!(encode_call("set_paloma", None), vec![0x23, 0xfd, 0xe8, 0xe2]);
}

#[test]
fn address_word_is_left_padded() {
    let data = encode_call("update_pusd", Some(AbiValue::Address([0x22u8; 20])));
    assert_eq!(data[..4], [0x41, 0x82, 0x0e, 0x3e]);
    assert!(data[4..16].iter().all(|b| *b == 0));
    assert!(data[16..].iter().all(|b| *b == 0x22));
}

#[test]
fn address_text_is_decoded() {
    let v = address_value("0x00112233445566778899aabbccddeeff00112233").unwrap();
    let mut expected = [0u8; 20];
    for (i, b) in expected.iter_mut().enumerate() {
        *b = ((i % 16) as u8) * 0x11;
    }
    assert_eq!(v, AbiValue::Address(expected));
    assert_eq!(address_value("0x0011"), None);
    assert_eq!(address_value("0xg0112233445566778899aabbccddeeff00112233"), None);
}

#[test]
fn owner_check() {
    let s = State { owner: "a".to_string(), pusd_manager: "m".to_string() };
    assert_eq!(require_owner(&"a".to_string(), &s), Ok(()));
    assert_eq!(require_owner(&"b".to_string(), &s), Err(ContractError::Unauthorized));
}

#[test]
fn denomination_of_manager() {
    assert_eq!(denom_of(&"paloma1xyz".to_string()), "factory/paloma1xyz/upusd");
}

#[test]
fn registry_lookup_and_upsert() {
    let mut r = ChainRegistry::new();
    assert_eq!(r.len(), 0);
    assert_eq!(r.lookup(&"x".to_string()), None);
    r.register("x".to_string(), ChainSetting { job_id: "1".to_string() });
    r.register("y".to_string(), ChainSetting { job_id: "2".to_string() });
    r.register("x".to_string(), ChainSetting { job_id: "3".to_string() });
    assert_eq!(r.len(), 2);
    assert_eq!(r.lookup(&"x".to_string()), Some(ChainSetting { job_id: "3".to_string() }));
    assert_eq!(r.lookup(&"y".to_string()), Some(ChainSetting { job_id: "2".to_string() }));
    assert_eq!(r.list().len(), 2);
}
