use flash_sync::ids::{convert_id, get_asset_id, get_default_asset_id};

fn hex32(s: &str) -> [u8; 32] {
    let mut out = [0u8; 32];
    for i in 0..32 {
        out[i] = u8::from_str_radix(&s[2 * i..2 * i + 2], 16).unwrap();
    }
    out
}

#[test]
fn default_asset_id_of_zero_contract() {
    assert_eq!(
        get_default_asset_id([0u8; 32]),
        hex32("f5a5fd42d16a20302798ef6ed309979b43003d2320d9f0e8ea9831a92759fb4b")
    );
}

#[test]
fn asset_id_hashes_contract_then_sub_id() {
    assert_eq!(
        get_asset_id([1u8; 32], [2u8; 32]),
        hex32("c57d4f59c961b13e406cd991b0f342ec79e571dc2c1415ff72c6550645a3b198")
    );
}

#[test]
fn asset_id_depends_on_order_of_contract_and_sub_id() {
    assert_ne!(get_asset_id([1u8; 32], [2u8; 32]), get_asset_id([2u8; 32], [1u8; 32]));
}

#[test]
fn default_asset_id_is_asset_id_with_zero_sub_id() {
    let contract = [2u8; 32];
    assert_eq!(get_default_asset_id(contract), get_asset_id([0u8; 32], contract));
    assert_eq!(
        get_default_asset_id(contract),
        hex32("99795c4a032e419d11bf6b126146caf2017d9af9f81069e830c1df1e64c96a23")
    );
}

#[test]
fn distinct_sub_ids_give_distinct_asset_ids() {
    let contract = [7u8; 32];
    let mut other_sub = [0u8; 32];
    other_sub[31] = 1;
    assert_ne!(get_default_asset_id(contract), get_asset_id(other_sub, contract));
}

#[test]
fn convert_id_keeps_the_bytes() {
    let mut id = [0u8; 32];
    id[0] = 0xab;
    id[31] = 0xcd;
    assert_eq!(convert_id(id), id);
}
