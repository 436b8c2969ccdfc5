use flash_sync::config::{
    flash_admin_script_config, flash_loan_predicate_config, flash_script_config,
    script_bytecode_hash, FlashAdminScriptConfig, FlashScriptConfig, REQUIRED_SIGNATURES,
};

fn hex32(s: &str) -> [u8; 32] {
    let mut out = [0u8; 32];
    for i in 0..32 {
        out[i] = u8::from_str_radix(&s[2 * i..2 * i + 2], 16).unwrap();
    }
    out
}

#[test]
fn bytecode_hash_is_sha256_of_binary() {
    assert_eq!(
        script_bytecode_hash(b"hello world"),
        hex32("b94d27b9934d3e08a52e52d7da7dabfac484efe37a5380ee9088f7ace2efcde9")
    );
    assert_eq!(
        script_bytecode_hash(&[]),
        hex32("e3b0c44298fc1c149afbf4c8996fb92427ae41e4649b934ca495991b7852b855")
    );
    assert_eq!(
        script_bytecode_hash(&[0x1a, 0x2b, 0x3c]),
        hex32("f26c9c06a82db27233b98a2b1c5a778c987613f7589ef1fa04c39fe3f6e30e3b")
    );
}

#[test]
fn flash_script_config_lends_base_asset_through_settler() {
    let config = flash_script_config([3u8; 32], [4u8; 32]);
    assert_eq!(config, FlashScriptConfig { flash_settler: [4u8; 32], loan_asset_id: [3u8; 32] });
}

#[test]
fn admin_script_config_refunds_vault_in_base_asset() {
    let config = flash_admin_script_config([3u8; 32], [5u8; 32]);
    assert_eq!(
        config,
        FlashAdminScriptConfig { vault_contract_id: [5u8; 32], loan_asset_id: [3u8; 32] }
    );
}

#[test]
fn predicate_config_takes_first_three_signers() {
    let signers = vec![[10u8; 32], [11u8; 32], [12u8; 32], [13u8; 32]];
    let config =
        flash_loan_predicate_config([1u8; 32], [2u8; 32], &signers, [6u8; 32], [7u8; 32], [8u8; 32]);
    assert_eq!(config.signers, [[10u8; 32], [11u8; 32], [12u8; 32]]);
    assert_eq!(config.required_signatures, 1);
    assert_eq!(REQUIRED_SIGNATURES, 1);
    assert_eq!(config.expected_flash_admin_script_bytecode_hash, [1u8; 32]);
    assert_eq!(config.expected_flash_loan_script_bytecode_hash, [2u8; 32]);
    assert_eq!(config.flash_settler_address, [6u8; 32]);
    assert_eq!(config.vault_address, [7u8; 32]);
    assert_eq!(config.loan_asset, [8u8; 32]);
}
