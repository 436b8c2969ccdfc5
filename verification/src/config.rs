use vstd::prelude::*;

use crate::digest::{lemma_sha256_bytes32, sha256, sha256_bytes32, sha256_digest};

verus! {

/// The number of admin signatures the flash loan predicate asks of an admin script.
pub const REQUIRED_SIGNATURES: u64 = 1;

/// Who a contract is told about: a wallet address or another contract.
#[derive(Clone, Copy, Debug, PartialEq, Eq)]
pub enum Identity {
    Address([u8; 32]),
    ContractId([u8; 32]),
}

/// The configurable constants of the flash loan script.
#[derive(Clone, Copy, Debug, PartialEq, Eq)]
pub struct FlashScriptConfig {
    /// The flash settler contract that the loan is forwarded to.
    pub flash_settler: [u8; 32],
    /// The asset that is lent.
    pub loan_asset_id: [u8; 32],
}

/// The configurable constants of the flash admin script.
#[derive(Clone, Copy, Debug, PartialEq, Eq)]
pub struct FlashAdminScriptConfig {
    /// The vault that receives the funds.
    pub vault_contract_id: [u8; 32],
    /// The asset that is moved.
    pub loan_asset_id: [u8; 32],
}

/// The configurable constants of the flash loan predicate.
#[derive(Clone, Copy, Debug, PartialEq, Eq)]
pub struct FlashLoanPredicateConfig {
    pub loan_asset: [u8; 32],
    pub signers: [[u8; 32]; 3],
    pub required_signatures: u64,
    pub expected_flash_loan_script_bytecode_hash: [u8; 32],
    pub expected_flash_admin_script_bytecode_hash: [u8; 32],
    pub flash_settler_address: [u8; 32],
    pub vault_address: [u8; 32],
}

/// The three signers `first`, `second`, `third`, in that order.
pub open spec fn signer_triple(first: [u8; 32], second: [u8; 32], third: [u8; 32]) -> [[u8; 32]; 3] {
    [first, second, third]
}

/// The predicate configuration built from the script hashes, the first three
/// signers, the settler and vault contracts and the loan asset.
pub open spec fn predicate_config_of(
    admin_script_hash: [u8; 32],
    script_hash: [u8; 32],
    signers: Seq<[u8; 32]>,
    flash_settler_contract_id: [u8; 32],
    flash_vault_contract_id: [u8; 32],
    base_asset_id: [u8; 32],
) -> FlashLoanPredicateConfig {
    FlashLoanPredicateConfig {
        loan_asset: base_asset_id,
        signers: signer_triple(signers[0], signers[1], signers[2]),
        required_signatures: REQUIRED_SIGNATURES,
        expected_flash_loan_script_bytecode_hash: script_hash,
        expected_flash_admin_script_bytecode_hash: admin_script_hash,
        flash_settler_address: flash_settler_contract_id,
        vault_address: flash_vault_contract_id,
    }
}

/// The configuration of the flash loan script: it lends `base_asset` and
/// forwards it to `flash_settler`.
pub fn flash_script_config(base_asset: [u8; 32], flash_settler: [u8; 32]) -> (config:
    FlashScriptConfig)
    ensures
        config == (FlashScriptConfig { flash_settler, loan_asset_id: base_asset }),
{
    FlashScriptConfig { flash_settler, loan_asset_id: base_asset }
}

/// The configuration of the flash admin script: it moves `base_asset` to
/// `flash_vault`.
pub fn flash_admin_script_config(base_asset: [u8; 32], flash_vault: [u8; 32]) -> (config:
    FlashAdminScriptConfig)
    ensures
        config == (FlashAdminScriptConfig { vault_contract_id: flash_vault, loan_asset_id: base_asset }),
{
    FlashAdminScriptConfig { vault_contract_id: flash_vault, loan_asset_id: base_asset }
}

/// The bytecode hash under which the predicate knows a script: SHA-256 of
/// the script's binary.
pub fn script_bytecode_hash(script_binary: &[u8]) -> (hash: [u8; 32])
    ensures
        hash@ == sha256_digest(script_binary@),
        hash == sha256_bytes32(script_binary@),
{
    let hash = sha256(script_binary);
    proof {
        lemma_sha256_bytes32(script_binary@, hash);
    }
    hash
}

/// The configuration of the flash loan predicate: the first three `signers`,
/// one required signature, the expected bytecode hashes of the flash loan
/// script and of the admin script, the settler and vault addresses (the
/// contracts' ids) and the loan asset.
pub fn flash_loan_predicate_config(
    admin_script_hash: [u8; 32],
    script_hash: [u8; 32],
    signers: &[[u8; 32]],
    flash_settler_contract_id: [u8; 32],
    flash_vault_contract_id: [u8; 32],
    base_asset_id: [u8; 32],
) -> (config: FlashLoanPredicateConfig)
    requires
        signers@.len() >= 3,
    ensures
        config == predicate_config_of(
            admin_script_hash,
            script_hash,
            signers@,
            flash_settler_contract_id,
            flash_vault_contract_id,
            base_asset_id,
        ),
        config.loan_asset == base_asset_id,
        config.signers@.len() == 3,
        config.signers@[0] == signers@[0],
        config.signers@[1] == signers@[1],
        config.signers@[2] == signers@[2],
        config.required_signatures == 1,
        config.expected_flash_loan_script_bytecode_hash == script_hash,
        config.expected_flash_admin_script_bytecode_hash == admin_script_hash,
        config.flash_settler_address == flash_settler_contract_id,
        config.vault_address == flash_vault_contract_id,
{
    let chosen: [[u8; 32]; 3] = [signers[0], signers[1], signers[2]];
    assert(chosen =~= signer_triple(signers@[0], signers@[1], signers@[2]));
    FlashLoanPredicateConfig {
        loan_asset: base_asset_id,
        signers: chosen,
        required_signatures: REQUIRED_SIGNATURES,
        expected_flash_loan_script_bytecode_hash: script_hash,
        expected_flash_admin_script_bytecode_hash: admin_script_hash,
        flash_settler_address: flash_settler_contract_id,
        vault_address: flash_vault_contract_id,
    }
}

/// Every field of the predicate configuration is the argument it is named
/// after, byte for byte: the loan asset is the base asset, the signers are the
/// first three given signers in their order, one signature is required, the
/// expected bytecode hashes are the flash loan script's and the admin
/// script's hashes (not swapped), and the settler and vault addresses are the
/// settler's and the vault's contract ids.
pub proof fn lemma_predicate_config_fields(
    admin_script_hash: [u8; 32],
    script_hash: [u8; 32],
    signers: Seq<[u8; 32]>,
    flash_settler_contract_id: [u8; 32],
    flash_vault_contract_id: [u8; 32],
    base_asset_id: [u8; 32],
)
    requires
        signers.len() >= 3,
    ensures
        ({
            let config = predicate_config_of(
                admin_script_hash,
                script_hash,
                signers,
                flash_settler_contract_id,
                flash_vault_contract_id,
                base_asset_id,
            );
            &&& config.loan_asset == base_asset_id
            &&& config.signers@.len() == 3
            &&& config.signers@[0] == signers[0]
            &&& config.signers@[1] == signers[1]
            &&& config.signers@[2] == signers[2]
            &&& config.required_signatures == 1
            &&& config.expected_flash_loan_script_bytecode_hash == script_hash
            &&& config.expected_flash_admin_script_bytecode_hash == admin_script_hash
            &&& config.flash_settler_address == flash_settler_contract_id
            &&& config.vault_address == flash_vault_contract_id
        }),
{
    let config = predicate_config_of(
        admin_script_hash,
        script_hash,
        signers,
        flash_settler_contract_id,
        flash_vault_contract_id,
        base_asset_id,
    );
    assert(config.signers@[0] == signers[0]);
    assert(config.signers@[1] == signers[1]);
    assert(config.signers@[2] == signers[2]);
}

} // verus!
