use flash_sync::config::{
    script_bytecode_hash, FlashAdminScriptConfig, FlashScriptConfig, Identity,
};
use flash_sync::setup::{
    setup_start, setup_step, SetupAction, SetupEvent, SetupStage, AMOUNT_PER_COIN,
    AMOUNT_TO_BORROW, AMOUNT_TO_REFUND_VAULT, COINS_PER_WALLET, WALLET_COUNT,
};

fn wallets() -> Vec<[u8; 32]> {
    vec![[0xa0u8; 32], [0xa1u8; 32], [0xa2u8; 32]]
}

#[test]
fn setup_starts_by_launching_three_funded_wallets() {
    let (state, action) = setup_start();
    assert_eq!(state.stage, SetupStage::AwaitWallets);
    assert!(state.wallets.is_empty());
    assert_eq!(
        action,
        SetupAction::LaunchWallets {
            wallet_count: 3,
            coins_per_wallet: 1,
            amount_per_coin: 10_000_000_000
        }
    );
    assert_eq!((WALLET_COUNT, COINS_PER_WALLET, AMOUNT_PER_COIN), (3, 1, 10_000_000_000));
}

#[test]
fn setup_runs_to_completion_and_wires_the_predicate() {
    let base = [0xbbu8; 32];
    let vault = [0x11u8; 32];
    let settler = [0x22u8; 32];
    let abi_impl = [0x33u8; 32];
    let script_binary = vec![1u8, 2, 3, 4];
    let admin_binary = vec![9u8, 8, 7];

    let (state, _) = setup_start();
    let event = SetupEvent::WalletsLaunched { wallets: wallets(), base_asset_id: base };
    assert!(state.accepts(&event));
    let (state, action) = setup_step(state, event);
    assert_eq!(
        action,
        SetupAction::DeployFlashVault { deployer: 0, owner: Identity::Address([0xa0u8; 32]) }
    );

    let event = SetupEvent::FlashVaultDeployed { contract_id: vault };
    assert!(state.accepts(&event));
    let (state, action) = setup_step(state, event);
    assert_eq!(action, SetupAction::DeployFlashSettler { deployer: 0 });

    let event = SetupEvent::FlashSettlerDeployed { contract_id: settler };
    assert!(state.accepts(&event));
    let (state, action) = setup_step(state, event);
    assert_eq!(
        action,
        SetupAction::DeployFlashAbiImpl { deployer: 1, flash_settler: Identity::ContractId(settler) }
    );

    let event = SetupEvent::FlashAbiImplDeployed { contract_id: abi_impl };
    assert!(state.accepts(&event));
    let (state, action) = setup_step(state, event);
    assert_eq!(
        action,
        SetupAction::LoadFlashScript {
            account: 2,
            config: FlashScriptConfig { flash_settler: settler, loan_asset_id: base },
            flash_abi_impl_id: abi_impl,
            amount: 900_000,
        }
    );
    assert_eq!(AMOUNT_TO_BORROW, 900_000);

    let event = SetupEvent::FlashScriptLoaded { script_binary: script_binary.clone() };
    assert!(state.accepts(&event));
    let (state, action) = setup_step(state, event);
    assert_eq!(
        action,
        SetupAction::LoadFlashAdminScript {
            account: 0,
            config: FlashAdminScriptConfig { vault_contract_id: vault, loan_asset_id: base },
            amount: 1_000_000,
        }
    );
    assert_eq!(AMOUNT_TO_REFUND_VAULT, 1_000_000);

    let event = SetupEvent::FlashAdminScriptLoaded { script_binary: admin_binary.clone() };
    assert!(state.accepts(&event));
    let (state, action) = setup_step(state, event);
    match action {
        SetupAction::LoadFlashLoanPredicate { config } => {
            assert_eq!(config.loan_asset, base);
            assert_eq!(config.signers, [[0xa0u8; 32], [0xa1u8; 32], [0xa2u8; 32]]);
            assert_eq!(config.required_signatures, 1);
            assert_eq!(
                config.expected_flash_loan_script_bytecode_hash,
                script_bytecode_hash(&script_binary)
            );
            assert_eq!(
                config.expected_flash_admin_script_bytecode_hash,
                script_bytecode_hash(&admin_binary)
            );
            assert_eq!(config.flash_settler_address, settler);
            assert_eq!(config.vault_address, vault);
        },
        other => panic!("unexpected action {:?}", other),
    }

    let event = SetupEvent::FlashLoanPredicateLoaded;
    assert!(state.accepts(&event));
    let (state, action) = setup_step(state, event);
    assert_eq!(action, SetupAction::Finish);
    assert_eq!(state.stage, SetupStage::Done);
    assert_eq!(state.wallets, wallets());
    assert_eq!(state.base_asset_id, base);
    assert_eq!(state.flash_vault_contract_id, vault);
    assert_eq!(state.flash_settler_contract_id, settler);
    assert_eq!(state.flash_abi_impl_contract_id, abi_impl);
    assert_eq!(state.flash_script_hash, script_bytecode_hash(&script_binary));
    assert_eq!(state.flash_admin_script_hash, script_bytecode_hash(&admin_binary));
}

#[test]
fn setup_refuses_out_of_order_answers() {
    let (state, _) = setup_start();
    assert!(!state.accepts(&SetupEvent::FlashVaultDeployed { contract_id: [1u8; 32] }));
    assert!(!state.accepts(&SetupEvent::FlashLoanPredicateLoaded));
    let (state, _) = setup_step(
        state,
        SetupEvent::WalletsLaunched { wallets: wallets(), base_asset_id: [0u8; 32] },
    );
    assert!(!state.accepts(&SetupEvent::WalletsLaunched { wallets: wallets(), base_asset_id: [0u8; 32] }));
    assert!(!state.accepts(&SetupEvent::FlashScriptLoaded { script_binary: vec![] }));
    assert!(state.accepts(&SetupEvent::FlashVaultDeployed { contract_id: [1u8; 32] }));
}

#[test]
fn setup_refuses_fewer_than_three_wallets() {
    let (state, _) = setup_start();
    let event = SetupEvent::WalletsLaunched {
        wallets: vec![[1u8; 32], [2u8; 32]],
        base_asset_id: [0u8; 32],
    };
    assert!(!state.accepts(&event));
}
