use vstd::prelude::*;

use crate::config::{
    flash_admin_script_config, flash_loan_predicate_config, flash_script_config,
    lemma_predicate_config_fields, predicate_config_of, script_bytecode_hash, FlashAdminScriptConfig, FlashLoanPredicateConfig,
    FlashScriptConfig, Identity,
};
use crate::digest::sha256_bytes32;
use crate::ids::zero_sub_id;

verus! {

/// How many wallets the local network is launched with (deployer, user, borrower).
pub const WALLET_COUNT: u64 = 3;
/// How many coins (UTXOs) each wallet starts with.
pub const COINS_PER_WALLET: u64 = 1;
/// The amount held by each starting coin.
pub const AMOUNT_PER_COIN: u64 = 10_000_000_000;
/// Index of the admin (vault owner, deployer) among the wallets.
pub const ADMIN: usize = 0;
/// Index of the user among the wallets.
pub const USER: usize = 1;
/// Index of the borrower among the wallets.
pub const BORROWER: usize = 2;
/// The amount the flash loan script borrows.
pub const AMOUNT_TO_BORROW: u64 = 900_000;
/// The amount the admin script sends back to the vault.
pub const AMOUNT_TO_REFUND_VAULT: u64 = 1_000_000;

/// Which answer the set-up waits for.
#[derive(Clone, Copy, Debug, PartialEq, Eq, Structural)]
pub enum SetupStage {
    AwaitWallets,
    AwaitFlashVault,
    AwaitFlashSettler,
    AwaitFlashAbiImpl,
    AwaitFlashScript,
    AwaitFlashAdminScript,
    AwaitFlashLoanPredicate,
    Done,
}

/// What the set-up has learnt so far. A field is meaningful once the stage
/// that fills it has passed.
#[derive(Clone, Debug)]
pub struct SetupState {
    pub stage: SetupStage,
    /// The addresses of the launched wallets.
    pub wallets: Vec<[u8; 32]>,
    pub base_asset_id: [u8; 32],
    pub flash_vault_contract_id: [u8; 32],
    pub flash_settler_contract_id: [u8; 32],
    pub flash_abi_impl_contract_id: [u8; 32],
    /// Bytecode hash of the configured flash loan script.
    pub flash_script_hash: [u8; 32],
    /// Bytecode hash of the configured flash admin script.
    pub flash_admin_script_hash: [u8; 32],
}

/// The result of the outside work that an action asked for.
#[derive(Clone, Debug)]
pub enum SetupEvent {
    WalletsLaunched { wallets: Vec<[u8; 32]>, base_asset_id: [u8; 32] },
    FlashVaultDeployed { contract_id: [u8; 32] },
    FlashSettlerDeployed { contract_id: [u8; 32] },
    FlashAbiImplDeployed { contract_id: [u8; 32] },
    /// The binary of the flash loan script, with its configuration applied.
    FlashScriptLoaded { script_binary: Vec<u8> },
    /// The binary of the flash admin script, with its configuration applied.
    FlashAdminScriptLoaded { script_binary: Vec<u8> },
    FlashLoanPredicateLoaded,
}

/// The outside work the set-up asks for next. Wallets are named by their
/// index among the launched wallets.
#[derive(Clone, Copy, Debug, PartialEq, Eq)]
pub enum SetupAction {
    LaunchWallets { wallet_count: u64, coins_per_wallet: u64, amount_per_coin: u64 },
    /// Deploy the vault from `deployer` and construct it with `owner`.
    DeployFlashVault { deployer: usize, owner: Identity },
    DeployFlashSettler { deployer: usize },
    /// Deploy the borrower's contract from `deployer` and tell it the settler.
    DeployFlashAbiImpl { deployer: usize, flash_settler: Identity },
    /// Load the flash loan script for `account`, whose main call borrows
    /// `amount` for the contract `flash_abi_impl_id`.
    LoadFlashScript {
        account: usize,
        config: FlashScriptConfig,
        flash_abi_impl_id: [u8; 32],
        amount: u64,
    },
    /// Load the admin script for `account`, whose main call refunds `amount`.
    LoadFlashAdminScript { account: usize, config: FlashAdminScriptConfig, amount: u64 },
    LoadFlashLoanPredicate { config: FlashLoanPredicateConfig },
    /// Nothing is left to do: the state holds the outcome.
    Finish,
}

impl SetupState {
    /// Once the wallets are known there are at least three of them.
    pub open spec fn wf(&self) -> bool {
        self.stage != SetupStage::AwaitWallets ==> self.wallets@.len() >= 3
    }
}

/// `event` answers what `state` waits for.
pub open spec fn setup_accepts(state: SetupState, event: SetupEvent) -> bool {
    &&& state.wf()
    &&& match event {
        SetupEvent::WalletsLaunched { wallets, base_asset_id } => {
            state.stage == SetupStage::AwaitWallets && wallets@.len() >= 3
        },
        SetupEvent::FlashVaultDeployed { .. } => state.stage == SetupStage::AwaitFlashVault,
        SetupEvent::FlashSettlerDeployed { .. } => state.stage == SetupStage::AwaitFlashSettler,
        SetupEvent::FlashAbiImplDeployed { .. } => state.stage == SetupStage::AwaitFlashAbiImpl,
        SetupEvent::FlashScriptLoaded { .. } => state.stage == SetupStage::AwaitFlashScript,
        SetupEvent::FlashAdminScriptLoaded { .. } => state.stage
            == SetupStage::AwaitFlashAdminScript,
        SetupEvent::FlashLoanPredicateLoaded => state.stage
            == SetupStage::AwaitFlashLoanPredicate,
    }
}

/// The next state and the next action, once `event` has answered `state`.
pub open spec fn setup_next(state: SetupState, event: SetupEvent) -> (SetupState, SetupAction) {
    match event {
        SetupEvent::WalletsLaunched { wallets, base_asset_id } => (
            SetupState {
                stage: SetupStage::AwaitFlashVault,
                wallets: wallets,
                base_asset_id: base_asset_id,
                ..state
            },
            SetupAction::DeployFlashVault {
                deployer: ADMIN,
                owner: Identity::Address(wallets@[ADMIN as int]),
            },
        ),
        SetupEvent::FlashVaultDeployed { contract_id } => (
            SetupState {
                stage: SetupStage::AwaitFlashSettler,
                flash_vault_contract_id: contract_id,
                ..state
            },
            SetupAction::DeployFlashSettler { deployer: ADMIN },
        ),
        SetupEvent::FlashSettlerDeployed { contract_id } => (
            SetupState {
                stage: SetupStage::AwaitFlashAbiImpl,
                flash_settler_contract_id: contract_id,
                ..state
            },
            SetupAction::DeployFlashAbiImpl {
                deployer: USER,
                flash_settler: Identity::ContractId(contract_id),
            },
        ),
        SetupEvent::FlashAbiImplDeployed { contract_id } => (
            SetupState {
                stage: SetupStage::AwaitFlashScript,
                flash_abi_impl_contract_id: contract_id,
                ..state
            },
            SetupAction::LoadFlashScript {
                account: BORROWER,
                config: FlashScriptConfig {
                    flash_settler: state.flash_settler_contract_id,
                    loan_asset_id: state.base_asset_id,
                },
                flash_abi_impl_id: contract_id,
                amount: AMOUNT_TO_BORROW,
            },
        ),
        SetupEvent::FlashScriptLoaded { script_binary } => (
            SetupState {
                stage: SetupStage::AwaitFlashAdminScript,
                flash_script_hash: sha256_bytes32(script_binary@),
                ..state
            },
            SetupAction::LoadFlashAdminScript {
                account: ADMIN,
                config: FlashAdminScriptConfig {
                    vault_contract_id: state.flash_vault_contract_id,
                    loan_asset_id: state.base_asset_id,
                },
                amount: AMOUNT_TO_REFUND_VAULT,
            },
        ),
        SetupEvent::FlashAdminScriptLoaded { script_binary } => {
            let admin_hash = sha256_bytes32(script_binary@);
            (
                SetupState {
                    stage: SetupStage::AwaitFlashLoanPredicate,
                    flash_admin_script_hash: admin_hash,
                    ..state
                },
                SetupAction::LoadFlashLoanPredicate {
                    config: predicate_config_of(
                        admin_hash,
                        state.flash_script_hash,
                        state.wallets@,
                        state.flash_settler_contract_id,
                        state.flash_vault_contract_id,
                        state.base_asset_id,
                    ),
                },
            )
        },
        SetupEvent::FlashLoanPredicateLoaded => (
            SetupState { stage: SetupStage::Done, ..state },
            SetupAction::Finish,
        ),
    }
}

/// The state before anything is known, and the first action: launch the wallets.
pub fn setup_start() -> (res: (SetupState, SetupAction))
    ensures
        res.0.stage == SetupStage::AwaitWallets,
        res.0.wf(),
        res.0.wallets@.len() == 0,
        res.0.base_asset_id@ == zero_sub_id(),
        res.0.flash_vault_contract_id@ == zero_sub_id(),
        res.0.flash_settler_contract_id@ == zero_sub_id(),
        res.0.flash_abi_impl_contract_id@ == zero_sub_id(),
        res.0.flash_script_hash@ == zero_sub_id(),
        res.0.flash_admin_script_hash@ == zero_sub_id(),
        res.1 == (SetupAction::LaunchWallets {
            wallet_count: WALLET_COUNT,
            coins_per_wallet: COINS_PER_WALLET,
            amount_per_coin: AMOUNT_PER_COIN,
        }),
{
    let zero: [u8; 32] = [0u8; 32];
    assert(zero@ =~= zero_sub_id());
    let state = SetupState {
        stage: SetupStage::AwaitWallets,
        wallets: Vec::new(),
        base_asset_id: zero,
        flash_vault_contract_id: zero,
        flash_settler_contract_id: zero,
        flash_abi_impl_contract_id: zero,
        flash_script_hash: zero,
        flash_admin_script_hash: zero,
    };
    (
        state,
        SetupAction::LaunchWallets {
            wallet_count: WALLET_COUNT,
            coins_per_wallet: COINS_PER_WALLET,
            amount_per_coin: AMOUNT_PER_COIN,
        },
    )
}

impl SetupState {
    /// Whether `event` answers what this state waits for.
    pub fn accepts(&self, event: &SetupEvent) -> (ok: bool)
        requires
            self.wf(),
        ensures
            ok == setup_accepts(*self, *event),
    {
        match event {
            SetupEvent::WalletsLaunched { wallets, .. } => {
                self.stage == SetupStage::AwaitWallets && wallets.len() >= 3
            },
            SetupEvent::FlashVaultDeployed { .. } => self.stage == SetupStage::AwaitFlashVault,
            SetupEvent::FlashSettlerDeployed { .. } => self.stage == SetupStage::AwaitFlashSettler,
            SetupEvent::FlashAbiImplDeployed { .. } => self.stage == SetupStage::AwaitFlashAbiImpl,
            SetupEvent::FlashScriptLoaded { .. } => self.stage == SetupStage::AwaitFlashScript,
            SetupEvent::FlashAdminScriptLoaded { .. } => self.stage
                == SetupStage::AwaitFlashAdminScript,
            SetupEvent::FlashLoanPredicateLoaded => self.stage
                == SetupStage::AwaitFlashLoanPredicate,
        }
    }
}

/// Takes in the answer `event` to the last action, and returns the next
/// state and what to do next.
pub fn setup_step(state: SetupState, event: SetupEvent) -> (res: (SetupState, SetupAction))
    requires
        setup_accepts(state, event),
    ensures
        res == setup_next(state, event),
        res.0.wf(),
{
    match event {
        SetupEvent::WalletsLaunched { wallets, base_asset_id } => {
            let owner = Identity::Address(wallets[ADMIN]);
            (
                SetupState {
                    stage: SetupStage::AwaitFlashVault,
                    wallets: wallets,
                    base_asset_id: base_asset_id,
                    ..state
                },
                SetupAction::DeployFlashVault { deployer: ADMIN, owner: owner },
            )
        },
        SetupEvent::FlashVaultDeployed { contract_id } => (
            SetupState {
                stage: SetupStage::AwaitFlashSettler,
                flash_vault_contract_id: contract_id,
                ..state
            },
            SetupAction::DeployFlashSettler { deployer: ADMIN },
        ),
        SetupEvent::FlashSettlerDeployed { contract_id } => (
            SetupState {
                stage: SetupStage::AwaitFlashAbiImpl,
                flash_settler_contract_id: contract_id,
                ..state
            },
            SetupAction::DeployFlashAbiImpl {
                deployer: USER,
                flash_settler: Identity::ContractId(contract_id),
            },
        ),
        SetupEvent::FlashAbiImplDeployed { contract_id } => {
            let config = flash_script_config(state.base_asset_id, state.flash_settler_contract_id);
            (
                SetupState {
                    stage: SetupStage::AwaitFlashScript,
                    flash_abi_impl_contract_id: contract_id,
                    ..state
                },
                SetupAction::LoadFlashScript {
                    account: BORROWER,
                    config: config,
                    flash_abi_impl_id: contract_id,
                    amount: AMOUNT_TO_BORROW,
                },
            )
        },
        SetupEvent::FlashScriptLoaded { script_binary } => {
            let hash = script_bytecode_hash(script_binary.as_slice());
            let config = flash_admin_script_config(
                state.base_asset_id,
                state.flash_vault_contract_id,
            );
            (
                SetupState {
                    stage: SetupStage::AwaitFlashAdminScript,
                    flash_script_hash: hash,
                    ..state
                },
                SetupAction::LoadFlashAdminScript {
                    account: ADMIN,
                    config: config,
                    amount: AMOUNT_TO_REFUND_VAULT,
                },
            )
        },
        SetupEvent::FlashAdminScriptLoaded { script_binary } => {
            let admin_hash = script_bytecode_hash(script_binary.as_slice());
            let config = flash_loan_predicate_config(
                admin_hash,
                state.flash_script_hash,
                state.wallets.as_slice(),
                state.flash_settler_contract_id,
                state.flash_vault_contract_id,
                state.base_asset_id,
            );
            (
                SetupState {
                    stage: SetupStage::AwaitFlashLoanPredicate,
                    flash_admin_script_hash: admin_hash,
                    ..state
                },
                SetupAction::LoadFlashLoanPredicate { config: config },
            )
        },
        SetupEvent::FlashLoanPredicateLoaded => (
            SetupState { stage: SetupStage::Done, ..state },
            SetupAction::Finish,
        ),
    }
}

/// The state reached and the actions asked for when `events` answer, in turn,
/// the actions of the set-up from `state` on.
pub open spec fn setup_run(state: SetupState, events: Seq<SetupEvent>) -> (SetupState, Seq<SetupAction>)
    decreases events.len(),
{
    if events.len() == 0 {
        (state, Seq::empty())
    } else {
        let (next, action) = setup_next(state, events[0]);
        let (last, actions) = setup_run(next, events.drop_first());
        (last, seq![action] + actions)
    }
}

/// Each of `events` answers what the set-up waits for when it comes.
pub open spec fn setup_run_accepted(state: SetupState, events: Seq<SetupEvent>) -> bool
    decreases events.len(),
{
    events.len() == 0 || (setup_accepts(state, events[0]) && setup_run_accepted(
        setup_next(state, events[0]).0,
        events.drop_first(),
    ))
}

/// The answers of a complete set-up, in the order they come.
pub open spec fn setup_answers(
    wallets: Vec<[u8; 32]>,
    base_asset_id: [u8; 32],
    flash_vault: [u8; 32],
    flash_settler: [u8; 32],
    flash_abi_impl: [u8; 32],
    script_binary: Vec<u8>,
    admin_script_binary: Vec<u8>,
) -> Seq<SetupEvent> {
    seq![
        SetupEvent::WalletsLaunched { wallets, base_asset_id },
        SetupEvent::FlashVaultDeployed { contract_id: flash_vault },
        SetupEvent::FlashSettlerDeployed { contract_id: flash_settler },
        SetupEvent::FlashAbiImplDeployed { contract_id: flash_abi_impl },
        SetupEvent::FlashScriptLoaded { script_binary },
        SetupEvent::FlashAdminScriptLoaded { script_binary: admin_script_binary },
        SetupEvent::FlashLoanPredicateLoaded,
    ]
}

/// A complete set-up, from waiting for the wallets to done, accepts every
/// answer in turn and wires them together: the vault is deployed by the admin
/// and owned by the admin's address; the borrower's contract knows the
/// deployed settler; the flash loan script lends the base asset through that
/// settler for the borrower's contract; the admin script refunds the deployed
/// vault; and the predicate lends the base asset, is signed for by the first
/// three wallets with one required signature, knows the deployed settler and
/// vault, and accepts exactly the scripts loaded in this run, by the SHA-256
/// of their binaries.
pub proof fn lemma_complete_setup(
    state: SetupState,
    wallets: Vec<[u8; 32]>,
    base_asset_id: [u8; 32],
    flash_vault: [u8; 32],
    flash_settler: [u8; 32],
    flash_abi_impl: [u8; 32],
    script_binary: Vec<u8>,
    admin_script_binary: Vec<u8>,
)
    requires
        state.stage == SetupStage::AwaitWallets,
        wallets@.len() >= 3,
    ensures
        ({
            let events = setup_answers(
                wallets,
                base_asset_id,
                flash_vault,
                flash_settler,
                flash_abi_impl,
                script_binary,
                admin_script_binary,
            );
            let (last, actions) = setup_run(state, events);
            let script_hash = sha256_bytes32(script_binary@);
            let admin_script_hash = sha256_bytes32(admin_script_binary@);
            &&& setup_run_accepted(state, events)
            &&& last.stage == SetupStage::Done
            &&& last.wallets == wallets
            &&& last.base_asset_id == base_asset_id
            &&& last.flash_vault_contract_id == flash_vault
            &&& last.flash_settler_contract_id == flash_settler
            &&& last.flash_abi_impl_contract_id == flash_abi_impl
            &&& last.flash_script_hash == script_hash
            &&& last.flash_admin_script_hash == admin_script_hash
            &&& actions.len() == 7
            &&& actions[0] == SetupAction::DeployFlashVault {
                deployer: ADMIN,
                owner: Identity::Address(wallets@[0]),
            }
            &&& actions[1] == SetupAction::DeployFlashSettler { deployer: ADMIN }
            &&& actions[2] == SetupAction::DeployFlashAbiImpl {
                deployer: USER,
                flash_settler: Identity::ContractId(flash_settler),
            }
            &&& actions[3] == SetupAction::LoadFlashScript {
                account: BORROWER,
                config: FlashScriptConfig { flash_settler, loan_asset_id: base_asset_id },
                flash_abi_impl_id: flash_abi_impl,
                amount: AMOUNT_TO_BORROW,
            }
            &&& actions[4] == SetupAction::LoadFlashAdminScript {
                account: ADMIN,
                config: FlashAdminScriptConfig {
                    vault_contract_id: flash_vault,
                    loan_asset_id: base_asset_id,
                },
                amount: AMOUNT_TO_REFUND_VAULT,
            }
            &&& actions[5] is LoadFlashLoanPredicate
            &&& actions[5]->config.loan_asset == base_asset_id
            &&& actions[5]->config.signers@.len() == 3
            &&& actions[5]->config.signers@[0] == wallets@[0]
            &&& actions[5]->config.signers@[1] == wallets@[1]
            &&& actions[5]->config.signers@[2] == wallets@[2]
            &&& actions[5]->config.required_signatures == 1
            &&& actions[5]->config.expected_flash_loan_script_bytecode_hash == sha256_bytes32(
                script_binary@,
            )
            &&& actions[5]->config.expected_flash_admin_script_bytecode_hash == sha256_bytes32(
                admin_script_binary@,
            )
            &&& actions[5]->config.flash_settler_address == flash_settler
            &&& actions[5]->config.vault_address == flash_vault
            &&& actions[6] == SetupAction::Finish
        }),
{
    let events = setup_answers(
        wallets,
        base_asset_id,
        flash_vault,
        flash_settler,
        flash_abi_impl,
        script_binary,
        admin_script_binary,
    );
    reveal_with_fuel(setup_run, 8);
    reveal_with_fuel(setup_run_accepted, 8);
    assert(events.drop_first() =~= events.subrange(1, 7));
    assert(events.subrange(1, 7).drop_first() =~= events.subrange(2, 7));
    assert(events.subrange(2, 7).drop_first() =~= events.subrange(3, 7));
    assert(events.subrange(3, 7).drop_first() =~= events.subrange(4, 7));
    assert(events.subrange(4, 7).drop_first() =~= events.subrange(5, 7));
    assert(events.subrange(5, 7).drop_first() =~= events.subrange(6, 7));
    assert(events.subrange(6, 7).drop_first() =~= Seq::<SetupEvent>::empty());
    lemma_predicate_config_fields(
        sha256_bytes32(admin_script_binary@),
        sha256_bytes32(script_binary@),
        wallets@,
        flash_settler,
        flash_vault,
        base_asset_id,
    );
}

/// `setup_accepts` takes exactly the one answer that the stage waits for,
/// and only from a well-formed state: wallets (at least three) only while
/// waiting for wallets, the vault's id only while waiting for the vault, the
/// settler's only while waiting for the settler, the borrower's contract's
/// only while waiting for it, the flash loan script only while waiting for
/// it, the admin script only after the flash loan script (while waiting for
/// the admin script), the predicate only while waiting for it, and nothing
/// once done. Each awaited answer is accepted, and it moves the set-up on to
/// the stage after.
pub proof fn lemma_setup_accepts_only_the_awaited_answer(state: SetupState, event: SetupEvent)
    ensures
        setup_accepts(state, event) ==> state.wf(),
        setup_accepts(state, event) && event is WalletsLaunched ==> state.stage
            == SetupStage::AwaitWallets && event->wallets@.len() >= 3,
        setup_accepts(state, event) && event is FlashVaultDeployed ==> state.stage
            == SetupStage::AwaitFlashVault,
        setup_accepts(state, event) && event is FlashSettlerDeployed ==> state.stage
            == SetupStage::AwaitFlashSettler,
        setup_accepts(state, event) && event is FlashAbiImplDeployed ==> state.stage
            == SetupStage::AwaitFlashAbiImpl,
        setup_accepts(state, event) && event is FlashScriptLoaded ==> state.stage
            == SetupStage::AwaitFlashScript,
        setup_accepts(state, event) && event is FlashAdminScriptLoaded ==> state.stage
            == SetupStage::AwaitFlashAdminScript,
        setup_accepts(state, event) && event is FlashLoanPredicateLoaded ==> state.stage
            == SetupStage::AwaitFlashLoanPredicate,
        state.stage == SetupStage::Done ==> !setup_accepts(state, event),
        state.wf() && state.stage == SetupStage::AwaitWallets && event is WalletsLaunched
            && event->wallets@.len() >= 3 ==> setup_accepts(state, event),
        state.wf() && state.stage == SetupStage::AwaitFlashVault && event is FlashVaultDeployed
            ==> setup_accepts(state, event),
        state.wf() && state.stage == SetupStage::AwaitFlashSettler
            && event is FlashSettlerDeployed ==> setup_accepts(state, event),
        state.wf() && state.stage == SetupStage::AwaitFlashAbiImpl
            && event is FlashAbiImplDeployed ==> setup_accepts(state, event),
        state.wf() && state.stage == SetupStage::AwaitFlashScript && event is FlashScriptLoaded
            ==> setup_accepts(state, event),
        state.wf() && state.stage == SetupStage::AwaitFlashAdminScript
            && event is FlashAdminScriptLoaded ==> setup_accepts(state, event),
        state.wf() && state.stage == SetupStage::AwaitFlashLoanPredicate
            && event is FlashLoanPredicateLoaded ==> setup_accepts(state, event),
        setup_accepts(state, event) && state.stage == SetupStage::AwaitWallets ==> setup_next(
            state,
            event,
        ).0.stage == SetupStage::AwaitFlashVault,
        setup_accepts(state, event) && state.stage == SetupStage::AwaitFlashVault ==> setup_next(
            state,
            event,
        ).0.stage == SetupStage::AwaitFlashSettler,
        setup_accepts(state, event) && state.stage == SetupStage::AwaitFlashSettler
            ==> setup_next(state, event).0.stage == SetupStage::AwaitFlashAbiImpl,
        setup_accepts(state, event) && state.stage == SetupStage::AwaitFlashAbiImpl
            ==> setup_next(state, event).0.stage == SetupStage::AwaitFlashScript,
        setup_accepts(state, event) && state.stage == SetupStage::AwaitFlashScript ==> setup_next(
            state,
            event,
        ).0.stage == SetupStage::AwaitFlashAdminScript,
        setup_accepts(state, event) && state.stage == SetupStage::AwaitFlashAdminScript
            ==> setup_next(state, event).0.stage == SetupStage::AwaitFlashLoanPredicate,
        setup_accepts(state, event) && state.stage == SetupStage::AwaitFlashLoanPredicate
            ==> setup_next(state, event).0.stage == SetupStage::Done,
{
}

/// When the admin script's binary comes in, the predicate is configured from
/// what the set-up learnt before: the base asset as loan asset, the first
/// three launched wallets as signers with one required signature, the hash
/// of the flash loan script loaded before as the expected flash loan script
/// hash, the SHA-256 of this binary as the expected admin script hash, and
/// the deployed settler and vault as settler and vault addresses; the state
/// keeps everything else and records this hash.
pub proof fn lemma_predicate_is_configured_from_the_set_up(state: SetupState, event: SetupEvent)
    requires
        setup_accepts(state, event),
        event is FlashAdminScriptLoaded,
    ensures
        ({
            let (next, action) = setup_next(state, event);
            let binary = event->FlashAdminScriptLoaded_script_binary;
            &&& action is LoadFlashLoanPredicate
            &&& action->config.loan_asset == state.base_asset_id
            &&& action->config.signers@.len() == 3
            &&& action->config.signers@[0] == state.wallets@[0]
            &&& action->config.signers@[1] == state.wallets@[1]
            &&& action->config.signers@[2] == state.wallets@[2]
            &&& action->config.required_signatures == 1
            &&& action->config.expected_flash_loan_script_bytecode_hash == state.flash_script_hash
            &&& action->config.expected_flash_admin_script_bytecode_hash == sha256_bytes32(
                binary@,
            )
            &&& action->config.flash_settler_address == state.flash_settler_contract_id
            &&& action->config.vault_address == state.flash_vault_contract_id
            &&& next.stage == SetupStage::AwaitFlashLoanPredicate
            &&& next.flash_admin_script_hash == sha256_bytes32(binary@)
            &&& next.wallets == state.wallets
            &&& next.base_asset_id == state.base_asset_id
            &&& next.flash_vault_contract_id == state.flash_vault_contract_id
            &&& next.flash_settler_contract_id == state.flash_settler_contract_id
            &&& next.flash_abi_impl_contract_id == state.flash_abi_impl_contract_id
            &&& next.flash_script_hash == state.flash_script_hash
        }),
{
    let binary = event->FlashAdminScriptLoaded_script_binary;
    lemma_predicate_config_fields(
        sha256_bytes32(binary@),
        state.flash_script_hash,
        state.wallets@,
        state.flash_settler_contract_id,
        state.flash_vault_contract_id,
        state.base_asset_id,
    );
}

} // verus!
