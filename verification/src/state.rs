//! The program's accounts, instruction arguments, events and errors, as plain values.
use vstd::prelude::*;

verus! {

/// A 32-byte account address (the bytes of a public key).
#[derive(Clone, Copy, Debug, PartialEq, Eq)]
pub struct Address {
    pub bytes: [u8; 32],
}

/// The program-wide configuration account (seeds `["global"]`).
#[derive(Clone, Copy, Debug, PartialEq, Eq)]
pub struct Global {
    pub initialized: bool,
    pub authority: Address,
    pub fee_recipient: Address,
    pub initial_virtual_token_reserves: u64,
    pub initial_virtual_sol_reserves: u64,
    pub initial_real_token_reserves: u64,
    pub total_token_supply: u64,
    pub fee_basis_points: u64,
}

/// The per-mint bonding curve account (seeds `["bonding-curve", mint]`).
#[derive(Clone, Copy, Debug, PartialEq, Eq)]
pub struct BondingCurve {
    pub virtual_token_reserves: u64,
    pub virtual_sol_reserves: u64,
    pub real_token_reserves: u64,
    pub real_sol_reserves: u64,
    pub total_token_supply: u64,
    pub target: u64,
    pub complete: bool,
}

/// Bytes reserved for a `Global` account when it is created.
pub const GLOBAL_INIT_SPACE: usize = 32 + 8 + 8 + 8 + 8 + 8 + 8;

/// Bytes reserved for a `BondingCurve` account when it is created.
pub const BONDING_CURVE_INIT_SPACE: usize = 8 + 8 + 8 + 8 + 8 + 8 + 1;

/// Arguments of the `set` instruction.
#[derive(Clone, Copy, Debug, PartialEq, Eq)]
pub struct GlobalParams {
    pub authority: Address,
    pub fee_recipient: Address,
    pub initial_virtual_token_reserves: u64,
    pub initial_virtual_sol_reserves: u64,
    pub initial_real_token_reserves: u64,
    pub total_token_supply: u64,
    pub fee_basis_points: u64,
}

/// Arguments of the `create` instruction.
#[derive(Clone, Debug, PartialEq, Eq)]
pub struct CreateParams {
    pub name: String,
    pub symbol: String,
    pub uri: String,
    pub target: u64,
}

/// Arguments of the `buy` instruction.
#[derive(Clone, Copy, Debug, PartialEq, Eq)]
pub struct BuyParams {
    pub sol_in: u64,
    pub token_out: u64,
}

/// Arguments of the `sell` instruction.
#[derive(Clone, Copy, Debug, PartialEq, Eq)]
pub struct SellParams {
    pub sol_out: u64,
    pub token_in: u64,
}

/// Emitted by `set`.
#[derive(Clone, Copy, Debug, PartialEq, Eq)]
pub struct InitEvent {
    pub fee_recipient: Address,
    pub initial_virtual_token_reserves: u64,
    pub initial_virtual_sol_reserves: u64,
    pub initial_real_token_reserves: u64,
    pub total_token_supply: u64,
    pub fee_basis_points: u64,
}

/// Emitted by `create`.
#[derive(Clone, Debug, PartialEq, Eq)]
pub struct CreateEvent {
    pub name: String,
    pub symbol: String,
    pub uri: String,
    pub mint: Address,
    pub bonding_curve: Address,
    pub user: Address,
}

/// Emitted by every `buy` and every successful `sell`.
#[derive(Clone, Copy, Debug, PartialEq, Eq)]
pub struct TradeEvent {
    pub mint: Address,
    pub sol_amount: u64,
    pub token_amount: u64,
    pub is_buy: bool,
    pub user: Address,
    pub timestamp: i64,
    pub virtual_token_reserves: u64,
    pub virtual_sol_reserves: u64,
}

/// Emitted by a trade after which the curve's real SOL reserves reach its target.
#[derive(Clone, Copy, Debug, PartialEq, Eq)]
pub struct CompleteEvent {
    pub mint: Address,
    pub user: Address,
    pub bonding_curve: Address,
    pub timestamp: i64,
}

/// The program's own error codes.
#[derive(Clone, Copy, Debug, PartialEq, Eq)]
pub enum Errors {
    /// The global state is not yet initialized.
    Initialization,
    /// The bonding curve is not yet complete.
    IncompleteBondingCurve,
}

/// Why an instruction was refused: one of the program's errors, or a failed
/// `left > right` requirement.
#[derive(Clone, Copy, Debug, PartialEq, Eq)]
pub enum ProgramError {
    Custom(Errors),
    RequireGtViolated,
}

/// The accounts that `initialize` reads and writes.
#[derive(Clone, Copy, Debug, PartialEq, Eq)]
pub struct Initialize {
    pub global: Global,
}

/// The accounts that `set` reads and writes.
#[derive(Clone, Copy, Debug, PartialEq, Eq)]
pub struct SetConfig {
    pub global: Global,
}

/// The accounts that `create` reads and writes.
#[derive(Clone, Copy, Debug, PartialEq, Eq)]
pub struct Create {
    pub metadata: Address,
    pub mint: Address,
    /// The bump that makes `["mint", [mint_bump]]` derive the mint's address.
    pub mint_bump: u8,
    pub bonding_curve_key: Address,
    pub bonding_curve: BondingCurve,
    pub associated_bonding_curve: Address,
    pub global: Global,
    pub payer: Address,
}

/// The accounts that `buy` reads and writes.
#[derive(Clone, Copy, Debug, PartialEq, Eq)]
pub struct Buy {
    pub mint: Address,
    pub bonding_curve_key: Address,
    pub bonding_curve: BondingCurve,
    pub associated_bonding_curve: Address,
    pub associated_token_account: Address,
    pub payer: Address,
}

/// The accounts that `sell` reads and writes.
#[derive(Clone, Copy, Debug, PartialEq, Eq)]
pub struct Sell {
    pub mint: Address,
    pub bonding_curve_key: Address,
    pub bonding_curve: BondingCurve,
    pub associated_bonding_curve: Address,
    pub associated_token_account: Address,
    pub payer: Address,
}

/// The accounts that `withdraw` reads and writes.
#[derive(Clone, Copy, Debug, PartialEq, Eq)]
pub struct Withdraw {
    pub mint: Address,
    pub bonding_curve: BondingCurve,
    pub associated_bonding_curve: Address,
    pub associated_token_account: Address,
    pub payer: Address,
}

/// A transfer of lamports through the system program, signed by no program address.
#[derive(Clone, Copy, Debug, PartialEq, Eq)]
pub struct SolTransfer {
    pub from: Address,
    pub to: Address,
    pub lamports: u64,
}

/// A transfer of tokens through the token program, signed by no program address.
#[derive(Clone, Copy, Debug, PartialEq, Eq)]
pub struct TokenTransfer {
    pub from: Address,
    pub to: Address,
    pub authority: Address,
    pub amount: u64,
}

/// The signature of the mint's own address over a call: the program signs with the
/// seeds `["mint", [bump]]`, from which the mint's address is derived.
#[derive(Clone, Copy, Debug, PartialEq, Eq)]
pub struct MintSigner {
    pub bump: u8,
}

/// Tokens minted through the token program, signed by the mint's own address.
#[derive(Clone, Copy, Debug, PartialEq, Eq)]
pub struct MintTokens {
    pub mint: Address,
    pub to: Address,
    pub authority: Address,
    pub amount: u64,
    pub signer: MintSigner,
}

/// A creator listed in token metadata, with its share of royalties.
#[derive(Clone, Copy, Debug, PartialEq, Eq)]
pub struct Creator {
    pub address: Address,
    pub verified: bool,
    pub share: u8,
}

/// The collection a token belongs to.
#[derive(Clone, Copy, Debug, PartialEq, Eq)]
pub struct Collection {
    pub verified: bool,
    pub key: Address,
}

/// How a token's uses are consumed.
#[derive(Clone, Copy, Debug, PartialEq, Eq)]
pub enum UseMethod {
    Burn,
    Multiple,
    Single,
}

/// The uses a token grants.
#[derive(Clone, Copy, Debug, PartialEq, Eq)]
pub struct Uses {
    pub use_method: UseMethod,
    pub remaining: u64,
    pub total: u64,
}

/// The details of a token that is itself a collection.
#[derive(Clone, Copy, Debug, PartialEq, Eq)]
pub enum CollectionDetails {
    V1 { size: u64 },
    V2 { padding: [u8; 8] },
}

/// The token metadata account to create, signed by the mint's own address.
#[derive(Clone, Debug, PartialEq, Eq)]
pub struct MetadataRequest {
    pub payer: Address,
    pub update_authority: Address,
    pub mint: Address,
    pub metadata: Address,
    pub mint_authority: Address,
    pub name: String,
    pub symbol: String,
    pub uri: String,
    pub seller_fee_basis_points: u16,
    pub creators: Option<Vec<Creator>>,
    pub collection: Option<Collection>,
    pub uses: Option<Uses>,
    pub is_mutable: bool,
    pub update_authority_is_signer: bool,
    pub collection_details: Option<CollectionDetails>,
    pub signer: MintSigner,
}

/// What `create` asks of the outside programs, in order, and the event it emits.
#[derive(Clone, Debug, PartialEq, Eq)]
pub struct CreateOutcome {
    pub metadata: MetadataRequest,
    pub mint_to: MintTokens,
    pub event: CreateEvent,
}

/// The two transfers of a trade: first the lamports, then the tokens.
#[derive(Clone, Copy, Debug, PartialEq, Eq)]
pub struct TradeTransfers {
    pub sol_transfer: SolTransfer,
    pub token_transfer: TokenTransfer,
}

/// What a trade asks of the outside programs, in order, and the events it emits.
#[derive(Clone, Copy, Debug, PartialEq, Eq)]
pub struct TradeOutcome {
    pub sol_transfer: SolTransfer,
    pub token_transfer: TokenTransfer,
    pub trade_event: TradeEvent,
    pub complete_event: Option<CompleteEvent>,
}

/// What `withdraw` asks of the outside programs, in order.
#[derive(Clone, Copy, Debug, PartialEq, Eq)]
pub struct WithdrawOutcome {
    pub sol_transfer: SolTransfer,
    pub token_transfer: TokenTransfer,
}

} // verus!
