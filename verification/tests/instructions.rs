use dump_fun_core::program::{
    buy, buy_transfers, create, initialize, sell, sell_transfers, withdraw,
    SELL_MIN_REAL_SOL_RESERVES,
};
use dump_fun_core::state::{
    Address, BondingCurve, Buy, BuyParams, CompleteEvent, Create, CreateEvent, CreateParams,
    Errors, Global, GlobalParams, InitEvent, Initialize, MetadataRequest, MintSigner, MintTokens,
    ProgramError, Sell, SellParams, SetConfig, SolTransfer, TokenTransfer, TradeEvent, Withdraw,
    BONDING_CURVE_INIT_SPACE, GLOBAL_INIT_SPACE,
};

fn addr(b: u8) -> Address {
    Address { bytes: [b; 32] }
}

fn empty_global() -> Global {
    Global {
        initialized: false,
        authority: addr(0),
        fee_recipient: addr(0),
        initial_virtual_token_reserves: 0,
        initial_virtual_sol_reserves: 0,
        initial_real_token_reserves: 0,
        total_token_supply: 0,
        fee_basis_points: 0,
    }
}

fn params() -> GlobalParams {
    GlobalParams {
        authority: addr(1),
        fee_recipient: addr(2),
        initial_virtual_token_reserves: 1_073_000_000,
        initial_virtual_sol_reserves: 30_000_000_000,
        initial_real_token_reserves: 793_100_000,
        total_token_supply: 1_000_000_000,
        fee_basis_points: 100,
    }
}

fn curve(real_sol: u64, target: u64, complete: bool) -> BondingCurve {
    BondingCurve {
        virtual_token_reserves: 1_000,
        virtual_sol_reserves: 3_000 + real_sol,
        real_token_reserves: 800,
        real_sol_reserves: real_sol,
        total_token_supply: 1_000,
        target,
        complete,
    }
}

fn buy_ctx(c: BondingCurve) -> Buy {
    Buy {
        mint: addr(10),
        bonding_curve_key: addr(11),
        bonding_curve: c,
        associated_bonding_curve: addr(12),
        associated_token_account: addr(13),
        payer: addr(14),
    }
}

fn sell_ctx(c: BondingCurve) -> Sell {
    Sell {
        mint: addr(10),
        bonding_curve_key: addr(11),
        bonding_curve: c,
        associated_bonding_curve: addr(12),
        associated_token_account: addr(13),
        payer: addr(14),
    }
}

fn withdraw_ctx(c: BondingCurve) -> Withdraw {
    Withdraw {
        mint: addr(10),
        bonding_curve: c,
        associated_bonding_curve: addr(12),
        associated_token_account: addr(13),
        payer: addr(14),
    }
}

#[test]
fn initialize_sets_only_the_flag() {
    let mut ctx = Initialize { global: empty_global() };
    initialize(&mut ctx);
    assert!(ctx.global.initialized);
    assert_eq!(ctx.global, Global { initialized: true, ..empty_global() });
}

#[test]
fn set_refused_before_initialize() {
    let mut ctx = SetConfig { global: empty_global() };
    let r = dump_fun_core::program::set(&mut ctx, &params());
    assert_eq!(r, Err(ProgramError::Custom(Errors::Initialization)));
    assert_eq!(ctx.global, empty_global());
}

#[test]
fn set_copies_params_after_initialize() {
    let mut init = Initialize { global: empty_global() };
    initialize(&mut init);
    let mut ctx = SetConfig { global: init.global };
    let p = params();
    let event = dump_fun_core::program::set(&mut ctx, &p).unwrap();
    assert_eq!(
        ctx.global,
        Global {
            initialized: true,
            authority: addr(1),
            fee_recipient: addr(2),
            initial_virtual_token_reserves: 1_073_000_000,
            initial_virtual_sol_reserves: 30_000_000_000,
            initial_real_token_reserves: 793_100_000,
            total_token_supply: 1_000_000_000,
            fee_basis_points: 100,
        }
    );
    assert_eq!(
        event,
        InitEvent {
            fee_recipient: addr(2),
            initial_virtual_token_reserves: 1_073_000_000,
            initial_virtual_sol_reserves: 30_000_000_000,
            initial_real_token_reserves: 793_100_000,
            total_token_supply: 1_000_000_000,
            fee_basis_points: 100,
        }
    );
    // A second `set` is accepted too.
    let mut p2 = p;
    p2.fee_basis_points = 7;
    assert!(dump_fun_core::program::set(&mut ctx, &p2).is_ok());
    assert_eq!(ctx.global.fee_basis_points, 7);
    assert!(ctx.global.initialized);
}

#[test]
fn create_seeds_curve_from_global() {
    let mut global = empty_global();
    global.initialized = true;
    let mut s = SetConfig { global };
    dump_fun_core::program::set(&mut s, &params()).unwrap();
    let stale = curve(55, 1, true);
    let mut ctx = Create {
        metadata: addr(20),
        mint: addr(21),
        mint_bump: 254,
        bonding_curve_key: addr(22),
        bonding_curve: stale,
        associated_bonding_curve: addr(23),
        global: s.global,
        payer: addr(24),
    };
    let p = CreateParams {
        name: "Dump".to_string(),
        symbol: "DMP".to_string(),
        uri: "https://example.com/dmp.json".to_string(),
        target: 85_000_000_000,
    };
    let out = create(&mut ctx, p);
    assert_eq!(
        ctx.bonding_curve,
        BondingCurve {
            virtual_token_reserves: 1_073_000_000,
            virtual_sol_reserves: 30_000_000_000,
            real_token_reserves: 793_100_000,
            real_sol_reserves: 0,
            total_token_supply: 1_000_000_000,
            target: 85_000_000_000,
            complete: false,
        }
    );
    assert_eq!(ctx.global, s.global);
    assert_eq!(
        out.metadata,
        MetadataRequest {
            payer: addr(24),
            update_authority: addr(21),
            mint: addr(21),
            metadata: addr(20),
            mint_authority: addr(21),
            name: "Dump".to_string(),
            symbol: "DMP".to_string(),
            uri: "https://example.com/dmp.json".to_string(),
            seller_fee_basis_points: 0,
            creators: None,
            collection: None,
            uses: None,
            is_mutable: false,
            update_authority_is_signer: true,
            collection_details: None,
            signer: MintSigner { bump: 254 },
        }
    );
    assert_eq!(
        out.mint_to,
        MintTokens {
            mint: addr(21),
            to: addr(23),
            authority: addr(21),
            amount: 793_100_000,
            signer: MintSigner { bump: 254 },
        }
    );
    assert_eq!(
        out.event,
        CreateEvent {
            name: "Dump".to_string(),
            symbol: "DMP".to_string(),
            uri: "https://example.com/dmp.json".to_string(),
            mint: addr(21),
            bonding_curve: addr(22),
            user: addr(24),
        }
    );
}

#[test]
fn buy_moves_reserves_and_plans_transfers() {
    let mut ctx = buy_ctx(curve(0, 1_000, false));
    let out = buy(&mut ctx, BuyParams { sol_in: 400, token_out: 120 }, 1_700_000_000);
    assert_eq!(
        ctx.bonding_curve,
        BondingCurve {
            virtual_token_reserves: 880,
            virtual_sol_reserves: 3_400,
            real_token_reserves: 680,
            real_sol_reserves: 400,
            total_token_supply: 1_000,
            target: 1_000,
            complete: false,
        }
    );
    assert_eq!(out.sol_transfer, SolTransfer { from: addr(14), to: addr(12), lamports: 400 });
    assert_eq!(
        out.token_transfer,
        TokenTransfer { from: addr(12), to: addr(13), authority: addr(14), amount: 120 }
    );
    assert_eq!(
        out.trade_event,
        TradeEvent {
            mint: addr(10),
            sol_amount: 400,
            token_amount: 120,
            is_buy: true,
            user: addr(14),
            timestamp: 1_700_000_000,
            virtual_token_reserves: 880,
            virtual_sol_reserves: 3_400,
        }
    );
    assert_eq!(out.complete_event, None);
}

#[test]
fn buy_reaching_target_completes_curve() {
    let mut ctx = buy_ctx(curve(600, 1_000, false));
    let out = buy(&mut ctx, BuyParams { sol_in: 400, token_out: 1 }, 5);
    assert_eq!(ctx.bonding_curve.real_sol_reserves, 1_000);
    assert!(ctx.bonding_curve.complete);
    assert_eq!(
        out.complete_event,
        Some(CompleteEvent { mint: addr(10), user: addr(14), bonding_curve: addr(11), timestamp: 5 })
    );
}

#[test]
fn buy_one_short_of_target_leaves_curve_open() {
    let mut ctx = buy_ctx(curve(600, 1_000, false));
    let out = buy(&mut ctx, BuyParams { sol_in: 399, token_out: 1 }, 5);
    assert!(!ctx.bonding_curve.complete);
    assert_eq!(out.complete_event, None);
}

#[test]
fn sell_refused_at_threshold() {
    let start = curve(SELL_MIN_REAL_SOL_RESERVES, 1_000, false);
    let mut ctx = sell_ctx(start);
    let r = sell(&mut ctx, SellParams { sol_out: 10, token_in: 10 }, 1);
    assert_eq!(r, Err(ProgramError::RequireGtViolated));
    assert_eq!(ctx.bonding_curve, start);
}

#[test]
fn sell_accepted_above_threshold() {
    let mut ctx = sell_ctx(curve(71, 1_000, false));
    let out = sell(&mut ctx, SellParams { sol_out: 71, token_in: 50 }, 9).unwrap();
    assert_eq!(
        ctx.bonding_curve,
        BondingCurve {
            virtual_token_reserves: 1_050,
            virtual_sol_reserves: 3_000,
            real_token_reserves: 850,
            real_sol_reserves: 0,
            total_token_supply: 1_000,
            target: 1_000,
            complete: false,
        }
    );
    assert_eq!(out.sol_transfer, SolTransfer { from: addr(12), to: addr(14), lamports: 71 });
    assert_eq!(
        out.token_transfer,
        TokenTransfer { from: addr(13), to: addr(12), authority: addr(10), amount: 50 }
    );
    assert_eq!(
        out.trade_event,
        TradeEvent {
            mint: addr(10),
            sol_amount: 71,
            token_amount: 50,
            is_buy: false,
            user: addr(14),
            timestamp: 9,
            virtual_token_reserves: 1_050,
            virtual_sol_reserves: 3_000,
        }
    );
    assert_eq!(out.complete_event, None);
}

#[test]
fn sell_on_complete_curve_reports_completion_again() {
    let mut ctx = sell_ctx(curve(2_000, 1_000, true));
    let out = sell(&mut ctx, SellParams { sol_out: 500, token_in: 5 }, 3).unwrap();
    assert!(ctx.bonding_curve.complete);
    assert_eq!(
        out.complete_event,
        Some(CompleteEvent { mint: addr(10), user: addr(14), bonding_curve: addr(11), timestamp: 3 })
    );
}

#[test]
fn withdraw_refused_while_incomplete() {
    let start = curve(500, 1_000, false);
    let mut ctx = withdraw_ctx(start);
    let r = withdraw(&mut ctx);
    assert_eq!(r, Err(ProgramError::Custom(Errors::IncompleteBondingCurve)));
    assert_eq!(ctx.bonding_curve, start);
}

#[test]
fn withdraw_pays_out_and_zeroes_reserves() {
    let mut ctx = withdraw_ctx(curve(1_200, 1_000, true));
    let out = withdraw(&mut ctx).unwrap();
    assert_eq!(out.sol_transfer, SolTransfer { from: addr(12), to: addr(14), lamports: 1_200 });
    assert_eq!(
        out.token_transfer,
        TokenTransfer { from: addr(12), to: addr(13), authority: addr(10), amount: 800 }
    );
    assert_eq!(
        ctx.bonding_curve,
        BondingCurve {
            virtual_token_reserves: 0,
            virtual_sol_reserves: 0,
            real_token_reserves: 0,
            real_sol_reserves: 0,
            total_token_supply: 1_000,
            target: 1_000,
            complete: true,
        }
    );
    // A second withdrawal pays nothing.
    let again = withdraw(&mut ctx).unwrap();
    assert_eq!(again.sol_transfer.lamports, 0);
    assert_eq!(again.token_transfer.amount, 0);
}

#[test]
fn account_space_constants() {
    assert_eq!(GLOBAL_INIT_SPACE, 80);
    assert_eq!(BONDING_CURVE_INIT_SPACE, 49);
}

#[test]
fn buy_transfers_given_for_out_of_range_trade() {
    let ctx = buy_ctx(curve(0, 1_000, false));
    let t = buy_transfers(&ctx, BuyParams { sol_in: u64::MAX, token_out: 5_000 });
    assert_eq!(t.sol_transfer, SolTransfer { from: addr(14), to: addr(12), lamports: u64::MAX });
    assert_eq!(
        t.token_transfer,
        TokenTransfer { from: addr(12), to: addr(13), authority: addr(14), amount: 5_000 }
    );
}

#[test]
fn sell_transfers_refused_at_threshold_and_given_above() {
    let ctx = sell_ctx(curve(SELL_MIN_REAL_SOL_RESERVES, 1_000, false));
    assert_eq!(
        sell_transfers(&ctx, SellParams { sol_out: 1, token_in: 1 }),
        Err(ProgramError::RequireGtViolated)
    );
    let ctx = sell_ctx(curve(71, 1_000, false));
    let t = sell_transfers(&ctx, SellParams { sol_out: 9_999, token_in: u64::MAX }).unwrap();
    assert_eq!(t.sol_transfer, SolTransfer { from: addr(12), to: addr(14), lamports: 9_999 });
    assert_eq!(
        t.token_transfer,
        TokenTransfer { from: addr(13), to: addr(12), authority: addr(10), amount: u64::MAX }
    );
}
