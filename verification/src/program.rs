//! The instructions, each from the accounts it reads to their new values and
//! to what it asks of the system, token and metadata programs.
use vstd::prelude::*;
use crate::state::{
    Address, BondingCurve, Buy, BuyParams, CompleteEvent, Create, CreateEvent, CreateOutcome,
    CreateParams, Errors, Global, GlobalParams, InitEvent, Initialize, MetadataRequest, MintSigner,
    MintTokens, TradeTransfers,
    ProgramError, Sell, SellParams, SetConfig, SolTransfer, TokenTransfer, TradeEvent,
    TradeOutcome, Withdraw, WithdrawOutcome,
};

verus! {

/// A sell is refused unless the curve holds more real SOL than this.
pub const SELL_MIN_REAL_SOL_RESERVES: u64 = 70;

/// The global account once `set` has copied `p` into it.
pub open spec fn configured(g: Global, p: GlobalParams) -> Global {
    Global {
        initialized: g.initialized,
        authority: p.authority,
        fee_recipient: p.fee_recipient,
        initial_virtual_token_reserves: p.initial_virtual_token_reserves,
        initial_virtual_sol_reserves: p.initial_virtual_sol_reserves,
        initial_real_token_reserves: p.initial_real_token_reserves,
        total_token_supply: p.total_token_supply,
        fee_basis_points: p.fee_basis_points,
    }
}

/// The event that `set` emits for `p`.
pub open spec fn init_event(p: GlobalParams) -> InitEvent {
    InitEvent {
        fee_recipient: p.fee_recipient,
        initial_virtual_token_reserves: p.initial_virtual_token_reserves,
        initial_virtual_sol_reserves: p.initial_virtual_sol_reserves,
        initial_real_token_reserves: p.initial_real_token_reserves,
        total_token_supply: p.total_token_supply,
        fee_basis_points: p.fee_basis_points,
    }
}

/// A new curve, seeded from the global configuration, with no real SOL yet.
pub open spec fn launched(g: Global, target: u64) -> BondingCurve {
    BondingCurve {
        virtual_token_reserves: g.initial_virtual_token_reserves,
        virtual_sol_reserves: g.initial_virtual_sol_reserves,
        real_token_reserves: g.initial_real_token_reserves,
        real_sol_reserves: 0,
        total_token_supply: g.total_token_supply,
        target,
        complete: false,
    }
}

/// A buy of `p` on `c` stays within the range of `u64`.
pub open spec fn can_buy(c: BondingCurve, p: BuyParams) -> bool {
    &&& p.token_out <= c.virtual_token_reserves
    &&& p.token_out <= c.real_token_reserves
    &&& c.virtual_sol_reserves + p.sol_in <= u64::MAX
    &&& c.real_sol_reserves + p.sol_in <= u64::MAX
}

/// The curve after a buy: SOL in, tokens out; complete once the real SOL reaches the target.
pub open spec fn after_buy(c: BondingCurve, p: BuyParams) -> BondingCurve {
    BondingCurve {
        virtual_token_reserves: (c.virtual_token_reserves - p.token_out) as u64,
        virtual_sol_reserves: (c.virtual_sol_reserves + p.sol_in) as u64,
        real_token_reserves: (c.real_token_reserves - p.token_out) as u64,
        real_sol_reserves: (c.real_sol_reserves + p.sol_in) as u64,
        total_token_supply: c.total_token_supply,
        target: c.target,
        complete: c.complete || c.real_sol_reserves + p.sol_in >= c.target,
    }
}

/// A sell passes the program's own check on `c`.
pub open spec fn sell_allowed(c: BondingCurve) -> bool {
    c.real_sol_reserves > SELL_MIN_REAL_SOL_RESERVES
}

/// A sell of `p` on `c` stays within the range of `u64`.
pub open spec fn can_sell(c: BondingCurve, p: SellParams) -> bool {
    &&& c.virtual_token_reserves + p.token_in <= u64::MAX
    &&& c.real_token_reserves + p.token_in <= u64::MAX
    &&& p.sol_out <= c.virtual_sol_reserves
    &&& p.sol_out <= c.real_sol_reserves
}

/// The curve after a sell: tokens in, SOL out; complete once the real SOL reaches the target.
pub open spec fn after_sell(c: BondingCurve, p: SellParams) -> BondingCurve {
    BondingCurve {
        virtual_token_reserves: (c.virtual_token_reserves + p.token_in) as u64,
        virtual_sol_reserves: (c.virtual_sol_reserves - p.sol_out) as u64,
        real_token_reserves: (c.real_token_reserves + p.token_in) as u64,
        real_sol_reserves: (c.real_sol_reserves - p.sol_out) as u64,
        total_token_supply: c.total_token_supply,
        target: c.target,
        complete: c.complete || c.real_sol_reserves - p.sol_out >= c.target,
    }
}

/// The curve after `withdraw` has paid out everything it held.
pub open spec fn drained(c: BondingCurve) -> BondingCurve {
    BondingCurve {
        virtual_token_reserves: 0,
        virtual_sol_reserves: 0,
        real_token_reserves: 0,
        real_sol_reserves: 0,
        total_token_supply: c.total_token_supply,
        target: c.target,
        complete: c.complete,
    }
}

/// Marks a freshly created global account as initialized.
pub fn initialize(ctx: &mut Initialize)
    ensures
        final(ctx).global == (Global { initialized: true, ..old(ctx).global }),
        final(ctx).global.initialized,
{
    ctx.global.initialized = true;
}

/// Copies `params` into an initialized global account and returns the event to emit;
/// refuses with `Initialization`, changing nothing, when the account is not initialized.
pub fn set(ctx: &mut SetConfig, params: &GlobalParams) -> (r: Result<InitEvent, ProgramError>)
    ensures
        !old(ctx).global.initialized ==> r == Err::<InitEvent, ProgramError>(
            ProgramError::Custom(Errors::Initialization),
        ) && *final(ctx) == *old(ctx),
        old(ctx).global.initialized ==> {
            &&& final(ctx).global.initialized
            &&& final(ctx).global.authority == params.authority
            &&& final(ctx).global.fee_recipient == params.fee_recipient
            &&& final(ctx).global.initial_virtual_token_reserves
                == params.initial_virtual_token_reserves
            &&& final(ctx).global.initial_virtual_sol_reserves
                == params.initial_virtual_sol_reserves
            &&& final(ctx).global.initial_real_token_reserves
                == params.initial_real_token_reserves
            &&& final(ctx).global.total_token_supply == params.total_token_supply
            &&& final(ctx).global.fee_basis_points == params.fee_basis_points
        },
        old(ctx).global.initialized ==> r == Ok::<InitEvent, ProgramError>(init_event(*params))
            && final(ctx).global == configured(old(ctx).global, *params),
{
    if !ctx.global.initialized {
        return Err(ProgramError::Custom(Errors::Initialization));
    }
    ctx.global.authority = params.authority;
    ctx.global.fee_recipient = params.fee_recipient;
    ctx.global.initial_virtual_token_reserves = params.initial_virtual_token_reserves;
    ctx.global.initial_virtual_sol_reserves = params.initial_virtual_sol_reserves;
    ctx.global.initial_real_token_reserves = params.initial_real_token_reserves;
    ctx.global.total_token_supply = params.total_token_supply;
    ctx.global.fee_basis_points = params.fee_basis_points;
    Ok(
        InitEvent {
            fee_recipient: params.fee_recipient,
            initial_virtual_token_reserves: params.initial_virtual_token_reserves,
            initial_virtual_sol_reserves: params.initial_virtual_sol_reserves,
            initial_real_token_reserves: params.initial_real_token_reserves,
            total_token_supply: params.total_token_supply,
            fee_basis_points: params.fee_basis_points,
        },
    )
}

/// Launches a curve for a new mint: the token metadata to create (no creators,
/// collection, uses or collection details; immutable), the initial real
/// token reserves to mint into the curve's token account, the curve seeded from the
/// global configuration, and the event to emit.
pub fn create(ctx: &mut Create, params: CreateParams) -> (out: CreateOutcome)
    ensures
        *final(ctx) == (Create {
            bonding_curve: launched(old(ctx).global, params.target),
            ..*old(ctx)
        }),
        final(ctx).bonding_curve.virtual_token_reserves
            == old(ctx).global.initial_virtual_token_reserves,
        final(ctx).bonding_curve.virtual_sol_reserves == old(ctx).global.initial_virtual_sol_reserves,
        final(ctx).bonding_curve.real_token_reserves == old(ctx).global.initial_real_token_reserves,
        final(ctx).bonding_curve.real_sol_reserves == 0,
        final(ctx).bonding_curve.total_token_supply == old(ctx).global.total_token_supply,
        final(ctx).bonding_curve.target == params.target,
        !final(ctx).bonding_curve.complete,
        out.metadata == (MetadataRequest {
            payer: old(ctx).payer,
            update_authority: old(ctx).mint,
            mint: old(ctx).mint,
            metadata: old(ctx).metadata,
            mint_authority: old(ctx).mint,
            name: params.name,
            symbol: params.symbol,
            uri: params.uri,
            seller_fee_basis_points: 0,
            creators: None,
            collection: None,
            uses: None,
            is_mutable: false,
            update_authority_is_signer: true,
            collection_details: None,
            signer: MintSigner { bump: old(ctx).mint_bump },
        }),
        out.mint_to == (MintTokens {
            mint: old(ctx).mint,
            to: old(ctx).associated_bonding_curve,
            authority: old(ctx).mint,
            amount: old(ctx).global.initial_real_token_reserves,
            signer: MintSigner { bump: old(ctx).mint_bump },
        }),
        out.event == (CreateEvent {
            name: params.name,
            symbol: params.symbol,
            uri: params.uri,
            mint: old(ctx).mint,
            bonding_curve: old(ctx).bonding_curve_key,
            user: old(ctx).payer,
        }),
{
    let metadata = MetadataRequest {
        payer: ctx.payer,
        update_authority: ctx.mint,
        mint: ctx.mint,
        metadata: ctx.metadata,
        mint_authority: ctx.mint,
        name: params.name.clone(),
        symbol: params.symbol.clone(),
        uri: params.uri.clone(),
        seller_fee_basis_points: 0,
        creators: None,
        collection: None,
        uses: None,
        is_mutable: false,
        update_authority_is_signer: true,
        collection_details: None,
        signer: MintSigner { bump: ctx.mint_bump },
    };
    let mint_to = MintTokens {
        mint: ctx.mint,
        to: ctx.associated_bonding_curve,
        authority: ctx.mint,
        amount: ctx.global.initial_real_token_reserves,
        signer: MintSigner { bump: ctx.mint_bump },
    };
    ctx.bonding_curve.virtual_token_reserves = ctx.global.initial_virtual_token_reserves;
    ctx.bonding_curve.virtual_sol_reserves = ctx.global.initial_virtual_sol_reserves;
    ctx.bonding_curve.real_token_reserves = ctx.global.initial_real_token_reserves;
    ctx.bonding_curve.real_sol_reserves = 0;
    ctx.bonding_curve.total_token_supply = ctx.global.total_token_supply;
    ctx.bonding_curve.target = params.target;
    ctx.bonding_curve.complete = false;
    let event = CreateEvent {
        name: params.name,
        symbol: params.symbol,
        uri: params.uri,
        mint: ctx.mint,
        bonding_curve: ctx.bonding_curve_key,
        user: ctx.payer,
    };
    CreateOutcome { metadata, mint_to, event }
}

/// The completion event of a trade, emitted when the curve's real SOL reserves
/// have reached its target after the trade.
fn completion(
    curve: &BondingCurve,
    mint: Address,
    user: Address,
    bonding_curve: Address,
    timestamp: i64,
) -> (r: Option<CompleteEvent>)
    ensures
        r == (if curve.real_sol_reserves >= curve.target {
            Some(CompleteEvent { mint, user, bonding_curve, timestamp })
        } else {
            None
        }),
{
    if curve.real_sol_reserves >= curve.target {
        Some(CompleteEvent { mint, user, bonding_curve, timestamp })
    } else {
        None
    }
}

/// The transfers of a buy, made before the curve is touched: the payer's lamports to
/// the curve's token account, then the tokens from there to the payer's token account,
/// on the authority of the payer.
pub fn buy_transfers(ctx: &Buy, params: BuyParams) -> (r: TradeTransfers)
    ensures
        r.sol_transfer == (SolTransfer {
            from: ctx.payer,
            to: ctx.associated_bonding_curve,
            lamports: params.sol_in,
        }),
        r.token_transfer == (TokenTransfer {
            from: ctx.associated_bonding_curve,
            to: ctx.associated_token_account,
            authority: ctx.payer,
            amount: params.token_out,
        }),
{
    TradeTransfers {
        sol_transfer: SolTransfer {
            from: ctx.payer,
            to: ctx.associated_bonding_curve,
            lamports: params.sol_in,
        },
        token_transfer: TokenTransfer {
            from: ctx.associated_bonding_curve,
            to: ctx.associated_token_account,
            authority: ctx.payer,
            amount: params.token_out,
        },
    }
}

/// The transfers of a sell, made before the curve is touched: the lamports from the
/// curve's token account to the payer, then the tokens from the payer's token account
/// to the curve's, on the authority of the mint. Refused with `RequireGtViolated`,
/// before any transfer, unless the curve holds more than `SELL_MIN_REAL_SOL_RESERVES`
/// lamports of real SOL.
pub fn sell_transfers(ctx: &Sell, params: SellParams) -> (r: Result<TradeTransfers, ProgramError>)
    ensures
        r is Ok <==> sell_allowed(ctx.bonding_curve),
        r is Ok <==> ctx.bonding_curve.real_sol_reserves > 70,
        !sell_allowed(ctx.bonding_curve) ==> r == Err::<TradeTransfers, ProgramError>(
            ProgramError::RequireGtViolated,
        ),
        r matches Ok(t) ==> {
            &&& t.sol_transfer == (SolTransfer {
                from: ctx.associated_bonding_curve,
                to: ctx.payer,
                lamports: params.sol_out,
            })
            &&& t.token_transfer == (TokenTransfer {
                from: ctx.associated_token_account,
                to: ctx.associated_bonding_curve,
                authority: ctx.mint,
                amount: params.token_in,
            })
        },
{
    if !(ctx.bonding_curve.real_sol_reserves > SELL_MIN_REAL_SOL_RESERVES) {
        return Err(ProgramError::RequireGtViolated);
    }
    Ok(
        TradeTransfers {
            sol_transfer: SolTransfer {
                from: ctx.associated_bonding_curve,
                to: ctx.payer,
                lamports: params.sol_out,
            },
            token_transfer: TokenTransfer {
                from: ctx.associated_token_account,
                to: ctx.associated_bonding_curve,
                authority: ctx.mint,
                amount: params.token_in,
            },
        },
    )
}

/// Buys `params.token_out` tokens for `params.sol_in` lamports: the payer's lamports
/// go to the curve's token account, the tokens go from there to the payer's token
/// account, and the curve's reserves move by the same amounts. Its transfers are those
/// of `buy_transfers`, which gives them on every input, also where the new reserves
/// would leave the range of `u64`.
pub fn buy(ctx: &mut Buy, params: BuyParams, timestamp: i64) -> (out: TradeOutcome)
    requires
        can_buy(old(ctx).bonding_curve, params),
    ensures
        *final(ctx) == (Buy { bonding_curve: after_buy(old(ctx).bonding_curve, params), ..*old(ctx) }),
        final(ctx).bonding_curve.virtual_token_reserves == old(ctx).bonding_curve.virtual_token_reserves
            - params.token_out,
        final(ctx).bonding_curve.virtual_sol_reserves == old(ctx).bonding_curve.virtual_sol_reserves
            + params.sol_in,
        final(ctx).bonding_curve.real_token_reserves == old(ctx).bonding_curve.real_token_reserves
            - params.token_out,
        final(ctx).bonding_curve.real_sol_reserves == old(ctx).bonding_curve.real_sol_reserves
            + params.sol_in,
        final(ctx).bonding_curve.total_token_supply == old(ctx).bonding_curve.total_token_supply,
        final(ctx).bonding_curve.target == old(ctx).bonding_curve.target,
        final(ctx).bonding_curve.complete == (old(ctx).bonding_curve.complete
            || final(ctx).bonding_curve.real_sol_reserves >= final(ctx).bonding_curve.target),
        out.sol_transfer == (SolTransfer {
            from: old(ctx).payer,
            to: old(ctx).associated_bonding_curve,
            lamports: params.sol_in,
        }),
        out.token_transfer == (TokenTransfer {
            from: old(ctx).associated_bonding_curve,
            to: old(ctx).associated_token_account,
            authority: old(ctx).payer,
            amount: params.token_out,
        }),
        out.trade_event == (TradeEvent {
            mint: old(ctx).mint,
            sol_amount: params.sol_in,
            token_amount: params.token_out,
            is_buy: true,
            user: old(ctx).payer,
            timestamp,
            virtual_token_reserves: final(ctx).bonding_curve.virtual_token_reserves,
            virtual_sol_reserves: final(ctx).bonding_curve.virtual_sol_reserves,
        }),
        out.complete_event == (if final(ctx).bonding_curve.real_sol_reserves >= final(ctx).bonding_curve.target {
            Some(
                CompleteEvent {
                    mint: old(ctx).mint,
                    user: old(ctx).payer,
                    bonding_curve: old(ctx).bonding_curve_key,
                    timestamp,
                },
            )
        } else {
            None
        }),
{
    let transfers = buy_transfers(ctx, params);
    ctx.bonding_curve.virtual_token_reserves = ctx.bonding_curve.virtual_token_reserves
        - params.token_out;
    ctx.bonding_curve.virtual_sol_reserves = ctx.bonding_curve.virtual_sol_reserves
        + params.sol_in;
    ctx.bonding_curve.real_token_reserves = ctx.bonding_curve.real_token_reserves
        - params.token_out;
    ctx.bonding_curve.real_sol_reserves = ctx.bonding_curve.real_sol_reserves + params.sol_in;
    let trade_event = TradeEvent {
        mint: ctx.mint,
        sol_amount: params.sol_in,
        token_amount: params.token_out,
        is_buy: true,
        user: ctx.payer,
        timestamp,
        virtual_token_reserves: ctx.bonding_curve.virtual_token_reserves,
        virtual_sol_reserves: ctx.bonding_curve.virtual_sol_reserves,
    };
    let complete_event = completion(
        &ctx.bonding_curve,
        ctx.mint,
        ctx.payer,
        ctx.bonding_curve_key,
        timestamp,
    );
    if complete_event.is_some() {
        ctx.bonding_curve.complete = true;
    }
    TradeOutcome {
        sol_transfer: transfers.sol_transfer,
        token_transfer: transfers.token_transfer,
        trade_event,
        complete_event,
    }
}

/// Sells `params.token_in` tokens for `params.sol_out` lamports: the lamports go
/// from the curve's token account to the payer, the tokens from the payer's token
/// account to the curve's, and the curve's reserves move by the same amounts.
/// Refused with `RequireGtViolated`, changing nothing, unless the curve holds more
/// than `SELL_MIN_REAL_SOL_RESERVES` lamports of real SOL. Its transfers are those of
/// `sell_transfers`, which gives them on every input.
pub fn sell(ctx: &mut Sell, params: SellParams, timestamp: i64) -> (r: Result<
    TradeOutcome,
    ProgramError,
>)
    requires
        sell_allowed(old(ctx).bonding_curve) ==> can_sell(old(ctx).bonding_curve, params),
    ensures
        r is Ok <==> sell_allowed(old(ctx).bonding_curve),
        r is Ok <==> old(ctx).bonding_curve.real_sol_reserves > 70,
        r is Ok ==> {
            &&& final(ctx).bonding_curve.virtual_token_reserves
                == old(ctx).bonding_curve.virtual_token_reserves + params.token_in
            &&& final(ctx).bonding_curve.virtual_sol_reserves
                == old(ctx).bonding_curve.virtual_sol_reserves - params.sol_out
            &&& final(ctx).bonding_curve.real_token_reserves
                == old(ctx).bonding_curve.real_token_reserves + params.token_in
            &&& final(ctx).bonding_curve.real_sol_reserves
                == old(ctx).bonding_curve.real_sol_reserves - params.sol_out
            &&& final(ctx).bonding_curve.total_token_supply
                == old(ctx).bonding_curve.total_token_supply
            &&& final(ctx).bonding_curve.target == old(ctx).bonding_curve.target
            &&& final(ctx).bonding_curve.complete == (old(ctx).bonding_curve.complete
                || final(ctx).bonding_curve.real_sol_reserves >= final(ctx).bonding_curve.target)
        },
        !sell_allowed(old(ctx).bonding_curve) ==> r == Err::<TradeOutcome, ProgramError>(
            ProgramError::RequireGtViolated,
        ) && *final(ctx) == *old(ctx),
        r matches Ok(out) ==> {
            &&& *final(ctx) == (Sell {
                bonding_curve: after_sell(old(ctx).bonding_curve, params),
                ..*old(ctx)
            })
            &&& out.sol_transfer == (SolTransfer {
                from: old(ctx).associated_bonding_curve,
                to: old(ctx).payer,
                lamports: params.sol_out,
            })
            &&& out.token_transfer == (TokenTransfer {
                from: old(ctx).associated_token_account,
                to: old(ctx).associated_bonding_curve,
                authority: old(ctx).mint,
                amount: params.token_in,
            })
            &&& out.trade_event == (TradeEvent {
                mint: old(ctx).mint,
                sol_amount: params.sol_out,
                token_amount: params.token_in,
                is_buy: false,
                user: old(ctx).payer,
                timestamp,
                virtual_token_reserves: final(ctx).bonding_curve.virtual_token_reserves,
                virtual_sol_reserves: final(ctx).bonding_curve.virtual_sol_reserves,
            })
            &&& out.complete_event == (if final(ctx).bonding_curve.real_sol_reserves >= final(ctx).bonding_curve.target {
                Some(
                    CompleteEvent {
                        mint: old(ctx).mint,
                        user: old(ctx).payer,
                        bonding_curve: old(ctx).bonding_curve_key,
                        timestamp,
                    },
                )
            } else {
                None
            })
        },
{
    let transfers = match sell_transfers(ctx, params) {
        Ok(t) => t,
        Err(e) => {
            return Err(e);
        },
    };
    ctx.bonding_curve.virtual_token_reserves = ctx.bonding_curve.virtual_token_reserves
        + params.token_in;
    ctx.bonding_curve.virtual_sol_reserves = ctx.bonding_curve.virtual_sol_reserves
        - params.sol_out;
    ctx.bonding_curve.real_token_reserves = ctx.bonding_curve.real_token_reserves
        + params.token_in;
    ctx.bonding_curve.real_sol_reserves = ctx.bonding_curve.real_sol_reserves - params.sol_out;
    let trade_event = TradeEvent {
        mint: ctx.mint,
        sol_amount: params.sol_out,
        token_amount: params.token_in,
        is_buy: false,
        user: ctx.payer,
        timestamp,
        virtual_token_reserves: ctx.bonding_curve.virtual_token_reserves,
        virtual_sol_reserves: ctx.bonding_curve.virtual_sol_reserves,
    };
    let complete_event = completion(
        &ctx.bonding_curve,
        ctx.mint,
        ctx.payer,
        ctx.bonding_curve_key,
        timestamp,
    );
    if complete_event.is_some() {
        ctx.bonding_curve.complete = true;
    }
    Ok(
        TradeOutcome {
            sol_transfer: transfers.sol_transfer,
            token_transfer: transfers.token_transfer,
            trade_event,
            complete_event,
        },
    )
}

/// Pays out a complete curve: all its real SOL to the payer and all its real tokens
/// to the payer's token account, then zeroes every reserve. Refused with
/// `IncompleteBondingCurve`, changing nothing, while the curve is not complete.
pub fn withdraw(ctx: &mut Withdraw) -> (r: Result<WithdrawOutcome, ProgramError>)
    ensures
        r is Ok <==> old(ctx).bonding_curve.complete,
        r is Ok ==> {
            &&& final(ctx).bonding_curve.virtual_token_reserves == 0
            &&& final(ctx).bonding_curve.virtual_sol_reserves == 0
            &&& final(ctx).bonding_curve.real_token_reserves == 0
            &&& final(ctx).bonding_curve.real_sol_reserves == 0
            &&& final(ctx).bonding_curve.total_token_supply
                == old(ctx).bonding_curve.total_token_supply
            &&& final(ctx).bonding_curve.target == old(ctx).bonding_curve.target
            &&& final(ctx).bonding_curve.complete
        },
        !old(ctx).bonding_curve.complete ==> r == Err::<WithdrawOutcome, ProgramError>(
            ProgramError::Custom(Errors::IncompleteBondingCurve),
        ) && *final(ctx) == *old(ctx),
        r matches Ok(out) ==> {
            &&& *final(ctx) == (Withdraw {
                bonding_curve: drained(old(ctx).bonding_curve),
                ..*old(ctx)
            })
            &&& out.sol_transfer == (SolTransfer {
                from: old(ctx).associated_bonding_curve,
                to: old(ctx).payer,
                lamports: old(ctx).bonding_curve.real_sol_reserves,
            })
            &&& out.token_transfer == (TokenTransfer {
                from: old(ctx).associated_bonding_curve,
                to: old(ctx).associated_token_account,
                authority: old(ctx).mint,
                amount: old(ctx).bonding_curve.real_token_reserves,
            })
        },
{
    if !ctx.bonding_curve.complete {
        return Err(ProgramError::Custom(Errors::IncompleteBondingCurve));
    }
    let sol_transfer = SolTransfer {
        from: ctx.associated_bonding_curve,
        to: ctx.payer,
        lamports: ctx.bonding_curve.real_sol_reserves,
    };
    let token_transfer = TokenTransfer {
        from: ctx.associated_bonding_curve,
        to: ctx.associated_token_account,
        authority: ctx.mint,
        amount: ctx.bonding_curve.real_token_reserves,
    };
    ctx.bonding_curve.virtual_token_reserves = 0;
    ctx.bonding_curve.virtual_sol_reserves = 0;
    ctx.bonding_curve.real_token_reserves = 0;
    ctx.bonding_curve.real_sol_reserves = 0;
    Ok(WithdrawOutcome { sol_transfer, token_transfer })
}

} // verus!
