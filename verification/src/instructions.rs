//! The decisions of the market's instructions. Each instruction updates the
//! curve state it is handed and answers with the steps the runtime carries out
//! in order (transfers through the system and token programs, direct lamport
//! moves, events), or with the error that refuses it. A transaction either
//! carries out all its steps and keeps the new state, or none of them.

use vstd::prelude::*;

use crate::curve::{
    LinearBondingCurve, buy_cost, buy_fits, market_cap, range_sum, sell_fits, sell_proceeds,
    lemma_buy_cost_is_scaled_unit_sum, lemma_sell_proceeds_is_scaled_unit_sum, DENOMINATOR_C,
    TOKEN_SUPPLY,
};
use crate::error::{CustomError, InitializeMigrateEvent};
use crate::keys::keys_equal;

verus! {

/// Lamports in one SOL.
pub const LAMPORTS_PER_SOL: u64 = 1_000_000_000;

/// Decimals of every mint the market creates.
pub const MINT_DECIMALS: u8 = 6;

/// Flat fee, in lamports, for creating a token.
pub const FEE_LAMPORTS: u64 = LAMPORTS_PER_SOL / 10;

/// Trading fee, in basis points of the lamports traded.
pub const FEE_PERCENT_BP: u64 = 1;

/// Market cap, in lamports, at which a curve closes and starts to migrate.
pub const TARGET_MARKET_CAP: u64 = 690 * LAMPORTS_PER_SOL;

/// The accounts an instruction's steps touch, by their role in it.
#[derive(Debug, Clone, Copy, PartialEq, Eq)]
pub enum AccountRole {
    Signer,
    SignerToken,
    SignerFromToken,
    SignerToToken,
    ProgramAuthority,
    ProgramSol,
    CurveSol,
    CurveToken,
    FromCurveSol,
    FromCurveToken,
    ToCurveSol,
    ToCurveToken,
    SolReceiving,
    TokenReceiving,
}

/// One step an instruction asks the runtime to carry out.
#[derive(Debug, Clone, Copy, PartialEq, Eq)]
pub enum Step {
    /// A system-program transfer of lamports, signed by `from`.
    SystemTransfer { from: AccountRole, to: AccountRole, lamports: u64 },
    /// A token-program transfer, signed by `authority` (the program's
    /// authority account signs with its seeds).
    TokenTransfer { from: AccountRole, to: AccountRole, authority: AccountRole, amount: u64 },
    /// A token-program mint of `amount` units into `to`, signed by the
    /// program's authority.
    MintTo { to: AccountRole, amount: u64 },
    /// A token-program call that removes the mint's minting authority.
    RevokeMintAuthority,
    /// A direct debit of `from`'s lamports and credit of `to`'s.
    MoveLamports { from: AccountRole, to: AccountRole, lamports: u64 },
    /// Emission of the migration event.
    EmitMigrate(InitializeMigrateEvent),
}

/// The trading fee on `lamports`.
pub open spec fn fee(lamports: int) -> int {
    lamports * (FEE_PERCENT_BP as int) / 100 / 100
}

/// Computes the trading fee on `lamports`.
pub fn fee_for(lamports: u64) -> (f: u64)
    ensures
        f == fee(lamports as int),
        f == lamports / 10_000,
{
    lamports * FEE_PERCENT_BP / 100 / 100
}

/// The trading fee is one basis point of the lamports traded, rounded down.
pub proof fn lemma_fee_is_one_basis_point(lamports: int)
    requires
        0 <= lamports,
    ensures
        fee(lamports) == lamports / 10_000,
        fee(lamports) * 10_000 <= lamports < (fee(lamports) + 1) * 10_000,
{
}

/// The steps of a purchase from a curve: the buyer pays the price into the
/// curve's lamport account and the fee into the program's, and receives the
/// tokens from the curve's token account.
pub open spec fn purchase_steps(lamports: u64, amount: u64) -> Seq<Step> {
    seq![
        Step::SystemTransfer { from: AccountRole::Signer, to: AccountRole::CurveSol, lamports },
        Step::SystemTransfer {
            from: AccountRole::Signer,
            to: AccountRole::ProgramSol,
            lamports: fee(lamports as int) as u64,
        },
        Step::TokenTransfer {
            from: AccountRole::CurveToken,
            to: AccountRole::SignerToken,
            authority: AccountRole::ProgramAuthority,
            amount,
        },
    ]
}

/// The steps of creating a token: the creation fee, the whole supply minted
/// into the curve, and the end of minting.
pub open spec fn creation_steps() -> Seq<Step> {
    seq![
        Step::SystemTransfer {
            from: AccountRole::Signer,
            to: AccountRole::ProgramSol,
            lamports: FEE_LAMPORTS,
        },
        Step::MintTo { to: AccountRole::CurveToken, amount: TOKEN_SUPPLY },
        Step::RevokeMintAuthority,
    ]
}

/// The steps of a sale to a curve: the seller hands the tokens to the curve,
/// the proceeds move from the program's lamport account to the seller, and the
/// seller pays the fee to the program.
pub open spec fn sale_steps(lamports: u64, amount: u64) -> Seq<Step> {
    seq![
        Step::TokenTransfer {
            from: AccountRole::SignerToken,
            to: AccountRole::CurveToken,
            authority: AccountRole::Signer,
            amount,
        },
        Step::MoveLamports { from: AccountRole::ProgramSol, to: AccountRole::Signer, lamports },
        Step::SystemTransfer {
            from: AccountRole::Signer,
            to: AccountRole::ProgramSol,
            lamports: fee(lamports as int) as u64,
        },
    ]
}

/// The steps of a swap, with the fees of both legs, the lamports the purchase
/// leg costs, and the amount sold.
pub open spec fn swap_steps(fees: u64, buy_lamports: u64, sell_amount: u64) -> Seq<Step> {
    seq![
        Step::SystemTransfer { from: AccountRole::Signer, to: AccountRole::ProgramSol, lamports: fees },
        Step::MoveLamports {
            from: AccountRole::FromCurveSol,
            to: AccountRole::Signer,
            lamports: sell_amount,
        },
        Step::SystemTransfer {
            from: AccountRole::Signer,
            to: AccountRole::ToCurveSol,
            lamports: buy_lamports,
        },
        Step::TokenTransfer {
            from: AccountRole::SignerFromToken,
            to: AccountRole::FromCurveToken,
            authority: AccountRole::Signer,
            amount: sell_amount,
        },
        Step::TokenTransfer {
            from: AccountRole::ToCurveToken,
            to: AccountRole::SignerToToken,
            authority: AccountRole::ProgramAuthority,
            amount: sell_amount,
        },
    ]
}

/// A curve's market cap reaches the target exactly when at least
/// `DENOMINATOR_C` units of it are sold.
pub proof fn lemma_market_cap_reaches_target(token: u64)
    ensures
        market_cap(token as int) >= TARGET_MARKET_CAP <==> token >= DENOMINATOR_C,
        market_cap(token as int) % (TOKEN_SUPPLY as int) == 0,
        market_cap(token as int) / (TOKEN_SUPPLY as int) == token / DENOMINATOR_C,
{
}

/// Sets up the market; it asks for no step of its own.
pub fn initialize() -> (r: Result<(), CustomError>)
    ensures
        r == Ok::<(), CustomError>(()),
{
    Ok(())
}

fn push_purchase(steps: &mut Vec<Step>, lamports: u64, amount: u64)
    ensures
        final(steps)@ == old(steps)@ + purchase_steps(lamports, amount),
{
    let f: u64 = fee_for(lamports);
    steps.push(Step::SystemTransfer { from: AccountRole::Signer, to: AccountRole::CurveSol, lamports });
    steps.push(Step::SystemTransfer { from: AccountRole::Signer, to: AccountRole::ProgramSol, lamports: f });
    steps.push(
        Step::TokenTransfer {
            from: AccountRole::CurveToken,
            to: AccountRole::SignerToken,
            authority: AccountRole::ProgramAuthority,
            amount,
        },
    );
}

/// Creates a token on a new curve: charges the creation fee, mints the supply
/// into the curve and ends minting, opens the curve, and, when `amount` is not
/// zero, sells the creator that many units.
pub fn create_token_and_buy(curve: &mut LinearBondingCurve, amount: u64) -> (steps: Vec<Step>)
    requires
        amount > 0 ==> buy_fits(old(curve).token, amount),
    ensures
        final(curve).closed == false,
        final(curve).token == old(curve).token + amount,
        amount == 0 ==> steps@ == creation_steps(),
        amount > 0 ==> steps@ == creation_steps() + purchase_steps(
            buy_cost(old(curve).token as int, amount as int) as u64,
            amount,
        ),
        steps@.len() == if amount > 0 { 6int } else { 3int },
        steps@[0] == (Step::SystemTransfer {
            from: AccountRole::Signer,
            to: AccountRole::ProgramSol,
            lamports: 100_000_000,
        }),
        steps@[1] == (Step::MintTo { to: AccountRole::CurveToken, amount: 1_000_000_000_000_000 }),
        steps@[2] == Step::RevokeMintAuthority,
        amount > 0 ==> steps@[4] == (Step::SystemTransfer {
            from: AccountRole::Signer,
            to: AccountRole::ProgramSol,
            lamports: (steps@[3]->SystemTransfer_lamports / 10_000) as u64,
        }),
        amount > 0 ==> steps@[5] == (Step::TokenTransfer {
            from: AccountRole::CurveToken,
            to: AccountRole::SignerToken,
            authority: AccountRole::ProgramAuthority,
            amount,
        }),
        amount > 0 ==> steps@[3] == (Step::SystemTransfer {
            from: AccountRole::Signer,
            to: AccountRole::CurveSol,
            lamports: (range_sum(old(curve).token as int, old(curve).token + amount)
                / (DENOMINATOR_C as int) + 1) as u64,
        }),
{
    proof {
        lemma_buy_cost_is_scaled_unit_sum(curve.token as int, amount as int);
    }
    let mut steps: Vec<Step> = Vec::new();
    steps.push(
        Step::SystemTransfer {
            from: AccountRole::Signer,
            to: AccountRole::ProgramSol,
            lamports: FEE_LAMPORTS,
        },
    );
    steps.push(Step::MintTo { to: AccountRole::CurveToken, amount: TOKEN_SUPPLY });
    steps.push(Step::RevokeMintAuthority);
    assert(steps@ =~= creation_steps());
    curve.closed = false;
    if amount > 0 {
        let lamports: u64 = curve.buy(amount);
        push_purchase(&mut steps, lamports, amount);
    }
    steps
}

/// Buys `amount` units from an open curve; a closed curve refuses with
/// `CurveInMigration`. When the purchase lifts the market cap to the target,
/// the curve closes and the migration event is emitted.
pub fn buy(curve: &mut LinearBondingCurve, amount: u64, mint: &[u8; 32]) -> (r: Result<
    Vec<Step>,
    CustomError,
>)
    requires
        !old(curve).closed ==> buy_fits(old(curve).token, amount),
    ensures
        old(curve).closed ==> r == Err::<Vec<Step>, CustomError>(CustomError::CurveInMigration)
            && *final(curve) == *old(curve),
        !old(curve).closed ==> {
            let lamports = buy_cost(old(curve).token as int, amount as int) as u64;
            let closes = market_cap(old(curve).token + amount) >= TARGET_MARKET_CAP;
            &&& final(curve).token == old(curve).token + amount
            &&& final(curve).closed == closes
            &&& final(curve).closed == (final(curve).token >= DENOMINATOR_C)
            &&& r matches Ok(steps) && steps@ == purchase_steps(lamports, amount) + if closes {
                seq![Step::EmitMigrate(InitializeMigrateEvent { mint: *mint })]
            } else {
                Seq::<Step>::empty()
            }
            &&& r matches Ok(steps) && steps@.len() == if closes { 4int } else { 3int }
            &&& r matches Ok(steps) && steps@[1] == (Step::SystemTransfer {
                from: AccountRole::Signer,
                to: AccountRole::ProgramSol,
                lamports: (steps@[0]->SystemTransfer_lamports / 10_000) as u64,
            })
            &&& r matches Ok(steps) && steps@[2] == (Step::TokenTransfer {
                from: AccountRole::CurveToken,
                to: AccountRole::SignerToken,
                authority: AccountRole::ProgramAuthority,
                amount,
            })
            &&& r matches Ok(steps) && (closes ==> steps@[3] == Step::EmitMigrate(
                InitializeMigrateEvent { mint: *mint },
            ))
            &&& r matches Ok(steps) && steps@[0] == (Step::SystemTransfer {
                from: AccountRole::Signer,
                to: AccountRole::CurveSol,
                lamports: (range_sum(old(curve).token as int, old(curve).token + amount)
                    / (DENOMINATOR_C as int) + 1) as u64,
            })
        },
{
    proof {
        lemma_buy_cost_is_scaled_unit_sum(curve.token as int, amount as int);
    }
    if curve.closed {
        return Err(CustomError::CurveInMigration);
    }
    let lamports: u64 = curve.buy(amount);
    let mut steps: Vec<Step> = Vec::new();
    push_purchase(&mut steps, lamports, amount);
    proof {
        lemma_market_cap_reaches_target(curve.token);
    }
    if curve.mkt_cap() >= TARGET_MARKET_CAP {
        curve.closed = true;
        steps.push(Step::EmitMigrate(InitializeMigrateEvent { mint: *mint }));
    } else {
        assert(steps@ =~= steps@ + Seq::<Step>::empty());
    }
    Ok(steps)
}

/// Sells `amount` units back to an open curve; a closed curve refuses with
/// `CurveInMigration`.
pub fn sell(curve: &mut LinearBondingCurve, amount: u64) -> (r: Result<Vec<Step>, CustomError>)
    requires
        !old(curve).closed ==> sell_fits(old(curve).token, amount),
    ensures
        old(curve).closed ==> r == Err::<Vec<Step>, CustomError>(CustomError::CurveInMigration)
            && *final(curve) == *old(curve),
        !old(curve).closed ==> {
            &&& final(curve).token == old(curve).token - amount
            &&& final(curve).closed == false
            &&& r matches Ok(steps) && steps@ == sale_steps(
                sell_proceeds(old(curve).token as int, amount as int) as u64,
                amount,
            )
            &&& r matches Ok(steps) && steps@.len() == 3
            &&& r matches Ok(steps) && steps@[0] == (Step::TokenTransfer {
                from: AccountRole::SignerToken,
                to: AccountRole::CurveToken,
                authority: AccountRole::Signer,
                amount,
            })
            &&& r matches Ok(steps) && steps@[2] == (Step::SystemTransfer {
                from: AccountRole::Signer,
                to: AccountRole::ProgramSol,
                lamports: (steps@[1]->MoveLamports_lamports / 10_000) as u64,
            })
            &&& r matches Ok(steps) && steps@[1] == (Step::MoveLamports {
                from: AccountRole::ProgramSol,
                to: AccountRole::Signer,
                lamports: (range_sum(old(curve).token - amount, old(curve).token as int)
                    / (DENOMINATOR_C as int) + 1) as u64,
            })
        },
{
    proof {
        if !curve.closed {
            lemma_sell_proceeds_is_scaled_unit_sum(curve.token as int, amount as int);
        }
    }
    if curve.closed {
        return Err(CustomError::CurveInMigration);
    }
    let lamports: u64 = curve.sell(amount);
    let f: u64 = fee_for(lamports);
    let mut steps: Vec<Step> = Vec::new();
    steps.push(
        Step::TokenTransfer {
            from: AccountRole::SignerToken,
            to: AccountRole::CurveToken,
            authority: AccountRole::Signer,
            amount,
        },
    );
    steps.push(Step::MoveLamports { from: AccountRole::ProgramSol, to: AccountRole::Signer, lamports });
    steps.push(Step::SystemTransfer { from: AccountRole::Signer, to: AccountRole::ProgramSol, lamports: f });
    assert(steps@ =~= sale_steps(lamports, amount));
    Ok(steps)
}

/// Sells `sell_amount` units back to one curve and buys `buy_amount` units
/// from another in one instruction, whether the curves are open or closed.
/// The signer pays both legs' fees and the purchase leg's price, and the
/// sale leg moves `sell_amount` lamports and `sell_amount` tokens each way.
pub fn swap(
    from_curve: &mut LinearBondingCurve,
    to_curve: &mut LinearBondingCurve,
    sell_amount: u64,
    buy_amount: u64,
) -> (steps: Vec<Step>)
    requires
        sell_fits(old(from_curve).token, sell_amount),
        buy_fits(old(to_curve).token, buy_amount),
    ensures
        final(from_curve).token == old(from_curve).token - sell_amount,
        final(from_curve).closed == old(from_curve).closed,
        final(to_curve).token == old(to_curve).token + buy_amount,
        final(to_curve).closed == old(to_curve).closed,
        steps@ == swap_steps(
            (fee(sell_proceeds(old(from_curve).token as int, sell_amount as int)) + fee(
                buy_cost(old(to_curve).token as int, buy_amount as int),
            )) as u64,
            buy_cost(old(to_curve).token as int, buy_amount as int) as u64,
            sell_amount,
        ),
        steps@.len() == 5,
        steps@[1] == (Step::MoveLamports {
            from: AccountRole::FromCurveSol,
            to: AccountRole::Signer,
            lamports: sell_amount,
        }),
        steps@[3] == (Step::TokenTransfer {
            from: AccountRole::SignerFromToken,
            to: AccountRole::FromCurveToken,
            authority: AccountRole::Signer,
            amount: sell_amount,
        }),
        steps@[4] == (Step::TokenTransfer {
            from: AccountRole::ToCurveToken,
            to: AccountRole::SignerToToken,
            authority: AccountRole::ProgramAuthority,
            amount: sell_amount,
        }),
        steps@[2] == (Step::SystemTransfer {
            from: AccountRole::Signer,
            to: AccountRole::ToCurveSol,
            lamports: (range_sum(old(to_curve).token as int, old(to_curve).token + buy_amount)
                / (DENOMINATOR_C as int) + 1) as u64,
        }),
        steps@[0] == (Step::SystemTransfer {
            from: AccountRole::Signer,
            to: AccountRole::ProgramSol,
            lamports: ((range_sum(old(from_curve).token - sell_amount, old(from_curve).token as int)
                / (DENOMINATOR_C as int) + 1) / 10_000 + (range_sum(
                old(to_curve).token as int,
                old(to_curve).token + buy_amount,
            ) / (DENOMINATOR_C as int) + 1) / 10_000) as u64,
        }),
{
    proof {
        lemma_buy_cost_is_scaled_unit_sum(to_curve.token as int, buy_amount as int);
        lemma_sell_proceeds_is_scaled_unit_sum(from_curve.token as int, sell_amount as int);
    }
    let sell_lamports: u64 = from_curve.sell(sell_amount);
    let sell_fee: u64 = fee_for(sell_lamports);
    let buy_lamports: u64 = to_curve.buy(buy_amount);
    let buy_fee: u64 = fee_for(buy_lamports);
    let fees: u64 = sell_fee + buy_fee;
    let mut steps: Vec<Step> = Vec::new();
    steps.push(
        Step::SystemTransfer {
            from: AccountRole::Signer,
            to: AccountRole::ProgramSol,
            lamports: fees,
        },
    );
    steps.push(
        Step::MoveLamports {
            from: AccountRole::FromCurveSol,
            to: AccountRole::Signer,
            lamports: sell_amount,
        },
    );
    steps.push(
        Step::SystemTransfer {
            from: AccountRole::Signer,
            to: AccountRole::ToCurveSol,
            lamports: buy_lamports,
        },
    );
    steps.push(
        Step::TokenTransfer {
            from: AccountRole::SignerFromToken,
            to: AccountRole::FromCurveToken,
            authority: AccountRole::Signer,
            amount: sell_amount,
        },
    );
    steps.push(
        Step::TokenTransfer {
            from: AccountRole::ToCurveToken,
            to: AccountRole::SignerToToken,
            authority: AccountRole::ProgramAuthority,
            amount: sell_amount,
        },
    );
    assert(steps@ =~= swap_steps(fees, buy_lamports, sell_amount));
    steps
}

/// The lamports above the rent-exempt floor (`rent_minimum_balance + 1`)
/// that an account with `balance` lamports holds.
pub open spec fn above_floor(rent_minimum_balance: int, balance: int) -> int {
    balance - (rent_minimum_balance + 1)
}

/// What lies above the floor is everything but the floor: taking it out of
/// `balance` leaves exactly `rent_minimum_balance + 1` lamports, and it is zero
/// exactly when the balance sits at the floor.
pub proof fn lemma_above_floor_leaves_floor(rent_minimum_balance: int, balance: int)
    ensures
        balance - above_floor(rent_minimum_balance, balance) == rent_minimum_balance + 1,
        above_floor(rent_minimum_balance, balance) == 0 <==> balance == rent_minimum_balance + 1,
{
}

/// Lets the admin take the fees: everything in the program's lamport account
/// above the rent-exempt floor. Another signer is refused with
/// `InvalidSigner`; an account with nothing above the floor with
/// `NoFeesToWithdraw`.
pub fn withdraw_fees(
    admin: &[u8; 32],
    signer: &[u8; 32],
    rent_minimum_balance: u64,
    program_sol_lamports: u64,
) -> (r: Result<Vec<Step>, CustomError>)
    requires
        admin@ == signer@ ==> rent_minimum_balance < u64::MAX && program_sol_lamports
            >= rent_minimum_balance + 1,
    ensures
        admin@ != signer@ ==> r == Err::<Vec<Step>, CustomError>(CustomError::InvalidSigner),
        admin@ == signer@ && program_sol_lamports == rent_minimum_balance + 1 ==> r == Err::<
            Vec<Step>,
            CustomError,
        >(CustomError::NoFeesToWithdraw),
        admin@ == signer@ && program_sol_lamports > rent_minimum_balance + 1 ==> (r matches Ok(
            steps,
        ) && steps@.len() == 1 && steps@[0] == (Step::MoveLamports {
            from: AccountRole::ProgramSol,
            to: AccountRole::Signer,
            lamports: (program_sol_lamports - rent_minimum_balance - 1) as u64,
        })),
        r matches Ok(steps) ==> steps@ == seq![
            (Step::MoveLamports {
                from: AccountRole::ProgramSol,
                to: AccountRole::Signer,
                lamports: above_floor(rent_minimum_balance as int, program_sol_lamports as int)
                    as u64,
            }),
        ],
{
    if !keys_equal(admin, signer) {
        return Err(CustomError::InvalidSigner);
    }
    let min_rent: u64 = rent_minimum_balance + 1;
    let lamports: u64 = program_sol_lamports - min_rent;
    if lamports == 0 {
        return Err(CustomError::NoFeesToWithdraw);
    }
    let mut steps: Vec<Step> = Vec::new();
    steps.push(Step::MoveLamports { from: AccountRole::ProgramSol, to: AccountRole::Signer, lamports });
    Ok(steps)
}

/// Lets the admin migrate a curve: all of the curve's tokens go to the
/// receiving token account, and all of its lamports above the rent-exempt
/// floor to the receiving account. Another signer is refused with
/// `InvalidSigner`.
pub fn migrate(
    admin: &[u8; 32],
    signer: &[u8; 32],
    curve_token_amount: u64,
    rent_minimum_balance: u64,
    curve_sol_lamports: u64,
) -> (r: Result<Vec<Step>, CustomError>)
    requires
        admin@ == signer@ ==> rent_minimum_balance < u64::MAX && curve_sol_lamports
            >= rent_minimum_balance + 1,
    ensures
        admin@ != signer@ ==> r == Err::<Vec<Step>, CustomError>(CustomError::InvalidSigner),
        admin@ == signer@ ==> (r matches Ok(steps) && steps@ == seq![
            (Step::TokenTransfer {
                from: AccountRole::CurveToken,
                to: AccountRole::TokenReceiving,
                authority: AccountRole::ProgramAuthority,
                amount: curve_token_amount,
            }),
            (Step::MoveLamports {
                from: AccountRole::CurveSol,
                to: AccountRole::SolReceiving,
                lamports: (curve_sol_lamports - rent_minimum_balance - 1) as u64,
            }),
        ]),
        r matches Ok(steps) ==> steps@[1] == (Step::MoveLamports {
            from: AccountRole::CurveSol,
            to: AccountRole::SolReceiving,
            lamports: above_floor(rent_minimum_balance as int, curve_sol_lamports as int) as u64,
        }),
{
    if !keys_equal(admin, signer) {
        return Err(CustomError::InvalidSigner);
    }
    let mut steps: Vec<Step> = Vec::new();
    steps.push(
        Step::TokenTransfer {
            from: AccountRole::CurveToken,
            to: AccountRole::TokenReceiving,
            authority: AccountRole::ProgramAuthority,
            amount: curve_token_amount,
        },
    );
    let min_rent: u64 = rent_minimum_balance + 1;
    let lamports: u64 = curve_sol_lamports - min_rent;
    steps.push(Step::MoveLamports { from: AccountRole::CurveSol, to: AccountRole::SolReceiving, lamports });
    assert(steps@.len() == 2);
    Ok(steps)
}

/// The balances of two accounts after `lamports` move from the first to the
/// second: the first's lamports go down and the second's up by that much.
pub fn move_lamports(from_balance: u64, to_balance: u64, lamports: u64) -> (balances: (u64, u64))
    requires
        lamports <= from_balance,
        to_balance + lamports <= u64::MAX,
    ensures
        balances.0 == from_balance - lamports,
        balances.1 == to_balance + lamports,
        balances.0 + balances.1 == from_balance + to_balance,
{
    (from_balance - lamports, to_balance + lamports)
}

} // verus!
