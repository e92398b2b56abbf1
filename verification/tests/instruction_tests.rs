use shitcoin_arena::curve::DENOMINATOR_C;
use shitcoin_arena::error::ERROR_CODE_OFFSET;
use shitcoin_arena::instructions::{
    fee_for, move_lamports, AccountRole, Step, FEE_LAMPORTS, LAMPORTS_PER_SOL, TARGET_MARKET_CAP,
};
use shitcoin_arena::keys::{admin_key, check_admin, keys_equal, ADMIN};
use shitcoin_arena::{
    buy, create_token_and_buy, initialize, migrate, sell, swap, withdraw_fees, CustomError,
    InitializeMigrateEvent, LinearBondingCurve,
};

const ADMIN_KEY: [u8; 32] = [7u8; 32];
const OTHER_KEY: [u8; 32] = [9u8; 32];

fn purchase(lamports: u64, fee: u64, amount: u64) -> Vec<Step> {
    vec![
        Step::SystemTransfer { from: AccountRole::Signer, to: AccountRole::CurveSol, lamports },
        Step::SystemTransfer { from: AccountRole::Signer, to: AccountRole::ProgramSol, lamports: fee },
        Step::TokenTransfer {
            from: AccountRole::CurveToken,
            to: AccountRole::SignerToken,
            authority: AccountRole::ProgramAuthority,
            amount,
        },
    ]
}

fn creation() -> Vec<Step> {
    vec![
        Step::SystemTransfer {
            from: AccountRole::Signer,
            to: AccountRole::ProgramSol,
            lamports: 100_000_000,
        },
        Step::MintTo { to: AccountRole::CurveToken, amount: 1_000_000_000_000_000 },
        Step::RevokeMintAuthority,
    ]
}

#[test]
fn constants_have_their_values() {
    assert_eq!(LAMPORTS_PER_SOL, 1_000_000_000);
    assert_eq!(FEE_LAMPORTS, 100_000_000);
    assert_eq!(TARGET_MARKET_CAP, 690_000_000_000);
    assert_eq!(ADMIN, "");
}

#[test]
fn initialize_succeeds() {
    assert_eq!(initialize(), Ok(()));
}

#[test]
fn fee_is_one_basis_point_rounded_down() {
    assert_eq!(fee_for(1_000_000), 100);
    assert_eq!(fee_for(9_999), 0);
    assert_eq!(fee_for(20_000), 2);
    assert_eq!(fee_for(u64::MAX), u64::MAX / 10_000);
}

#[test]
fn create_without_purchase() {
    let mut c = LinearBondingCurve { token: 0, closed: true };
    let steps = create_token_and_buy(&mut c, 0);
    assert_eq!(steps, creation());
    assert_eq!(c.token, 0);
    assert!(!c.closed);
}

#[test]
fn create_with_purchase() {
    let mut c = LinearBondingCurve { token: 0, closed: false };
    let steps = create_token_and_buy(&mut c, 3_000_000_000);
    // the unit sum over 0..=3 * 10^9 is 4_500_000_001_500_000_000
    let mut expected = creation();
    expected.extend(purchase(3, 0, 3_000_000_000));
    assert_eq!(steps, expected);
    assert_eq!(c.token, 3_000_000_000);
    assert!(!c.closed);
}

#[test]
fn buy_on_closed_curve_is_refused() {
    let mut c = LinearBondingCurve { token: 42, closed: true };
    assert_eq!(buy(&mut c, 1, &[1u8; 32]), Err(CustomError::CurveInMigration));
    assert_eq!(c.token, 42);
    assert!(c.closed);
}

#[test]
fn buy_below_target_keeps_curve_open() {
    let mut c = LinearBondingCurve { token: 0, closed: false };
    assert_eq!(buy(&mut c, 10, &[1u8; 32]), Ok(purchase(1, 0, 10)));
    assert_eq!(c.token, 10);
    assert!(!c.closed);
}

#[test]
fn buy_reaching_target_closes_curve_and_emits_event() {
    let mut c = LinearBondingCurve { token: DENOMINATOR_C - 1, closed: false };
    let mint = [5u8; 32];
    let mut expected = purchase(2, 0, 1);
    expected.push(Step::EmitMigrate(InitializeMigrateEvent { mint }));
    assert_eq!(buy(&mut c, 1, &mint), Ok(expected));
    assert_eq!(c.token, DENOMINATOR_C);
    assert!(c.closed);
    assert!(c.mkt_cap() >= TARGET_MARKET_CAP);
}

#[test]
fn sell_on_closed_curve_is_refused() {
    let mut c = LinearBondingCurve { token: 42, closed: true };
    assert_eq!(sell(&mut c, 1), Err(CustomError::CurveInMigration));
    assert_eq!(c.token, 42);
}

#[test]
fn sell_moves_proceeds_from_program_account() {
    let mut c = LinearBondingCurve { token: 4_000_000_000, closed: false };
    let expected = vec![
        Step::TokenTransfer {
            from: AccountRole::SignerToken,
            to: AccountRole::CurveToken,
            authority: AccountRole::Signer,
            amount: 1_000_000_000,
        },
        Step::MoveLamports { from: AccountRole::ProgramSol, to: AccountRole::Signer, lamports: 2 },
        Step::SystemTransfer { from: AccountRole::Signer, to: AccountRole::ProgramSol, lamports: 0 },
    ];
    assert_eq!(sell(&mut c, 1_000_000_000), Ok(expected));
    assert_eq!(c.token, 3_000_000_000);
}

#[test]
fn swap_moves_sell_amount_both_ways() {
    let mut from = LinearBondingCurve { token: 4_000_000_000, closed: true };
    let mut to = LinearBondingCurve { token: 0, closed: false };
    let steps = swap(&mut from, &mut to, 1_000_000_000, 3_000_000_000);
    let expected = vec![
        Step::SystemTransfer { from: AccountRole::Signer, to: AccountRole::ProgramSol, lamports: 0 },
        Step::MoveLamports {
            from: AccountRole::FromCurveSol,
            to: AccountRole::Signer,
            lamports: 1_000_000_000,
        },
        Step::SystemTransfer { from: AccountRole::Signer, to: AccountRole::ToCurveSol, lamports: 3 },
        Step::TokenTransfer {
            from: AccountRole::SignerFromToken,
            to: AccountRole::FromCurveToken,
            authority: AccountRole::Signer,
            amount: 1_000_000_000,
        },
        Step::TokenTransfer {
            from: AccountRole::ToCurveToken,
            to: AccountRole::SignerToToken,
            authority: AccountRole::ProgramAuthority,
            amount: 1_000_000_000,
        },
    ];
    assert_eq!(steps, expected);
    assert_eq!(from.token, 3_000_000_000);
    assert!(from.closed);
    assert_eq!(to.token, 3_000_000_000);
    assert!(!to.closed);
}

#[test]
fn withdraw_fees_checks_signer_and_balance() {
    assert_eq!(
        withdraw_fees(&ADMIN_KEY, &OTHER_KEY, 0, 0),
        Err(CustomError::InvalidSigner)
    );
    assert_eq!(
        withdraw_fees(&ADMIN_KEY, &ADMIN_KEY, 946_559, 946_560),
        Err(CustomError::NoFeesToWithdraw)
    );
    assert_eq!(
        withdraw_fees(&ADMIN_KEY, &ADMIN_KEY, 946_559, 2_000_000),
        Ok(vec![Step::MoveLamports {
            from: AccountRole::ProgramSol,
            to: AccountRole::Signer,
            lamports: 1_053_440,
        }])
    );
}

#[test]
fn migrate_moves_all_tokens_and_spare_lamports() {
    assert_eq!(
        migrate(&ADMIN_KEY, &OTHER_KEY, 10, 0, 0),
        Err(CustomError::InvalidSigner)
    );
    assert_eq!(
        migrate(&ADMIN_KEY, &ADMIN_KEY, 123, 946_559, 946_560),
        Ok(vec![
            Step::TokenTransfer {
                from: AccountRole::CurveToken,
                to: AccountRole::TokenReceiving,
                authority: AccountRole::ProgramAuthority,
                amount: 123,
            },
            Step::MoveLamports { from: AccountRole::CurveSol, to: AccountRole::SolReceiving, lamports: 0 },
        ])
    );
}

#[test]
fn move_lamports_conserves_total() {
    assert_eq!(move_lamports(100, 5, 30), (70, 35));
    assert_eq!(move_lamports(30, 0, 30), (0, 30));
}

#[test]
fn admin_key_of_empty_text_is_none() {
    assert_eq!(admin_key(), None);
}

#[test]
fn keys_compare_bytewise() {
    assert!(keys_equal(&ADMIN_KEY, &[7u8; 32]));
    let mut k = ADMIN_KEY;
    k[31] = 8;
    assert!(!keys_equal(&ADMIN_KEY, &k));
    assert_eq!(check_admin(&ADMIN_KEY, &ADMIN_KEY), Ok(()));
    assert_eq!(check_admin(&ADMIN_KEY, &k), Err(CustomError::InvalidSigner));
}

#[test]
fn errors_have_codes_and_messages() {
    assert_eq!(CustomError::NoFeesToWithdraw.code(), ERROR_CODE_OFFSET);
    assert_eq!(CustomError::InvalidSigner.code(), 6001);
    assert_eq!(CustomError::CurveInMigration.code(), 6002);
    assert_eq!(CustomError::NoFeesToWithdraw.message(), "No fees to withdraw");
    assert_eq!(CustomError::InvalidSigner.message(), "Invalid signer");
    assert_eq!(CustomError::CurveInMigration.message(), "Curve is being migrated");
}
