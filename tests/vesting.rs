use anchor_lang::solana_program::pubkey::Pubkey;
use tokenvesting::accounts::{EmployeeAccount, VestingAccount};
use tokenvesting::address::{check_derivation, Address};
use tokenvesting::error::ErrorCode;
use tokenvesting::instructions::{
    claim_token, create_employee_account, create_vesting_account, treasury_signer_seeds, ClaimToken,
    CreateEmployeeAccount, CreateVestingAccount,
};
use tokenvesting::schedule::{claimable_amount, vested_amount};

fn addr(pk: &Pubkey) -> Address {
    Address::new(pk.to_bytes())
}

fn key(n: u8) -> Address {
    Address::new([n; 32])
}

fn program() -> Pubkey {
    Pubkey::new_from_array([7; 32])
}

fn schedule(start: i64, cliff: i64, end: i64, total: u64) -> EmployeeAccount {
    EmployeeAccount {
        beneficiary: key(1),
        start_time: start,
        end_time: end,
        cliff_time: cliff,
        vesting_account: key(2),
        total_amount: total,
        total_withdrawn: 0,
        bump: 255,
    }
}

fn vesting_ctx(name: &str) -> CreateVestingAccount {
    let pid = program();
    let (record, _) = Pubkey::find_program_address(&[name.as_bytes()], &pid);
    let (treasury, _) = Pubkey::find_program_address(&[b"vesting_treasury", name.as_bytes()], &pid);
    CreateVestingAccount {
        program_id: addr(&pid),
        signer: key(9),
        mint: key(8),
        vesting_account: addr(&record),
        treasury_token_account: addr(&treasury),
    }
}

fn setup(name: &str, start: i64, cliff: i64, end: i64, total: u64) -> ClaimToken {
    let vctx = vesting_ctx(name);
    let vesting = create_vesting_account(&vctx, name.to_string()).unwrap();
    let beneficiary = key(1);
    let pid = program();
    let (employee, _) = Pubkey::find_program_address(
        &[b"employee_vesting", &beneficiary.bytes, &vctx.vesting_account.bytes],
        &pid,
    );
    let ectx = CreateEmployeeAccount {
        program_id: vctx.program_id,
        owner: vctx.signer,
        beneficiary,
        vesting_address: vctx.vesting_account,
        vesting_account: vesting.clone(),
        employee_account: addr(&employee),
    };
    let record = create_employee_account(&ectx, start, end, cliff, total).unwrap();
    ClaimToken {
        program_id: vctx.program_id,
        beneficiary,
        employee_address: addr(&employee),
        employee_account: record,
        vesting_address: vctx.vesting_account,
        vesting_account: vesting,
        mint: vctx.mint,
        treasury_token_account: vctx.treasury_token_account,
    }
}

#[test]
fn vested_amount_linear_share() {
    assert_eq!(vested_amount(500, 0, 1000, 1000), Ok(500));
    assert_eq!(vested_amount(333, 0, 1000, 10), Ok(3));
    assert_eq!(vested_amount(150, 100, 200, 7), Ok(3));
}

#[test]
fn vested_amount_at_start_and_end() {
    assert_eq!(vested_amount(0, 0, 1000, 1000), Ok(0));
    assert_eq!(vested_amount(1000, 0, 1000, 1000), Ok(1000));
    assert_eq!(vested_amount(5000, 0, 1000, 1000), Ok(1000));
}

#[test]
fn vested_amount_before_start_is_zero() {
    assert_eq!(vested_amount(-50, 0, 1000, 1000), Ok(0));
}

#[test]
fn vested_amount_is_monotonic_and_bounded() {
    let mut last = 0u64;
    let mut now = -100i64;
    while now <= 1200 {
        let v = vested_amount(now, 0, 1000, 777).unwrap();
        assert!(v >= last);
        assert!(v <= 777);
        last = v;
        now += 37;
    }
}

#[test]
fn vested_amount_overflow_is_reported() {
    assert_eq!(vested_amount(500, 0, 1000, u64::MAX), Err(ErrorCode::CalculationOverflow));
    assert_eq!(vested_amount(1, 0, 2, u64::MAX), Ok(u64::MAX / 2));
    assert_eq!(vested_amount(2000, 0, 1000, u64::MAX), Ok(u64::MAX));
}

#[test]
fn vested_amount_widest_period() {
    assert_eq!(vested_amount(i64::MAX, i64::MIN, i64::MAX, 1), Ok(1));
    assert_eq!(vested_amount(0, i64::MIN, i64::MAX, 1), Ok(0));
    assert_eq!(vested_amount(0, i64::MIN, i64::MAX, 2), Err(ErrorCode::CalculationOverflow));
}

#[test]
fn claimable_amount_saturates() {
    assert_eq!(claimable_amount(500, 200), 300);
    assert_eq!(claimable_amount(200, 500), 0);
    assert_eq!(claimable_amount(7, 7), 0);
}

#[test]
fn schedule_claims_in_sequence() {
    let mut e = schedule(0, 100, 1000, 1000);
    assert_eq!(e.claim(50), Err(ErrorCode::ClaimNotAvailableYet));
    assert_eq!(e.total_withdrawn, 0);
    assert_eq!(e.claim(500), Ok(500));
    assert_eq!(e.total_withdrawn, 500);
    assert_eq!(e.claim(500), Err(ErrorCode::NothingToClaim));
    assert_eq!(e.claim(2000), Ok(500));
    assert_eq!(e.total_withdrawn, 1000);
    assert_eq!(e.claim(3000), Err(ErrorCode::NothingToClaim));
}

#[test]
fn early_claim_refused_twice() {
    let mut e = schedule(0, 100, 1000, 1000);
    let before = e;
    assert_eq!(e.claim(99), Err(ErrorCode::ClaimNotAvailableYet));
    assert_eq!(e.claim(99), Err(ErrorCode::ClaimNotAvailableYet));
    assert_eq!(e, before);
}

#[test]
fn two_claims_pay_the_vested_difference() {
    let mut e = schedule(0, 0, 1000, 1000);
    let a1 = e.claim(300).unwrap();
    let a2 = e.claim(750).unwrap();
    assert_eq!(a1, 300);
    assert_eq!(a2, 750 - 300);
    assert!(a1 + a2 <= 1000);
}

#[test]
fn empty_period_is_invalid() {
    let mut e = schedule(100, 100, 100, 1000);
    assert_eq!(e.claim(150), Err(ErrorCode::InvalidVestingPeriod));
    let mut r = schedule(500, 0, 100, 1000);
    assert_eq!(r.claim(150), Err(ErrorCode::InvalidVestingPeriod));
    assert_eq!(r.total_withdrawn, 0);
}

#[test]
fn zero_total_has_nothing_to_claim() {
    let mut e = schedule(0, 0, 1000, 0);
    assert_eq!(e.claim(500), Err(ErrorCode::NothingToClaim));
}

#[test]
fn creates_vesting_record_at_canonical_addresses() {
    let ctx = vesting_ctx("acme");
    let v = create_vesting_account(&ctx, "acme".to_string()).unwrap();
    let pid = program();
    let (_, bump) = Pubkey::find_program_address(&[b"acme"], &pid);
    let (_, tbump) = Pubkey::find_program_address(&[b"vesting_treasury", b"acme"], &pid);
    assert_eq!(v.company_name, "acme");
    assert_eq!(v.owner, key(9));
    assert_eq!(v.mint, key(8));
    assert_eq!(v.treasury_token_account, ctx.treasury_token_account);
    assert_eq!(v.bump, bump);
    assert_eq!(v.treasury_bump, tbump);
}

#[test]
fn vesting_record_name_too_long() {
    let name = "n".repeat(51);
    let ctx = vesting_ctx("acme");
    assert_eq!(create_vesting_account(&ctx, name), Err(ErrorCode::NameTooLong));
}

#[test]
fn vesting_record_at_wrong_address() {
    let mut ctx = vesting_ctx("acme");
    ctx.vesting_account = key(3);
    assert_eq!(create_vesting_account(&ctx, "acme".to_string()), Err(ErrorCode::AddressMismatch));
    let mut ctx = vesting_ctx("acme");
    ctx.treasury_token_account = ctx.vesting_account;
    assert_eq!(create_vesting_account(&ctx, "acme".to_string()), Err(ErrorCode::AddressMismatch));
}

#[test]
fn employee_record_needs_owner_and_address() {
    let ctx = setup("acme", 0, 100, 1000, 1000);
    assert_eq!(ctx.employee_account.total_withdrawn, 0);
    assert_eq!(ctx.employee_account.vesting_account, ctx.vesting_address);
    let mut ectx = CreateEmployeeAccount {
        program_id: ctx.program_id,
        owner: key(4),
        beneficiary: ctx.beneficiary,
        vesting_address: ctx.vesting_address,
        vesting_account: ctx.vesting_account.clone(),
        employee_account: ctx.employee_address,
    };
    assert_eq!(create_employee_account(&ectx, 0, 1000, 100, 1000), Err(ErrorCode::IdentityMismatch));
    ectx.owner = ctx.vesting_account.owner;
    ectx.employee_account = key(5);
    assert_eq!(create_employee_account(&ectx, 0, 1000, 100, 1000), Err(ErrorCode::AddressMismatch));
}

#[test]
fn claim_scenarios_end_to_end() {
    let mut ctx = setup("acme", 0, 100, 1000, 1000);
    let name = "acme".to_string();
    assert_eq!(claim_token(&mut ctx, &name, 50), Err(ErrorCode::ClaimNotAvailableYet));
    assert_eq!(claim_token(&mut ctx, &name, 500), Ok(500));
    assert_eq!(ctx.employee_account.total_withdrawn, 500);
    assert_eq!(claim_token(&mut ctx, &name, 500), Err(ErrorCode::NothingToClaim));
    assert_eq!(claim_token(&mut ctx, &name, 2000), Ok(500));
    assert_eq!(ctx.employee_account.total_withdrawn, 1000);
}

#[test]
fn claim_with_empty_period() {
    let mut ctx = setup("zero", 100, 100, 100, 1000);
    assert_eq!(claim_token(&mut ctx, &"zero".to_string(), 150), Err(ErrorCode::InvalidVestingPeriod));
}

#[test]
fn claim_by_someone_else_is_refused() {
    let mut ctx = setup("acme", 0, 100, 1000, 1000);
    let before = ctx.clone();
    ctx.beneficiary = key(6);
    assert_eq!(claim_token(&mut ctx, &"acme".to_string(), 500), Err(ErrorCode::AddressMismatch));
    let mut ctx = before.clone();
    ctx.employee_account.beneficiary = key(6);
    assert_eq!(claim_token(&mut ctx, &"acme".to_string(), 500), Err(ErrorCode::IdentityMismatch));
    let mut ctx = before.clone();
    ctx.mint = key(6);
    assert_eq!(claim_token(&mut ctx, &"acme".to_string(), 500), Err(ErrorCode::IdentityMismatch));
}

#[test]
fn claim_with_wrong_seeds_is_refused() {
    let before = setup("acme", 0, 100, 1000, 1000);
    let mut ctx = before.clone();
    assert_eq!(claim_token(&mut ctx, &"other".to_string(), 500), Err(ErrorCode::AddressMismatch));
    assert_eq!(ctx, before);
    let mut ctx = before.clone();
    ctx.employee_account.bump = ctx.employee_account.bump.wrapping_sub(1);
    assert_eq!(claim_token(&mut ctx, &"acme".to_string(), 500), Err(ErrorCode::AddressMismatch));
    let mut ctx = before.clone();
    ctx.vesting_account.treasury_bump = ctx.vesting_account.treasury_bump.wrapping_sub(1);
    assert_eq!(claim_token(&mut ctx, &"acme".to_string(), 500), Err(ErrorCode::AddressMismatch));
}

#[test]
fn signer_seeds_derive_the_custody_account() {
    let ctx = setup("acme", 0, 100, 1000, 1000);
    let v: &VestingAccount = &ctx.vesting_account;
    let seeds = treasury_signer_seeds(v);
    assert_eq!(seeds.len(), 3);
    assert_eq!(seeds[0], b"vesting_treasury".to_vec());
    assert_eq!(seeds[1], b"acme".to_vec());
    assert_eq!(seeds[2], vec![v.treasury_bump]);
    let refs: Vec<&[u8]> = seeds.iter().map(|s| s.as_slice()).collect();
    let pk = Pubkey::create_program_address(&refs, &program()).unwrap();
    assert_eq!(addr(&pk), v.treasury_token_account);
}

#[test]
fn check_derivation_accepts_only_stored_bump() {
    let pid = program();
    let (pk, bump) = Pubkey::find_program_address(&[b"seed"], &pid);
    let seeds = vec![b"seed".to_vec()];
    assert!(check_derivation(&seeds, bump, &addr(&pid), &addr(&pk)));
    assert!(!check_derivation(&seeds, bump, &addr(&pid), &key(1)));
    assert!(!check_derivation(&vec![b"other".to_vec()], bump, &addr(&pid), &addr(&pk)));
}

#[test]
fn address_comparison() {
    assert!(key(1).same(&key(1)));
    assert!(!key(1).same(&key(2)));
    let mut b = [1u8; 32];
    b[31] = 0;
    assert!(!key(1).same(&Address::new(b)));
}
