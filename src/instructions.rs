use vstd::prelude::*;
use crate::accounts::{
    after_payment, claim_outcome, company_name_bytes, employee_seeds, employee_seeds_of, name_bytes, treasury_seeds,
    treasury_seeds_of, vesting_seeds, vesting_seeds_of, EmployeeAccount, VestingAccount,
    MAX_COMPANY_NAME_LEN,
};
use crate::address::{check_derivation, derives, find_canonical_bump, is_canonical, Address};
use crate::error::ErrorCode;

verus! {

/// The accounts that the creation of a vesting record involves.
#[derive(Clone, Copy, Debug, PartialEq, Eq)]
pub struct CreateVestingAccount {
    pub program_id: Address,
    /// The creator, who becomes the record's owner.
    pub signer: Address,
    /// The token type that the custody account holds.
    pub mint: Address,
    /// Where the vesting record is to be created.
    pub vesting_account: Address,
    /// Where the custody account is to be created.
    pub treasury_token_account: Address,
}

/// The accounts that the creation of an employee schedule record involves.
#[derive(Clone, Debug, PartialEq, Eq)]
pub struct CreateEmployeeAccount {
    pub program_id: Address,
    /// The signer, who must own the vesting record.
    pub owner: Address,
    pub beneficiary: Address,
    pub vesting_address: Address,
    pub vesting_account: VestingAccount,
    /// Where the schedule record is to be created.
    pub employee_account: Address,
}

/// The accounts that a claim involves; the schedule record is the one it updates.
#[derive(Clone, Debug, PartialEq, Eq)]
pub struct ClaimToken {
    pub program_id: Address,
    /// The signer, who must be the schedule's beneficiary.
    pub beneficiary: Address,
    pub employee_address: Address,
    pub employee_account: EmployeeAccount,
    pub vesting_address: Address,
    pub vesting_account: VestingAccount,
    pub mint: Address,
    pub treasury_token_account: Address,
}

/// Some bump makes `addr` the canonical derived address of `seeds`.
pub open spec fn has_canonical(seeds: Seq<Seq<u8>>, program_id: Seq<u8>, addr: Seq<u8>) -> bool {
    exists|b: u8| is_canonical(seeds, program_id, b, addr)
}

/// Creates the vesting record of `company_name`. Both the record and its custody
/// account must sit at the canonical addresses that their seeds derive.
pub fn create_vesting_account(ctx: &CreateVestingAccount, company_name: String) -> (r: Result<VestingAccount, ErrorCode>)
    ensures
        ({
            let name = name_bytes(company_name@);
            let pid = ctx.program_id@;
            match r {
                Ok(v) => {
                    &&& name.len() <= MAX_COMPANY_NAME_LEN
                    &&& is_canonical(vesting_seeds(name), pid, v.bump, ctx.vesting_account@)
                    &&& is_canonical(treasury_seeds(name), pid, v.treasury_bump, ctx.treasury_token_account@)
                    &&& v.company_name == company_name
                    &&& v.owner == ctx.signer
                    &&& v.mint == ctx.mint
                    &&& v.treasury_token_account == ctx.treasury_token_account
                },
                Err(e) => if name.len() > MAX_COMPANY_NAME_LEN {
                    e == ErrorCode::NameTooLong
                } else {
                    &&& e == ErrorCode::AddressMismatch
                    &&& !(has_canonical(vesting_seeds(name), pid, ctx.vesting_account@)
                        && has_canonical(treasury_seeds(name), pid, ctx.treasury_token_account@))
                },
            }
        }),
{
    if company_name_bytes(&company_name).len() > MAX_COMPANY_NAME_LEN {
        return Err(ErrorCode::NameTooLong);
    }
    let record_seeds = vesting_seeds_of(&company_name);
    let bump = match find_canonical_bump(&record_seeds, &ctx.program_id, &ctx.vesting_account) {
        Some(b) => b,
        None => return Err(ErrorCode::AddressMismatch),
    };
    let custody_seeds = treasury_seeds_of(&company_name);
    let treasury_bump = match find_canonical_bump(&custody_seeds, &ctx.program_id, &ctx.treasury_token_account) {
        Some(b) => b,
        None => return Err(ErrorCode::AddressMismatch),
    };
    Ok(VestingAccount {
        company_name,
        owner: ctx.signer,
        mint: ctx.mint,
        treasury_token_account: ctx.treasury_token_account,
        treasury_bump,
        bump,
    })
}

/// Creates a beneficiary's schedule under a vesting record, with nothing withdrawn.
/// Only the record's owner may do so; the times are taken as given.
pub fn create_employee_account(
    ctx: &CreateEmployeeAccount,
    start_time: i64,
    end_time: i64,
    cliff_time: i64,
    total_amount: u64,
) -> (r: Result<EmployeeAccount, ErrorCode>)
    ensures
        ({
            let seeds = employee_seeds(ctx.beneficiary@, ctx.vesting_address@);
            let pid = ctx.program_id@;
            match r {
                Ok(e) => {
                    &&& ctx.vesting_account.owner@ == ctx.owner@
                    &&& is_canonical(seeds, pid, e.bump, ctx.employee_account@)
                    &&& e.beneficiary == ctx.beneficiary
                    &&& e.start_time == start_time
                    &&& e.end_time == end_time
                    &&& e.cliff_time == cliff_time
                    &&& e.vesting_account == ctx.vesting_address
                    &&& e.total_amount == total_amount
                    &&& e.total_withdrawn == 0
                },
                Err(err) => if ctx.vesting_account.owner@ != ctx.owner@ {
                    err == ErrorCode::IdentityMismatch
                } else {
                    err == ErrorCode::AddressMismatch && !has_canonical(seeds, pid, ctx.employee_account@)
                },
            }
        }),
{
    if !ctx.vesting_account.owner.same(&ctx.owner) {
        return Err(ErrorCode::IdentityMismatch);
    }
    let seeds = employee_seeds_of(&ctx.beneficiary, &ctx.vesting_address);
    let bump = match find_canonical_bump(&seeds, &ctx.program_id, &ctx.employee_account) {
        Some(b) => b,
        None => return Err(ErrorCode::AddressMismatch),
    };
    Ok(EmployeeAccount {
        beneficiary: ctx.beneficiary,
        start_time,
        end_time,
        cliff_time,
        vesting_account: ctx.vesting_address,
        total_amount,
        total_withdrawn: 0,
        bump,
    })
}

/// The first access check of a claim that fails, if any: each record must sit at
/// the address its stored bump derives, and every stored reference must match.
pub open spec fn access_error(ctx: ClaimToken, name: Seq<u8>) -> Option<ErrorCode> {
    let e = ctx.employee_account;
    let v = ctx.vesting_account;
    let pid = ctx.program_id@;
    if !derives(employee_seeds(ctx.beneficiary@, ctx.vesting_address@), e.bump, pid, ctx.employee_address@) {
        Some(ErrorCode::AddressMismatch)
    } else if e.beneficiary@ != ctx.beneficiary@ || e.vesting_account@ != ctx.vesting_address@ {
        Some(ErrorCode::IdentityMismatch)
    } else if !derives(vesting_seeds(name), v.bump, pid, ctx.vesting_address@) {
        Some(ErrorCode::AddressMismatch)
    } else if v.treasury_token_account@ != ctx.treasury_token_account@ || v.mint@ != ctx.mint@ {
        Some(ErrorCode::IdentityMismatch)
    } else if !derives(treasury_seeds(name_bytes(v.company_name@)), v.treasury_bump, pid, v.treasury_token_account@) {
        Some(ErrorCode::AddressMismatch)
    } else {
        None
    }
}

/// A claim by the beneficiary at `now`: after the access checks, the schedule
/// decides the amount, which is recorded as withdrawn. The caller moves that
/// amount out of custody, signed with `treasury_signer_seeds`, in the same
/// transaction. A refusal changes nothing.
pub fn claim_token(ctx: &mut ClaimToken, company_name: &String, now: i64) -> (r: Result<u64, ErrorCode>)
    ensures
        r == match access_error(*old(ctx), name_bytes(company_name@)) {
            Some(e) => Err(e),
            None => claim_outcome(old(ctx).employee_account, now as int),
        },
        match r {
            Ok(amount) => *final(ctx) == (ClaimToken {
                employee_account: after_payment(old(ctx).employee_account, amount),
                ..*old(ctx)
            }),
            Err(_) => *final(ctx) == *old(ctx),
        },
{
    let employee_seeds = employee_seeds_of(&ctx.beneficiary, &ctx.vesting_address);
    if !check_derivation(&employee_seeds, ctx.employee_account.bump, &ctx.program_id, &ctx.employee_address) {
        return Err(ErrorCode::AddressMismatch);
    }
    if !ctx.employee_account.beneficiary.same(&ctx.beneficiary)
        || !ctx.employee_account.vesting_account.same(&ctx.vesting_address) {
        return Err(ErrorCode::IdentityMismatch);
    }
    if !check_derivation(&vesting_seeds_of(company_name), ctx.vesting_account.bump, &ctx.program_id, &ctx.vesting_address) {
        return Err(ErrorCode::AddressMismatch);
    }
    if !ctx.vesting_account.treasury_token_account.same(&ctx.treasury_token_account)
        || !ctx.vesting_account.mint.same(&ctx.mint) {
        return Err(ErrorCode::IdentityMismatch);
    }
    if !check_derivation(
        &treasury_seeds_of(&ctx.vesting_account.company_name),
        ctx.vesting_account.treasury_bump,
        &ctx.program_id,
        &ctx.vesting_account.treasury_token_account,
    ) {
        return Err(ErrorCode::AddressMismatch);
    }
    ctx.employee_account.claim(now)
}

/// The seeds, bump included, that sign a transfer out of the record's custody account.
pub fn treasury_signer_seeds(vesting: &VestingAccount) -> (r: Vec<Vec<u8>>)
    ensures
        r.deep_view() == treasury_seeds(name_bytes(vesting.company_name@)).push(seq![vesting.treasury_bump]),
{
    let mut r = treasury_seeds_of(&vesting.company_name);
    let bump: Vec<u8> = vec![vesting.treasury_bump];
    assert(bump.deep_view() =~= seq![vesting.treasury_bump]);
    r.push(bump);
    assert(r.deep_view() =~= treasury_seeds(name_bytes(vesting.company_name@)).push(seq![vesting.treasury_bump]));
    r
}

} // verus!
