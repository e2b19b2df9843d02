use vstd::prelude::*;
use vstd::string::StrSliceExecFns;
use crate::address::Address;
use crate::error::ErrorCode;
use crate::schedule::{
    claimable_amount, lemma_vested_bounded, lemma_vested_monotonic, vested, vested_amount, vesting_overflows,
};

verus! {

/// Longest company name, in bytes, that a vesting record holds.
pub const MAX_COMPANY_NAME_LEN: usize = 50;

/// One company's escrow: who set it up, which token it holds, and where.
#[derive(Clone, Debug, PartialEq, Eq)]
pub struct VestingAccount {
    pub company_name: String,
    pub owner: Address,
    pub mint: Address,
    /// The custody account, whose only signing authority is derived from the
    /// treasury seeds and `treasury_bump`.
    pub treasury_token_account: Address,
    pub treasury_bump: u8,
    /// The bump of the record's own address.
    pub bump: u8,
}

/// One beneficiary's linear schedule under a vesting record, and what was paid.
#[derive(Clone, Copy, Debug, PartialEq, Eq)]
pub struct EmployeeAccount {
    pub beneficiary: Address,
    pub start_time: i64,
    pub end_time: i64,
    pub cliff_time: i64,
    /// Address of the vesting record this schedule draws on.
    pub vesting_account: Address,
    pub total_amount: u64,
    pub total_withdrawn: u64,
    /// The bump of the record's own address.
    pub bump: u8,
}

/// The UTF-8 bytes of a company name, as they enter a derivation.
pub open spec fn name_bytes(name: Seq<char>) -> Seq<u8> {
    vstd::utf8::encode_utf8(name)
}

/// The ASCII bytes of `vesting_treasury`.
pub open spec fn treasury_tag() -> Seq<u8> {
    seq![118u8, 101, 115, 116, 105, 110, 103, 95, 116, 114, 101, 97, 115, 117, 114, 121]
}

/// The ASCII bytes of `employee_vesting`.
pub open spec fn employee_tag() -> Seq<u8> {
    seq![101u8, 109, 112, 108, 111, 121, 101, 101, 95, 118, 101, 115, 116, 105, 110, 103]
}

/// Seeds of a vesting record's address: the company name.
pub open spec fn vesting_seeds(name: Seq<u8>) -> Seq<Seq<u8>> {
    seq![name]
}

/// Seeds of the custody account and of its signing authority.
pub open spec fn treasury_seeds(name: Seq<u8>) -> Seq<Seq<u8>> {
    seq![treasury_tag(), name]
}

/// Seeds of an employee schedule record's address.
pub open spec fn employee_seeds(beneficiary: Seq<u8>, vesting: Seq<u8>) -> Seq<Seq<u8>> {
    seq![employee_tag(), beneficiary, vesting]
}

/// The bytes of a company name, as a seed.
pub fn company_name_bytes(name: &String) -> (r: Vec<u8>)
    ensures
        r@ == name_bytes(name@),
{
    name.as_str().as_bytes_vec()
}

/// The seeds of the vesting record of `name`.
pub fn vesting_seeds_of(name: &String) -> (r: Vec<Vec<u8>>)
    ensures
        r.deep_view() == vesting_seeds(name_bytes(name@)),
{
    let n = company_name_bytes(name);
    assert(n.deep_view() =~= n@);
    let r = vec![n];
    assert(r.deep_view() =~= vesting_seeds(name_bytes(name@)));
    r
}

/// The seeds of the custody account of `name`, bump excluded.
pub fn treasury_seeds_of(name: &String) -> (r: Vec<Vec<u8>>)
    ensures
        r.deep_view() == treasury_seeds(name_bytes(name@)),
{
    let tag: Vec<u8> = vec![118u8, 101, 115, 116, 105, 110, 103, 95, 116, 114, 101, 97, 115, 117, 114, 121];
    assert(tag.deep_view() =~= treasury_tag());
    let n = company_name_bytes(name);
    assert(n.deep_view() =~= n@);
    let r = vec![tag, n];
    assert(r.deep_view() =~= treasury_seeds(name_bytes(name@)));
    r
}

/// The seeds of a beneficiary's schedule record under a vesting record, bump excluded.
pub fn employee_seeds_of(beneficiary: &Address, vesting: &Address) -> (r: Vec<Vec<u8>>)
    ensures
        r.deep_view() == employee_seeds(beneficiary@, vesting@),
{
    let tag: Vec<u8> = vec![101u8, 109, 112, 108, 111, 121, 101, 101, 95, 118, 101, 115, 116, 105, 110, 103];
    assert(tag.deep_view() =~= employee_tag());
    let b = address_bytes(beneficiary);
    let v = address_bytes(vesting);
    let r = vec![tag, b, v];
    assert(r.deep_view() =~= employee_seeds(beneficiary@, vesting@));
    r
}

/// The 32 bytes of an address, as a seed.
pub fn address_bytes(a: &Address) -> (r: Vec<u8>)
    ensures
        r@ == a@,
        r.deep_view() == a@,
{
    let mut r: Vec<u8> = Vec::new();
    let mut i: usize = 0;
    while i < 32
        invariant
            0 <= i <= 32,
            a@.len() == 32,
            r@ == a@.subrange(0, i as int),
        decreases 32 - i,
    {
        r.push(a.bytes[i]);
        assert(r@ =~= a@.subrange(0, i + 1));
        i = i + 1;
    }
    assert(r@ =~= a@);
    assert(r.deep_view() =~= a@);
    r
}

/// The outcome of a claim at `now` against the schedule alone: the cliff gate,
/// the period check, the checked vesting computation, and what is left to pay.
pub open spec fn claim_outcome(e: EmployeeAccount, now: int) -> Result<u64, ErrorCode> {
    let (start, end, total) = (e.start_time as int, e.end_time as int, e.total_amount as int);
    if now < e.cliff_time {
        Err(ErrorCode::ClaimNotAvailableYet)
    } else if end <= start {
        Err(ErrorCode::InvalidVestingPeriod)
    } else if vesting_overflows(now, start, end, total) {
        Err(ErrorCode::CalculationOverflow)
    } else if vested(now, start, end, total) <= e.total_withdrawn {
        Err(ErrorCode::NothingToClaim)
    } else {
        Ok((vested(now, start, end, total) - e.total_withdrawn) as u64)
    }
}

/// The record after a claim that paid `amount`.
pub open spec fn after_payment(e: EmployeeAccount, amount: u64) -> EmployeeAccount {
    EmployeeAccount { total_withdrawn: (e.total_withdrawn + amount) as u64, ..e }
}

impl EmployeeAccount {
    /// Runs the schedule side of a claim at `now`: on success the claimable
    /// amount is returned and added to `total_withdrawn`; a refusal changes nothing.
    pub fn claim(&mut self, now: i64) -> (r: Result<u64, ErrorCode>)
        ensures
            r == claim_outcome(*old(self), now as int),
            match r {
                Ok(amount) => *final(self) == after_payment(*old(self), amount),
                Err(_) => *final(self) == *old(self),
            },
    {
        if now < self.cliff_time {
            return Err(ErrorCode::ClaimNotAvailableYet);
        }
        if self.end_time <= self.start_time {
            return Err(ErrorCode::InvalidVestingPeriod);
        }
        let vested_now = match vested_amount(now, self.start_time, self.end_time, self.total_amount) {
            Ok(v) => v,
            Err(e) => return Err(e),
        };
        let claimable = claimable_amount(vested_now, self.total_withdrawn);
        if claimable == 0 {
            return Err(ErrorCode::NothingToClaim);
        }
        self.total_withdrawn = self.total_withdrawn + claimable;
        Ok(claimable)
    }
}

/// A claim before the cliff is refused as not yet available, and since a refusal
/// leaves the record as it was, a repeated claim is refused the same way.
pub proof fn lemma_early_claim_refused(e: EmployeeAccount, now: int)
    requires
        now < e.cliff_time,
    ensures
        claim_outcome(e, now) == Err::<u64, ErrorCode>(ErrorCode::ClaimNotAvailableYet),
{
}

/// Two successful claims in sequence, the second no earlier than the first,
/// together pay no more than the total: the first brings the withdrawn amount up
/// to what was vested then, and the second pays exactly what vested in between.
pub proof fn lemma_no_double_payment(e: EmployeeAccount, now1: int, now2: int)
    requires
        now1 <= now2,
        claim_outcome(e, now1) is Ok,
        claim_outcome(after_payment(e, claim_outcome(e, now1)->Ok_0), now2) is Ok,
    ensures
        ({
            let (s, t, total) = (e.start_time as int, e.end_time as int, e.total_amount as int);
            let a1 = claim_outcome(e, now1)->Ok_0;
            let e1 = after_payment(e, a1);
            let a2 = claim_outcome(e1, now2)->Ok_0;
            &&& e1.total_withdrawn == vested(now1, s, t, total)
            &&& a2 == vested(now2, s, t, total) - vested(now1, s, t, total)
            &&& a1 + a2 <= total
            &&& after_payment(e1, a2).total_withdrawn <= total
        }),
{
    let (s, t, total) = (e.start_time as int, e.end_time as int, e.total_amount as int);
    lemma_vested_monotonic(now1, now2, s, t, total);
    lemma_vested_bounded(now2, s, t, total);
}

/// After a successful claim the withdrawn amount equals what is vested, which
/// never exceeds the total.
pub proof fn lemma_withdrawn_within_vested(e: EmployeeAccount, now: int)
    requires
        claim_outcome(e, now) is Ok,
    ensures
        ({
            let (s, t, total) = (e.start_time as int, e.end_time as int, e.total_amount as int);
            let e1 = after_payment(e, claim_outcome(e, now)->Ok_0);
            e1.total_withdrawn == vested(now, s, t, total) && vested(now, s, t, total) <= total
        }),
{
    lemma_vested_bounded(now, e.start_time as int, e.end_time as int, e.total_amount as int);
}

} // verus!
