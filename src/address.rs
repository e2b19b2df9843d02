use vstd::prelude::*;
use anchor_lang::solana_program::pubkey::Pubkey;

verus! {

/// A 32-byte account identity (a public key or a program-derived address).
#[derive(Clone, Copy, Debug, PartialEq, Eq)]
pub struct Address {
    pub bytes: [u8; 32],
}

impl View for Address {
    type V = Seq<u8>;

    open spec fn view(&self) -> Seq<u8> {
        self.bytes@
    }
}

/// The address that the seeds and the program id derive, or `None` where the
/// seeds are malformed or the hash lies on the ed25519 curve.
pub uninterp spec fn program_address(seeds: Seq<Seq<u8>>, program_id: Seq<u8>) -> Option<Seq<u8>>;

/// `addr` is the canonical derived address of `seeds` under `program_id`, with
/// `bump` the largest non-zero bump that yields an address.
pub open spec fn is_canonical(seeds: Seq<Seq<u8>>, program_id: Seq<u8>, bump: u8, addr: Seq<u8>) -> bool {
    &&& bump > 0
    &&& program_address(seeds.push(seq![bump]), program_id) == Some(addr)
    &&& forall|c: u8| c > bump ==> (#[trigger] program_address(seeds.push(seq![c]), program_id)) is None
}

/// The derivation `seeds` followed by the one-byte seed `bump` gives `addr`.
pub open spec fn derives(seeds: Seq<Seq<u8>>, bump: u8, program_id: Seq<u8>, addr: Seq<u8>) -> bool {
    program_address(seeds.push(seq![bump]), program_id) == Some(addr)
}

impl Address {
    /// The address with the given bytes.
    pub fn new(bytes: [u8; 32]) -> (r: Address)
        ensures
            r.bytes == bytes,
    {
        Address { bytes }
    }

    /// Byte-wise comparison of two addresses.
    pub fn same(&self, other: &Address) -> (r: bool)
        ensures
            r == (self@ == other@),
    {
        let mut i: usize = 0;
        while i < 32
            invariant
                0 <= i <= 32,
                self@.len() == 32,
                other@.len() == 32,
                forall|j: int| 0 <= j < i ==> self@[j] == other@[j],
            decreases 32 - i,
        {
            if self.bytes[i] != other.bytes[i] {
                return false;
            }
            i = i + 1;
        }
        assert(self@ =~= other@);
        true
    }
}

/// Relies on Pubkey::create_program_address: the derived address of the seeds
/// under the program id, or an error (the result is a function of its arguments).
#[verifier::external_body]
fn create_program_address(seeds: &Vec<Vec<u8>>, program_id: &Address) -> (r: Option<Address>)
    ensures
        match r {
            Some(a) => program_address(seeds.deep_view(), program_id@) == Some(a@),
            None => program_address(seeds.deep_view(), program_id@) is None,
        },
{
    let refs: Vec<&[u8]> = seeds.iter().map(|s| s.as_slice()).collect();
    match Pubkey::create_program_address(&refs, &Pubkey::new_from_array(program_id.bytes)) {
        Ok(k) => Some(Address { bytes: k.to_bytes() }),
        Err(_) => None,
    }
}

/// Relies on Pubkey::try_find_program_address: off-chain it tries the bumps from
/// 255 down to 1, appending each as a last one-byte seed to
/// Pubkey::create_program_address, and returns the first address found with its
/// bump; it returns `None` when every bump fails (a seed-length error fails them all).
#[verifier::external_body]
fn try_find_program_address(seeds: &Vec<Vec<u8>>, program_id: &Address) -> (r: Option<(Address, u8)>)
    ensures
        match r {
            Some((a, b)) => is_canonical(seeds.deep_view(), program_id@, b, a@),
            None => forall|c: u8| c > 0 ==> (#[trigger] program_address(seeds.deep_view().push(seq![c]), program_id@)) is None,
        },
{
    let refs: Vec<&[u8]> = seeds.iter().map(|s| s.as_slice()).collect();
    Pubkey::try_find_program_address(&refs, &Pubkey::new_from_array(program_id.bytes))
        .map(|(k, b)| (Address { bytes: k.to_bytes() }, b))
}

/// Checks that `seeds` with the stored `bump` derive exactly `expected`: a stored
/// bump is never searched for again, and a mismatch fails closed.
pub fn check_derivation(seeds: &Vec<Vec<u8>>, bump: u8, program_id: &Address, expected: &Address) -> (r: bool)
    ensures
        r == derives(seeds.deep_view(), bump, program_id@, expected@),
{
    let mut with_bump = seeds.clone();
    assert(with_bump.deep_view() =~= seeds.deep_view());
    let last: Vec<u8> = vec![bump];
    assert(last.deep_view() =~= seq![bump]);
    with_bump.push(last);
    assert(with_bump.deep_view() =~= seeds.deep_view().push(seq![bump]));
    match create_program_address(&with_bump, program_id) {
        Some(a) => a.same(expected),
        None => false,
    }
}

/// Looks for the canonical derived address of `seeds`; `Some` exactly when
/// `expected` is that address, together with its bump.
pub fn find_canonical_bump(seeds: &Vec<Vec<u8>>, program_id: &Address, expected: &Address) -> (r: Option<u8>)
    ensures
        match r {
            Some(b) => is_canonical(seeds.deep_view(), program_id@, b, expected@),
            None => forall|b: u8| !is_canonical(seeds.deep_view(), program_id@, b, expected@),
        },
{
    match try_find_program_address(seeds, program_id) {
        Some((a, b)) => {
            if a.same(expected) {
                Some(b)
            } else {
                proof {
                    assert forall|c: u8| !is_canonical(seeds.deep_view(), program_id@, c, expected@) by {
                        let s = seeds.deep_view();
                        if is_canonical(s, program_id@, c, expected@) {
                            if c > b {
                                assert(program_address(s.push(seq![c]), program_id@) is None);
                            } else if c < b {
                                assert(program_address(s.push(seq![b]), program_id@) is None);
                            }
                        }
                    }
                }
                None
            }
        },
        None => {
            proof {
                assert forall|c: u8| !is_canonical(seeds.deep_view(), program_id@, c, expected@) by {
                    let s = seeds.deep_view();
                    if c > 0 {
                        assert(program_address(s.push(seq![c]), program_id@) is None);
                    }
                }
            }
            None
        },
    }
}

} // verus!
