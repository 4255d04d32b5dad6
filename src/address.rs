use vstd::prelude::*;

verus! {

/// A 32-byte identity: an account address, a program id, an asset (mint).
pub type Address = [u8; 32];

/// The address that `seeds` (each at most 32 bytes, the last one usually a
/// single bump byte) derive under `program`, or `None` where the hash lies on
/// the curve or a seed is too long.
pub uninterp spec fn program_address(seeds: Seq<Seq<u8>>, program: Seq<u8>) -> Option<Seq<u8>>;

/// The canonical derived address of `seeds` under `program`, with the bump
/// that yields it (the largest bump that gives a valid address), or `None`
/// where no bump does.
pub uninterp spec fn canonical_program_address(seeds: Seq<Seq<u8>>, program: Seq<u8>) -> Option<(Seq<u8>, u8)>;

/// The view of an optional address.
pub open spec fn opt_address_view(a: Option<Address>) -> Option<Seq<u8>> {
    match a {
        Some(x) => Some(x@),
        None => None,
    }
}

/// The view of an optional address with its bump.
pub open spec fn opt_found_view(a: Option<(Address, u8)>) -> Option<(Seq<u8>, u8)> {
    match a {
        Some((x, b)) => Some((x@, b)),
        None => None,
    }
}

/// Relies on `Address::create_program_address` (solana-address): hashes the
/// seeds with the program id and rejects results on the ed25519 curve. The
/// result depends on the seeds and the program id alone.
#[verifier::external_body]
pub(crate) fn create_program_address(seeds: &Vec<Vec<u8>>, program: &Address) -> (r: Option<Address>)
    ensures
        opt_address_view(r) == program_address(seeds.deep_view(), program@),
{
    let s: Vec<&[u8]> = seeds.iter().map(|v| v.as_slice()).collect();
    pinocchio::Address::create_program_address(&s, &pinocchio::Address::new_from_array(*program))
        .ok()
        .map(|a| a.to_bytes())
}

/// Relies on `Address::try_find_program_address` (solana-address): searches
/// the bumps from 255 down for the first one that gives a valid derived
/// address. The result depends on the seeds and the program id alone.
#[verifier::external_body]
pub(crate) fn find_program_address(seeds: &Vec<Vec<u8>>, program: &Address) -> (r: Option<(Address, u8)>)
    ensures
        opt_found_view(r) == canonical_program_address(seeds.deep_view(), program@),
{
    let s: Vec<&[u8]> = seeds.iter().map(|v| v.as_slice()).collect();
    pinocchio::Address::try_find_program_address(&s, &pinocchio::Address::new_from_array(*program))
        .map(|(a, b)| (a.to_bytes(), b))
}

/// The bytes of an address, as a vector.
pub fn address_bytes(a: &Address) -> (r: Vec<u8>)
    ensures
        r@ == a@,
{
    let mut r: Vec<u8> = Vec::with_capacity(32);
    let mut i: usize = 0;
    while i < 32
        invariant
            0 <= i <= 32,
            r@ == a@.subrange(0, i as int),
        decreases 32 - i,
    {
        r.push(a[i]);
        i = i + 1;
    }
    assert(r@ =~= a@);
    r
}

/// Whether two addresses are byte for byte equal.
pub fn same_address(a: &Address, b: &Address) -> (r: bool)
    ensures
        r == (a@ == b@),
{
    let mut i: usize = 0;
    while i < 32
        invariant
            0 <= i <= 32,
            a@.subrange(0, i as int) == b@.subrange(0, i as int),
        decreases 32 - i,
    {
        if a[i] != b[i] {
            return false;
        }
        assert(a@.subrange(0, i + 1) =~= a@.subrange(0, i as int).push(a@[i as int]));
        assert(b@.subrange(0, i + 1) =~= b@.subrange(0, i as int).push(b@[i as int]));
        i = i + 1;
    }
    assert(a@ =~= a@.subrange(0, 32));
    assert(b@ =~= b@.subrange(0, 32));
    true
}

/// The 32 bytes at `off` in `data`, as an address.
pub fn read_address(data: &[u8], off: usize) -> (r: Address)
    requires
        off + 32 <= data@.len(),
    ensures
        r@ == data@.subrange(off as int, off + 32),
{
    let mut r: Address = [0u8; 32];
    let mut i: usize = 0;
    while i < 32
        invariant
            0 <= i <= 32,
            off + 32 <= data.len(),
            forall|j: int| 0 <= j < i ==> r@[j] == data@[off + j],
        decreases 32 - i,
    {
        r[i] = data[off + i];
        i = i + 1;
    }
    assert(r@ =~= data@.subrange(off as int, off + 32));
    r
}

} // verus!
