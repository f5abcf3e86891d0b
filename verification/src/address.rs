//! Account addresses and program-derived addresses.
//!
//! An `Address` holds the 32 bytes of an account key as a plain value. The
//! derivation of program addresses from seeds is done by `solana_program`.
use vstd::prelude::*;
use vstd::string::*;
use solana_program::pubkey::Pubkey;

verus! {

/// The 32-byte key of an account.
#[derive(Debug, Clone, Copy)]
pub struct Address {
    pub bytes: [u8; 32],
}

impl View for Address {
    type V = Seq<u8>;

    open spec fn view(&self) -> Seq<u8> {
        self.bytes@
    }
}

/// The all-zero key, which marks an unset address.
pub open spec fn zero_key() -> Seq<u8> {
    Seq::new(32, |i: int| 0u8)
}

/// The all-zero address.
pub open spec fn zero_address() -> Address {
    Address { bytes: vstd::array::spec_array_fill_for_copy_type::<u8, 32>(0u8) }
}

/// The all-zero address holds the zero key.
pub proof fn lemma_zero_address()
    ensures
        zero_address()@ == zero_key(),
{
    broadcast use vstd::array::group_array_axioms;
    assert(zero_address()@ =~= zero_key());
}

/// Two addresses with the same bytes are the same address.
pub proof fn lemma_address_view_injective(a: Address, b: Address)
    requires
        a@ == b@,
    ensures
        a == b,
{
    broadcast use vstd::array::group_array_axioms;
    assert(a.bytes =~= b.bytes);
}

impl Address {
    /// An address with the given bytes.
    pub fn new(bytes: [u8; 32]) -> (r: Address)
        ensures
            r@ == bytes@,
    {
        Address { bytes }
    }

    /// The bytes of the address.
    pub fn to_bytes(&self) -> (r: [u8; 32])
        ensures
            r@ == self@,
    {
        self.bytes
    }

    /// The bytes of the address as a vector.
    pub fn to_vec(&self) -> (r: Vec<u8>)
        ensures
            r@ == self@,
    {
        let mut v: Vec<u8> = Vec::new();
        let mut i: usize = 0;
        while i < 32
            invariant
                i <= 32,
                v@ == self@.subrange(0, i as int),
                self@.len() == 32,
            decreases 32 - i,
        {
            v.push(self.bytes[i]);
            i = i + 1;
        }
        v
    }

    /// Whether the two addresses hold the same bytes.
    pub fn equals(&self, other: &Address) -> (r: bool)
        ensures
            r == (self@ == other@),
    {
        let mut i: usize = 0;
        while i < 32
            invariant
                i <= 32,
                self@.len() == 32,
                other@.len() == 32,
                forall|j: int| 0 <= j < i ==> self@[j] == other@[j],
            decreases 32 - i,
        {
            if self.bytes[i] != other.bytes[i] {
                return false;
            }
            i = i + 1;
        }
        assert(self@ =~= other@);
        true
    }

    /// Whether this is the all-zero (unset) address.
    pub fn is_zero(&self) -> (r: bool)
        ensures
            r == (self@ == zero_key()),
    {
        let mut i: usize = 0;
        while i < 32
            invariant
                i <= 32,
                self@.len() == 32,
                forall|j: int| 0 <= j < i ==> self@[j] == 0u8,
            decreases 32 - i,
        {
            if self.bytes[i] != 0 {
                return false;
            }
            i = i + 1;
        }
        assert(self@ =~= zero_key());
        true
    }
}

/// The address held in 32 bytes of account data from `offset`.
pub fn address_at(data: &[u8], offset: usize) -> (r: Address)
    requires
        offset + 32 <= data.len(),
    ensures
        r@ == data@.subrange(offset as int, offset + 32),
{
    let mut bytes = [0u8; 32];
    let mut i: usize = 0;
    while i < 32
        invariant
            i <= 32,
            offset + 32 <= data.len(),
            bytes@.len() == 32,
            forall|j: int| 0 <= j < i ==> bytes@[j] == data@[offset + j],
        decreases 32 - i,
    {
        bytes[i] = data[offset + i];
        i = i + 1;
    }
    let r = Address { bytes };
    assert(r@ =~= data@.subrange(offset as int, offset + 32));
    r
}

impl Default for Address {
    fn default() -> (r: Address)
        ensures
            r@ == zero_key(),
    {
        let r = Address { bytes: [0u8; 32] };
        assert(r@ =~= zero_key());
        r
    }
}

impl PartialEq for Address {
    fn eq(&self, other: &Address) -> (r: bool) {
        self.equals(other)
    }
}

impl vstd::std_specs::cmp::PartialEqSpecImpl for Address {
    open spec fn obeys_eq_spec() -> bool {
        true
    }

    open spec fn eq_spec(&self, other: &Address) -> bool {
        self@ == other@
    }
}

impl Eq for Address {
}

/// The address and bump seed that `Pubkey::try_find_program_address` derives from
/// the seeds and the program id, if it finds one.
pub uninterp spec fn found_program_address(seeds: Seq<Seq<u8>>, program_id: Seq<u8>) -> Option<(Seq<u8>, u8)>;

/// The address that `Pubkey::create_program_address` derives from the seeds and
/// the program id, if the seeds are valid and give an address off the curve.
pub uninterp spec fn created_program_address(seeds: Seq<Seq<u8>>, program_id: Seq<u8>) -> Option<Seq<u8>>;

/// An optional found address, taken by its view.
pub open spec fn found_view(r: Option<(Address, u8)>) -> Option<(Seq<u8>, u8)> {
    match r {
        Some((a, b)) => Some((a@, b)),
        None => None,
    }
}

/// An optional created address, taken by its view.
pub open spec fn created_view(r: Option<Address>) -> Option<Seq<u8>> {
    match r {
        Some(a) => Some(a@),
        None => None,
    }
}

/// Calls `Pubkey::try_find_program_address` on the seeds and the program id.
/// Trusted: the result is the named derivation of these arguments, and when an
/// address is found, `create_program_address` on the seeds followed by the bump
/// gives that same address (as the `solana_program` documentation shows).
#[verifier::external_body]
fn solana_try_find_program_address(seeds: &Vec<Vec<u8>>, program_id: &Address) -> (r: Option<(Address, u8)>)
    ensures
        found_view(r) == found_program_address(seeds.deep_view(), program_id@),
        r matches Some((a, b)) ==> created_program_address(seeds.deep_view().push(seq![b]), program_id@) == Some(a@),
{
    let seed_slices: Vec<&[u8]> = seeds.iter().map(|s| s.as_slice()).collect();
    let id = Pubkey::new_from_array(program_id.bytes);
    match Pubkey::try_find_program_address(&seed_slices, &id) {
        Some((key, bump)) => Some((Address { bytes: key.to_bytes() }, bump)),
        None => None,
    }
}

/// Calls `Pubkey::create_program_address` on the seeds and the program id.
/// Trusted: the result is the named derivation of these arguments.
#[verifier::external_body]
fn solana_create_program_address(seeds: &Vec<Vec<u8>>, program_id: &Address) -> (r: Option<Address>)
    ensures
        created_view(r) == created_program_address(seeds.deep_view(), program_id@),
{
    let seed_slices: Vec<&[u8]> = seeds.iter().map(|s| s.as_slice()).collect();
    let id = Pubkey::new_from_array(program_id.bytes);
    match Pubkey::create_program_address(&seed_slices, &id) {
        Ok(key) => Some(Address { bytes: key.to_bytes() }),
        Err(_) => None,
    }
}

/// Derives the program address and bump seed for the seeds, if one exists.
pub fn try_find_program_address(seeds: &Vec<Vec<u8>>, program_id: &Address) -> (r: Option<(Address, u8)>)
    ensures
        found_view(r) == found_program_address(seeds.deep_view(), program_id@),
        r matches Some((a, b)) ==> created_program_address(seeds.deep_view().push(seq![b]), program_id@) == Some(a@),
{
    solana_try_find_program_address(seeds, program_id)
}

/// Derives the program address for the seeds, which already end in the bump seed.
pub fn create_program_address(seeds: &Vec<Vec<u8>>, program_id: &Address) -> (r: Option<Address>)
    ensures
        created_view(r) == created_program_address(seeds.deep_view(), program_id@),
{
    solana_create_program_address(seeds, program_id)
}

/// A byte vector's deep view is its view.
pub proof fn lemma_bytes_deep_view(v: Vec<u8>)
    ensures
        v.deep_view() == v@,
{
    assert(v.deep_view() =~= v@);
}

/// The bytes of a text seed.
pub fn seed_from_str(s: &str) -> (r: Vec<u8>)
    ensures
        r@ == s.spec_bytes(),
        r.deep_view() == s.spec_bytes(),
{
    let r = vstd::slice::slice_to_vec(s.as_bytes());
    proof {
        lemma_bytes_deep_view(r);
    }
    r
}

} // verus!
