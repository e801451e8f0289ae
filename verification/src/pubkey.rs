//! Account addresses and their derivation from seeds.

use vstd::prelude::*;

verus! {

/// Number of bytes in an address.
pub const PUBKEY_BYTES: usize = 32;

/// Largest number of bytes in one seed.
pub const MAX_SEED_LEN: usize = 32;

/// The number of seeds must stay below this.
pub const MAX_SEEDS: usize = 16;

/// The address of an account: an author's identity, a review's storage
/// location, the program itself.
#[derive(Clone, Copy, Debug)]
pub struct Pubkey {
    pub bytes: [u8; 32],
}

impl View for Pubkey {
    type V = Seq<u8>;

    open spec fn view(&self) -> Seq<u8> {
        self.bytes@
    }
}

impl Pubkey {
    /// The address made of the given bytes.
    pub fn new_from_array(bytes: [u8; 32]) -> (key: Pubkey)
        ensures
            key.bytes == bytes,
    {
        Pubkey { bytes }
    }

    /// The bytes of the address.
    pub fn to_bytes(&self) -> (bytes: [u8; 32])
        ensures
            bytes == self.bytes,
    {
        self.bytes
    }

    /// The bytes of the address as a seed for deriving other addresses.
    pub fn to_seed(&self) -> (seed: Vec<u8>)
        ensures
            seed@ == self@,
    {
        let mut seed: Vec<u8> = Vec::new();
        let mut i: usize = 0;
        while i < PUBKEY_BYTES
            invariant
                i <= PUBKEY_BYTES,
                seed@ == self.bytes@.subrange(0, i as int),
            decreases PUBKEY_BYTES - i,
        {
            seed.push(self.bytes[i]);
            assert(seed@ =~= self.bytes@.subrange(0, i + 1));
            i += 1;
        }
        assert(seed@ =~= self@);
        seed
    }

    /// Whether two addresses hold the same bytes.
    pub fn equals(&self, other: &Pubkey) -> (same: bool)
        ensures
            same == (*self == *other),
            same == (self@ == other@),
    {
        let mut i: usize = 0;
        while i < PUBKEY_BYTES
            invariant
                i <= PUBKEY_BYTES,
                forall|j: int| 0 <= j < i ==> self.bytes@[j] == other.bytes@[j],
            decreases PUBKEY_BYTES - i,
        {
            if self.bytes[i] != other.bytes[i] {
                return false;
            }
            i += 1;
        }
        assert(self.bytes =~= other.bytes);
        true
    }
}

impl PartialEq for Pubkey {
    fn eq(&self, other: &Pubkey) -> (same: bool) {
        self.equals(other)
    }
}

impl Eq for Pubkey {

}

impl vstd::std_specs::cmp::PartialEqSpecImpl for Pubkey {
    open spec fn obeys_eq_spec() -> bool {
        true
    }

    open spec fn eq_spec(&self, other: &Pubkey) -> bool {
        *self == *other
    }
}

/// Two addresses with the same bytes are the same address.
pub proof fn lemma_view_injective(a: Pubkey, b: Pubkey)
    requires
        a@ == b@,
    ensures
        a == b,
{
    assert(a.bytes =~= b.bytes);
}

/// The address whose bytes are `bytes`, where these are the bytes of an
/// address.
pub closed spec fn spec_from_bytes(bytes: Seq<u8>) -> Pubkey {
    choose|key: Pubkey| key@ == bytes
}

/// Every address is the address of its bytes.
pub proof fn lemma_spec_from_bytes(key: Pubkey)
    ensures
        spec_from_bytes(key@) == key,
{
    lemma_view_injective(spec_from_bytes(key@), key);
}

/// The address and the bump seed that the runtime derives for `seeds`
/// under the program `program_id`, where it derives one.
pub uninterp spec fn program_address(seeds: Seq<Seq<u8>>, program_id: Seq<u8>) -> Option<(Seq<u8>, u8)>;

/// Whether the seeds are few enough and each short enough to derive an
/// address from.
pub open spec fn seeds_fit(seeds: Seq<Seq<u8>>) -> bool {
    &&& seeds.len() < MAX_SEEDS
    &&& forall|i: int| 0 <= i < seeds.len() ==> (#[trigger] seeds[i]).len() <= MAX_SEED_LEN
}

/// The derived address and its bump seed, where there is one.
pub open spec fn spec_find_program_address(seeds: Seq<Seq<u8>>, program_id: Pubkey) -> Option<
    (Pubkey, u8),
> {
    match program_address(seeds, program_id@) {
        Some((bytes, bump)) => Some((spec_from_bytes(bytes), bump)),
        None => None,
    }
}

/// Calls `Pubkey::try_find_program_address` of `anchor_lang`.
///
/// Trusted: what comes back, an address with its bump seed or nothing, is
/// a function of the seeds and of the program id alone, named
/// [`program_address`]; and nothing comes back for sixteen seeds or more,
/// nor for a seed of more than 32 bytes.
#[verifier::external_body]
fn try_find_program_address(seeds: &Vec<Vec<u8>>, program_id: &Pubkey) -> (found: Option<
    (Pubkey, u8),
>)
    ensures
        match found {
            Some((address, bump)) => program_address(seeds.deep_view(), program_id@) == Some(
                (address@, bump),
            ),
            None => program_address(seeds.deep_view(), program_id@) is None,
        },
        !seeds_fit(seeds.deep_view()) ==> found is None,
{
    let parts: Vec<&[u8]> = seeds.iter().map(|seed| seed.as_slice()).collect();
    let id = anchor_lang::prelude::Pubkey::new_from_array(program_id.bytes);
    match anchor_lang::prelude::Pubkey::try_find_program_address(&parts, &id) {
        Some((address, bump)) => Some((Pubkey { bytes: address.to_bytes() }, bump)),
        None => None,
    }
}

/// Derives the address that belongs to `seeds` under the program
/// `program_id`, with the bump seed that completes the seeds. Seeds that
/// do not fit derive no address.
pub fn find_program_address(seeds: &Vec<Vec<u8>>, program_id: &Pubkey) -> (found: Option<
    (Pubkey, u8),
>)
    ensures
        found == spec_find_program_address(seeds.deep_view(), *program_id),
        !seeds_fit(seeds.deep_view()) ==> found is None,
{
    let found = try_find_program_address(seeds, program_id);
    proof {
        if let Some((address, _)) = found {
            lemma_spec_from_bytes(address);
        }
    }
    found
}

} // verus!
