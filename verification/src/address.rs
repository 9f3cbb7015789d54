use vstd::prelude::*;
use vstd::std_specs::cmp::PartialEqSpecImpl;
use vstd::string::StringSliceAdditionalSpecFns;

verus! {

/// Longest seed that the ledger's derivations accept, in bytes.
pub const MAX_SEED_LEN: usize = 32;

/// A ledger address: the identity of an account or of a program. Two
/// addresses are the same when their bytes are.
#[derive(Debug, Clone, Copy)]
pub struct Address {
    pub bytes: [u8; 32],
}

impl View for Address {
    type V = Seq<u8>;

    open spec fn view(&self) -> Seq<u8> {
        self.bytes@
    }
}

impl PartialEq for Address {
    fn eq(&self, other: &Address) -> (r: bool) {
        let mut i: usize = 0;
        while i < 32
            invariant
                i <= 32,
                forall|j: int| 0 <= j < i ==> self.bytes@[j] == other.bytes@[j],
            decreases 32 - i,
        {
            if self.bytes[i] != other.bytes[i] {
                return false;
            }
            i += 1;
        }
        assert(self.bytes@ =~= other.bytes@);
        true
    }
}

impl PartialEqSpecImpl for Address {
    open spec fn obeys_eq_spec() -> bool {
        true
    }

    open spec fn eq_spec(&self, other: &Address) -> bool {
        self@ == other@
    }
}

impl Eq for Address {}

/// `PubkeyError` of `solana_program`: why a derivation was refused. Nothing
/// in this crate looks inside it.
#[verifier::external_type_specification]
#[verifier::external_body]
pub struct ExPubkeyError(solana_program::pubkey::PubkeyError);

/// The address that `Pubkey::create_with_seed` gives for a base address, the
/// bytes of a seed and an owning program, where it gives one: a hash of the
/// three.
pub uninterp spec fn seeded_address(base: Seq<u8>, seed: Seq<u8>, owner: Seq<u8>) -> Seq<u8>;

/// What `Pubkey::try_find_program_address` gives for a list of seeds and a
/// program: an address off the curve and the bump seed that led to it, or
/// `None` where its search over the bump seeds finds no such address.
pub uninterp spec fn program_address(seeds: Seq<Seq<u8>>, program_id: Seq<u8>) -> Option<
    (Seq<u8>, u8),
>;

/// The byte string `ProgramDerivedAddress`, which marks the hash input of
/// program-derived addresses.
pub open spec fn pda_marker() -> Seq<u8> {
    seq![
        80u8, 114, 111, 103, 114, 97, 109, 68, 101, 114, 105, 118, 101, 100, 65, 100, 100, 114,
        101, 115, 115,
    ]
}

/// Whether an owner's bytes end in the marker.
pub open spec fn ends_with_pda_marker(owner: Seq<u8>) -> bool {
    owner.len() >= 21 && owner.subrange(owner.len() - 21, owner.len() as int) == pda_marker()
}

/// A list of seeds as contracts see it.
pub open spec fn seeds_view(seeds: Seq<&[u8]>) -> Seq<Seq<u8>> {
    Seq::new(seeds.len(), |i: int| seeds[i]@)
}

/// `Pubkey::create_with_seed` of `solana_program`. Not proved: that it
/// refuses exactly a seed of more than `MAX_SEED_LEN` bytes and an owner whose
/// bytes end in the marker, and that what it returns otherwise depends on
/// nothing but the bytes of its three arguments.
#[verifier::external_body]
pub(crate) fn create_with_seed(base: &Address, seed: &str, owner: &Address) -> (r: Result<
    Address,
    solana_program::pubkey::PubkeyError,
>)
    ensures
        r is Err <==> seed.spec_bytes().len() > MAX_SEED_LEN || ends_with_pda_marker(owner@),
        r matches Ok(a) ==> a@ == seeded_address(base@, seed.spec_bytes(), owner@),
{
    let base = solana_program::pubkey::Pubkey::new_from_array(base.bytes);
    let owner = solana_program::pubkey::Pubkey::new_from_array(owner.bytes);
    match solana_program::pubkey::Pubkey::create_with_seed(&base, seed, &owner) {
        Ok(key) => Ok(Address { bytes: key.to_bytes() }),
        Err(e) => Err(e),
    }
}

/// `Pubkey::try_find_program_address` of `solana_program`. Not proved: that
/// what it returns depends on nothing but the bytes of the seeds and of the
/// program. Nothing is claimed of which address and bump seed it finds.
#[verifier::external_body]
pub(crate) fn try_find_program_address(seeds: &[&[u8]], program_id: &Address) -> (r: Option<
    (Address, u8),
>)
    ensures
        derived_view(r) == program_address(seeds_view(seeds@), program_id@),
{
    let program_id = solana_program::pubkey::Pubkey::new_from_array(program_id.bytes);
    match solana_program::pubkey::Pubkey::try_find_program_address(seeds, &program_id) {
        Some((key, bump)) => Some((Address { bytes: key.to_bytes() }, bump)),
        None => None,
    }
}

/// The first seed of every counter address: the bytes of `counter`.
pub const COUNTER_SEED: [u8; 7] = [99, 111, 117, 110, 116, 101, 114];

/// The seeds from which a user's counter address is derived.
pub open spec fn counter_seeds(user: Address) -> Seq<Seq<u8>> {
    seq![COUNTER_SEED@, user@]
}

/// What a derivation gave, as contracts see it.
pub open spec fn derived_view(derived: Option<(Address, u8)>) -> Option<(Seq<u8>, u8)> {
    match derived {
        Some((address, bump_seed)) => Some((address@, bump_seed)),
        None => None,
    }
}

/// Derives the address of a user's counter, and the bump seed that goes
/// with it.
pub fn find_counter_address(user: &Address, program_id: &Address) -> (r: Option<(Address, u8)>)
    ensures
        derived_view(r) == program_address(counter_seeds(*user), program_id@),
{
    let seeds: [&[u8]; 2] = [COUNTER_SEED.as_slice(), user.bytes.as_slice()];
    assert(seeds_view(seeds@) =~= counter_seeds(*user));
    try_find_program_address(seeds.as_slice(), program_id)
}

} // verus!
