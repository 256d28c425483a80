use vstd::prelude::*;

verus! {

/// A 32-byte account address.
#[derive(Clone, Copy, Debug, PartialEq, Eq, Hash)]
pub struct Address {
    pub bytes: [u8; 32],
}

impl View for Address {
    type V = Seq<u8>;

    open spec fn view(&self) -> Seq<u8> {
        self.bytes@
    }
}

/// The view of the null address: thirty-two zero bytes.
pub open spec fn null_bytes() -> Seq<u8> {
    Seq::new(32, |i: int| 0u8)
}

/// The view of an address that may be absent.
pub open spec fn opt_view(a: Option<Address>) -> Option<Seq<u8>> {
    match a {
        Some(x) => Some(x@),
        None => None,
    }
}

/// The null address.
pub open spec fn null_address() -> Address {
    Address { bytes: vstd::array::spec_array_fill_for_copy_type::<u8, 32>(0u8) }
}

impl Address {
    /// The address with the given bytes.
    pub fn new(bytes: [u8; 32]) -> (r: Address)
        ensures
            r.bytes == bytes,
    {
        Address { bytes }
    }

    /// The null address, which names no account.
    pub fn null() -> (r: Address)
        ensures
            r == null_address(),
            r@ == null_bytes(),
    {
        let r = Address { bytes: [0u8; 32] };
        assert(r@ =~= null_bytes());
        r
    }

    /// Whether two addresses hold the same bytes.
    pub fn same(&self, other: &Address) -> (r: bool)
        ensures
            r == (self@ == other@),
    {
        let mut i: usize = 0;
        while i < 32
            invariant
                i <= 32,
                forall|j: int| 0 <= j < i ==> self.bytes@[j] == other.bytes@[j],
            decreases 32 - i,
        {
            if self.bytes[i] != other.bytes[i] {
                return false;
            }
            i += 1;
        }
        assert(self@ =~= other@);
        true
    }

    /// Whether this is the null address.
    pub fn is_null(&self) -> (r: bool)
        ensures
            r == (self@ == null_bytes()),
    {
        let mut i: usize = 0;
        while i < 32
            invariant
                i <= 32,
                forall|j: int| 0 <= j < i ==> self.bytes@[j] == 0u8,
            decreases 32 - i,
        {
            if self.bytes[i] != 0 {
                assert(null_bytes()[i as int] == 0u8);
                return false;
            }
            i += 1;
        }
        assert(self@ =~= null_bytes());
        true
    }
}

/// Who asks for an operation: an address, and whether its holder signed.
#[derive(Clone, Copy, Debug, PartialEq, Eq)]
pub struct Caller {
    pub key: Address,
    pub is_signer: bool,
}

/// The seed from which the configuration record's address is derived: the
/// bytes of `fee_collector`.
pub open spec fn collector_seed() -> Seq<u8> {
    seq![102u8, 101u8, 101u8, 95u8, 99u8, 111u8, 108u8, 108u8, 101u8, 99u8, 116u8, 111u8, 114u8]
}

/// The seeds of the record's address with a given bump.
pub open spec fn collector_seeds(bump: u8) -> Seq<Seq<u8>> {
    seq![collector_seed(), seq![bump]]
}

/// The views of a list of seeds.
pub open spec fn seed_views(seeds: Seq<Vec<u8>>) -> Seq<Seq<u8>> {
    Seq::new(seeds.len(), |i: int| seeds[i]@)
}

/// The address that a program derives from a list of seeds, or `None` where
/// the seeds derive none.
pub uninterp spec fn program_address(seeds: Seq<Seq<u8>>, program_id: Seq<u8>) -> Option<Seq<u8>>;

/// The address and bump that the search over bumps finds for a list of
/// seeds, or `None` where it finds none.
pub uninterp spec fn found_program_address(seeds: Seq<Seq<u8>>, program_id: Seq<u8>) -> Option<
    (Seq<u8>, u8),
>;

/// What `found_program_address` gives for an exec result.
pub open spec fn found_view(r: Option<(Address, u8)>) -> Option<(Seq<u8>, u8)> {
    match r {
        Some((a, b)) => Some((a@, b)),
        None => None,
    }
}

/// The error of solana_program's address derivation, carried through as it
/// comes.
#[verifier::external_type_specification]
#[verifier::external_body]
pub struct ExPubkeyError(anchor_lang::solana_program::pubkey::PubkeyError);

/// The address in the result of a derivation, if it gave one.
pub open spec fn derived_view(
    r: Result<Address, anchor_lang::solana_program::pubkey::PubkeyError>,
) -> Option<Seq<u8>> {
    match r {
        Ok(a) => Some(a@),
        Err(_) => None,
    }
}

/// Calls `Pubkey::create_program_address` of solana_program (through
/// anchor_lang) on the seeds and the program's address. Trusted: whether an
/// address comes back, and which, is a function of the seeds and the program
/// id alone, named `program_address`.
#[verifier::external_body]
pub(crate) fn create_program_address(seeds: &Vec<Vec<u8>>, program_id: &Address) -> (r: Result<
    Address,
    anchor_lang::solana_program::pubkey::PubkeyError,
>)
    ensures
        derived_view(r) == program_address(seed_views(seeds@), program_id@),
{
    let parts: Vec<&[u8]> = seeds.iter().map(|s| s.as_slice()).collect();
    let program = anchor_lang::prelude::Pubkey::new_from_array(program_id.bytes);
    match anchor_lang::prelude::Pubkey::create_program_address(&parts, &program) {
        Ok(key) => Ok(Address { bytes: key.to_bytes() }),
        Err(e) => Err(e),
    }
}

/// Calls `Pubkey::try_find_program_address` of solana_program (through
/// anchor_lang). Trusted: the result is a function of the seeds and the
/// program id alone, named `found_program_address`; and where an address and
/// a bump are found, that address is the one derived from the seeds with the
/// bump appended as a last seed of one byte.
#[verifier::external_body]
pub(crate) fn try_find_program_address(seeds: &Vec<Vec<u8>>, program_id: &Address) -> (r: Option<
    (Address, u8),
>)
    ensures
        found_view(r) == found_program_address(seed_views(seeds@), program_id@),
        r matches Some((a, b)) ==> program_address(seed_views(seeds@).push(seq![b]), program_id@)
            == Some(a@),
{
    let parts: Vec<&[u8]> = seeds.iter().map(|s| s.as_slice()).collect();
    let program = anchor_lang::prelude::Pubkey::new_from_array(program_id.bytes);
    match anchor_lang::prelude::Pubkey::try_find_program_address(&parts, &program) {
        Some((key, bump)) => Some((Address { bytes: key.to_bytes() }, bump)),
        None => None,
    }
}

/// The seed of the record's address, as bytes.
pub fn collector_seed_bytes() -> (r: Vec<u8>)
    ensures
        r@ == collector_seed(),
{
    let r = vec![102u8, 101u8, 101u8, 95u8, 99u8, 111u8, 108u8, 108u8, 101u8, 99u8, 116u8, 111u8, 114u8];
    assert(r@ =~= collector_seed());
    r
}

/// The address at which a program keeps its configuration record when the
/// record's bump is `bump`; `None` where seed and bump derive no address.
pub fn collector_address(program_id: &Address, bump: u8) -> (r: Option<Address>)
    ensures
        opt_view(r) == program_address(collector_seeds(bump), program_id@),
{
    let mut seeds: Vec<Vec<u8>> = Vec::new();
    seeds.push(collector_seed_bytes());
    let mut last: Vec<u8> = Vec::new();
    last.push(bump);
    assert(last@ =~= seq![bump]);
    seeds.push(last);
    assert(seed_views(seeds@) =~= collector_seeds(bump));
    match create_program_address(&seeds, program_id) {
        Ok(a) => Some(a),
        Err(_) => None,
    }
}

/// The bump-free search for the record's address: the address and the bump
/// that go with a program, or `None` where the search finds none. What is
/// found is the address derived with that bump.
pub fn find_collector_address(program_id: &Address) -> (r: Option<(Address, u8)>)
    ensures
        found_view(r) == found_program_address(seq![collector_seed()], program_id@),
        r matches Some((a, b)) ==> program_address(collector_seeds(b), program_id@) == Some(a@),
{
    let mut seeds: Vec<Vec<u8>> = Vec::new();
    seeds.push(collector_seed_bytes());
    assert(seed_views(seeds@) =~= seq![collector_seed()]);
    let r = try_find_program_address(&seeds, program_id);
    proof {
        if let Some((a, b)) = r {
            assert(seed_views(seeds@).push(seq![b]) =~= collector_seeds(b));
        }
    }
    r
}

} // verus!
