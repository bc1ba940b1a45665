use vstd::prelude::*;
use vstd::slice::slice_to_vec;
use vstd::utf8::encode_utf8;

verus! {

/// A 32-byte ledger address.
#[derive(Clone, Copy, Debug)]
pub struct Address {
    pub bytes: [u8; 32],
}

impl View for Address {
    type V = Seq<u8>;

    open spec fn view(&self) -> Seq<u8> {
        self.bytes@
    }
}

impl Address {
    pub fn new(bytes: [u8; 32]) -> (r: Address)
        ensures
            r.bytes == bytes,
    {
        Address { bytes }
    }

    /// Whether the two addresses hold the same bytes.
    pub fn same(&self, other: &Address) -> (r: bool)
        ensures
            r == (self@ == other@),
    {
        let mut i: usize = 0;
        while i < 32
            invariant
                0 <= i <= 32,
                self@.len() == 32,
                other@.len() == 32,
                forall|j: int| 0 <= j < i ==> self@[j] == other@[j],
            decreases 32 - i,
        {
            if self.bytes[i] != other.bytes[i] {
                return false;
            }
            i = i + 1;
        }
        assert(self@ =~= other@);
        true
    }

    pub fn to_vec(&self) -> (r: Vec<u8>)
        ensures
            r@ == self@,
    {
        slice_to_vec(self.bytes.as_slice())
    }
}

/// What the ledger's program-address search yields for a list of seeds and a
/// program: the first address off the curve, with the bump byte that gave it.
pub uninterp spec fn program_address_of(seeds: Seq<Seq<u8>>, program: Seq<u8>) -> Option<(Seq<u8>, u8)>;

/// The byte strings held by a list of seeds.
pub open spec fn seeds_view(seeds: Seq<Vec<u8>>) -> Seq<Seq<u8>> {
    Seq::new(seeds.len(), |i: int| seeds[i]@)
}

pub open spec fn found_view(r: Option<(Address, u8)>) -> Option<(Seq<u8>, u8)> {
    match r {
        Some((a, b)) => Some((a@, b)),
        None => None,
    }
}

/// Relies on solana_program::pubkey::Pubkey::try_find_program_address: the
/// search is a function of the seeds and the program id alone, and gives `None`
/// where no bump works. Seeds are kept within the ledger's limits: fewer than
/// sixteen, each of at most `MAX_SEED_LEN` bytes.
#[verifier::external_body]
fn try_find_program_address(seeds: &Vec<Vec<u8>>, program_id: &Address) -> (r: Option<(Address, u8)>)
    requires
        seeds@.len() < 16,
        forall|i: int| 0 <= i < seeds@.len() ==> #[trigger] seeds@[i]@.len() <= MAX_SEED_LEN,
    ensures
        found_view(r) == program_address_of(seeds_view(seeds@), program_id@),
{
    let refs: Vec<&[u8]> = seeds.iter().map(|s| s.as_slice()).collect();
    let program = solana_program::pubkey::Pubkey::new_from_array(program_id.bytes);
    solana_program::pubkey::Pubkey::try_find_program_address(&refs, &program).map(
        |(key, bump)| (Address { bytes: key.to_bytes() }, bump),
    )
}

/// The longest seed the ledger accepts.
pub const MAX_SEED_LEN: usize = 32;

/// Whether a derivation found the address `key`.
pub open spec fn derives(found: Option<(Seq<u8>, u8)>, key: Seq<u8>) -> bool {
    found matches Some((a, _)) && a == key
}

/// The bytes of the literal seed `"auth"`.
pub open spec fn auth_seed() -> Seq<u8> {
    seq![97u8, 117u8, 116u8, 104u8]
}

/// Seeds of the configuration record's address: the name, then the program id.
pub open spec fn config_seeds(name: Seq<char>, program: Seq<u8>) -> Seq<Seq<u8>> {
    seq![encode_utf8(name), program]
}

/// Seeds of the derived authority: the name, `"auth"`, then the program id.
pub open spec fn auth_seeds(name: Seq<char>, program: Seq<u8>) -> Seq<Seq<u8>> {
    seq![encode_utf8(name), auth_seed(), program]
}

/// Whether a name can serve as a seed.
pub open spec fn name_fits(name: Seq<char>) -> bool {
    encode_utf8(name).len() <= MAX_SEED_LEN
}

/// The configuration record's address of the collection `name`; none where
/// the name is too long to be a seed.
pub open spec fn config_address_of(name: Seq<char>, program: Seq<u8>) -> Option<(Seq<u8>, u8)> {
    if name_fits(name) {
        program_address_of(config_seeds(name, program), program)
    } else {
        None
    }
}

/// The signing authority's address of the collection `name`; none where the
/// name is too long to be a seed.
pub open spec fn auth_address_of(name: Seq<char>, program: Seq<u8>) -> Option<(Seq<u8>, u8)> {
    if name_fits(name) {
        program_address_of(auth_seeds(name, program), program)
    } else {
        None
    }
}

fn name_seed(name: &String) -> (r: Vec<u8>)
    ensures
        r@ == encode_utf8(name@),
{
    slice_to_vec(name.as_str().as_bytes())
}

fn auth_seed_vec() -> (r: Vec<u8>)
    ensures
        r@ == auth_seed(),
{
    let mut v: Vec<u8> = Vec::new();
    v.push(97u8);
    v.push(117u8);
    v.push(116u8);
    v.push(104u8);
    assert(v@ =~= auth_seed());
    v
}

/// Seeds of the configuration record's address, as handed to the ledger.
pub fn config_seed_list(name: &String, program_id: &Address) -> (r: Vec<Vec<u8>>)
    ensures
        seeds_view(r@) == config_seeds(name@, program_id@),
{
    let mut v: Vec<Vec<u8>> = Vec::new();
    v.push(name_seed(name));
    v.push(program_id.to_vec());
    assert(seeds_view(v@) =~= config_seeds(name@, program_id@));
    v
}

/// Seeds of the derived authority, as handed to the ledger.
pub fn auth_seed_list(name: &String, program_id: &Address) -> (r: Vec<Vec<u8>>)
    ensures
        seeds_view(r@) == auth_seeds(name@, program_id@),
{
    let mut v: Vec<Vec<u8>> = Vec::new();
    v.push(name_seed(name));
    v.push(auth_seed_vec());
    v.push(program_id.to_vec());
    assert(seeds_view(v@) =~= auth_seeds(name@, program_id@));
    v
}

/// Derives the configuration record's address of the collection `name`.
pub fn find_config_address(name: &String, program_id: &Address) -> (r: Option<(Address, u8)>)
    ensures
        found_view(r) == config_address_of(name@, program_id@),
{
    if name.as_str().as_bytes().len() > MAX_SEED_LEN {
        return None;
    }
    let seeds = config_seed_list(name, program_id);
    assert(seeds_view(seeds@).len() == 2);
    assert forall|i: int| 0 <= i < seeds@.len() implies #[trigger] seeds@[i]@.len()
        <= MAX_SEED_LEN by {
        assert(seeds_view(seeds@)[i] == seeds@[i]@);
    }
    try_find_program_address(&seeds, program_id)
}

/// Derives the signing authority's address of the collection `name`.
pub fn find_auth_address(name: &String, program_id: &Address) -> (r: Option<(Address, u8)>)
    ensures
        found_view(r) == auth_address_of(name@, program_id@),
{
    if name.as_str().as_bytes().len() > MAX_SEED_LEN {
        return None;
    }
    let seeds = auth_seed_list(name, program_id);
    assert(seeds_view(seeds@).len() == 3);
    assert forall|i: int| 0 <= i < seeds@.len() implies #[trigger] seeds@[i]@.len()
        <= MAX_SEED_LEN by {
        assert(seeds_view(seeds@)[i] == seeds@[i]@);
    }
    try_find_program_address(&seeds, program_id)
}

/// The seeds with which the program signs for an address: the derivation's
/// seeds followed by the one-byte bump.
pub fn signer_seeds(seeds: Vec<Vec<u8>>, bump: u8) -> (r: Vec<Vec<u8>>)
    ensures
        seeds_view(r@) == seeds_view(seeds@).push(seq![bump]),
{
    let mut r = seeds;
    let mut b: Vec<u8> = Vec::new();
    b.push(bump);
    assert(b@ =~= seq![bump]);
    r.push(b);
    assert(seeds_view(r@) =~= seeds_view(seeds@).push(seq![bump]));
    r
}

/// Deriving twice from the same name and program gives the same addresses,
/// and the two derivations of one name never search from the same seeds.
pub proof fn lemma_derivation_deterministic(
    name1: Seq<char>,
    name2: Seq<char>,
    program1: Seq<u8>,
    program2: Seq<u8>,
)
    requires
        name1 == name2,
        program1 == program2,
    ensures
        config_address_of(name1, program1) == config_address_of(name2, program2),
        auth_address_of(name1, program1) == auth_address_of(name2, program2),
        config_seeds(name1, program1) != auth_seeds(name1, program1),
{
    assert(config_seeds(name1, program1).len() != auth_seeds(name1, program1).len());
}

/// The key of the ledger's instructions sysvar.
pub open spec fn instructions_sysvar_key() -> Seq<u8> {
    seq![
        6u8, 167u8, 213u8, 23u8, 24u8, 123u8, 209u8, 102u8, 53u8, 218u8, 212u8, 4u8, 85u8, 253u8,
        194u8, 192u8, 193u8, 36u8, 198u8, 143u8, 33u8, 86u8, 117u8, 165u8, 219u8, 186u8, 203u8,
        95u8, 8u8, 0u8, 0u8, 0u8,
    ]
}

/// Relies on solana_program::sysvar::instructions::id(): the fixed key
/// `Sysvar1nstructions1111111111111111111111111`, whose bytes the spec spells out.
#[verifier::external_body]
pub(crate) fn instructions_sysvar_id() -> (r: Address)
    ensures
        r@ == instructions_sysvar_key(),
{
    Address { bytes: solana_program::sysvar::instructions::id().to_bytes() }
}

} // verus!
