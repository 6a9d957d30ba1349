use vstd::prelude::*;

verus! {

/// A ledger address, as its 32 bytes.
pub type Address = [u8; 32];

/// Seed of the manager singleton's derived address: the bytes of "manager".
pub open spec fn manager_seed() -> Seq<u8> {
    seq![109u8, 97, 110, 97, 103, 101, 114]
}

/// Seed of the transfer-hook account list, followed by the mint's address:
/// the bytes of "extra-account-metas", the tag under which the transfer-hook
/// protocol looks the list up.
pub open spec fn meta_list_seed() -> Seq<u8> {
    seq![101u8, 120, 116, 114, 97, 45, 97, 99, 99, 111, 117, 110, 116, 45, 109, 101, 116, 97, 115]
}

/// The derived address and bump for `seeds` under `program_id`, or none when
/// no bump gives an address off the curve.
pub uninterp spec fn program_address(seeds: Seq<Seq<u8>>, program_id: Seq<u8>) -> Option<(Seq<u8>, u8)>;

/// The seeds of the manager singleton.
pub open spec fn manager_seeds() -> Seq<Seq<u8>> {
    seq![manager_seed()]
}

/// The seeds of the transfer-hook account list of `mint`.
pub open spec fn meta_list_seeds(mint: Seq<u8>) -> Seq<Seq<u8>> {
    seq![meta_list_seed(), mint]
}

/// What a derivation call hands back, as plain values.
pub open spec fn derived_view(r: Option<(Address, u8)>) -> Option<(Seq<u8>, u8)> {
    match r {
        Some((a, b)) => Some((a@, b)),
        None => None,
    }
}

/// Relies on solana_program's `Pubkey::try_find_program_address`: it searches the
/// bumps from 255 down and returns the first address off the curve (or none);
/// the outcome depends on the seeds and the program id alone.
#[verifier::external_body]
fn find_program_address(seeds: &Vec<Vec<u8>>, program_id: &Address) -> (r: Option<(Address, u8)>)
    ensures
        derived_view(r) == program_address(seeds.deep_view(), program_id@),
{
    let refs: Vec<&[u8]> = seeds.iter().map(|s| s.as_slice()).collect();
    let program = anchor_lang::prelude::Pubkey::new_from_array(*program_id);
    anchor_lang::prelude::Pubkey::try_find_program_address(&refs, &program).map(
        |(k, b)| (k.to_bytes(), b),
    )
}

/// The bytes of an address, as a vector.
pub fn address_bytes(a: &Address) -> (r: Vec<u8>)
    ensures
        r@ == a@,
{
    let mut r: Vec<u8> = Vec::new();
    let mut i: usize = 0;
    while i < 32
        invariant
            i <= 32,
            r@ == a@.subrange(0, i as int),
        decreases 32 - i,
    {
        r.push(a[i]);
        i = i + 1;
    }
    assert(r@ =~= a@);
    r
}

/// Whether two addresses are the same.
pub fn same_address(a: &Address, b: &Address) -> (r: bool)
    ensures
        r == (a@ == b@),
{
    let mut i: usize = 0;
    while i < 32
        invariant
            i <= 32,
            a@.subrange(0, i as int) == b@.subrange(0, i as int),
        decreases 32 - i,
    {
        if a[i] != b[i] {
            assert(a@[i as int] != b@[i as int]);
            return false;
        }
        assert(a@.subrange(0, i + 1) =~= a@.subrange(0, i as int).push(a@[i as int]));
        assert(b@.subrange(0, i + 1) =~= b@.subrange(0, i as int).push(b@[i as int]));
        i = i + 1;
    }
    assert(a@ =~= a@.subrange(0, 32));
    assert(b@ =~= b@.subrange(0, 32));
    true
}

/// The manager singleton's derived address and bump under `program_id`.
pub fn manager_address(program_id: &Address) -> (r: Option<(Address, u8)>)
    ensures
        derived_view(r) == program_address(manager_seeds(), program_id@),
{
    let tag: Vec<u8> = vec![109u8, 97, 110, 97, 103, 101, 114];
    assert(tag.deep_view() =~= manager_seed());
    let seeds: Vec<Vec<u8>> = vec![tag];
    assert(seeds.deep_view() =~= manager_seeds());
    find_program_address(&seeds, program_id)
}

/// The derived address and bump of `mint`'s transfer-hook account list.
pub fn meta_list_address(mint: &Address, program_id: &Address) -> (r: Option<(Address, u8)>)
    ensures
        derived_view(r) == program_address(meta_list_seeds(mint@), program_id@),
{
    let tag: Vec<u8> = vec![101u8, 120, 116, 114, 97, 45, 97, 99, 99, 111, 117, 110, 116, 45, 109, 101, 116, 97, 115];
    let key = address_bytes(mint);
    assert(tag.deep_view() =~= meta_list_seed());
    assert(key.deep_view() =~= mint@);
    let seeds: Vec<Vec<u8>> = vec![tag, key];
    assert(seeds.deep_view() =~= meta_list_seeds(mint@));
    find_program_address(&seeds, program_id)
}

/// The seeds of a holding record: owner, token program, mint.
pub open spec fn holding_seeds(owner: Seq<u8>, token_program: Seq<u8>, mint: Seq<u8>) -> Seq<Seq<u8>> {
    seq![owner, token_program, mint]
}

/// The derived address and bump of `owner`'s holding record for `mint`, under
/// the associated-token program.
pub fn holding_address(
    owner: &Address,
    token_program: &Address,
    mint: &Address,
    associated_token_program: &Address,
) -> (r: Option<(Address, u8)>)
    ensures
        derived_view(r) == program_address(
            holding_seeds(owner@, token_program@, mint@),
            associated_token_program@,
        ),
{
    let o = address_bytes(owner);
    let t = address_bytes(token_program);
    let m = address_bytes(mint);
    assert(o.deep_view() =~= owner@);
    assert(t.deep_view() =~= token_program@);
    assert(m.deep_view() =~= mint@);
    let seeds: Vec<Vec<u8>> = vec![o, t, m];
    assert(seeds.deep_view() =~= holding_seeds(owner@, token_program@, mint@));
    find_program_address(&seeds, associated_token_program)
}

/// Derivation is a function of its inputs: two derivations of the same
/// mint's account list under the same program give the same address and bump.
pub proof fn lemma_derivation_deterministic(
    mint: Address,
    program_id: Address,
    first: Option<(Address, u8)>,
    second: Option<(Address, u8)>,
)
    requires
        derived_view(first) == program_address(meta_list_seeds(mint@), program_id@),
        derived_view(second) == program_address(meta_list_seeds(mint@), program_id@),
    ensures
        first == second,
{
    match first {
        Some((a, b)) => {
            let (c, d) = second.unwrap();
            assert(a@ =~= c@);
            assert(a == c);
        },
        None => {},
    }
}

} // verus!
