use vstd::prelude::*;
use anchor_spl::token_interface::spl_token_2022::extension::ExtensionType;
use anchor_spl::token_interface::spl_token_2022::state::Mint as MintState;
use crate::address::{
    holding_address, holding_seeds, manager_address, manager_seeds, meta_list_address,
    meta_list_seeds, program_address, same_address, Address,
};
use crate::error::CreateError;
use crate::metas::{
    default_metas, encode_meta_list, get_meta_list, meta_list_data, meta_list_len,
};

verus! {

/// The descriptive fields embedded in the mint.
pub struct CreateMintAccountArgs {
    pub name: String,
    pub symbol: String,
    pub uri: String,
}

/// The optional capabilities a mint record declares.
#[derive(Clone, Copy, Debug, PartialEq, Eq, Structural)]
pub enum ExtensionKind {
    MetadataPointer,
    GroupMemberPointer,
    TransferHook,
    MintCloseAuthority,
}

/// The extensions of every asset's mint, in layout order.
pub open spec fn mint_extensions_spec() -> Seq<ExtensionKind> {
    seq![
        ExtensionKind::MetadataPointer,
        ExtensionKind::GroupMemberPointer,
        ExtensionKind::TransferHook,
        ExtensionKind::MintCloseAuthority,
    ]
}

/// The extensions of every asset's mint.
pub fn mint_extensions() -> (r: Vec<ExtensionKind>)
    ensures
        r@ == mint_extensions_spec(),
{
    let r: Vec<ExtensionKind> = vec![
        ExtensionKind::MetadataPointer,
        ExtensionKind::GroupMemberPointer,
        ExtensionKind::TransferHook,
        ExtensionKind::MintCloseAuthority,
    ];
    assert(r@ =~= mint_extensions_spec());
    r
}

/// The account size of a mint record declaring `kinds`, or none where one of
/// them has no fixed size.
pub uninterp spec fn mint_len_of(kinds: Seq<ExtensionKind>) -> Option<nat>;

/// Relies on spl_token_2022's `ExtensionType::try_calculate_account_len::<Mint>`:
/// the base mint, its account type and each distinct extension's type, length
/// and value; it depends on the extension list alone.
#[verifier::external_body]
fn mint_account_len_of(kinds: &Vec<ExtensionKind>) -> (r: Option<usize>)
    ensures
        r matches Some(v) ==> mint_len_of(kinds@) == Some(v as nat),
        r is None ==> mint_len_of(kinds@) is None,
{
    let types: Vec<ExtensionType> = kinds.iter().map(|k| match k {
        ExtensionKind::MetadataPointer => ExtensionType::MetadataPointer,
        ExtensionKind::GroupMemberPointer => ExtensionType::GroupMemberPointer,
        ExtensionKind::TransferHook => ExtensionType::TransferHook,
        ExtensionKind::MintCloseAuthority => ExtensionType::MintCloseAuthority,
    }).collect();
    ExtensionType::try_calculate_account_len::<MintState>(&types).ok()
}

/// The programs a creation runs under: this one, the token program and the
/// associated-token program.
#[derive(Clone, Copy, Debug)]
pub struct Programs {
    pub program_id: Address,
    pub token_program: Address,
    pub associated_token_program: Address,
}

/// The accounts of one creation, as supplied by the caller.
#[derive(Clone, Copy, Debug)]
pub struct CreateMintAccount {
    pub payer: Address,
    pub payer_signed: bool,
    /// The ephemeral authority that signs the sub-protocol calls.
    pub authority: Address,
    pub authority_signed: bool,
    pub receiver: Address,
    pub mint: Address,
    pub mint_signed: bool,
    /// The receiver's holding record for the mint.
    pub mint_token_account: Address,
    /// The transfer-hook account list's buffer, and the bytes allocated to it.
    pub extra_metas_account: Address,
    pub extra_metas_len: usize,
    pub manager: Address,
}

/// Whether `addr` is the address derived from `seeds` under `program`.
pub open spec fn derives_to(seeds: Seq<Seq<u8>>, program: Seq<u8>, addr: Seq<u8>) -> bool {
    program_address(seeds, program) matches Some((a, _)) && a == addr
}

pub open spec fn signers_ok(c: CreateMintAccount) -> bool {
    c.payer_signed && c.authority_signed && c.mint_signed
}

/// Each derived account stands at its derivation.
pub open spec fn addresses_ok(c: CreateMintAccount, p: Programs) -> bool {
    &&& derives_to(manager_seeds(), p.program_id@, c.manager@)
    &&& derives_to(meta_list_seeds(c.mint@), p.program_id@, c.extra_metas_account@)
    &&& derives_to(
        holding_seeds(c.receiver@, p.token_program@, c.mint@),
        p.associated_token_program@,
        c.mint_token_account@,
    )
}

/// The buffer of the transfer-hook account list is sized for the default list.
pub open spec fn buffer_ok(c: CreateMintAccount) -> bool {
    c.extra_metas_len == meta_list_len(default_metas(None).len())
}

/// The error a creation is refused with, checked in this order.
pub open spec fn refusal(c: CreateMintAccount, p: Programs) -> Option<CreateError> {
    if !signers_ok(c) {
        Some(CreateError::AuthorizationFailure)
    } else if !addresses_ok(c, p) {
        Some(CreateError::AddressMismatch)
    } else if !buffer_ok(c) {
        Some(CreateError::SizeMismatch)
    } else {
        None
    }
}

/// How the mint record is allocated: precision, authorities, the declared
/// extensions with their authorities, and the account size.
pub struct MintLayout {
    pub decimals: u8,
    pub mint_authority: Address,
    pub freeze_authority: Address,
    pub extensions: Vec<ExtensionKind>,
    pub metadata_pointer_authority: Address,
    /// Where the metadata lives: the mint itself.
    pub metadata_address: Address,
    pub group_member_pointer_authority: Address,
    pub transfer_hook_authority: Address,
    pub close_authority: Address,
    pub account_len: usize,
}

/// The mint record's layout for `ctx`: the ephemeral authority configures
/// and mints, the manager freezes and closes; none where the extensions have
/// no fixed size.
pub fn mint_layout(ctx: &CreateMintAccount) -> (r: Option<MintLayout>)
    ensures
        r is Some <==> mint_len_of(mint_extensions_spec()) is Some,
        r matches Some(l) ==> {
            &&& l.decimals == 0
            &&& l.mint_authority == ctx.authority
            &&& l.freeze_authority == ctx.manager
            &&& l.extensions@ == mint_extensions_spec()
            &&& l.metadata_pointer_authority == ctx.authority
            &&& l.metadata_address == ctx.mint
            &&& l.group_member_pointer_authority == ctx.authority
            &&& l.transfer_hook_authority == ctx.authority
            &&& l.close_authority == ctx.manager
            &&& mint_len_of(mint_extensions_spec()) == Some(l.account_len as nat)
        },
{
    let extensions = mint_extensions();
    match mint_account_len_of(&extensions) {
        Some(account_len) => Some(MintLayout {
            decimals: 0,
            mint_authority: ctx.authority,
            freeze_authority: ctx.manager,
            extensions,
            metadata_pointer_authority: ctx.authority,
            metadata_address: ctx.mint,
            group_member_pointer_authority: ctx.authority,
            transfer_hook_authority: ctx.authority,
            close_authority: ctx.manager,
            account_len,
        }),
        None => None,
    }
}

/// One call into the token sub-protocol or write of the account list, each
/// authorized by the ephemeral authority.
pub enum Action {
    /// Embed the metadata in the mint, with the authority as update authority.
    InitializeTokenMetadata { name: String, symbol: String, uri: String, update_authority: Address },
    /// Mint `amount` units into the holding record.
    MintToReceiver { amount: u64 },
    /// Hand the mint authority over to `new_authority`.
    UpdateMintAuthority { new_authority: Address },
    /// Write the encoded account list into its buffer.
    InitializeMetaList { data: Vec<u8> },
}

/// The state of the asset's records, as the sub-protocol keeps it.
pub struct LedgerModel {
    pub decimals: nat,
    pub supply: nat,
    pub holding_balance: nat,
    pub mint_authority: Seq<u8>,
    pub freeze_authority: Seq<u8>,
    pub close_authority: Seq<u8>,
    pub extensions: Seq<ExtensionKind>,
    /// Name, symbol, URI and update authority, once embedded.
    pub metadata: Option<(Seq<char>, Seq<char>, Seq<char>, Seq<u8>)>,
    pub meta_list: Option<Seq<u8>>,
}

/// The records right after allocation: precision 0, nothing issued, the
/// ephemeral authority minting and the manager freezing and closing.
pub open spec fn fresh_mint(c: CreateMintAccount) -> LedgerModel {
    LedgerModel {
        decimals: 0,
        supply: 0,
        holding_balance: 0,
        mint_authority: c.authority@,
        freeze_authority: c.manager@,
        close_authority: c.manager@,
        extensions: mint_extensions_spec(),
        metadata: None,
        meta_list: None,
    }
}

/// What one action does when `signer` authorizes it, or none where the
/// sub-protocol rejects it.
pub open spec fn apply(s: LedgerModel, a: Action, signer: Seq<u8>) -> Option<LedgerModel> {
    match a {
        Action::InitializeTokenMetadata { name, symbol, uri, update_authority } => {
            if signer == s.mint_authority && s.metadata is None
                && s.extensions.contains(ExtensionKind::MetadataPointer) {
                Some(LedgerModel { metadata: Some((name@, symbol@, uri@, update_authority@)), ..s })
            } else {
                None
            }
        },
        Action::MintToReceiver { amount } => {
            if signer == s.mint_authority {
                Some(LedgerModel {
                    supply: s.supply + amount as nat,
                    holding_balance: s.holding_balance + amount as nat,
                    ..s
                })
            } else {
                None
            }
        },
        Action::UpdateMintAuthority { new_authority } => {
            if signer == s.mint_authority {
                Some(LedgerModel { mint_authority: new_authority@, ..s })
            } else {
                None
            }
        },
        Action::InitializeMetaList { data } => {
            if s.meta_list is None {
                Some(LedgerModel { meta_list: Some(data@), ..s })
            } else {
                None
            }
        },
    }
}

/// The records after the actions in order, or none when one is rejected (the
/// whole transaction then aborts).
pub open spec fn run(s: LedgerModel, actions: Seq<Action>, signer: Seq<u8>) -> Option<LedgerModel>
    decreases actions.len(),
{
    if actions.len() == 0 {
        Some(s)
    } else {
        match apply(s, actions[0], signer) {
            Some(t) => run(t, actions.drop_first(), signer),
            None => None,
        }
    }
}

/// Handing the mint authority to the manager before embedding the metadata
/// makes the embedding fail: the ephemeral authority no longer mints.
pub proof fn lemma_handoff_before_metadata_fails(
    s: LedgerModel,
    authority: Address,
    manager: Address,
    name: String,
    symbol: String,
    uri: String,
)
    requires
        s.mint_authority == authority@,
        authority@ != manager@,
    ensures
        run(
            s,
            seq![
                Action::UpdateMintAuthority { new_authority: manager },
                Action::InitializeTokenMetadata { name, symbol, uri, update_authority: authority },
            ],
            authority@,
        ) is None,
{
    let acts = seq![
        Action::UpdateMintAuthority { new_authority: manager },
        Action::InitializeTokenMetadata { name, symbol, uri, update_authority: authority },
    ];
    let t = apply(s, acts[0], authority@).unwrap();
    let rest = acts.drop_first();
    assert(rest.len() == 1 && rest[0] == acts[1]);
    assert(apply(t, acts[1], authority@) is None);
    assert(run(t, rest, authority@) is None);
}

/// A buffer allocated smaller than the default list's exact size is refused
/// with `SizeMismatch` once signers and addresses are in order; the refusal
/// comes before any call, so nothing is committed.
pub proof fn lemma_undersized_buffer_refused(c: CreateMintAccount, p: Programs)
    requires
        signers_ok(c),
        addresses_ok(c, p),
        c.extra_metas_len < meta_list_len(0),
    ensures
        refusal(c, p) == Some(CreateError::SizeMismatch),
{
    assert(default_metas(None).len() == 0);
}

/// A manager account that is not at its derived address is refused with
/// `AddressMismatch` once the signers are in order.
pub proof fn lemma_wrong_manager_refused(c: CreateMintAccount, p: Programs)
    requires
        signers_ok(c),
        !derives_to(manager_seeds(), p.program_id@, c.manager@),
    ensures
        refusal(c, p) == Some(CreateError::AddressMismatch),
{
}

/// Validates the accounts and returns the ordered calls of one creation:
/// embed the metadata, issue one unit, hand the mint authority to the
/// manager, write the default transfer-hook account list.
pub fn handler(ctx: &CreateMintAccount, programs: &Programs, args: CreateMintAccountArgs) -> (r: Result<Vec<Action>, CreateError>)
    ensures
        r matches Err(e) ==> refusal(*ctx, *programs) == Some(e),
        r is Ok <==> refusal(*ctx, *programs) is None,
        r matches Ok(v) ==> {
            &&& v@.len() == 4
            &&& v@[0] == (Action::InitializeTokenMetadata {
                name: args.name,
                symbol: args.symbol,
                uri: args.uri,
                update_authority: ctx.authority,
            })
            &&& v@[1] == (Action::MintToReceiver { amount: 1 })
            &&& v@[2] == (Action::UpdateMintAuthority { new_authority: ctx.manager })
            &&& v@[3] matches Action::InitializeMetaList { data } && data@ == meta_list_data(
                default_metas(None),
                ctx.extra_metas_len as nat,
            )
        },
        r matches Ok(v) ==> run(fresh_mint(*ctx), v@, ctx.authority@) matches Some(m) && {
            &&& m.decimals == 0
            &&& m.supply == 1
            &&& m.holding_balance == 1
            &&& m.mint_authority == ctx.manager@
            &&& m.freeze_authority == ctx.manager@
            &&& m.extensions == mint_extensions_spec()
            &&& m.metadata == Some((args.name@, args.symbol@, args.uri@, ctx.authority@))
            &&& m.meta_list matches Some(d) && d.len() == meta_list_len(0)
        },
{
    if !(ctx.payer_signed && ctx.authority_signed && ctx.mint_signed) {
        return Err(CreateError::AuthorizationFailure);
    }
    match manager_address(&programs.program_id) {
        Some((a, _)) => {
            if !same_address(&a, &ctx.manager) {
                return Err(CreateError::AddressMismatch);
            }
        },
        None => {
            return Err(CreateError::AddressMismatch);
        },
    }
    match meta_list_address(&ctx.mint, &programs.program_id) {
        Some((a, _)) => {
            if !same_address(&a, &ctx.extra_metas_account) {
                return Err(CreateError::AddressMismatch);
            }
        },
        None => {
            return Err(CreateError::AddressMismatch);
        },
    }
    match holding_address(&ctx.receiver, &programs.token_program, &ctx.mint, &programs.associated_token_program) {
        Some((a, _)) => {
            if !same_address(&a, &ctx.mint_token_account) {
                return Err(CreateError::AddressMismatch);
            }
        },
        None => {
            return Err(CreateError::AddressMismatch);
        },
    }
    let metas = get_meta_list(None);
    let data = match encode_meta_list(&metas, ctx.extra_metas_len) {
        Ok(d) => d,
        Err(e) => {
            return Err(e);
        },
    };
    let ghost data_view = data@;
    let mut v: Vec<Action> = Vec::new();
    v.push(Action::InitializeTokenMetadata {
        name: args.name,
        symbol: args.symbol,
        uri: args.uri,
        update_authority: ctx.authority,
    });
    v.push(Action::MintToReceiver { amount: 1 });
    v.push(Action::UpdateMintAuthority { new_authority: ctx.manager });
    v.push(Action::InitializeMetaList { data });
    proof {
        lemma_creation_run(*ctx, v@, args.name@, args.symbol@, args.uri@);
    }
    Ok(v)
}

/// The four calls of a creation, run from the fresh records, issue exactly one
/// unit, embed the metadata, write the list and leave the manager minting and
/// freezing.
proof fn lemma_creation_run(c: CreateMintAccount, v: Seq<Action>, name: Seq<char>, symbol: Seq<char>, uri: Seq<char>)
    requires
        v.len() == 4,
        v[0] matches Action::InitializeTokenMetadata { name: n, symbol: y, uri: u, update_authority: a }
            && n@ == name && y@ == symbol && u@ == uri && a == c.authority,
        v[1] == (Action::MintToReceiver { amount: 1 }),
        v[2] == (Action::UpdateMintAuthority { new_authority: c.manager }),
        v[3] matches Action::InitializeMetaList { data } && data@.len() == meta_list_len(0),
    ensures
        run(fresh_mint(c), v, c.authority@) matches Some(m) && {
            &&& m.decimals == 0
            &&& m.supply == 1
            &&& m.holding_balance == 1
            &&& m.mint_authority == c.manager@
            &&& m.freeze_authority == c.manager@
            &&& m.extensions == mint_extensions_spec()
            &&& m.metadata == Some((name, symbol, uri, c.authority@))
            &&& m.meta_list matches Some(d) && d.len() == meta_list_len(0)
        },
{
    let s0 = fresh_mint(c);
    assert(s0.extensions[0] == ExtensionKind::MetadataPointer);
    let s1 = apply(s0, v[0], c.authority@).unwrap();
    let s2 = apply(s1, v[1], c.authority@).unwrap();
    let s3 = apply(s2, v[2], c.authority@).unwrap();
    let s4 = apply(s3, v[3], c.authority@).unwrap();
    let r1 = v.drop_first();
    let r2 = r1.drop_first();
    let r3 = r2.drop_first();
    let r4 = r3.drop_first();
    assert(r1[0] == v[1] && r2[0] == v[2] && r3[0] == v[3] && r4.len() == 0);
    assert(run(s4, r4, c.authority@) == Some(s4));
    assert(run(s3, r3, c.authority@) == Some(s4));
    assert(run(s2, r2, c.authority@) == Some(s4));
    assert(run(s1, r1, c.authority@) == Some(s4));
    assert(run(s0, v, c.authority@) == Some(s4));
}

} // verus!
