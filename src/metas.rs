use vstd::prelude::*;
use crate::address::Address;
use crate::error::CreateError;

verus! {

/// One account-resolution descriptor that the transfer hook consults on every
/// transfer of the asset.
#[derive(Clone, Copy, Debug)]
pub struct ExtraMeta {
    /// Whether the address is literal (0), derived or read from data.
    pub discriminator: u8,
    /// The address itself, or what it is derived from.
    pub address_config: Address,
    pub is_signer: bool,
    pub is_writable: bool,
}

/// A descriptor as plain values.
pub open spec fn meta_view(m: ExtraMeta) -> (u8, Seq<u8>, bool, bool) {
    (m.discriminator, m.address_config@, m.is_signer, m.is_writable)
}

pub open spec fn metas_view(ms: Seq<ExtraMeta>) -> Seq<(u8, Seq<u8>, bool, bool)> {
    ms.map_values(|m: ExtraMeta| meta_view(m))
}

/// The default descriptor list: with an approval account, that one account,
/// writable and not signing; without one, nothing.
pub open spec fn default_metas(approve: Option<Seq<u8>>) -> Seq<(u8, Seq<u8>, bool, bool)> {
    match approve {
        Some(a) => seq![(0u8, a, false, true)],
        None => seq![],
    }
}

/// The descriptors of the transfer-hook account list.
pub fn get_meta_list(approve_account: Option<Address>) -> (r: Vec<ExtraMeta>)
    ensures
        metas_view(r@) == default_metas(
            match approve_account {
                Some(a) => Some(a@),
                None => None,
            },
        ),
{
    let mut r: Vec<ExtraMeta> = Vec::new();
    match approve_account {
        Some(a) => {
            r.push(ExtraMeta { discriminator: 0, address_config: a, is_signer: false, is_writable: true });
        },
        None => {},
    }
    assert(metas_view(r@) =~= default_metas(
        match approve_account {
            Some(a) => Some(a@),
            None => None,
        },
    ));
    r
}

/// Bytes in the entry header (type and length) and in the count of a list.
pub open spec fn meta_list_len(n: nat) -> nat {
    16 + 35 * n
}

/// Whether a list of `n` descriptors can be encoded at all: its entry length
/// must fit the 32-bit length field.
pub open spec fn meta_list_fits(n: nat) -> bool {
    4 + 35 * n <= u32::MAX
}

/// Relies on spl_tlv_account_resolution's `ExtraAccountMetaList::size_of`: an
/// 8-byte type and 4-byte length, a 4-byte count, 35 bytes per descriptor; it
/// fails when the slice length overflows and saturates the header's addition.
#[verifier::external_body]
fn tlv_size_of(n: usize) -> (r: Option<usize>)
    ensures
        r == (if 35 * n + 4 <= usize::MAX {
            Some(if 35 * n + 16 <= usize::MAX { (35 * n + 16) as usize } else { usize::MAX })
        } else {
            None::<usize>
        }),
{
    spl_tlv_account_resolution::state::ExtraAccountMetaList::size_of(n).ok()
}

/// The bytes of a list as encoded for the transfer-hook execute instruction
/// into a zeroed buffer of `len` bytes.
pub uninterp spec fn meta_list_data(metas: Seq<(u8, Seq<u8>, bool, bool)>, len: nat) -> Seq<u8>;

/// Relies on spl_tlv_account_resolution's `ExtraAccountMetaList::init` for the
/// transfer hook's `ExecuteInstruction`, on a zeroed buffer of `len` bytes: it
/// succeeds when the buffer holds the entry and the entry length fits 32 bits.
#[verifier::external_body]
fn tlv_init(metas: &Vec<ExtraMeta>, len: usize) -> (r: Option<Vec<u8>>)
    ensures
        r.is_some() <==> (35 * metas@.len() + 16 <= len && meta_list_fits(metas@.len())),
        r matches Some(d) ==> d@ == meta_list_data(metas_view(metas@), len as nat) && d@.len() == len,
{
    let list: Vec<spl_tlv_account_resolution::account::ExtraAccountMeta> = metas.iter().map(
        |m| spl_tlv_account_resolution::account::ExtraAccountMeta {
            discriminator: m.discriminator,
            address_config: m.address_config,
            is_signer: m.is_signer.into(),
            is_writable: m.is_writable.into(),
        },
    ).collect();
    let mut data = vec![0u8; len];
    spl_tlv_account_resolution::state::ExtraAccountMetaList::init::<
        spl_transfer_hook_interface::instruction::ExecuteInstruction,
    >(&mut data, &list).ok()?;
    Some(data)
}

/// The exact size of the buffer that holds a list of `n` descriptors.
pub fn get_meta_list_size(n: usize) -> (r: Option<usize>)
    ensures
        r.is_some() <==> meta_list_len(n as nat) <= usize::MAX,
        r matches Some(v) ==> v == meta_list_len(n as nat),
{
    let s = tlv_size_of(n);
    match s {
        Some(v) => {
            if v == usize::MAX {
                None
            } else {
                Some(v)
            }
        },
        None => None,
    }
}

/// Encodes `metas` into a buffer allocated with `buffer_len` bytes, which must
/// be exactly the list's size.
pub fn encode_meta_list(metas: &Vec<ExtraMeta>, buffer_len: usize) -> (r: Result<Vec<u8>, CreateError>)
    ensures
        r.is_ok() <==> (buffer_len == meta_list_len(metas@.len()) && meta_list_fits(metas@.len())),
        r matches Ok(d) ==> d@ == meta_list_data(metas_view(metas@), buffer_len as nat) && d@.len() == buffer_len,
        r matches Err(e) ==> e == CreateError::SizeMismatch,
{
    let size = get_meta_list_size(metas.len());
    match size {
        Some(v) => {
            if v != buffer_len {
                return Err(CreateError::SizeMismatch);
            }
            match tlv_init(metas, buffer_len) {
                Some(d) => Ok(d),
                None => Err(CreateError::SizeMismatch),
            }
        },
        None => Err(CreateError::SizeMismatch),
    }
}

} // verus!
