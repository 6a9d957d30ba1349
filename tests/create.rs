use anchor_lang::prelude::Pubkey;
use wen_new_standard::address::{
    address_bytes, holding_address, manager_address, meta_list_address, same_address,
};
use wen_new_standard::create::{
    handler, mint_extensions, mint_layout, Action, CreateMintAccount, CreateMintAccountArgs, ExtensionKind,
    Programs,
};
use wen_new_standard::error::CreateError;
use wen_new_standard::metas::{encode_meta_list, get_meta_list, get_meta_list_size, ExtraMeta};
use wen_new_standard::reconcile::lamports_to_minimum_balance;

fn programs() -> Programs {
    Programs {
        program_id: [7u8; 32],
        token_program: anchor_spl::token_2022::ID.to_bytes(),
        associated_token_program: anchor_spl::associated_token::ID.to_bytes(),
    }
}

fn pda(seeds: &[&[u8]], program: [u8; 32]) -> [u8; 32] {
    Pubkey::find_program_address(seeds, &Pubkey::new_from_array(program)).0.to_bytes()
}

fn accounts() -> CreateMintAccount {
    let p = programs();
    let receiver = [3u8; 32];
    let mint = [4u8; 32];
    CreateMintAccount {
        payer: [1u8; 32],
        payer_signed: true,
        authority: [2u8; 32],
        authority_signed: true,
        receiver,
        mint,
        mint_signed: true,
        mint_token_account: pda(&[&receiver, &p.token_program, &mint], p.associated_token_program),
        extra_metas_account: pda(&[b"extra-account-metas", &mint], p.program_id),
        extra_metas_len: 16,
        manager: pda(&[b"manager"], p.program_id),
    }
}

fn args() -> CreateMintAccountArgs {
    CreateMintAccountArgs {
        name: "Asset #1".to_string(),
        symbol: "AST".to_string(),
        uri: "https://example/1.json".to_string(),
    }
}

#[test]
fn end_to_end_creation() {
    let ctx = accounts();
    let plan = match handler(&ctx, &programs(), args()) {
        Ok(v) => v,
        Err(e) => panic!("refused: {:?}", e),
    };
    assert_eq!(plan.len(), 4);
    match &plan[0] {
        Action::InitializeTokenMetadata { name, symbol, uri, update_authority } => {
            assert_eq!(name, "Asset #1");
            assert_eq!(symbol, "AST");
            assert_eq!(uri, "https://example/1.json");
            assert_eq!(*update_authority, ctx.authority);
        }
        _ => panic!("metadata first"),
    }
    assert!(matches!(plan[1], Action::MintToReceiver { amount: 1 }));
    match &plan[2] {
        Action::UpdateMintAuthority { new_authority } => assert_eq!(*new_authority, ctx.manager),
        _ => panic!("handoff third"),
    }
    match &plan[3] {
        Action::InitializeMetaList { data } => {
            assert_eq!(data.len(), 16);
            assert_ne!(&data[0..8], &[0u8; 8]);
            assert_eq!(&data[8..12], &4u32.to_le_bytes());
            assert_eq!(&data[12..16], &0u32.to_le_bytes());
        }
        _ => panic!("account list last"),
    }
    let exts = mint_extensions();
    assert_eq!(
        exts,
        vec![
            ExtensionKind::MetadataPointer,
            ExtensionKind::GroupMemberPointer,
            ExtensionKind::TransferHook,
            ExtensionKind::MintCloseAuthority,
        ]
    );
    let top_up = lamports_to_minimum_balance(1_000, 5_000);
    assert!(1_000 + top_up >= 5_000);
}

#[test]
fn metadata_precedes_handoff() {
    let plan = handler(&accounts(), &programs(), args()).unwrap();
    let meta = plan.iter().position(|a| matches!(a, Action::InitializeTokenMetadata { .. }));
    let hand = plan.iter().position(|a| matches!(a, Action::UpdateMintAuthority { .. }));
    let mint = plan.iter().position(|a| matches!(a, Action::MintToReceiver { .. }));
    assert!(meta.unwrap() < hand.unwrap());
    assert!(mint.unwrap() < hand.unwrap());
}

#[test]
fn wrong_manager_is_address_mismatch() {
    let mut ctx = accounts();
    ctx.manager = [9u8; 32];
    assert_eq!(handler(&ctx, &programs(), args()).err(), Some(CreateError::AddressMismatch));
}

#[test]
fn wrong_meta_list_account_is_address_mismatch() {
    let mut ctx = accounts();
    ctx.extra_metas_account = pda(&[b"extra-meta-list", &ctx.mint], programs().program_id);
    assert_eq!(handler(&ctx, &programs(), args()).err(), Some(CreateError::AddressMismatch));
}

#[test]
fn wrong_holding_record_is_address_mismatch() {
    let mut ctx = accounts();
    ctx.mint_token_account = ctx.receiver;
    assert_eq!(handler(&ctx, &programs(), args()).err(), Some(CreateError::AddressMismatch));
}

#[test]
fn undersized_buffer_is_size_mismatch() {
    let mut ctx = accounts();
    ctx.extra_metas_len = 15;
    assert_eq!(handler(&ctx, &programs(), args()).err(), Some(CreateError::SizeMismatch));
    ctx.extra_metas_len = 0;
    assert_eq!(handler(&ctx, &programs(), args()).err(), Some(CreateError::SizeMismatch));
}

#[test]
fn oversized_buffer_is_size_mismatch() {
    let mut ctx = accounts();
    ctx.extra_metas_len = 17;
    assert_eq!(handler(&ctx, &programs(), args()).err(), Some(CreateError::SizeMismatch));
}

#[test]
fn missing_signer_is_authorization_failure() {
    let mut ctx = accounts();
    ctx.authority_signed = false;
    assert_eq!(handler(&ctx, &programs(), args()).err(), Some(CreateError::AuthorizationFailure));
    let mut ctx = accounts();
    ctx.mint_signed = false;
    ctx.manager = [9u8; 32];
    assert_eq!(handler(&ctx, &programs(), args()).err(), Some(CreateError::AuthorizationFailure));
}

#[test]
fn derivation_is_deterministic() {
    let p = programs();
    let mint = [4u8; 32];
    let first = meta_list_address(&mint, &p.program_id).unwrap();
    let second = meta_list_address(&mint, &p.program_id).unwrap();
    assert_eq!(first, second);
    let expected = Pubkey::find_program_address(
        &[b"extra-account-metas", &mint],
        &Pubkey::new_from_array(p.program_id),
    );
    assert_eq!(first, (expected.0.to_bytes(), expected.1));
    assert_eq!(manager_address(&p.program_id), manager_address(&p.program_id));
    let other = meta_list_address(&[5u8; 32], &p.program_id).unwrap();
    assert_ne!(first.0, other.0);
}

#[test]
fn holding_record_matches_associated_token_address() {
    let p = programs();
    let (a, _) = holding_address(&[3u8; 32], &p.token_program, &[4u8; 32], &p.associated_token_program).unwrap();
    let expected = anchor_spl::associated_token::get_associated_token_address_with_program_id(
        &Pubkey::new_from_array([3u8; 32]),
        &Pubkey::new_from_array([4u8; 32]),
        &anchor_spl::token_2022::ID,
    );
    assert_eq!(a, expected.to_bytes());
}

#[test]
fn reconcile_is_idempotent() {
    let balance: u64 = 1_000;
    let minimum: u64 = 5_000;
    let first = lamports_to_minimum_balance(balance, minimum);
    assert_eq!(first, 4_000);
    let second = lamports_to_minimum_balance(balance + first, minimum);
    assert_eq!(second, 0);
    assert_eq!(lamports_to_minimum_balance(6_000, minimum), 0);
    assert_eq!(lamports_to_minimum_balance(5_000, minimum), 0);
}

#[test]
fn meta_list_sizes() {
    assert_eq!(get_meta_list_size(0), Some(16));
    assert_eq!(get_meta_list_size(1), Some(51));
    assert_eq!(get_meta_list_size(3), Some(121));
    assert_eq!(get_meta_list_size(usize::MAX), None);
}

#[test]
fn default_meta_list() {
    assert_eq!(get_meta_list(None).len(), 0);
    let l = get_meta_list(Some([6u8; 32]));
    assert_eq!(l.len(), 1);
    assert_eq!(l[0].discriminator, 0);
    assert_eq!(l[0].address_config, [6u8; 32]);
    assert!(!l[0].is_signer);
    assert!(l[0].is_writable);
}

#[test]
fn encode_one_descriptor() {
    let l = vec![ExtraMeta { discriminator: 0, address_config: [6u8; 32], is_signer: false, is_writable: true }];
    let d = encode_meta_list(&l, 51).unwrap();
    assert_eq!(d.len(), 51);
    assert_eq!(&d[8..12], &39u32.to_le_bytes());
    assert_eq!(&d[12..16], &1u32.to_le_bytes());
    assert_eq!(d[16], 0);
    assert_eq!(&d[17..49], &[6u8; 32]);
    assert_eq!(d[49], 0);
    assert_eq!(d[50], 1);
    assert_eq!(encode_meta_list(&l, 50).err(), Some(CreateError::SizeMismatch));
    assert_eq!(encode_meta_list(&l, 16).err(), Some(CreateError::SizeMismatch));
}

#[test]
fn address_helpers() {
    let a = [1u8; 32];
    let mut b = a;
    assert!(same_address(&a, &b));
    b[31] = 2;
    assert!(!same_address(&a, &b));
    assert_eq!(address_bytes(&b)[31], 2);
    assert_eq!(address_bytes(&b).len(), 32);
}

#[test]
fn mint_layout_of_creation() {
    let ctx = accounts();
    let l = mint_layout(&ctx).unwrap();
    assert_eq!(l.decimals, 0);
    assert_eq!(l.mint_authority, ctx.authority);
    assert_eq!(l.freeze_authority, ctx.manager);
    assert_eq!(l.metadata_pointer_authority, ctx.authority);
    assert_eq!(l.metadata_address, ctx.mint);
    assert_eq!(l.group_member_pointer_authority, ctx.authority);
    assert_eq!(l.transfer_hook_authority, ctx.authority);
    assert_eq!(l.close_authority, ctx.manager);
    assert_eq!(l.extensions.len(), 4);
    assert_eq!(l.account_len, 406);
}

#[test]
fn root_reexports() {
    let ctx: wen_new_standard::CreateMintAccount = accounts();
    let a: wen_new_standard::CreateMintAccountArgs = args();
    assert!(wen_new_standard::handler(&ctx, &programs(), a).is_ok());
}
