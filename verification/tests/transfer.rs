use omniflow_rwa::{
    complete_cross_chain_transfer, initiate_cross_chain_transfer, AssetType,
    CompleteCrossChainTransfer, CrossChainEventType, CrossChainTransferData, ErrorCode,
    InitiateCrossChainTransfer, KYCLevel, Pubkey, RWAAsset, Registry, TokenInstruction,
};

fn key(n: u8) -> Pubkey {
    Pubkey { bytes: [n; 32] }
}

fn registry(bridge: Option<Pubkey>) -> Registry {
    Registry {
        authority: key(1),
        total_assets: 1,
        wormhole_bridge: bridge,
        layerzero_endpoint: None,
        paused: false,
        bump: 254,
    }
}

fn asset(total_supply: u64, circulating_supply: u64) -> RWAAsset {
    RWAAsset {
        asset_id: 1,
        asset_type: AssetType::RealEstate,
        owner: key(7),
        metadata_uri: "https://example.com/metadata/1".to_string(),
        kyc_level: KYCLevel::Enhanced,
        total_value: 1_000_000,
        total_supply,
        circulating_supply,
        is_active: true,
        created_at: 1_700_000_000,
        chain_id: 1,
        bump: 253,
    }
}

fn source(asset: RWAAsset, bridge: Option<Pubkey>) -> InitiateCrossChainTransfer {
    InitiateCrossChainTransfer {
        asset,
        registry: registry(bridge),
        mint: key(20),
        from_token_account: key(21),
        owner: key(30),
        unix_timestamp: 1_700_000_300,
    }
}

fn destination(asset: RWAAsset) -> CompleteCrossChainTransfer {
    CompleteCrossChainTransfer {
        asset,
        mint: key(20),
        to_token_account: key(23),
        recipient: key(24),
        payer: key(25),
        unix_timestamp: 1_700_000_400,
    }
}

fn expected_payload() -> Vec<u8> {
    let uri = b"https://example.com/metadata/1";
    let mut bytes = Vec::new();
    bytes.extend_from_slice(&[1, 0, 0, 0, 0, 0, 0, 0]);
    bytes.extend_from_slice(&[0xe8, 0x03, 0, 0, 0, 0, 0, 0]);
    bytes.extend_from_slice(&[1u8; 32]);
    bytes.extend_from_slice(&[1, 0]);
    bytes.push(2);
    bytes.extend_from_slice(&[30, 0, 0, 0]);
    bytes.extend_from_slice(uri);
    bytes
}

#[test]
fn test_cross_chain_transfer_initiation() {
    let asset_id = 1u64;
    let mut ctx = source(asset(100_000, 5_000), Some(key(2)));

    let out = initiate_cross_chain_transfer(&mut ctx, asset_id, 1000, 137, [1u8; 32]).unwrap();

    assert_eq!(ctx.asset.circulating_supply, 4_000);
    assert_eq!(ctx.asset.total_supply, 100_000);
    assert_eq!(
        out.burn,
        TokenInstruction::Burn { mint: key(20), from: key(21), authority: key(30), amount: 1000 }
    );
    assert_eq!(out.initiated.asset_id, 1);
    assert_eq!(out.initiated.amount, 1000);
    assert_eq!(out.initiated.source_chain, 1);
    assert_eq!(out.initiated.target_chain, 137);
    assert_eq!(out.initiated.sender, key(30));
    assert_eq!(out.initiated.recipient, [1u8; 32]);
    assert_eq!(out.initiated.timestamp, 1_700_000_300);
    assert_eq!(out.bridge_message.event_type, CrossChainEventType::TransferInitiated);
    assert_eq!(out.bridge_message.asset_id, 1);
    assert_eq!(out.bridge_message.source_chain, 1);
    assert_eq!(out.bridge_message.target_chain, 137);
    assert_eq!(out.bridge_message.bridge_address, key(2));
    assert_eq!(out.bridge_message.data, expected_payload());
}

#[test]
fn a_transfer_moves_supply_from_one_chain_to_the_other() {
    let mut here = source(asset(100_000, 5_000), Some(key(2)));
    let mut there = destination(asset(100_000, 200));
    let combined = here.asset.circulating_supply + there.asset.circulating_supply;

    initiate_cross_chain_transfer(&mut here, 1, 1000, 137, [9u8; 32]).unwrap();
    assert_eq!(here.asset.circulating_supply, 4_000);

    let out = complete_cross_chain_transfer(&mut there, 1, 1000, 1, [0xab; 32]).unwrap();
    assert_eq!(there.asset.circulating_supply, 1_200);
    assert_eq!(here.asset.circulating_supply + there.asset.circulating_supply, combined);

    assert_eq!(out.completed.asset_id, 1);
    assert_eq!(out.completed.amount, 1000);
    assert_eq!(out.completed.source_chain, 1);
    assert_eq!(out.completed.target_chain, 1);
    assert_eq!(out.completed.recipient, key(24));
    assert_eq!(out.completed.transfer_hash, [0xab; 32]);
    assert_eq!(out.completed.timestamp, 1_700_000_400);
    match out.mint_to {
        TokenInstruction::MintTo { mint, to, authority, amount } => {
            assert_eq!(mint, key(20));
            assert_eq!(to, key(23));
            assert_eq!(amount, 1000);
            assert_eq!(authority.namespace, b"asset".to_vec());
            assert_eq!(authority.key, vec![1, 0, 0, 0, 0, 0, 0, 0]);
            assert_eq!(authority.bump, 253);
        }
        TokenInstruction::Burn { .. } => panic!("a mint was expected"),
    }
}

#[test]
fn the_same_hash_completes_twice() {
    // Nothing here remembers a hash: telling a repeated transfer from a new
    // one is the bridge's part.
    let mut there = destination(asset(100_000, 0));
    complete_cross_chain_transfer(&mut there, 1, 1000, 137, [5; 32]).unwrap();
    complete_cross_chain_transfer(&mut there, 1, 1000, 137, [5; 32]).unwrap();
    assert_eq!(there.asset.circulating_supply, 2_000);
}

#[test]
fn without_a_bridge_the_message_goes_to_the_zero_address() {
    let mut ctx = source(asset(100_000, 5_000), None);
    let out = initiate_cross_chain_transfer(&mut ctx, 1, 1, 10, [0u8; 32]).unwrap();
    assert_eq!(out.bridge_message.bridge_address, Pubkey { bytes: [0u8; 32] });
    assert_eq!(out.bridge_message.bridge_address, Pubkey::default());
}

#[test]
fn sending_the_whole_supply_leaves_nothing() {
    let mut ctx = source(asset(100_000, 5_000), None);
    initiate_cross_chain_transfer(&mut ctx, 1, 5_000, 10, [0u8; 32]).unwrap();
    assert_eq!(ctx.asset.circulating_supply, 0);
}

#[test]
fn sending_more_than_circulates_is_rejected() {
    let mut ctx = source(asset(100_000, 5_000), None);
    let before = ctx.clone();
    assert_eq!(
        initiate_cross_chain_transfer(&mut ctx, 1, 5_001, 10, [0u8; 32]),
        Err(ErrorCode::InsufficientBalance)
    );
    assert_eq!(ctx, before);
}

#[test]
fn sending_from_an_inactive_asset_is_rejected() {
    let mut inactive = asset(100_000, 5_000);
    inactive.is_active = false;
    let mut ctx = source(inactive, None);
    let before = ctx.clone();
    assert_eq!(
        initiate_cross_chain_transfer(&mut ctx, 1, 1, 10, [0u8; 32]),
        Err(ErrorCode::AssetInactive)
    );
    assert_eq!(ctx, before);
}

#[test]
fn sending_under_another_asset_id_is_rejected() {
    let mut ctx = source(asset(100_000, 5_000), None);
    assert_eq!(
        initiate_cross_chain_transfer(&mut ctx, 3, 1, 10, [0u8; 32]),
        Err(ErrorCode::AssetMismatch)
    );
    assert_eq!(ctx.asset.circulating_supply, 5_000);
}

#[test]
fn receiving_on_an_inactive_asset_is_rejected() {
    let mut inactive = asset(100_000, 5_000);
    inactive.is_active = false;
    let mut ctx = destination(inactive);
    let before = ctx.clone();
    assert_eq!(
        complete_cross_chain_transfer(&mut ctx, 1, 1, 10, [0u8; 32]),
        Err(ErrorCode::AssetInactive)
    );
    assert_eq!(ctx, before);
}

#[test]
fn receiving_over_the_whole_supply_is_rejected() {
    let mut ctx = destination(asset(100_000, 99_500));
    let before = ctx.clone();
    assert_eq!(
        complete_cross_chain_transfer(&mut ctx, 1, 501, 10, [0u8; 32]),
        Err(ErrorCode::ExceedsMaxSupply)
    );
    assert_eq!(ctx, before);
    assert!(complete_cross_chain_transfer(&mut ctx, 1, 500, 10, [0u8; 32]).is_ok());
    assert_eq!(ctx.asset.circulating_supply, 100_000);
}

#[test]
fn receiving_an_amount_that_overflows_is_rejected() {
    let mut ctx = destination(asset(u64::MAX, 2));
    assert_eq!(
        complete_cross_chain_transfer(&mut ctx, 1, u64::MAX, 10, [0u8; 32]),
        Err(ErrorCode::ExceedsMaxSupply)
    );
    assert_eq!(ctx.asset.circulating_supply, 2);
}

#[test]
fn receiving_under_another_asset_id_is_rejected() {
    let mut ctx = destination(asset(100_000, 0));
    assert_eq!(
        complete_cross_chain_transfer(&mut ctx, 2, 1, 10, [0u8; 32]),
        Err(ErrorCode::AssetMismatch)
    );
    assert_eq!(ctx.asset.circulating_supply, 0);
}

#[test]
fn transfer_data_is_encoded_field_by_field() {
    let data = CrossChainTransferData {
        asset_id: 1,
        amount: 1000,
        recipient: [1u8; 32],
        source_chain: 1,
        kyc_level: KYCLevel::Enhanced,
        metadata_uri: "https://example.com/metadata/1".to_string(),
    };
    let bytes = data.encode().unwrap();
    assert_eq!(bytes, expected_payload());
    assert_eq!(bytes.len(), 8 + 8 + 32 + 2 + 1 + 4 + 30);
}

#[test]
fn transfer_data_counts_the_bytes_of_the_uri() {
    let data = CrossChainTransferData {
        asset_id: u64::MAX,
        amount: 0x0102_0304_0506_0708,
        recipient: [0xff; 32],
        source_chain: 0x1234,
        kyc_level: KYCLevel::Institutional,
        metadata_uri: "é".to_string(),
    };
    let bytes = data.encode().unwrap();
    let mut expected = vec![0xffu8; 8];
    expected.extend_from_slice(&[8, 7, 6, 5, 4, 3, 2, 1]);
    expected.extend_from_slice(&[0xff; 32]);
    expected.extend_from_slice(&[0x34, 0x12]);
    expected.push(3);
    expected.extend_from_slice(&[2, 0, 0, 0]);
    expected.extend_from_slice(&[0xc3, 0xa9]);
    assert_eq!(bytes, expected);
}

#[test]
fn each_level_has_its_byte() {
    assert_eq!(KYCLevel::Unverified.index(), 0);
    assert_eq!(KYCLevel::Basic.index(), 1);
    assert_eq!(KYCLevel::Enhanced.index(), 2);
    assert_eq!(KYCLevel::Institutional.index(), 3);
}
