use omniflow_rwa::{
    initialize_registry, mint_rwa_tokens, register_rwa_asset, set_registry_pause,
    update_asset_metadata, AssetType, CrossChainEventType, ErrorCode, InitializeRegistry,
    KYCLevel, MintRWATokens, Pubkey, RWAAsset, RegisterRWAAsset, Registry, SetRegistryPause,
    TokenInstruction, UpdateAssetMetadata,
};

fn key(n: u8) -> Pubkey {
    Pubkey { bytes: [n; 32] }
}

fn registry(authority: Pubkey) -> Registry {
    Registry {
        authority,
        total_assets: 0,
        wormhole_bridge: None,
        layerzero_endpoint: None,
        paused: false,
        bump: 254,
    }
}

fn asset(owner: Pubkey, total_supply: u64, circulating_supply: u64) -> RWAAsset {
    RWAAsset {
        asset_id: 1,
        asset_type: AssetType::RealEstate,
        owner,
        metadata_uri: "https://example.com/metadata/1".to_string(),
        kyc_level: KYCLevel::Enhanced,
        total_value: 1_000_000,
        total_supply,
        circulating_supply,
        is_active: true,
        created_at: 1_700_000_000,
        chain_id: 1,
        bump: 253,
    }
}

fn register_ctx(registry: Registry, owner: Pubkey) -> RegisterRWAAsset {
    RegisterRWAAsset { asset: None, registry, owner, bump: 253, unix_timestamp: 1_700_000_000 }
}

fn mint_ctx(asset: RWAAsset, owner: Pubkey) -> MintRWATokens {
    MintRWATokens {
        asset,
        mint: key(20),
        token_account: key(21),
        recipient: key(22),
        owner,
        unix_timestamp: 1_700_000_100,
    }
}

#[test]
fn test_initialize_registry() {
    let authority = key(1);
    let wormhole_bridge = Some(key(2));
    let layerzero_endpoint = Some(key(3));
    let mut ctx = InitializeRegistry { registry: None, payer: key(9), bump: 254 };

    let event =
        initialize_registry(&mut ctx, authority, wormhole_bridge, layerzero_endpoint).unwrap();

    let registry_data = ctx.registry.unwrap();
    assert_eq!(registry_data.authority, authority);
    assert_eq!(registry_data.total_assets, 0);
    assert_eq!(registry_data.wormhole_bridge, wormhole_bridge);
    assert_eq!(registry_data.layerzero_endpoint, layerzero_endpoint);
    assert!(!registry_data.paused);
    assert_eq!(registry_data.bump, 254);
    assert_eq!(event.authority, authority);
    assert_eq!(event.wormhole_bridge, wormhole_bridge);
    assert_eq!(event.layerzero_endpoint, layerzero_endpoint);
}

#[test]
fn initialize_registry_is_once_only() {
    let mut ctx = InitializeRegistry { registry: None, payer: key(9), bump: 254 };
    initialize_registry(&mut ctx, key(1), None, None).unwrap();
    let before = ctx.clone();
    assert_eq!(
        initialize_registry(&mut ctx, key(5), Some(key(6)), None),
        Err(ErrorCode::AlreadyInitialized)
    );
    assert_eq!(ctx, before);
}

#[test]
fn test_register_rwa_asset() {
    let payer = key(7);
    let mut ctx = register_ctx(registry(payer), payer);
    let asset_id = 1u64;

    let out = register_rwa_asset(
        &mut ctx,
        asset_id,
        AssetType::RealEstate,
        "https://example.com/metadata/1".to_string(),
        KYCLevel::Enhanced,
        1_000_000,
        100_000,
        1,
    )
    .unwrap();

    let asset_data = ctx.asset.clone().unwrap();
    assert_eq!(asset_data.asset_id, asset_id);
    assert_eq!(asset_data.asset_type, AssetType::RealEstate);
    assert_eq!(asset_data.owner, payer);
    assert_eq!(asset_data.kyc_level, KYCLevel::Enhanced);
    assert_eq!(asset_data.total_value, 1_000_000);
    assert_eq!(asset_data.total_supply, 100_000);
    assert_eq!(asset_data.circulating_supply, 0);
    assert!(asset_data.is_active);
    assert_eq!(asset_data.chain_id, 1);
    assert_eq!(asset_data.metadata_uri, "https://example.com/metadata/1");
    assert_eq!(asset_data.created_at, 1_700_000_000);
    assert_eq!(asset_data.bump, 253);
    assert_eq!(ctx.registry.total_assets, 1);

    assert_eq!(out.registered.asset_id, 1);
    assert_eq!(out.registered.owner, payer);
    assert_eq!(out.registered.asset_type, AssetType::RealEstate);
    assert_eq!(out.registered.metadata_uri, "https://example.com/metadata/1");
    assert_eq!(out.registered.kyc_level, KYCLevel::Enhanced);
    assert_eq!(out.registered.total_value, 1_000_000);
    assert_eq!(out.registered.total_supply, 100_000);
    assert_eq!(out.registered.chain_id, 1);
    assert_eq!(out.registered.timestamp, 1_700_000_000);
    assert_eq!(out.bridge_notice, None);
}

#[test]
fn test_cross_chain_event_emission() {
    let payer = key(7);
    let mut with_bridge = registry(payer);
    with_bridge.wormhole_bridge = Some(key(2));
    let mut ctx = register_ctx(with_bridge, payer);

    let out = register_rwa_asset(
        &mut ctx,
        0x0102_0304_0506_0708,
        AssetType::Artwork,
        "https://example.com/metadata/1".to_string(),
        KYCLevel::Basic,
        10,
        20,
        137,
    )
    .unwrap();

    let notice = out.bridge_notice.unwrap();
    assert_eq!(notice.event_type, CrossChainEventType::AssetRegistered);
    assert_eq!(notice.asset_id, 0x0102_0304_0506_0708);
    assert_eq!(notice.source_chain, 1);
    assert_eq!(notice.target_chain, 137);
    assert_eq!(notice.bridge_address, key(2));
    assert_eq!(notice.data, vec![8u8, 7, 6, 5, 4, 3, 2, 1]);
}

#[test]
fn test_multiple_asset_registration() {
    let payer = key(7);
    let mut shared = registry(payer);
    for i in 1..=10 {
        let asset_id = i as u64;
        let mut ctx = register_ctx(shared, payer);
        register_rwa_asset(
            &mut ctx,
            asset_id,
            AssetType::Commodities,
            format!("https://example.com/metadata/{}", i),
            KYCLevel::Basic,
            1_000,
            500,
            1,
        )
        .unwrap();
        let registered = ctx.asset.unwrap();
        assert_eq!(registered.asset_id, asset_id);
        assert_eq!(registered.circulating_supply, 0);
        shared = ctx.registry;
        assert_eq!(shared.total_assets, asset_id);
    }
    assert_eq!(shared.total_assets, 10);
}

#[test]
fn register_rejects_a_reused_asset_id() {
    let payer = key(7);
    let mut ctx = register_ctx(registry(payer), payer);
    register_rwa_asset(
        &mut ctx,
        1,
        AssetType::RealEstate,
        "https://example.com/metadata/1".to_string(),
        KYCLevel::Enhanced,
        1_000_000,
        100_000,
        1,
    )
    .unwrap();
    let before = ctx.clone();

    let again = register_rwa_asset(
        &mut ctx,
        1,
        AssetType::Other,
        "https://example.com/other".to_string(),
        KYCLevel::Unverified,
        1,
        1,
        2,
    );

    assert_eq!(again, Err(ErrorCode::AlreadyInitialized));
    assert_eq!(ctx, before);
}

#[test]
fn register_on_a_paused_registry_is_rejected() {
    let payer = key(7);
    let mut paused = registry(payer);
    paused.paused = true;
    let mut ctx = register_ctx(paused, payer);
    let before = ctx.clone();

    let res = register_rwa_asset(
        &mut ctx,
        1,
        AssetType::RealEstate,
        "x".repeat(300),
        KYCLevel::Enhanced,
        1,
        1,
        1,
    );

    assert_eq!(res, Err(ErrorCode::RegistryPaused));
    assert_eq!(ctx, before);
}

#[test]
fn register_accepts_a_uri_of_200_bytes_and_rejects_201() {
    let payer = key(7);
    let mut ctx = register_ctx(registry(payer), payer);
    let res = register_rwa_asset(
        &mut ctx,
        1,
        AssetType::RealEstate,
        "a".repeat(201),
        KYCLevel::Enhanced,
        1,
        1,
        1,
    );
    assert_eq!(res, Err(ErrorCode::MetadataUriTooLong));
    assert_eq!(ctx.asset, None);
    assert_eq!(ctx.registry.total_assets, 0);

    let res = register_rwa_asset(
        &mut ctx,
        1,
        AssetType::RealEstate,
        "a".repeat(200),
        KYCLevel::Enhanced,
        1,
        1,
        1,
    );
    assert!(res.is_ok());
    assert_eq!(ctx.asset.unwrap().metadata_uri.len(), 200);
}

#[test]
fn register_measures_the_uri_in_bytes() {
    let payer = key(7);
    let mut ctx = register_ctx(registry(payer), payer);
    // 101 letters of two bytes each: 101 characters, 202 bytes.
    let uri = "é".repeat(101);
    let res =
        register_rwa_asset(&mut ctx, 1, AssetType::Other, uri, KYCLevel::Basic, 1, 1, 1);
    assert_eq!(res, Err(ErrorCode::MetadataUriTooLong));
}

#[test]
fn register_stops_at_the_end_of_the_counter() {
    let payer = key(7);
    let mut full = registry(payer);
    full.total_assets = u64::MAX;
    let mut ctx = register_ctx(full, payer);
    let before = ctx.clone();
    let res = register_rwa_asset(
        &mut ctx,
        1,
        AssetType::RealEstate,
        "uri".to_string(),
        KYCLevel::Enhanced,
        1,
        1,
        1,
    );
    assert_eq!(res, Err(ErrorCode::ArithmeticOverflow));
    assert_eq!(ctx, before);
}

#[test]
fn mint_raises_the_circulating_supply() {
    let owner = key(7);
    let mut ctx = mint_ctx(asset(owner, 100_000, 0), owner);

    let out = mint_rwa_tokens(&mut ctx, 1, 40_000).unwrap();

    assert_eq!(ctx.asset.circulating_supply, 40_000);
    assert_eq!(ctx.asset.total_supply, 100_000);
    assert_eq!(out.minted.asset_id, 1);
    assert_eq!(out.minted.recipient, key(22));
    assert_eq!(out.minted.amount, 40_000);
    assert_eq!(out.minted.timestamp, 1_700_000_100);
    match out.mint_to {
        TokenInstruction::MintTo { mint, to, authority, amount } => {
            assert_eq!(mint, key(20));
            assert_eq!(to, key(21));
            assert_eq!(amount, 40_000);
            assert_eq!(authority.namespace, b"asset".to_vec());
            assert_eq!(authority.key, 1u64.to_le_bytes().to_vec());
            assert_eq!(authority.bump, 253);
        }
        TokenInstruction::Burn { .. } => panic!("a mint was expected"),
    }
}

#[test]
fn mint_up_to_the_whole_supply_and_not_beyond() {
    let owner = key(7);
    let mut ctx = mint_ctx(asset(owner, 100, 60), owner);
    assert!(mint_rwa_tokens(&mut ctx, 1, 40).is_ok());
    assert_eq!(ctx.asset.circulating_supply, 100);

    let before = ctx.clone();
    assert_eq!(mint_rwa_tokens(&mut ctx, 1, 1), Err(ErrorCode::ExceedsMaxSupply));
    assert_eq!(ctx, before);
    assert_eq!(ctx.asset.circulating_supply, 100);
}

#[test]
fn mint_over_the_supply_leaves_the_supply_unchanged() {
    let owner = key(7);
    let mut ctx = mint_ctx(asset(owner, 100_000, 99_000), owner);
    assert_eq!(mint_rwa_tokens(&mut ctx, 1, 1_001), Err(ErrorCode::ExceedsMaxSupply));
    assert_eq!(ctx.asset.circulating_supply, 99_000);
}

#[test]
fn mint_of_an_amount_that_overflows_is_rejected() {
    let owner = key(7);
    let mut ctx = mint_ctx(asset(owner, u64::MAX, 5), owner);
    assert_eq!(mint_rwa_tokens(&mut ctx, 1, u64::MAX), Err(ErrorCode::ExceedsMaxSupply));
    assert_eq!(ctx.asset.circulating_supply, 5);
}

#[test]
fn mint_of_nothing_is_accepted() {
    let owner = key(7);
    let mut ctx = mint_ctx(asset(owner, 100, 100), owner);
    assert!(mint_rwa_tokens(&mut ctx, 1, 0).is_ok());
    assert_eq!(ctx.asset.circulating_supply, 100);
}

#[test]
fn mint_on_an_inactive_asset_is_rejected() {
    let owner = key(7);
    let mut inactive = asset(owner, 100, 0);
    inactive.is_active = false;
    let mut ctx = mint_ctx(inactive, owner);
    assert_eq!(mint_rwa_tokens(&mut ctx, 1, 10), Err(ErrorCode::AssetInactive));
    assert_eq!(ctx.asset.circulating_supply, 0);
}

#[test]
fn mint_by_another_than_the_owner_is_rejected() {
    let owner = key(7);
    let mut ctx = mint_ctx(asset(owner, 100, 0), key(8));
    assert_eq!(mint_rwa_tokens(&mut ctx, 1, 10), Err(ErrorCode::Unauthorized));
    assert_eq!(ctx.asset.circulating_supply, 0);
}

#[test]
fn mint_under_another_asset_id_is_rejected() {
    let owner = key(7);
    let mut ctx = mint_ctx(asset(owner, 100, 0), owner);
    assert_eq!(mint_rwa_tokens(&mut ctx, 2, 10), Err(ErrorCode::AssetMismatch));
    assert_eq!(ctx.asset.circulating_supply, 0);
}

#[test]
fn test_asset_metadata_update() {
    let payer = key(7);
    let mut ctx = UpdateAssetMetadata {
        asset: asset(payer, 100_000, 10),
        owner: payer,
        unix_timestamp: 1_700_000_200,
    };
    let new_metadata_uri = "https://example.com/metadata/1-updated".to_string();
    let new_kyc_level = Some(KYCLevel::Institutional);

    let event =
        update_asset_metadata(&mut ctx, 1, new_metadata_uri.clone(), new_kyc_level).unwrap();

    let asset_data = ctx.asset;
    assert_eq!(asset_data.metadata_uri, new_metadata_uri);
    assert_eq!(asset_data.kyc_level, KYCLevel::Institutional);
    assert_eq!(asset_data.circulating_supply, 10);
    assert_eq!(asset_data.total_supply, 100_000);
    assert_eq!(event.asset_id, 1);
    assert_eq!(event.new_metadata_uri, new_metadata_uri);
    assert_eq!(event.new_kyc_level, new_kyc_level);
    assert_eq!(event.timestamp, 1_700_000_200);
}

#[test]
fn metadata_update_without_a_level_keeps_the_level() {
    let payer = key(7);
    let mut ctx =
        UpdateAssetMetadata { asset: asset(payer, 100, 10), owner: payer, unix_timestamp: 3 };
    let event = update_asset_metadata(&mut ctx, 1, "new".to_string(), None).unwrap();
    assert_eq!(ctx.asset.kyc_level, KYCLevel::Enhanced);
    assert_eq!(ctx.asset.metadata_uri, "new");
    assert_eq!(event.new_kyc_level, None);
}

#[test]
fn metadata_update_is_rejected_for_strangers_long_uris_and_other_ids() {
    let payer = key(7);
    let mut ctx =
        UpdateAssetMetadata { asset: asset(payer, 100, 10), owner: key(8), unix_timestamp: 3 };
    let before = ctx.clone();
    assert_eq!(
        update_asset_metadata(&mut ctx, 1, "new".to_string(), None),
        Err(ErrorCode::Unauthorized)
    );
    assert_eq!(ctx, before);

    ctx.owner = payer;
    let before = ctx.clone();
    assert_eq!(
        update_asset_metadata(&mut ctx, 1, "b".repeat(201), Some(KYCLevel::Basic)),
        Err(ErrorCode::MetadataUriTooLong)
    );
    assert_eq!(ctx, before);
    assert_eq!(
        update_asset_metadata(&mut ctx, 9, "new".to_string(), None),
        Err(ErrorCode::AssetMismatch)
    );
    assert_eq!(ctx, before);
}

#[test]
fn test_registry_pause_functionality() {
    let payer = key(7);
    let mut ctx =
        SetRegistryPause { registry: registry(payer), authority: payer, unix_timestamp: 42 };

    let event = set_registry_pause(&mut ctx, true).unwrap();

    let registry_data = ctx.registry;
    assert!(registry_data.paused);
    assert!(event.paused);
    assert_eq!(event.timestamp, 42);
    assert_eq!(registry_data.authority, payer);
    assert_eq!(registry_data.total_assets, 0);
}

#[test]
fn a_paused_registry_can_be_released() {
    let payer = key(7);
    let mut paused = registry(payer);
    paused.paused = true;
    let mut ctx = SetRegistryPause { registry: paused, authority: payer, unix_timestamp: 42 };
    let event = set_registry_pause(&mut ctx, false).unwrap();
    assert!(!ctx.registry.paused);
    assert!(!event.paused);
}

#[test]
fn only_the_authority_pauses() {
    let mut ctx =
        SetRegistryPause { registry: registry(key(7)), authority: key(8), unix_timestamp: 42 };
    assert_eq!(set_registry_pause(&mut ctx, true), Err(ErrorCode::Unauthorized));
    assert!(!ctx.registry.paused);
}

#[test]
fn metadata_update_passes_a_paused_registry() {
    // The update works on the asset alone, so the state of the registry does
    // not reach it.
    let payer = key(7);
    let mut paused = registry(payer);
    paused.paused = true;
    let mut pause_ctx =
        SetRegistryPause { registry: paused, authority: payer, unix_timestamp: 1 };
    set_registry_pause(&mut pause_ctx, true).unwrap();
    let mut ctx =
        UpdateAssetMetadata { asset: asset(payer, 100, 10), owner: payer, unix_timestamp: 3 };
    assert!(update_asset_metadata(&mut ctx, 1, "new".to_string(), None).is_ok());
}

#[test]
fn error_codes_carry_their_messages() {
    assert_eq!(ErrorCode::RegistryPaused.message(), "Registry is currently paused");
    assert_eq!(
        ErrorCode::MetadataUriTooLong.message(),
        "Metadata URI is too long (max 200 characters)"
    );
    assert_eq!(ErrorCode::AssetInactive.message(), "Asset is not active");
    assert_eq!(ErrorCode::ExceedsMaxSupply.message(), "Amount exceeds maximum supply");
    assert_eq!(ErrorCode::InsufficientBalance.message(), "Insufficient balance");
    assert_eq!(ErrorCode::InvalidCrossChainOperation.message(), "Invalid cross-chain operation");
    assert_eq!(ErrorCode::Unauthorized.message(), "Unauthorized access");
}
