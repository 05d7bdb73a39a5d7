use npcforge::escrow::{escrow_signer_seeds, split_payment};
use npcforge::{
    hire_npc, release_payment, Hire, HireNpc, HireType, Marketplace, Npc, NpcForgeError, NpcHired,
    NpcType, PaymentReleased, Pubkey, ReleasePayment, TokenAccount, TokenTransfer,
};

const MONTH: i64 = 30 * 24 * 60 * 60;

fn key(byte: u8) -> Pubkey {
    Pubkey::new_from_array([byte; 32])
}

fn listing(price_per_interaction: u64, monthly_price: u64) -> Npc {
    Npc {
        creator: key(10),
        name: String::from("Old Tom"),
        description: String::from("Keeps the inn at the crossroads"),
        npc_type: NpcType::Shopkeeper,
        price_per_interaction,
        monthly_price,
        api_endpoint: String::from("https://npc.example/tom"),
        capabilities: vec![String::from("barter"), String::from("gossip")],
        is_active: true,
        total_hires: 0,
        rating_sum: 0,
        rating_count: 0,
        created_at: 1_700_000_000,
    }
}

fn hire_context(npc: Npc) -> HireNpc {
    HireNpc {
        npc_key: key(1),
        npc,
        hire_key: key(2),
        hire: None,
        developer: key(3),
        escrow_token_account: key(4),
        developer_token_account: key(5),
    }
}

fn marketplace(fee_percent: u16) -> Marketplace {
    Marketplace { authority: key(20), npc_count: 1, fee_percent }
}

fn release_context(hire: Hire, npc: Npc, fee_percent: u16) -> ReleasePayment {
    ReleasePayment {
        hire_key: key(2),
        hire,
        npc_key: key(1),
        npc,
        marketplace: marketplace(fee_percent),
        escrow_token_account: key(4),
        creator_token_account: TokenAccount { key: key(6), owner: key(10) },
        fee_token_account: TokenAccount { key: key(7), owner: key(20) },
        escrow_authority: key(8),
        escrow_authority_bump: 254,
    }
}

fn active_hire(amount: u64) -> Hire {
    Hire {
        developer: key(3),
        npc: key(1),
        creator: key(10),
        hire_type: HireType::PerInteraction,
        amount,
        escrow_token_account: key(4),
        is_active: true,
        created_at: 1_700_000_100,
        expires_at: None,
    }
}

#[test]
fn hire_per_interaction_then_release() {
    let mut ctx = hire_context(listing(100, 1000));
    let outcome = hire_npc(&mut ctx, HireType::PerInteraction, None, 1_700_000_100).unwrap();
    assert_eq!(outcome.deposit.amount, 100);
    let hire = ctx.hire.unwrap();
    assert_eq!(hire.amount, 100);
    assert!(hire.is_active);
    assert_eq!(hire.expires_at, None);

    let mut release = release_context(hire, ctx.npc.clone(), 250);
    let settled = release_payment(&mut release).unwrap();
    assert_eq!(settled.event.fee, 2);
    assert_eq!(settled.event.amount, 98);
    assert_eq!(settled.payout.amount, 98);
    assert_eq!(settled.fee.unwrap().amount, 2);
    assert_eq!(release.npc.total_hires, 1);
    assert!(!release.hire.is_active);
}

#[test]
fn hire_monthly_for_three_months() {
    let mut ctx = hire_context(listing(100, 1000));
    let now: i64 = 1_700_000_100;
    let outcome = hire_npc(&mut ctx, HireType::Monthly, Some(3), now).unwrap();
    assert_eq!(outcome.deposit.amount, 3000);
    let hire = ctx.hire.unwrap();
    assert_eq!(hire.amount, 3000);
    assert_eq!(hire.created_at, now);
    assert_eq!(hire.expires_at, Some(now + 3 * MONTH));
    assert_eq!(hire.expires_at, Some(1_707_776_100));
    assert_eq!(hire.hire_type, HireType::Monthly);
}

#[test]
fn release_twice_fails_the_second_time() {
    let mut release = release_context(active_hire(100), listing(100, 1000), 250);
    assert!(release_payment(&mut release).is_ok());
    let after_first = release.clone();
    let second = release_payment(&mut release);
    assert_eq!(second, Err(NpcForgeError::HireNotActive));
    assert_eq!(release, after_first);
    assert_eq!(release.npc.total_hires, 1);
    assert!(!release.hire.is_active);
}

#[test]
fn hire_fills_the_whole_record() {
    let mut ctx = hire_context(listing(100, 1000));
    let before = ctx.clone();
    let outcome = hire_npc(&mut ctx, HireType::Monthly, Some(12), 50).unwrap();
    assert_eq!(
        ctx.hire,
        Some(Hire {
            developer: key(3),
            npc: key(1),
            creator: key(10),
            hire_type: HireType::Monthly,
            amount: 12000,
            escrow_token_account: key(4),
            is_active: true,
            created_at: 50,
            expires_at: Some(50 + 12 * MONTH),
        })
    );
    assert_eq!(
        outcome.deposit,
        TokenTransfer { from: key(5), to: key(4), authority: key(3), amount: 12000 }
    );
    assert_eq!(
        outcome.event,
        NpcHired { hire_id: key(2), npc_id: key(1), developer: key(3), amount: 12000 }
    );
    assert_eq!(ctx.npc, before.npc);
    assert_eq!(ctx.npc_key, before.npc_key);
    assert_eq!(ctx.developer, before.developer);
}

#[test]
fn hire_of_one_month() {
    let mut ctx = hire_context(listing(0, 7));
    let outcome = hire_npc(&mut ctx, HireType::Monthly, Some(1), -5).unwrap();
    assert_eq!(outcome.deposit.amount, 7);
    assert_eq!(ctx.hire.unwrap().expires_at, Some(MONTH - 5));
}

#[test]
fn hire_per_interaction_ignores_the_duration() {
    let mut ctx = hire_context(listing(100, 1000));
    let outcome = hire_npc(&mut ctx, HireType::PerInteraction, Some(40), 9).unwrap();
    assert_eq!(outcome.deposit.amount, 100);
    assert_eq!(ctx.hire.unwrap().expires_at, None);
}

#[test]
fn hire_of_inactive_listing_is_refused() {
    let mut npc = listing(100, 1000);
    npc.is_active = false;
    let mut ctx = hire_context(npc);
    let before = ctx.clone();
    assert_eq!(
        hire_npc(&mut ctx, HireType::PerInteraction, None, 9),
        Err(NpcForgeError::NpcNotActive)
    );
    assert_eq!(ctx, before);
}

#[test]
fn inactive_listing_is_reported_before_the_duration() {
    let mut npc = listing(100, 1000);
    npc.is_active = false;
    let mut ctx = hire_context(npc);
    assert_eq!(hire_npc(&mut ctx, HireType::Monthly, None, 9), Err(NpcForgeError::NpcNotActive));
}

#[test]
fn monthly_hire_needs_a_duration_from_1_to_12() {
    for duration in [None, Some(0u8), Some(13u8), Some(255u8)] {
        let mut ctx = hire_context(listing(100, 1000));
        let before = ctx.clone();
        assert_eq!(
            hire_npc(&mut ctx, HireType::Monthly, duration, 9),
            Err(NpcForgeError::InvalidDuration)
        );
        assert_eq!(ctx, before);
    }
}

#[test]
fn invalid_duration_is_reported_before_the_price() {
    let mut ctx = hire_context(listing(100, 0));
    assert_eq!(
        hire_npc(&mut ctx, HireType::Monthly, Some(13), 9),
        Err(NpcForgeError::InvalidDuration)
    );
}

#[test]
fn hire_at_price_zero_is_refused() {
    let mut ctx = hire_context(listing(0, 1000));
    let before = ctx.clone();
    assert_eq!(
        hire_npc(&mut ctx, HireType::PerInteraction, None, 9),
        Err(NpcForgeError::InvalidPrice)
    );
    assert_eq!(ctx, before);

    let mut ctx = hire_context(listing(100, 0));
    assert_eq!(hire_npc(&mut ctx, HireType::Monthly, Some(6), 9), Err(NpcForgeError::InvalidPrice));
    assert_eq!(ctx.hire, None);
}

#[test]
fn hire_into_a_taken_place_is_refused() {
    let mut ctx = hire_context(listing(100, 1000));
    hire_npc(&mut ctx, HireType::PerInteraction, None, 9).unwrap();
    let before = ctx.clone();
    assert_eq!(
        hire_npc(&mut ctx, HireType::Monthly, Some(2), 10),
        Err(NpcForgeError::AlreadyExists)
    );
    assert_eq!(ctx, before);
}

#[test]
fn hire_at_the_largest_amount_and_time() {
    let mut ctx = hire_context(listing(100, u64::MAX / 2));
    let now = i64::MAX - 2 * MONTH;
    let outcome = hire_npc(&mut ctx, HireType::Monthly, Some(2), now).unwrap();
    assert_eq!(outcome.deposit.amount, u64::MAX - 1);
    assert_eq!(ctx.hire.unwrap().expires_at, Some(i64::MAX));
}

#[test]
fn release_names_both_transfers_and_the_notice() {
    let mut release = release_context(active_hire(10_000), listing(100, 1000), 250);
    let before = release.clone();
    let settled = release_payment(&mut release).unwrap();
    assert_eq!(
        settled.payout,
        TokenTransfer { from: key(4), to: key(6), authority: key(8), amount: 9750 }
    );
    assert_eq!(
        settled.fee,
        Some(TokenTransfer { from: key(4), to: key(7), authority: key(8), amount: 250 })
    );
    assert_eq!(
        settled.event,
        PaymentReleased { hire_id: key(2), creator: key(10), amount: 9750, fee: 250 }
    );
    assert_eq!(release.hire, Hire { is_active: false, ..before.hire });
    assert_eq!(release.npc, Npc { total_hires: 1, ..before.npc });
    assert_eq!(release.marketplace, before.marketplace);
}

#[test]
fn release_with_fee_zero_asks_for_one_transfer() {
    let mut release = release_context(active_hire(39), listing(100, 1000), 250);
    let settled = release_payment(&mut release).unwrap();
    assert_eq!(settled.fee, None);
    assert_eq!(settled.payout.amount, 39);
    assert_eq!(settled.event.fee, 0);
    assert_eq!(settled.event.amount, 39);

    let mut release = release_context(active_hire(500), listing(100, 1000), 0);
    let settled = release_payment(&mut release).unwrap();
    assert_eq!(settled.fee, None);
    assert_eq!(settled.payout.amount, 500);
}

#[test]
fn release_of_released_hire_is_refused() {
    let mut hire = active_hire(100);
    hire.is_active = false;
    let mut release = release_context(hire, listing(100, 1000), 250);
    let before = release.clone();
    assert_eq!(release_payment(&mut release), Err(NpcForgeError::HireNotActive));
    assert_eq!(release, before);
}

#[test]
fn release_signs_with_the_seeds_of_the_hire() {
    let mut release = release_context(active_hire(100), listing(100, 1000), 250);
    let settled = release_payment(&mut release).unwrap();
    assert_eq!(settled.signer_seeds, vec![b"escrow".to_vec(), vec![2u8; 32], vec![254u8]]);
}

#[test]
fn signer_seeds_hold_the_address_and_the_bump() {
    let mut bytes = [0u8; 32];
    for (i, byte) in bytes.iter_mut().enumerate() {
        *byte = i as u8;
    }
    let seeds = escrow_signer_seeds(&Pubkey::new_from_array(bytes), 7);
    assert_eq!(seeds.len(), 3);
    assert_eq!(seeds[0], vec![101u8, 115, 99, 114, 111, 119]);
    assert_eq!(seeds[1], bytes.to_vec());
    assert_eq!(seeds[2], vec![7u8]);
    assert_ne!(seeds, escrow_signer_seeds(&key(0), 7));
}

#[test]
fn split_rounds_the_fee_down() {
    assert_eq!(split_payment(100, 250), Some((98, 2)));
    assert_eq!(split_payment(3000, 250), Some((2925, 75)));
    assert_eq!(split_payment(39, 250), Some((39, 0)));
    assert_eq!(split_payment(40, 250), Some((39, 1)));
    assert_eq!(split_payment(0, 250), Some((0, 0)));
    assert_eq!(split_payment(1, 9999), Some((1, 0)));
}

#[test]
fn split_at_the_bounds_of_the_fee() {
    assert_eq!(split_payment(12345, 0), Some((12345, 0)));
    assert_eq!(split_payment(12345, 10000), Some((0, 12345)));
    assert_eq!(split_payment(u64::MAX, 10000), Some((0, u64::MAX)));
}

#[test]
fn split_of_the_largest_amount_is_exact() {
    let (creator_amount, fee) = split_payment(u64::MAX, 250).unwrap();
    assert_eq!(fee, 461_168_601_842_738_790);
    assert_eq!(creator_amount, 17_985_575_471_866_812_825);
    assert_eq!(creator_amount as u128 + fee as u128, u64::MAX as u128);
}

#[test]
fn split_loses_nothing() {
    for amount in [1u64, 7, 99, 100, 101, 9_999, 10_000, 10_001, 123_456_789, u64::MAX - 1] {
        for fee_percent in [0u16, 1, 249, 250, 251, 5000, 9999, 10000] {
            let (creator_amount, fee) = split_payment(amount, fee_percent).unwrap();
            assert_eq!(creator_amount as u128 + fee as u128, amount as u128);
            assert_eq!(fee as u128, amount as u128 * fee_percent as u128 / 10000);
        }
    }
}

#[test]
fn release_counts_up_to_the_last_hire() {
    let mut release = release_context(active_hire(100), listing(100, 1000), 250);
    release.npc.total_hires = u64::MAX - 1;
    release_payment(&mut release).unwrap();
    assert_eq!(release.npc.total_hires, u64::MAX);
}

#[test]
fn release_leaves_the_ratings_alone() {
    let mut npc = listing(100, 1000);
    npc.rating_sum = 9;
    npc.rating_count = 2;
    let mut release = release_context(active_hire(100), npc, 250);
    release_payment(&mut release).unwrap();
    assert_eq!(release.npc.rating_sum, 9);
    assert_eq!(release.npc.rating_count, 2);
    assert_eq!(release.hire.amount, 100);
}

#[test]
fn split_with_a_fee_above_the_amount_is_none() {
    assert_eq!(split_payment(100, 10001), Some((0, 100)));
    assert_eq!(split_payment(100, 10100), None);
    assert_eq!(split_payment(1, 20000), None);
    assert_eq!(split_payment(u64::MAX, u16::MAX), None);
    assert_eq!(split_payment(0, u16::MAX), Some((0, 0)));
    assert_eq!(split_payment(1, 10001), Some((0, 1)));
    assert_eq!(split_payment(9999, 10001), Some((0, 9999)));
    assert_eq!(split_payment(10000, 10001), None);
}

#[test]
fn hire_with_an_amount_too_large_is_refused() {
    let mut ctx = hire_context(listing(100, u64::MAX / 2));
    let before = ctx.clone();
    assert_eq!(
        hire_npc(&mut ctx, HireType::Monthly, Some(3), 0),
        Err(NpcForgeError::ArithmeticOverflow)
    );
    assert_eq!(ctx, before);
    assert!(hire_npc(&mut ctx, HireType::Monthly, Some(2), 0).is_ok());

    let mut ctx = hire_context(listing(100, u64::MAX));
    assert_eq!(
        hire_npc(&mut ctx, HireType::Monthly, Some(12), 0),
        Err(NpcForgeError::ArithmeticOverflow)
    );
    assert_eq!(hire_npc(&mut ctx, HireType::Monthly, Some(1), 0).unwrap().deposit.amount, u64::MAX);
}

#[test]
fn hire_with_an_end_too_late_is_refused() {
    let mut ctx = hire_context(listing(100, 1000));
    let before = ctx.clone();
    assert_eq!(
        hire_npc(&mut ctx, HireType::Monthly, Some(2), i64::MAX - 2 * MONTH + 1),
        Err(NpcForgeError::ArithmeticOverflow)
    );
    assert_eq!(ctx, before);
    assert!(hire_npc(&mut ctx, HireType::PerInteraction, None, i64::MAX).is_ok());
}

#[test]
fn overflow_is_reported_after_the_other_refusals() {
    let mut ctx = hire_context(listing(100, u64::MAX));
    assert_eq!(
        hire_npc(&mut ctx, HireType::Monthly, Some(13), i64::MAX),
        Err(NpcForgeError::InvalidDuration)
    );
    ctx.npc.is_active = false;
    assert_eq!(
        hire_npc(&mut ctx, HireType::Monthly, Some(12), i64::MAX),
        Err(NpcForgeError::NpcNotActive)
    );
    let mut free = hire_context(listing(100, 0));
    assert_eq!(
        hire_npc(&mut free, HireType::Monthly, Some(12), i64::MAX),
        Err(NpcForgeError::InvalidPrice)
    );
}

#[test]
fn release_for_another_listing_is_refused() {
    let mut release = release_context(active_hire(100), listing(100, 1000), 250);
    release.npc_key = key(77);
    let before = release.clone();
    assert_eq!(release_payment(&mut release), Err(NpcForgeError::NpcMismatch));
    assert_eq!(release, before);
    assert_eq!(release.npc.total_hires, 0);
    assert!(release.hire.is_active);
}

#[test]
fn release_into_a_stranger_account_is_refused() {
    let mut release = release_context(active_hire(100), listing(100, 1000), 250);
    release.creator_token_account.owner = key(11);
    let before = release.clone();
    assert_eq!(release_payment(&mut release), Err(NpcForgeError::CreatorAccountMismatch));
    assert_eq!(release, before);

    let mut release = release_context(active_hire(100), listing(100, 1000), 250);
    release.fee_token_account.owner = key(21);
    let before = release.clone();
    assert_eq!(release_payment(&mut release), Err(NpcForgeError::FeeAccountMismatch));
    assert_eq!(release, before);
}

#[test]
fn release_pays_the_creator_of_the_hire() {
    let mut hire = active_hire(100);
    hire.creator = key(40);
    let mut release = release_context(hire, listing(100, 1000), 250);
    assert_eq!(release_payment(&mut release), Err(NpcForgeError::CreatorAccountMismatch));
    release.creator_token_account.owner = key(40);
    let settled = release_payment(&mut release).unwrap();
    assert_eq!(settled.event.creator, key(40));
    assert_eq!(settled.payout.to, key(6));
}

#[test]
fn release_reports_the_first_failure() {
    let mut release = release_context(active_hire(100), listing(100, 1000), 10001);
    release.npc.total_hires = u64::MAX;
    release.escrow_token_account = key(44);
    release.npc_key = key(77);
    release.creator_token_account.owner = key(11);
    release.fee_token_account.owner = key(21);
    release.hire.is_active = false;
    assert_eq!(release_payment(&mut release), Err(NpcForgeError::HireNotActive));
    release.hire.is_active = true;
    assert_eq!(release_payment(&mut release), Err(NpcForgeError::EscrowAccountMismatch));
    release.escrow_token_account = key(4);
    assert_eq!(release_payment(&mut release), Err(NpcForgeError::NpcMismatch));
    release.npc_key = key(1);
    assert_eq!(release_payment(&mut release), Err(NpcForgeError::CreatorAccountMismatch));
    release.creator_token_account.owner = key(10);
    assert_eq!(release_payment(&mut release), Err(NpcForgeError::FeeAccountMismatch));
    release.fee_token_account.owner = key(20);
    assert_eq!(release_payment(&mut release), Err(NpcForgeError::ArithmeticOverflow));
    release.marketplace.fee_percent = 10000;
    assert_eq!(release_payment(&mut release), Err(NpcForgeError::ArithmeticOverflow));
    release.npc.total_hires = u64::MAX - 1;
    let settled = release_payment(&mut release).unwrap();
    assert_eq!(settled.payout.amount, 0);
    assert_eq!(settled.fee.unwrap().amount, 100);
}

#[test]
fn release_with_a_fee_above_the_amount_is_refused() {
    let mut release = release_context(active_hire(100), listing(100, 1000), 20000);
    let before = release.clone();
    assert_eq!(release_payment(&mut release), Err(NpcForgeError::ArithmeticOverflow));
    assert_eq!(release, before);

    let mut release = release_context(active_hire(10_000), listing(100, 1000), 10001);
    assert_eq!(release_payment(&mut release), Err(NpcForgeError::ArithmeticOverflow));

    let mut release = release_context(active_hire(9_999), listing(100, 1000), 10001);
    let settled = release_payment(&mut release).unwrap();
    assert_eq!(settled.event.fee, 9_999);
    assert_eq!(settled.event.amount, 0);
}

#[test]
fn release_with_a_full_count_is_refused() {
    let mut release = release_context(active_hire(100), listing(100, 1000), 250);
    release.npc.total_hires = u64::MAX;
    let before = release.clone();
    assert_eq!(release_payment(&mut release), Err(NpcForgeError::ArithmeticOverflow));
    assert_eq!(release, before);
}

#[test]
fn release_out_of_another_account_is_refused() {
    let mut release = release_context(active_hire(100), listing(100, 1000), 250);
    release.escrow_token_account = key(44);
    let before = release.clone();
    assert_eq!(release_payment(&mut release), Err(NpcForgeError::EscrowAccountMismatch));
    assert_eq!(release, before);
    release.escrow_token_account = key(4);
    let settled = release_payment(&mut release).unwrap();
    assert_eq!(settled.payout.from, key(4));
    assert_eq!(settled.fee.unwrap().from, key(4));
}
