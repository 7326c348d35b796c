use anchor_lang::prelude::Pubkey;
use tokengate::instructions::log_usage::handler;
use tokengate::{log_usage, AccessKey, ApiRegistry, CustomError, LogUsage, UsageLog};

fn id(byte: u8) -> Pubkey {
    Pubkey::new_from_array([byte; 32])
}

fn report(price_per_call: u64, calls_remaining: u32) -> LogUsage {
    LogUsage {
        registry: ApiRegistry {
            owner: id(1),
            name: "weather".to_string(),
            backend_url: "https://api.example.com".to_string(),
            rate_limit: 10,
            price_per_call,
            total_calls: 0,
            total_earnings: 0,
            paused: false,
            bump: 250,
        },
        access_key: AccessKey {
            api_id: id(7),
            owner: id(2),
            calls_remaining,
            active: true,
            bump: 253,
        },
        usage_log: UsageLog {
            api_id: Pubkey::default(),
            user: Pubkey::default(),
            total_calls: 0,
            total_cost: 0,
            bump: 0,
        },
        access_key_owner: id(2),
    }
}

#[test]
fn usage_is_taken_off_the_quota_and_added_to_the_totals() {
    let mut ctx = report(5, 600);
    ctx.registry.total_earnings = 5;
    assert_eq!(log_usage(&mut ctx, 50), Ok(()));
    assert_eq!(ctx.access_key.calls_remaining, 550);
    assert_eq!(ctx.registry.total_calls, 50);
    assert_eq!(ctx.registry.total_earnings, 255);
    assert_eq!(
        ctx.usage_log,
        UsageLog { api_id: id(7), user: id(2), total_calls: 50, total_cost: 250, bump: 0 }
    );
}

#[test]
fn usage_changes_nothing_else() {
    let mut ctx = report(5, 600);
    let before = ctx.clone();
    assert_eq!(handler(&mut ctx, 50), Ok(()));
    let mut expected = before;
    expected.access_key.calls_remaining = 550;
    expected.registry.total_calls = 50;
    expected.registry.total_earnings = 250;
    expected.usage_log.api_id = id(7);
    expected.usage_log.user = id(2);
    expected.usage_log.total_calls = 50;
    expected.usage_log.total_cost = 250;
    assert_eq!(ctx, expected);
}

#[test]
fn usage_adds_up_over_reports() {
    let mut ctx = report(3, 100);
    assert_eq!(log_usage(&mut ctx, 30), Ok(()));
    assert_eq!(log_usage(&mut ctx, 30), Ok(()));
    assert_eq!(ctx.access_key.calls_remaining, 40);
    assert_eq!(ctx.registry.total_calls, 60);
    assert_eq!(ctx.registry.total_earnings, 180);
    assert_eq!(ctx.usage_log.total_calls, 60);
    assert_eq!(ctx.usage_log.total_cost, 180);
}

#[test]
fn usage_keeps_the_tag_of_an_existing_log() {
    let mut ctx = report(2, 10);
    ctx.usage_log = UsageLog { api_id: id(7), user: id(2), total_calls: 4, total_cost: 8, bump: 251 };
    assert_eq!(log_usage(&mut ctx, 3), Ok(()));
    assert_eq!(
        ctx.usage_log,
        UsageLog { api_id: id(7), user: id(2), total_calls: 7, total_cost: 14, bump: 251 }
    );
}

#[test]
fn quota_used_up_exactly() {
    let mut ctx = report(5, 50);
    assert_eq!(log_usage(&mut ctx, 50), Ok(()));
    assert_eq!(ctx.access_key.calls_remaining, 0);
    assert!(ctx.access_key.active);
}

#[test]
fn usage_beyond_the_quota_empties_it_and_is_charged_in_full() {
    let mut ctx = report(5, 40);
    assert_eq!(log_usage(&mut ctx, 50), Ok(()));
    assert_eq!(ctx.access_key.calls_remaining, 0);
    assert_eq!(ctx.registry.total_calls, 50);
    assert_eq!(ctx.registry.total_earnings, 250);
    assert_eq!(ctx.usage_log.total_calls, 50);
    assert_eq!(ctx.usage_log.total_cost, 250);
}

#[test]
fn usage_against_an_empty_quota_is_still_recorded() {
    let mut ctx = report(5, 0);
    assert_eq!(log_usage(&mut ctx, 1), Ok(()));
    assert_eq!(ctx.access_key.calls_remaining, 0);
    assert_eq!(ctx.registry.total_calls, 1);
    assert_eq!(ctx.registry.total_earnings, 5);
}

#[test]
fn usage_of_no_calls_is_accepted_and_costs_nothing() {
    let mut ctx = report(5, 600);
    ctx.registry.total_calls = 9;
    ctx.registry.total_earnings = 45;
    assert_eq!(log_usage(&mut ctx, 0), Ok(()));
    assert_eq!(ctx.access_key.calls_remaining, 600);
    assert_eq!(ctx.registry.total_calls, 9);
    assert_eq!(ctx.registry.total_earnings, 45);
    assert_eq!(ctx.usage_log.total_calls, 0);
    assert_eq!(ctx.usage_log.total_cost, 0);
    assert_eq!(ctx.usage_log.api_id, id(7));
    assert_eq!(ctx.usage_log.user, id(2));
}

#[test]
fn usage_of_no_calls_is_accepted_with_counters_at_the_top() {
    let mut ctx = report(u64::MAX, 600);
    ctx.registry.total_calls = u64::MAX;
    ctx.registry.total_earnings = u64::MAX;
    ctx.usage_log.total_calls = u64::MAX;
    ctx.usage_log.total_cost = u64::MAX;
    assert_eq!(log_usage(&mut ctx, 0), Ok(()));
    assert_eq!(ctx.registry.total_calls, u64::MAX);
    assert_eq!(ctx.usage_log.total_cost, u64::MAX);
}

#[test]
fn usage_of_a_free_api_costs_nothing() {
    let mut ctx = report(0, 600);
    assert_eq!(log_usage(&mut ctx, u32::MAX), Ok(()));
    assert_eq!(ctx.access_key.calls_remaining, 0);
    assert_eq!(ctx.registry.total_calls, 4_294_967_295);
    assert_eq!(ctx.registry.total_earnings, 0);
    assert_eq!(ctx.usage_log.total_cost, 0);
}

#[test]
fn usage_is_recorded_while_the_api_is_paused() {
    let mut ctx = report(5, 600);
    ctx.registry.paused = true;
    assert_eq!(log_usage(&mut ctx, 50), Ok(()));
    assert_eq!(ctx.access_key.calls_remaining, 550);
    assert_eq!(ctx.registry.total_earnings, 250);
    assert!(ctx.registry.paused);
}

#[test]
fn revoked_key_logs_nothing() {
    let mut ctx = report(5, 600);
    ctx.access_key.active = false;
    let before = ctx.clone();
    assert_eq!(log_usage(&mut ctx, 50), Err(CustomError::KeyInactive));
    assert_eq!(ctx, before);
}

#[test]
fn revoked_key_is_reported_before_overflow() {
    let mut ctx = report(u64::MAX, 600);
    ctx.access_key.active = false;
    assert_eq!(log_usage(&mut ctx, 2), Err(CustomError::KeyInactive));
}

#[test]
fn cost_beyond_64_bits_is_refused_and_changes_nothing() {
    let mut ctx = report(u64::MAX / 2 + 1, 600);
    let before = ctx.clone();
    assert_eq!(log_usage(&mut ctx, 2), Err(CustomError::Overflow));
    assert_eq!(ctx, before);
    assert_eq!(ctx.access_key.calls_remaining, 600);
}

#[test]
fn cost_at_the_top_of_64_bits_is_accepted() {
    // 3 * 6_148_914_691_236_517_205 = 18_446_744_073_709_551_615.
    let mut ctx = report(6_148_914_691_236_517_205, 600);
    assert_eq!(log_usage(&mut ctx, 3), Ok(()));
    assert_eq!(ctx.registry.total_earnings, u64::MAX);
    assert_eq!(ctx.usage_log.total_cost, u64::MAX);
}

#[test]
fn registry_calls_beyond_64_bits_are_refused() {
    let mut ctx = report(1, 600);
    ctx.registry.total_calls = u64::MAX - 49;
    let before = ctx.clone();
    assert_eq!(log_usage(&mut ctx, 50), Err(CustomError::Overflow));
    assert_eq!(ctx, before);
}

#[test]
fn registry_earnings_beyond_64_bits_are_refused() {
    let mut ctx = report(5, 600);
    ctx.registry.total_earnings = u64::MAX - 249;
    let before = ctx.clone();
    assert_eq!(log_usage(&mut ctx, 50), Err(CustomError::Overflow));
    assert_eq!(ctx, before);
}

#[test]
fn log_calls_beyond_64_bits_are_refused() {
    let mut ctx = report(1, 600);
    ctx.usage_log.total_calls = u64::MAX - 49;
    let before = ctx.clone();
    assert_eq!(log_usage(&mut ctx, 50), Err(CustomError::Overflow));
    assert_eq!(ctx, before);
}

#[test]
fn log_cost_beyond_64_bits_is_refused() {
    let mut ctx = report(5, 600);
    ctx.usage_log.total_cost = u64::MAX - 249;
    let before = ctx.clone();
    assert_eq!(log_usage(&mut ctx, 50), Err(CustomError::Overflow));
    assert_eq!(ctx, before);
}

#[test]
fn counters_may_reach_the_top_of_64_bits() {
    let mut ctx = report(5, 600);
    ctx.registry.total_calls = u64::MAX - 50;
    ctx.registry.total_earnings = u64::MAX - 250;
    ctx.usage_log.total_calls = u64::MAX - 50;
    ctx.usage_log.total_cost = u64::MAX - 250;
    assert_eq!(log_usage(&mut ctx, 50), Ok(()));
    assert_eq!(ctx.registry.total_calls, u64::MAX);
    assert_eq!(ctx.registry.total_earnings, u64::MAX);
    assert_eq!(ctx.usage_log.total_calls, u64::MAX);
    assert_eq!(ctx.usage_log.total_cost, u64::MAX);
}
