use da_spammer::config::{
    account_fill_byte, payload_len_bytes, precompute_threads, sybil_fill_byte, threads_on,
    ConfigError, SpammerConfig, SybilConfig, DEFAULT_ACCOUNTS, DEFAULT_BATCH_SIZE, DEFAULT_COUNT,
    DEFAULT_ENDPOINT, DEFAULT_FUNDING_SETTLE_MS, DEFAULT_FUND_EACH, DEFAULT_IN_FLIGHT,
    DEFAULT_LOOPS, DEFAULT_MAX_RETRIES, DEFAULT_QUEUE_CAP, DEFAULT_RETRY_BASE_MS, DEFAULT_SIZE_MB,
    DEFAULT_SYBIL_IN_FLIGHT,
};

fn spammer() -> SpammerConfig {
    SpammerConfig {
        size_mb: DEFAULT_SIZE_MB,
        count: DEFAULT_COUNT,
        in_flight: DEFAULT_IN_FLIGHT,
        queue_cap: DEFAULT_QUEUE_CAP,
    }
}

fn sybil() -> SybilConfig {
    SybilConfig {
        size_mb: DEFAULT_SIZE_MB,
        accounts: DEFAULT_ACCOUNTS,
        batch_size: DEFAULT_BATCH_SIZE,
        in_flight: DEFAULT_SYBIL_IN_FLIGHT,
        loops: DEFAULT_LOOPS,
    }
}

#[test]
fn defaults_are_the_documented_ones() {
    assert_eq!(DEFAULT_ENDPOINT, "http://127.0.0.1:9944");
    assert_eq!(DEFAULT_SIZE_MB, 32);
    assert_eq!(DEFAULT_COUNT, 50);
    assert_eq!(DEFAULT_IN_FLIGHT, 4);
    assert_eq!(DEFAULT_QUEUE_CAP, 16);
    assert_eq!(DEFAULT_MAX_RETRIES, 3);
    assert_eq!(DEFAULT_RETRY_BASE_MS, 250);
    assert_eq!(DEFAULT_ACCOUNTS, 100);
    assert_eq!(DEFAULT_FUND_EACH, 10);
    assert_eq!(DEFAULT_BATCH_SIZE, 100);
    assert_eq!(DEFAULT_LOOPS, 1000);
    assert_eq!(DEFAULT_SYBIL_IN_FLIGHT, 50);
    assert_eq!(DEFAULT_FUNDING_SETTLE_MS, 1500);
    assert_eq!(spammer().check(), Ok(()));
    assert_eq!(sybil().check(), Ok(()));
}

#[test]
fn payload_sizes_have_a_range() {
    for (size_mb, ok) in [(0, false), (1, true), (64, true), (65, false)] {
        let expected = if ok { Ok(()) } else { Err(ConfigError::SizeMb) };
        assert_eq!(SpammerConfig { size_mb, ..spammer() }.check(), expected);
        assert_eq!(SybilConfig { size_mb, ..sybil() }.check(), expected);
    }
}

#[test]
fn counts_are_not_zero() {
    assert_eq!(SpammerConfig { count: 0, ..spammer() }.check(), Err(ConfigError::Count));
    assert_eq!(SpammerConfig { in_flight: 0, ..spammer() }.check(), Err(ConfigError::InFlight));
    assert_eq!(SpammerConfig { queue_cap: 0, ..spammer() }.check(), Err(ConfigError::QueueCap));
    assert_eq!(SybilConfig { accounts: 0, ..sybil() }.check(), Err(ConfigError::Accounts));
    assert_eq!(SybilConfig { batch_size: 0, ..sybil() }.check(), Err(ConfigError::BatchSize));
    assert_eq!(SybilConfig { in_flight: 0, ..sybil() }.check(), Err(ConfigError::InFlight));
    assert_eq!(SybilConfig { loops: 0, ..sybil() }.check(), Err(ConfigError::Loops));
}

#[test]
fn the_first_error_is_reported() {
    let all_wrong = SpammerConfig { size_mb: 0, count: 0, in_flight: 0, queue_cap: 0 };
    assert_eq!(all_wrong.check(), Err(ConfigError::SizeMb));
    let all_wrong =
        SybilConfig { size_mb: 1, accounts: 0, batch_size: 0, in_flight: 0, loops: 0 };
    assert_eq!(all_wrong.check(), Err(ConfigError::Accounts));
}

#[test]
fn errors_name_the_flag() {
    assert_eq!(ConfigError::SizeMb.message(), "--size-mb must be within 1..=64");
    assert_eq!(ConfigError::Count.message(), "--count must be > 0");
    assert_eq!(ConfigError::InFlight.message(), "--in-flight must be > 0");
    assert_eq!(ConfigError::QueueCap.message(), "--queue-cap must be > 0");
    assert_eq!(ConfigError::Accounts.message(), "--accounts must be > 0");
    assert_eq!(ConfigError::BatchSize.message(), "--batch-size must be > 0");
    assert_eq!(ConfigError::Loops.message(), "--loops must be > 0");
}

#[test]
fn payload_sizes_are_in_mib() {
    assert_eq!(payload_len_bytes(1), 1_048_576);
    assert_eq!(payload_len_bytes(64), 67_108_864);
}

#[test]
fn half_the_processors_prepare_blobs() {
    assert_eq!(threads_on(None, 1), 2);
    assert_eq!(threads_on(None, 5), 2);
    assert_eq!(threads_on(None, 6), 3);
    assert_eq!(threads_on(Some(1), 64), 1);
    assert_eq!(threads_on(Some(0), 64), 0);
}

#[test]
fn threads_go_by_the_machine_unless_requested() {
    assert_eq!(precompute_threads(Some(7)), 7);
    assert_eq!(precompute_threads(None), threads_on(None, num_cpus::get()));
}

#[test]
fn blobs_are_filled_with_a_letter() {
    assert_eq!(account_fill_byte(None, "bob"), b'b');
    assert_eq!(account_fill_byte(Some('x'), "bob"), b'x');
    assert_eq!(account_fill_byte(Some('\u{141}'), ""), 0x41);
    assert_eq!(sybil_fill_byte(Some('x'), 3), b'x');
    assert_eq!(sybil_fill_byte(None, 0), b'a');
    assert_eq!(sybil_fill_byte(None, 25), b'z');
    assert_eq!(sybil_fill_byte(None, 26), b'a');
    assert_eq!(sybil_fill_byte(None, 255), b'v');
    assert_eq!(sybil_fill_byte(None, 256), b'a');
}
