//! Settings of the two programs, and what is worked out from them.

use vstd::prelude::*;
use vstd::string::*;

verus! {

/// The smallest payload, in MiB.
pub const MIN_SIZE_MB: usize = 1;

/// The largest payload, in MiB.
pub const MAX_SIZE_MB: usize = 64;

/// The node both programs talk to, unless told otherwise.
pub const DEFAULT_ENDPOINT: &'static str = "http://127.0.0.1:9944";

/// The payload size both programs use, unless told otherwise, in MiB.
pub const DEFAULT_SIZE_MB: usize = 32;

/// The retries for a failed submission, unless told otherwise.
pub const DEFAULT_MAX_RETRIES: u32 = 3;

/// The first pause after a failed submission, unless told otherwise, in milliseconds.
pub const DEFAULT_RETRY_BASE_MS: u64 = 250;

/// The blobs per batch, unless told otherwise.
pub const DEFAULT_COUNT: usize = 50;

/// The concurrent submissions of the single-account program, unless told otherwise.
pub const DEFAULT_IN_FLIGHT: usize = 4;

/// The capacity of the queue of prepared blobs, unless told otherwise.
pub const DEFAULT_QUEUE_CAP: usize = 16;

/// The sybil accounts, unless told otherwise.
pub const DEFAULT_ACCOUNTS: usize = 100;

/// The amount for each sybil account, unless told otherwise, in whole AVAIL.
pub const DEFAULT_FUND_EACH: u128 = 10;

/// The transfers per funding batch, unless told otherwise.
pub const DEFAULT_BATCH_SIZE: usize = 100;

/// The submissions of the multi-account program, unless told otherwise.
pub const DEFAULT_LOOPS: usize = 1000;

/// The concurrent submissions of the multi-account program, unless told otherwise.
pub const DEFAULT_SYBIL_IN_FLIGHT: usize = 50;

/// The pause after funding, unless told otherwise, in milliseconds.
pub const DEFAULT_FUNDING_SETTLE_MS: u64 = 1500;

/// A setting outside its range.
#[derive(Clone, Copy, Debug, PartialEq, Eq, Structural)]
pub enum ConfigError {
    SizeMb,
    Count,
    InFlight,
    QueueCap,
    Accounts,
    BatchSize,
    Loops,
}

/// The message for a setting outside its range.
pub open spec fn config_error_text(error: ConfigError) -> Seq<char> {
    match error {
        ConfigError::SizeMb => "--size-mb must be within 1..=64"@,
        ConfigError::Count => "--count must be > 0"@,
        ConfigError::InFlight => "--in-flight must be > 0"@,
        ConfigError::QueueCap => "--queue-cap must be > 0"@,
        ConfigError::Accounts => "--accounts must be > 0"@,
        ConfigError::BatchSize => "--batch-size must be > 0"@,
        ConfigError::Loops => "--loops must be > 0"@,
    }
}

impl ConfigError {
    /// The message to show.
    pub fn message(&self) -> (text: String)
        ensures
            text@ == config_error_text(*self),
    {
        match self {
            ConfigError::SizeMb => "--size-mb must be within 1..=64".to_owned(),
            ConfigError::Count => "--count must be > 0".to_owned(),
            ConfigError::InFlight => "--in-flight must be > 0".to_owned(),
            ConfigError::QueueCap => "--queue-cap must be > 0".to_owned(),
            ConfigError::Accounts => "--accounts must be > 0".to_owned(),
            ConfigError::BatchSize => "--batch-size must be > 0".to_owned(),
            ConfigError::Loops => "--loops must be > 0".to_owned(),
        }
    }
}

/// The payload size can be used.
pub open spec fn size_in_range(size_mb: usize) -> bool {
    MIN_SIZE_MB <= size_mb <= MAX_SIZE_MB
}

/// The settings of the single-account program that have a range.
#[derive(Clone, Copy, Debug, PartialEq, Eq, Structural)]
pub struct SpammerConfig {
    pub size_mb: usize,
    pub count: usize,
    pub in_flight: usize,
    pub queue_cap: usize,
}

impl SpammerConfig {
    /// Every setting is in its range.
    pub open spec fn valid(self) -> bool {
        size_in_range(self.size_mb) && self.count > 0 && self.in_flight > 0 && self.queue_cap > 0
    }

    /// The first setting outside its range.
    pub open spec fn first_error(self) -> ConfigError {
        if !size_in_range(self.size_mb) {
            ConfigError::SizeMb
        } else if self.count == 0 {
            ConfigError::Count
        } else if self.in_flight == 0 {
            ConfigError::InFlight
        } else {
            ConfigError::QueueCap
        }
    }

    /// Checks that every setting is in its range, and names the first that is not.
    pub fn check(&self) -> (r: Result<(), ConfigError>)
        ensures
            r == (if self.valid() {
                Ok(())
            } else {
                Err(self.first_error())
            }),
    {
        if self.size_mb < MIN_SIZE_MB || self.size_mb > MAX_SIZE_MB {
            Err(ConfigError::SizeMb)
        } else if self.count == 0 {
            Err(ConfigError::Count)
        } else if self.in_flight == 0 {
            Err(ConfigError::InFlight)
        } else if self.queue_cap == 0 {
            Err(ConfigError::QueueCap)
        } else {
            Ok(())
        }
    }
}

/// The settings of the multi-account program that have a range.
#[derive(Clone, Copy, Debug, PartialEq, Eq, Structural)]
pub struct SybilConfig {
    pub size_mb: usize,
    pub accounts: usize,
    pub batch_size: usize,
    pub in_flight: usize,
    pub loops: usize,
}

impl SybilConfig {
    /// Every setting is in its range.
    pub open spec fn valid(self) -> bool {
        &&& size_in_range(self.size_mb)
        &&& self.accounts > 0
        &&& self.batch_size > 0
        &&& self.in_flight > 0
        &&& self.loops > 0
    }

    /// The first setting outside its range.
    pub open spec fn first_error(self) -> ConfigError {
        if !size_in_range(self.size_mb) {
            ConfigError::SizeMb
        } else if self.accounts == 0 {
            ConfigError::Accounts
        } else if self.batch_size == 0 {
            ConfigError::BatchSize
        } else if self.in_flight == 0 {
            ConfigError::InFlight
        } else {
            ConfigError::Loops
        }
    }

    /// Checks that every setting is in its range, and names the first that is not.
    pub fn check(&self) -> (r: Result<(), ConfigError>)
        ensures
            r == (if self.valid() {
                Ok(())
            } else {
                Err(self.first_error())
            }),
    {
        if self.size_mb < MIN_SIZE_MB || self.size_mb > MAX_SIZE_MB {
            Err(ConfigError::SizeMb)
        } else if self.accounts == 0 {
            Err(ConfigError::Accounts)
        } else if self.batch_size == 0 {
            Err(ConfigError::BatchSize)
        } else if self.in_flight == 0 {
            Err(ConfigError::InFlight)
        } else if self.loops == 0 {
            Err(ConfigError::Loops)
        } else {
            Ok(())
        }
    }
}

/// The payload size in bytes.
pub fn payload_len_bytes(size_mb: usize) -> (len: usize)
    requires
        size_in_range(size_mb),
    ensures
        len == size_mb * 1024 * 1024,
        len >= 8,
{
    size_mb * 1024 * 1024
}

/// `num_cpus::get`: at least one; how many depends on the machine.
pub assume_specification[ num_cpus::get ]() -> (r: usize)
    ensures
        r >= 1,
;

/// Half of the processors, but at least two.
pub open spec fn half_the_processors(cpus: usize) -> int {
    if cpus / 2 >= 2 {
        cpus as int / 2
    } else {
        2
    }
}

/// The threads that prepare blobs on a machine with `cpus` processors: as many as requested, or
/// else half the processors, but at least two.
pub fn threads_on(requested: Option<usize>, cpus: usize) -> (threads: usize)
    ensures
        threads == (match requested {
            Some(n) => n as int,
            None => half_the_processors(cpus),
        }),
{
    match requested {
        Some(n) => n,
        None => {
            let half = cpus / 2;
            if half >= 2 {
                half
            } else {
                2
            }
        },
    }
}

/// The threads that prepare blobs on this machine: as many as requested, or else half of the
/// processors that `num_cpus::get` reports, but at least two. How many it reports is not stated.
pub fn precompute_threads(requested: Option<usize>) -> (threads: usize)
    ensures
        match requested {
            Some(n) => threads == n,
            None => threads >= 2 && exists|cpus: usize| #[trigger]
                call_ensures(num_cpus::get, (), cpus) && threads == half_the_processors(cpus),
        },
{
    threads_on(requested, num_cpus::get())
}

/// The low byte of the code of a character.
pub open spec fn low_byte(c: char) -> u8 {
    ((c as u32) % 256) as u8
}

fn char_low_byte(c: char) -> (b: u8)
    ensures
        b == low_byte(c),
{
    let code = c as u32;
    (code % 256) as u8
}

/// The byte that fills the blobs of one account: that of the given character, or else that of
/// the first letter of the account's name.
pub fn account_fill_byte(ch: Option<char>, account: &str) -> (fill: u8)
    requires
        ch is None ==> account@.len() > 0,
    ensures
        fill == low_byte(
            match ch {
                Some(c) => c,
                None => account@[0],
            },
        ),
{
    match ch {
        Some(c) => char_low_byte(c),
        None => char_low_byte(account.get_char(0)),
    }
}

/// The byte that fills the blobs of the sybil account with index `account_idx`: that of the
/// given character, or else a lower-case letter that goes with the low byte of the index.
pub fn sybil_fill_byte(ch: Option<char>, account_idx: usize) -> (fill: u8)
    ensures
        fill == (match ch {
            Some(c) => low_byte(c) as int,
            None => 97 + (account_idx % 256) % 26,
        }),
{
    match ch {
        Some(c) => char_low_byte(c),
        None => 97 + ((account_idx % 256) % 26) as u8,
    }
}

/// The settings of the single-account program are accepted exactly if the payload is 1 to 64 MiB
/// and nothing else is zero. An error names a setting that is out of its range, with none before
/// it that is.
pub proof fn spammer_settings_are_checked_in_order(
    config: SpammerConfig,
    r: Result<(), ConfigError>,
)
    requires
        call_ensures(SpammerConfig::check, (&config,), r),
    ensures
        r is Ok <==> 1 <= config.size_mb <= 64 && config.count >= 1 && config.in_flight >= 1
            && config.queue_cap >= 1,
        r matches Err(error) ==> match error {
            ConfigError::SizeMb => config.size_mb < 1 || config.size_mb > 64,
            ConfigError::Count => 1 <= config.size_mb <= 64 && config.count == 0,
            ConfigError::InFlight => 1 <= config.size_mb <= 64 && config.count >= 1
                && config.in_flight == 0,
            ConfigError::QueueCap => 1 <= config.size_mb <= 64 && config.count >= 1
                && config.in_flight >= 1 && config.queue_cap == 0,
            _ => false,
        },
{
}

/// The settings of the multi-account program are accepted exactly if the payload is 1 to 64 MiB
/// and nothing else is zero. An error names a setting that is out of its range, with none before
/// it that is.
pub proof fn sybil_settings_are_checked_in_order(config: SybilConfig, r: Result<(), ConfigError>)
    requires
        call_ensures(SybilConfig::check, (&config,), r),
    ensures
        r is Ok <==> 1 <= config.size_mb <= 64 && config.accounts >= 1 && config.batch_size >= 1
            && config.in_flight >= 1 && config.loops >= 1,
        r matches Err(error) ==> match error {
            ConfigError::SizeMb => config.size_mb < 1 || config.size_mb > 64,
            ConfigError::Accounts => 1 <= config.size_mb <= 64 && config.accounts == 0,
            ConfigError::BatchSize => 1 <= config.size_mb <= 64 && config.accounts >= 1
                && config.batch_size == 0,
            ConfigError::InFlight => 1 <= config.size_mb <= 64 && config.accounts >= 1
                && config.batch_size >= 1 && config.in_flight == 0,
            ConfigError::Loops => 1 <= config.size_mb <= 64 && config.accounts >= 1
                && config.batch_size >= 1 && config.in_flight >= 1 && config.loops == 0,
            _ => false,
        },
{
}

/// Every accepted payload size is a whole number of MiB, from 1 MiB to 64 MiB, in bytes.
pub proof fn accepted_sizes_are_whole_mebibytes(size_mb: usize, len: usize)
    requires
        size_in_range(size_mb),
        call_ensures(payload_len_bytes, (size_mb,), len),
    ensures
        len == 0x10_0000 * size_mb,
        0x10_0000 <= len <= 0x400_0000,
{
}

/// A requested number of threads is used as it is. Without a request there are never fewer than
/// two threads, and otherwise as many that twice their number is the number of processors, or one
/// less.
pub proof fn threads_are_half_the_processors(
    requested: Option<usize>,
    cpus: usize,
    threads: usize,
)
    requires
        call_ensures(threads_on, (requested, cpus), threads),
    ensures
        requested matches Some(n) ==> threads == n,
        requested is None ==> threads >= 2,
        requested is None && cpus >= 4 ==> cpus - 1 <= 2 * threads <= cpus,
        requested is None && cpus < 4 ==> threads == 2,
{
}

/// The threads of this machine are those of the number of processors that `num_cpus::get` can
/// report, unless a number is requested.
pub proof fn threads_go_by_the_reported_processors(requested: Option<usize>, threads: usize)
    requires
        call_ensures(precompute_threads, (requested,), threads),
    ensures
        requested matches Some(n) ==> threads == n,
        requested is None ==> exists|cpus: usize|
            {
                &&& #[trigger] call_ensures(num_cpus::get, (), cpus)
                &&& cpus >= 4 ==> cpus - 1 <= 2 * threads <= cpus
                &&& cpus < 4 ==> threads == 2
            },
{
}

/// A character fills blobs with its code where that is a byte, and otherwise with the remainder
/// of its code by 256. It goes before the letter that stands for the account.
pub proof fn filling_is_the_code_of_the_character(
    ch: Option<char>,
    account: &str,
    account_idx: usize,
    single: u8,
    sybil: u8,
)
    requires
        ch is None ==> account@.len() > 0,
        call_ensures(account_fill_byte, (ch, account), single),
        call_ensures(sybil_fill_byte, (ch, account_idx), sybil),
    ensures
        ch matches Some(c) ==> {
            &&& single == sybil
            &&& (c as u32) < 256 ==> single == c as u32
            &&& (c as u32 - single) % 256 == 0
        },
        ch is None ==> {
            &&& (account@[0] as u32) < 256 ==> single == account@[0] as u32
            &&& (account@[0] as u32 - single) % 256 == 0
            &&& 97 <= sybil <= 122
            &&& account_idx < 26 ==> sybil == 97 + account_idx
            &&& sybil == 97 + (account_idx % 256) % 26
        },
{
}

/// The message for a setting is the flag that sets it, followed by the range: 1 to 64 for the
/// payload size, and not zero for all others.
pub proof fn setting_errors_name_their_flag(error: ConfigError, text: String)
    requires
        call_ensures(ConfigError::message, (&error,), text),
    ensures
        text@ == (match error {
            ConfigError::SizeMb => "--size-mb"@,
            ConfigError::Count => "--count"@,
            ConfigError::InFlight => "--in-flight"@,
            ConfigError::QueueCap => "--queue-cap"@,
            ConfigError::Accounts => "--accounts"@,
            ConfigError::BatchSize => "--batch-size"@,
            ConfigError::Loops => "--loops"@,
        }) + (if error is SizeMb {
            " must be within 1..=64"@
        } else {
            " must be > 0"@
        }),
{
    reveal_strlit("--size-mb must be within 1..=64");
    reveal_strlit("--count must be > 0");
    reveal_strlit("--in-flight must be > 0");
    reveal_strlit("--queue-cap must be > 0");
    reveal_strlit("--accounts must be > 0");
    reveal_strlit("--batch-size must be > 0");
    reveal_strlit("--loops must be > 0");
    reveal_strlit("--size-mb");
    reveal_strlit("--count");
    reveal_strlit("--in-flight");
    reveal_strlit("--queue-cap");
    reveal_strlit("--accounts");
    reveal_strlit("--batch-size");
    reveal_strlit("--loops");
    reveal_strlit(" must be within 1..=64");
    reveal_strlit(" must be > 0");
}

} // verus!
