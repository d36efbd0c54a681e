//! The stored settings' defaults and file.
use vstd::prelude::*;
use crate::text::{chars_of, push_char, push_str};

verus! {

/// How many playlists are preloaded.
pub fn default_preload_count() -> (r: usize)
    ensures
        r == 5,
{
    5
}

/// The size limit of the audio cache, in MiB.
pub fn default_audio_cache_max_mb() -> (r: usize)
    ensures
        r == 2048,
{
    2048
}

/// The download concurrency: none, which means detected from the machine.
pub fn default_download_concurrency() -> (r: Option<usize>)
    ensures
        r is None,
{
    None
}

/// The HTTP request timeout, in seconds.
pub fn default_http_timeout_secs() -> (r: u64)
    ensures
        r == 30,
{
    30
}

/// The HTTP connect timeout, in seconds.
pub fn default_http_connect_timeout_secs() -> (r: u64)
    ensures
        r == 10,
{
    10
}

/// How many times a download is retried.
pub fn default_download_retries() -> (r: u32)
    ensures
        r == 2,
{
    2
}

/// The first backoff between download retries, in milliseconds.
pub fn default_download_retry_backoff_ms() -> (r: u64)
    ensures
        r == 250,
{
    250
}

/// The longest backoff between download retries, in milliseconds.
pub fn default_download_retry_backoff_max_ms() -> (r: u64)
    ensures
        r == 2000,
{
    2000
}

/// Where the settings are stored in the data directory.
pub open spec fn settings_file(data_dir: Seq<char>) -> Seq<char> {
    if data_dir.len() == 0 || data_dir.last() == '/' {
        data_dir + "settings.json"@
    } else {
        data_dir + seq!['/'] + "settings.json"@
    }
}

/// The settings file in the data directory.
pub fn settings_path(data_dir: &str) -> (r: String)
    ensures
        r@ == settings_file(data_dir@),
{
    let d = chars_of(data_dir);
    let mut out = data_dir.to_string();
    if d.len() > 0 && d[d.len() - 1] != '/' {
        push_char(&mut out, '/');
    }
    push_str(&mut out, "settings.json");
    out
}

} // verus!
