//! Settings read from the environment, with their defaults.
use vstd::prelude::*;
use crate::text::{parse_i64, parsed_i64, str_equal};

verus! {

/// Whether files are cached by the user-facing server (`FC_CDN_CACHE`):
/// only the value `true` turns caching on, and caching is on where the
/// setting is absent.
pub open spec fn caching_enabled(setting: Option<Seq<char>>) -> bool {
    match setting {
        Some(v) => v == "true"@,
        None => true,
    }
}

/// Reads the `FC_CDN_CACHE` setting.
pub fn cache_enabled(setting: Option<&str>) -> (res: bool)
    ensures
        res == caching_enabled(
            match setting {
                Some(v) => Some(v@),
                None => None,
            },
        ),
{
    match setting {
        Some(v) => str_equal(v, "true"),
        None => true,
    }
}

/// The cache size in bytes (`FC_CDN_CACHE_SIZE`): the setting where it is a
/// valid `i64`, else `default_size` (a quarter of the machine's memory).
pub fn cache_size(setting: Option<&str>, default_size: i64) -> (res: i64)
    ensures
        res == match setting {
            Some(v) => match parsed_i64(v@) {
                Some(n) => n,
                None => default_size,
            },
            None => default_size,
        },
{
    match setting {
        Some(v) => match parse_i64(v) {
            Some(n) => n,
            None => default_size,
        },
        None => default_size,
    }
}

/// The number of counters the cache keeps: ten per byte of its size, cast to
/// `usize` as the cache constructor takes it.
pub fn max_counters(cache_size: i64) -> (res: usize)
    requires
        i64::MIN <= cache_size * 10 <= i64::MAX,
    ensures
        res == (cache_size * 10) as usize,
{
    (cache_size * 10) as usize
}

/// The public address of the CDN (`FC_CDN_HOST`), by default
/// `https://cdn.ferris.chat`.
pub fn host_setting(setting: Option<String>) -> (res: String)
    ensures
        res@ == match setting {
            Some(v) => v@,
            None => "https://cdn.ferris.chat"@,
        },
{
    match setting {
        Some(v) => v,
        None => String::from_str("https://cdn.ferris.chat"),
    }
}

/// The directory where a storage node keeps its files
/// (`FC_CDN_UPLOADS_PATH`), by default `../../uploads`.
pub fn storage_dir_setting(setting: Option<String>) -> (res: String)
    ensures
        res@ == match setting {
            Some(v) => v@,
            None => "../../uploads"@,
        },
{
    match setting {
        Some(v) => v,
        None => String::from_str("../../uploads"),
    }
}

} // verus!
