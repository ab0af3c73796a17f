use vstd::prelude::*;

verus! {

/// Default interval between wallpaper changes, in seconds.
pub const REFRESH_INTERVAL_IN_SECS: u64 = 60;

/// Default interval between rescans of the wallpaper directory, in seconds.
pub const CACHE_STORE_TTL: u64 = 600;

} // verus!
