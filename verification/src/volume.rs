//! Volumes: Spotify counts from 0 to 65535, people in percent.

use vstd::prelude::*;

verus! {

/// The loudest volume on Spotify's scale.
pub const FULL_VOLUME: u32 = 65535;

/// The volume on Spotify's scale that `percent` asks for, rounded down.
pub open spec fn raw_volume(percent: int) -> int {
    percent * (FULL_VOLUME as int) / 100
}

/// The percentage that is shown for a volume on Spotify's scale, rounded up.
pub open spec fn shown_percent(raw: int) -> int {
    (raw * 100 + FULL_VOLUME - 1) / (FULL_VOLUME as int)
}

/// Whether the percentage of `raw` can be computed in 32 bits.
pub open spec fn volume_fits(raw: u32) -> bool {
    raw * 100 <= u32::MAX
}

/// The volume on Spotify's scale that `percent` asks for.
pub fn raw_from_percent(percent: u64) -> (raw: u64)
    requires
        percent <= 100,
    ensures
        raw == raw_volume(percent as int),
        raw <= FULL_VOLUME,
{
    assert(percent * (FULL_VOLUME as u64) <= 100 * FULL_VOLUME) by (nonlinear_arith)
        requires
            percent <= 100,
    ;
    percent * FULL_VOLUME as u64 / 100
}

/// The percentage that is shown for `raw`.
pub fn percent_from_raw(raw: u32) -> (percent: u32)
    requires
        volume_fits(raw),
    ensures
        percent == shown_percent(raw as int),
{
    let scaled: u32 = raw * 100;
    if scaled % FULL_VOLUME == 0 {
        scaled / FULL_VOLUME
    } else {
        scaled / FULL_VOLUME + 1
    }
}

/// A percentage that is set is the percentage that is shown afterwards.
pub proof fn lemma_percent_round_trip(percent: int)
    requires
        0 <= percent <= 100,
    ensures
        0 <= raw_volume(percent) <= FULL_VOLUME,
        shown_percent(raw_volume(percent)) == percent,
{
}

/// Every volume on Spotify's scale is shown as a percentage.
pub proof fn lemma_shown_percent_range(raw: int)
    requires
        0 <= raw <= FULL_VOLUME,
    ensures
        0 <= shown_percent(raw) <= 100,
        shown_percent(raw) == 0 <==> raw == 0,
{
}

/// A louder volume is never shown as a smaller percentage.
pub proof fn lemma_shown_percent_monotone(quieter: int, louder: int)
    requires
        0 <= quieter <= louder,
    ensures
        shown_percent(quieter) <= shown_percent(louder),
{
}

} // verus!
