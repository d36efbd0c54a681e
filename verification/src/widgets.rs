//! Text shown by the player widgets: times, the progress bar, labels, and
//! where playback stands in the lyrics.
use vstd::prelude::*;
use crate::clock::{millis_between, millis_since};
use crate::layout::Rect;
use crate::model::LyricLine;
use crate::text::{dec_digits, push_char, push_chars, push_str, u64_dec_chars, zero_pad, zero_pad_chars};

verus! {

/// `ms` as minutes and seconds, each at least two digits: `MM:SS`.
pub open spec fn mmss(ms: u64) -> Seq<char> {
    let total_sec = ms / 1000;
    zero_pad(dec_digits((total_sec / 60) as nat), 2) + seq![':'] + zero_pad(
        dec_digits((total_sec % 60) as nat),
        2,
    )
}

/// Formats milliseconds as `MM:SS`.
pub fn fmt_mmss(ms: u64) -> (r: String)
    ensures
        r@ == mmss(ms),
{
    let total_sec = ms / 1000;
    let m = zero_pad_chars(u64_dec_chars(total_sec / 60).as_slice(), 2);
    let s = zero_pad_chars(u64_dec_chars(total_sec % 60).as_slice(), 2);
    let mut out = String::new();
    push_chars(&mut out, m.as_slice());
    push_char(&mut out, ':');
    push_chars(&mut out, s.as_slice());
    out
}

/// How many of `width` cells the bar fills after `elapsed_ms` of a song
/// `total_ms` long: the played share of the width, rounded to the nearest
/// cell (halves up), never more than the width.
pub open spec fn filled_cells(elapsed_ms: u64, total_ms: u64, width: usize) -> int {
    let e = if elapsed_ms < total_ms {
        elapsed_ms as int
    } else {
        total_ms as int
    };
    let f = (2 * (e * width) + total_ms) / (2 * total_ms as int);
    if f < width {
        f
    } else {
        width as int
    }
}

/// `n` copies of `c`.
pub open spec fn repeat(c: char, n: nat) -> Seq<char> {
    Seq::new(n, |_i: int| c)
}

/// The progress bar: `进度: [` then `#` for the played share and `-` for the
/// rest, then `]`; all `-` when no song of positive length plays.
pub open spec fn progress_bar(elapsed_ms: u64, total_ms: Option<u64>, width: usize) -> Seq<char> {
    let f: int = match total_ms {
        Some(t) => if t > 0 {
            filled_cells(elapsed_ms, t, width)
        } else {
            0
        },
        None => 0,
    };
    "进度: ["@ + repeat('#', f as nat) + repeat('-', (width - f) as nat) + "]"@
}

proof fn lemma_round_by_remainder(p: int, t: int, q: int, r: int)
    requires
        t > 0,
        p >= 0,
        q == p / t,
        r == p % t,
    ensures
        (2 * p + t) / (2 * t) == q + (if 2 * r >= t {
            1int
        } else {
            0int
        }),
{
    assert(p == q * t + r) by (nonlinear_arith)
        requires
            t > 0,
            q == p / t,
            r == p % t,
    ;
    assert(0 <= r < t) by (nonlinear_arith)
        requires
            t > 0,
            r == p % t,
    ;
    let b: int = if 2 * r >= t {
        1
    } else {
        0
    };
    assert(2 * p + t == (2 * t) * (q + b) + (2 * r + t - 2 * t * b)) by (nonlinear_arith)
        requires
            p == q * t + r,
    ;
    assert(0 <= 2 * r + t - 2 * t * b < 2 * t);
    assert((2 * p + t) / (2 * t) == q + b) by (nonlinear_arith)
        requires
            2 * p + t == (2 * t) * (q + b) + (2 * r + t - 2 * t * b),
            0 <= 2 * r + t - 2 * t * b < 2 * t,
            t > 0,
    ;
}

fn push_repeat(s: &mut String, c: char, n: usize)
    ensures
        final(s)@ == old(s)@ + repeat(c, n as nat),
{
    let mut k: usize = 0;
    while k < n
        invariant
            k <= n,
            s@ == old(s)@ + repeat(c, k as nat),
        decreases n - k,
    {
        push_char(s, c);
        k = k + 1;
        assert(repeat(c, k as nat) == repeat(c, (k - 1) as nat).push(c));
    }
}

/// The cells of the progress bar that show the played share.
pub fn bar_fill(elapsed_ms: u64, total_ms: u64, width: usize) -> (r: usize)
    requires
        total_ms > 0,
    ensures
        r == filled_cells(elapsed_ms, total_ms, width),
        r <= width,
{
    let e: u64 = if elapsed_ms < total_ms {
        elapsed_ms
    } else {
        total_ms
    };
    let e128: u128 = e as u128;
    let w128: u128 = width as u128;
    let t128: u128 = total_ms as u128;
    assert(e128 * w128 <= 0xffff_ffff_ffff_ffffu128 * 0xffff_ffff_ffff_ffffu128)
        by (nonlinear_arith)
        requires
            e128 <= 0xffff_ffff_ffff_ffffu128,
            w128 <= 0xffff_ffff_ffff_ffffu128,
    ;
    let p: u128 = e128 * w128;
    let q: u128 = p / t128;
    let rem: u128 = p % t128;
    proof {
        lemma_round_by_remainder(p as int, t128 as int, q as int, rem as int);
        assert(q <= w128) by (nonlinear_arith)
            requires
                p == e128 * w128,
                e128 <= t128,
                t128 > 0,
                q == p / t128,
        ;
    }
    let rounded: u128 = if 2 * rem >= t128 {
        q + 1
    } else {
        q
    };
    if rounded < w128 {
        rounded as usize
    } else {
        width
    }
}

/// The text progress bar for `elapsed_ms` of a song `total_ms` long, `width`
/// cells inside the brackets.
pub fn progress_bar_text(elapsed_ms: u64, total_ms: Option<u64>, width: usize) -> (r: String)
    ensures
        r@ == progress_bar(elapsed_ms, total_ms, width),
{
    let filled: usize = match total_ms {
        Some(t) => if t > 0 {
            bar_fill(elapsed_ms, t, width)
        } else {
            0
        },
        None => 0,
    };
    let mut out = String::new();
    push_str(&mut out, "进度: [");
    push_repeat(&mut out, '#', filled);
    push_repeat(&mut out, '-', width - filled);
    push_str(&mut out, "]");
    proof {
        assert(out@ =~= progress_bar(elapsed_ms, total_ms, width));
    }
    out
}

/// The progress bar always has exactly `width` cells between its brackets:
/// the filled ones first, never more than `width`.
pub proof fn lemma_progress_bar_cells(elapsed_ms: u64, total_ms: Option<u64>, width: usize)
    ensures
        progress_bar(elapsed_ms, total_ms, width).len() == width + 6,
        forall|i: int|
            5 <= i < width + 5 ==> {
                let c = #[trigger] progress_bar(elapsed_ms, total_ms, width)[i];
                c == '#' || c == '-'
            },
{
    reveal_strlit("进度: [");
    reveal_strlit("]");
    let f: int = match total_ms {
        Some(t) => if t > 0 {
            filled_cells(elapsed_ms, t, width)
        } else {
            0
        },
        None => 0,
    };
    assert(0 <= f <= width) by {
        match total_ms {
            Some(t) => if t > 0 {
                let e = if elapsed_ms < t {
                    elapsed_ms as int
                } else {
                    t as int
                };
                assert(0 <= (2 * (e * width) + t) / (2 * t as int)) by (nonlinear_arith)
                    requires
                        e >= 0,
                        t > 0,
                ;
            },
            None => {},
        }
    }
    let b = progress_bar(elapsed_ms, total_ms, width);
    assert forall|i: int| 5 <= i < width + 5 implies (b[i] == '#' || b[i] == '-') by {
        if i < 5 + f {
            assert(b[i] == repeat('#', f as nat)[i - 5]);
        } else {
            assert(b[i] == repeat('-', (width - f) as nat)[i - 5 - f]);
        }
    }
}

/// The label of a bitrate in the settings.
pub open spec fn br_text(br: i64) -> Seq<char> {
    if br == 128_000 {
        "128k"@
    } else if br == 192_000 {
        "192k"@
    } else if br == 320_000 {
        "320k"@
    } else if br == 999_000 {
        "最高"@
    } else {
        "自定义"@
    }
}

/// Labels a bitrate: the known ones by their rate, 999000 as the highest,
/// anything else as custom.
pub fn br_label(br: i64) -> (r: &'static str)
    ensures
        r@ == br_text(br),
{
    if br == 128_000 {
        "128k"
    } else if br == 192_000 {
        "192k"
    } else if br == 320_000 {
        "320k"
    } else if br == 999_000 {
        "最高"
    } else {
        "自定义"
    }
}

/// `elapsed_ms` moved by `offset_ms`, held within the range of `u64`.
pub open spec fn offset_elapsed(elapsed_ms: u64, offset_ms: i64) -> int {
    let x = elapsed_ms + offset_ms;
    if x < 0 {
        0
    } else if x > u64::MAX {
        u64::MAX as int
    } else {
        x
    }
}

/// Shifts the playback position by the lyrics offset, saturating at both ends.
pub fn apply_lyrics_offset(elapsed_ms: u64, offset_ms: i64) -> (r: u64)
    requires
        offset_ms > i64::MIN,
    ensures
        r == offset_elapsed(elapsed_ms, offset_ms),
{
    if offset_ms >= 0 {
        elapsed_ms.saturating_add(offset_ms as u64)
    } else {
        elapsed_ms.saturating_sub((-offset_ms) as u64)
    }
}

/// The times of the lyric lines.
pub open spec fn line_times(lines: Seq<LyricLine>) -> Seq<u64> {
    Seq::new(lines.len(), |i: int| lines[i].time_ms)
}

/// Whether the times never decrease.
pub open spec fn times_sorted(t: Seq<u64>) -> bool {
    forall|i: int, j: int| 0 <= i <= j < t.len() ==> t[i] <= t[j]
}

/// Whether `i` splits the times into those before `e` and those from `e` on.
pub open spec fn splits_at(t: Seq<u64>, e: u64, i: int) -> bool {
    &&& 0 <= i <= t.len()
    &&& forall|k: int| 0 <= k < i ==> t[k] < e
    &&& forall|k: int| i <= k < t.len() ==> t[k] >= e
}

/// The lyric line for playback position `e`: the first line at exactly `e`,
/// else the last line before `e`, else the first line; none for no lines.
pub open spec fn lyric_index_at(t: Seq<u64>, e: u64) -> Option<usize> {
    if t.len() == 0 {
        None
    } else {
        let lo = choose|i: int| splits_at(t, e, i);
        if lo < t.len() && t[lo] == e {
            Some(lo as usize)
        } else if lo == 0 {
            Some(0)
        } else {
            Some((lo - 1) as usize)
        }
    }
}

/// The line that plays at `elapsed_ms`, found by binary search over the
/// line times. Where the times are sorted, as parsed lyrics are, the result is
/// `lyric_index_at`; it is always an index of a line, and none only for no lines.
pub fn current_lyric_index(lines: &[LyricLine], elapsed_ms: u64) -> (r: Option<usize>)
    ensures
        r is None <==> lines@.len() == 0,
        r matches Some(i) ==> i < lines@.len(),
        times_sorted(line_times(lines@)) ==> r == lyric_index_at(line_times(lines@), elapsed_ms),
{
    let n = lines.len();
    if n == 0 {
        return None;
    }
    let ghost t = line_times(lines@);
    let mut lo: usize = 0;
    let mut hi: usize = n;
    while lo < hi
        invariant
            n == lines@.len(),
            t == line_times(lines@),
            0 <= lo <= hi <= n,
            times_sorted(t) ==> forall|k: int| 0 <= k < lo ==> t[k] < elapsed_ms,
            times_sorted(t) ==> forall|k: int| hi <= k < n ==> t[k] >= elapsed_ms,
        decreases hi - lo,
    {
        let mid = lo + (hi - lo) / 2;
        assert(t[mid as int] == lines@[mid as int].time_ms);
        if lines[mid].time_ms < elapsed_ms {
            proof {
                if times_sorted(t) {
                    assert forall|k: int| 0 <= k < mid + 1 implies t[k] < elapsed_ms by {
                        assert(t[k] <= t[mid as int]);
                    }
                }
            }
            lo = mid + 1;
        } else {
            proof {
                if times_sorted(t) {
                    assert forall|k: int| mid <= k < n implies t[k] >= elapsed_ms by {
                        assert(t[mid as int] <= t[k]);
                    }
                }
            }
            hi = mid;
        }
    }
    let r = if lo < n && lines[lo].time_ms == elapsed_ms {
        lo
    } else if lo == 0 {
        0
    } else {
        lo - 1
    };
    proof {
        if times_sorted(t) {
            assert(splits_at(t, elapsed_ms, lo as int));
            let c = choose|i: int| splits_at(t, elapsed_ms, i);
            if c < lo {
                assert(t[c] >= elapsed_ms);
                assert(t[c] < elapsed_ms);
            }
            if c > lo {
                assert(t[lo as int] < elapsed_ms);
                assert(t[lo as int] >= elapsed_ms);
            }
            assert(c == lo);
        }
    }
    Some(r)
}

/// The playback position: milliseconds since the start less the paused
/// milliseconds (never below zero), cut to 64 bits.
pub open spec fn playback_elapsed(since_start_ms: u128, paused_accum_ms: u64) -> u64 {
    (if since_start_ms >= paused_accum_ms {
        since_start_ms - paused_accum_ms
    } else {
        0
    }) as u64
}

/// Computes the playback position from the milliseconds since the song
/// started and the milliseconds it spent paused.
pub fn elapsed_from(since_start_ms: u128, paused_accum_ms: u64) -> (r: u64)
    ensures
        r == playback_elapsed(since_start_ms, paused_accum_ms),
{
    let d = since_start_ms.saturating_sub(paused_accum_ms as u128);
    #[verifier::truncate]
    let r = d as u64;
    r
}

/// The clock readings of the song playing.
pub struct PlaybackClock {
    pub started_at: Option<std::time::Instant>,
    pub paused: bool,
    pub paused_at: Option<std::time::Instant>,
    pub paused_accum_ms: u64,
    pub total_ms: Option<u64>,
}

/// The playback position and the song's length: nothing before a song has
/// started; otherwise the time since the start, up to the pause while paused,
/// less the time spent paused before.
pub fn playback_time_ms(player: &PlaybackClock) -> (r: (u64, Option<u64>))
    ensures
        player.started_at is None ==> r == (0u64, None::<u64>),
        player.started_at is Some ==> r.1 == player.total_ms && exists|since: u128|
            r.0 == playback_elapsed(since, player.paused_accum_ms),
{
    match &player.started_at {
        None => (0, None),
        Some(started) => {
            let since = if player.paused {
                match &player.paused_at {
                    Some(p) => millis_between(started, p),
                    None => millis_since(started),
                }
            } else {
                millis_since(started)
            };
            (elapsed_from(since, player.paused_accum_ms), player.total_ms)
        },
    }
}

/// A rectangle of the given size centered in `area` (clipped at its origin
/// where it is larger).
pub open spec fn centered(area: Rect, width: u16, height: u16) -> Rect {
    Rect {
        x: (area.x + sat_sub16(area.width, width) / 2) as u16,
        y: (area.y + sat_sub16(area.height, height) / 2) as u16,
        width,
        height,
    }
}

/// `a - b`, or 0 where `b` is larger.
pub open spec fn sat_sub16(a: u16, b: u16) -> int {
    if a >= b {
        a - b
    } else {
        0
    }
}

/// Centers a rectangle of the given size in `area`.
pub fn centered_rect(area: Rect, width: u16, height: u16) -> (r: Rect)
    requires
        area.x + area.width <= u16::MAX,
        area.y + area.height <= u16::MAX,
    ensures
        r == centered(area, width, height),
{
    let x = area.x + area.width.saturating_sub(width) / 2;
    let y = area.y + area.height.saturating_sub(height) / 2;
    Rect { x, y, width, height }
}

/// Where the action menu shows: at most 40 columns wide and 4 less than the
/// area; as high as its items plus the borders, at most 4 less than the area.
pub open spec fn menu_popup(area: Rect, item_count: usize) -> Rect {
    let w = if sat_sub16(area.width, 4) < 40 {
        sat_sub16(area.width, 4)
    } else {
        40
    };
    let n16 = item_count as u16;
    let items = if n16 + 2 > u16::MAX {
        u16::MAX as int
    } else {
        n16 + 2
    };
    let h = if items < sat_sub16(area.height, 4) {
        items
    } else {
        sat_sub16(area.height, 4)
    };
    centered(area, w as u16, h as u16)
}

/// Places the action menu for `item_count` items in `area`.
pub fn menu_popup_rect(area: Rect, item_count: usize) -> (r: Rect)
    requires
        area.x + area.width <= u16::MAX,
        area.y + area.height <= u16::MAX,
    ensures
        r == menu_popup(area, item_count),
{
    let width = if area.width.saturating_sub(4) < 40 {
        area.width.saturating_sub(4)
    } else {
        40
    };
    #[verifier::truncate]
    let n16 = item_count as u16;
    let items = n16.saturating_add(2);
    let room = area.height.saturating_sub(4);
    let height = if items < room {
        items
    } else {
        room
    };
    centered_rect(area, width, height)
}

} // verus!
