//! The text of the lists, the footer and the side panels: what each row says
//! and which row is highlighted.
use vstd::prelude::*;
use crate::app_state::App;
use crate::command;
use crate::model::{LyricLine, Playlist, Song};
use crate::toast::{Toast, ToastLevel};
use crate::panels::count_text;
use crate::play_mode::{PlayMode, mode_label, play_mode_label};
use crate::text::{
    chars_of, contains_chars, contains_seq, push_chars, push_str, signed_dec, trim, trim_chars,
    i64_dec_chars, u64_dec_chars,
};
use crate::usecases::is_liked;
use crate::widgets::{
    apply_lyrics_offset, br_label, br_text, current_lyric_index, fmt_mmss, line_times, lyric_index_at,
    mmss, offset_elapsed, progress_bar, progress_bar_text, times_sorted,
};

verus! {

fn usize_chars(n: usize) -> (r: Vec<char>)
    ensures
        r@ == count_text(n as int),
{
    u64_dec_chars(n as u64)
}

/// The row of the `i`-th playlist: its place from 1, name and track count,
/// and a heart for the liked-songs playlist.
pub open spec fn playlist_row(i: int, p: Playlist) -> Seq<char> {
    count_text(i + 1) + ". "@ + p.name@ + "("@ + signed_dec(p.track_count as int) + "首)"@ + (if is_liked(p) {
        " ♥"@
    } else {
        ""@
    })
}

/// The row of the `i`-th track of a playlist.
pub open spec fn track_row(i: int, s: Song) -> Seq<char> {
    count_text(i + 1) + ". "@ + s.name@ + "-"@ + s.artists@
}

/// The row of the `i`-th search result: the song's id, name and artists,
/// and its place from 1.
pub open spec fn search_row(i: int, s: Song) -> Seq<char> {
    signed_dec(s.id as int) + ". "@ + s.name@ + "-"@ + s.artists@ + "("@ + count_text(i + 1) + ")"@
}

/// The rows of the playlist list.
pub fn playlist_rows(playlists: &Vec<Playlist>) -> (r: Vec<String>)
    ensures
        r@.len() == playlists@.len(),
        forall|i: int| 0 <= i < r@.len() ==> #[trigger] r@[i]@ == playlist_row(i, playlists@[i]),
{
    let heart = chars_of("我喜欢");
    let mut rows: Vec<String> = Vec::new();
    let mut i: usize = 0;
    while i < playlists.len()
        invariant
            i <= playlists@.len(),
            rows@.len() == i,
            heart@ == "我喜欢"@,
            forall|k: int| 0 <= k < i ==> #[trigger] rows@[k]@ == playlist_row(k, playlists@[k]),
        decreases playlists@.len() - i,
    {
        let p = &playlists[i];
        let mut row = String::new();
        push_chars(&mut row, usize_chars(i + 1).as_slice());
        push_str(&mut row, ". ");
        push_str(&mut row, p.name.as_str());
        push_str(&mut row, "(");
        push_chars(&mut row, i64_dec_chars(p.track_count).as_slice());
        push_str(&mut row, "首)");
        let name = chars_of(p.name.as_str());
        if p.special_type == 5 || contains_chars(name.as_slice(), heart.as_slice()) {
            push_str(&mut row, " ♥");
        } else {
            push_str(&mut row, "");
        }
        rows.push(row);
        i += 1;
    }
    rows
}

/// The rows of a playlist's tracks.
pub fn track_rows(tracks: &Vec<Song>) -> (r: Vec<String>)
    ensures
        r@.len() == tracks@.len(),
        forall|i: int| 0 <= i < r@.len() ==> #[trigger] r@[i]@ == track_row(i, tracks@[i]),
{
    let mut rows: Vec<String> = Vec::new();
    let mut i: usize = 0;
    while i < tracks.len()
        invariant
            i <= tracks@.len(),
            rows@.len() == i,
            forall|k: int| 0 <= k < i ==> #[trigger] rows@[k]@ == track_row(k, tracks@[k]),
        decreases tracks@.len() - i,
    {
        let s = &tracks[i];
        let mut row = String::new();
        push_chars(&mut row, usize_chars(i + 1).as_slice());
        push_str(&mut row, ". ");
        push_str(&mut row, s.name.as_str());
        push_str(&mut row, "-");
        push_str(&mut row, s.artists.as_str());
        rows.push(row);
        i += 1;
    }
    rows
}

/// The rows of the search results.
pub fn search_rows(results: &Vec<Song>) -> (r: Vec<String>)
    ensures
        r@.len() == results@.len(),
        forall|i: int| 0 <= i < r@.len() ==> #[trigger] r@[i]@ == search_row(i, results@[i]),
{
    let mut rows: Vec<String> = Vec::new();
    let mut i: usize = 0;
    while i < results.len()
        invariant
            i <= results@.len(),
            rows@.len() == i,
            forall|k: int| 0 <= k < i ==> #[trigger] rows@[k]@ == search_row(k, results@[k]),
        decreases results@.len() - i,
    {
        let s = &results[i];
        let mut row = String::new();
        push_chars(&mut row, i64_dec_chars(s.id).as_slice());
        push_str(&mut row, ". ");
        push_str(&mut row, s.name.as_str());
        push_str(&mut row, "-");
        push_str(&mut row, s.artists.as_str());
        push_str(&mut row, "(");
        push_chars(&mut row, usize_chars(i + 1).as_slice());
        push_str(&mut row, ")");
        rows.push(row);
        i += 1;
    }
    rows
}

/// The highlighted row of a list of `len` rows: the selection, at most the
/// last row; none for an empty list.
pub fn highlighted_row(len: usize, selected: usize) -> (r: Option<usize>)
    ensures
        len == 0 ==> r is None,
        len > 0 ==> r == Some(if selected < len { selected } else { (len - 1) as usize }),
{
    if len == 0 {
        None
    } else if selected < len {
        Some(selected)
    } else {
        Some(len - 1)
    }
}

/// The detail shown beside the playlist list: the status, an empty line,
/// and the selected playlist with the hint to open it (or that there is none
/// yet).
pub open spec fn playlist_detail(status: Seq<char>, playlists: Seq<Playlist>, selected: usize) -> Seq<Seq<char>> {
    seq![
        status,
        ""@,
        if selected < playlists.len() {
            "选中:"@ + playlists[selected as int].name@ + "("@ + signed_dec(
                playlists[selected as int].track_count as int,
            ) + "首)\n回车打开歌单"@
        } else {
            "暂无歌单，等待登录后加载"@
        },
    ]
}

/// The lines of the playlist detail (see `playlist_detail`).
pub fn playlist_detail_lines(status: &str, playlists: &Vec<Playlist>, selected: usize) -> (r: Vec<String>)
    ensures
        r@.map_values(|s: String| s@) == playlist_detail(status@, playlists@, selected),
{
    let mut lines: Vec<String> = Vec::new();
    lines.push(status.to_string());
    lines.push("".to_string());
    if selected < playlists.len() {
        let p = &playlists[selected];
        let mut hint = "选中:".to_string();
        push_str(&mut hint, p.name.as_str());
        push_str(&mut hint, "(");
        push_chars(&mut hint, i64_dec_chars(p.track_count).as_slice());
        push_str(&mut hint, "首)\n回车打开歌单");
        lines.push(hint);
    } else {
        lines.push("暂无歌单，等待登录后加载".to_string());
    }
    assert(lines@.map_values(|s: String| s@) =~= playlist_detail(status@, playlists@, selected));
    lines
}

/// What the footer shows besides the player state: the page's status, the
/// playing title, the volume as the UI writes it.
pub struct FooterInput {
    pub view_status: String,
    pub now_playing: Option<String>,
    pub elapsed_ms: u64,
    pub total_ms: Option<u64>,
    pub paused: bool,
    pub play_mode: PlayMode,
    pub volume_text: String,
    pub play_br: i64,
}

/// The key hints on the last footer line.
pub open spec fn footer_keys() -> Seq<char> {
    "1-4 切换页 | Tab 焦点 | q 退出 | ? 帮助 | 空格 播放/暂停 | [/] 上一首/下一首 | Ctrl+Left/Right Seek | Alt+Up/Down 音量 | M 模式"@
}

/// The playing title, or `-`.
pub open spec fn now_text(now: Option<String>) -> Seq<char> {
    match now {
        Some(t) => t@,
        None => "-"@,
    }
}

/// The time line: elapsed and total as `MM:SS` (`--:--` without a total),
/// and `(暂停)` while paused.
pub open spec fn time_text(elapsed_ms: u64, total_ms: Option<u64>, paused: bool) -> Seq<char> {
    mmss(elapsed_ms) + " / "@ + (match total_ms {
        Some(t) => mmss(t),
        None => "--:--"@,
    }) + (if paused {
        " (暂停)"@
    } else {
        ""@
    })
}

/// The three footer lines: the status and the playing title; time, mode,
/// volume, bitrate and the progress bar 24 cells wide; the key hints.
pub open spec fn footer(x: FooterInput) -> Seq<Seq<char>> {
    seq![
        "提示:"@ + x.view_status@ + "|Now:"@ + now_text(x.now_playing),
        "时间: "@ + time_text(x.elapsed_ms, x.total_ms, x.paused) + " | 模式: "@ + mode_label(x.play_mode)
            + " | 音量: "@ + x.volume_text@ + " | 音质: "@ + br_text(x.play_br) + " | "@ + progress_bar(
            x.elapsed_ms,
            x.total_ms,
            24,
        ),
        footer_keys(),
    ]
}

/// The lines of the footer (see `footer`).
pub fn footer_lines(x: &FooterInput) -> (r: Vec<String>)
    ensures
        r@.map_values(|s: String| s@) == footer(*x),
{
    let mut first = "提示:".to_string();
    push_str(&mut first, x.view_status.as_str());
    push_str(&mut first, "|Now:");
    match &x.now_playing {
        Some(t) => push_str(&mut first, t.as_str()),
        None => push_str(&mut first, "-"),
    }
    let mut second = "时间: ".to_string();
    let e = fmt_mmss(x.elapsed_ms);
    push_str(&mut second, e.as_str());
    push_str(&mut second, " / ");
    match x.total_ms {
        Some(t) => {
            let tt = fmt_mmss(t);
            push_str(&mut second, tt.as_str());
        },
        None => push_str(&mut second, "--:--"),
    }
    if x.paused {
        push_str(&mut second, " (暂停)");
    } else {
        push_str(&mut second, "");
    }
    push_str(&mut second, " | 模式: ");
    push_str(&mut second, play_mode_label(x.play_mode));
    push_str(&mut second, " | 音量: ");
    push_str(&mut second, x.volume_text.as_str());
    push_str(&mut second, " | 音质: ");
    push_str(&mut second, br_label(x.play_br));
    push_str(&mut second, " | ");
    let bar = progress_bar_text(x.elapsed_ms, x.total_ms, 24);
    push_str(&mut second, bar.as_str());
    assert(first@ =~= "提示:"@ + x.view_status@ + "|Now:"@ + now_text(x.now_playing));
    assert(second@ =~= "时间: "@ + time_text(x.elapsed_ms, x.total_ms, x.paused) + " | 模式: "@
        + mode_label(x.play_mode) + " | 音量: "@ + x.volume_text@ + " | 音质: "@ + br_text(x.play_br)
        + " | "@ + progress_bar(x.elapsed_ms, x.total_ms, 24));
    let mut lines: Vec<String> = Vec::new();
    lines.push(first);
    lines.push(second);
    lines.push(
        "1-4 切换页 | Tab 焦点 | q 退出 | ? 帮助 | 空格 播放/暂停 | [/] 上一首/下一首 | Ctrl+Left/Right Seek | Alt+Up/Down 音量 | M 模式".to_string(),
    );
    assert(lines@.map_values(|s: String| s@) =~= footer(*x));
    lines
}

/// The lines of the now-playing panel: title, status, mode, volume, bitrate.
pub open spec fn now_panel(now: Option<String>, status: Seq<char>, mode: PlayMode, volume_text: Seq<char>, br: i64) -> Seq<Seq<char>> {
    seq![
        "Now:"@ + now_text(now),
        "状态:"@ + status,
        "模式:"@ + mode_label(mode),
        "音量:"@ + volume_text,
        "音质:"@ + br_text(br),
    ]
}

/// The lines of the now-playing panel (see `now_panel`).
pub fn now_panel_lines(now: &Option<String>, status: &str, mode: PlayMode, volume_text: &str, br: i64) -> (r: Vec<String>)
    ensures
        r@.map_values(|s: String| s@) == now_panel(*now, status@, mode, volume_text@, br),
{
    let mut first = "Now:".to_string();
    match now {
        Some(t) => push_str(&mut first, t.as_str()),
        None => push_str(&mut first, "-"),
    }
    let mut lines: Vec<String> = Vec::new();
    lines.push(first);
    let mut l = "状态:".to_string();
    push_str(&mut l, status);
    lines.push(l);
    let mut l = "模式:".to_string();
    push_str(&mut l, play_mode_label(mode));
    lines.push(l);
    let mut l = "音量:".to_string();
    push_str(&mut l, volume_text);
    lines.push(l);
    let mut l = "音质:".to_string();
    push_str(&mut l, br_label(br));
    lines.push(l);
    assert(lines@.map_values(|s: String| s@) =~= now_panel(*now, status@, mode, volume_text@, br));
    lines
}

/// The items of the settings list: bitrate, volume, play mode, lyric
/// offset, crossfade (`关闭` at 0), clearing the cache, and logging out
/// (marked where nobody is logged in).
pub open spec fn settings_list(br: i64, volume_text: Seq<char>, mode: PlayMode, offset_text: Seq<char>, crossfade_ms: u64, logged_in: bool) -> Seq<Seq<char>> {
    seq![
        "音质: "@ + br_text(br),
        "音量: "@ + volume_text,
        "播放模式: "@ + mode_label(mode),
        "歌词 offset: "@ + offset_text,
        "淡入淡出: "@ + (if crossfade_ms == 0 {
            "关闭"@
        } else {
            count_text(crossfade_ms as int) + "ms"@
        }),
        "清除音频缓存"@,
        if logged_in {
            "退出登录"@
        } else {
            "退出登录（未登录）"@
        },
    ]
}

/// The items of the settings list (see `settings_list`).
pub fn settings_items(br: i64, volume_text: &str, mode: PlayMode, offset_text: &str, crossfade_ms: u64, logged_in: bool) -> (r: Vec<String>)
    ensures
        r@.map_values(|s: String| s@) == settings_list(br, volume_text@, mode, offset_text@, crossfade_ms, logged_in),
{
    let mut items: Vec<String> = Vec::new();
    let mut l = "音质: ".to_string();
    push_str(&mut l, br_label(br));
    items.push(l);
    let mut l = "音量: ".to_string();
    push_str(&mut l, volume_text);
    items.push(l);
    let mut l = "播放模式: ".to_string();
    push_str(&mut l, play_mode_label(mode));
    items.push(l);
    let mut l = "歌词 offset: ".to_string();
    push_str(&mut l, offset_text);
    items.push(l);
    let mut l = "淡入淡出: ".to_string();
    if crossfade_ms == 0 {
        push_str(&mut l, "关闭");
    } else {
        let mut ms = String::new();
        push_chars(&mut ms, u64_dec_chars(crossfade_ms).as_slice());
        push_str(&mut ms, "ms");
        push_str(&mut l, ms.as_str());
    }
    items.push(l);
    items.push("清除音频缓存".to_string());
    items.push(
        if logged_in {
            "退出登录".to_string()
        } else {
            "退出登录（未登录）".to_string()
        },
    );
    assert(items@.map_values(|s: String| s@) =~= settings_list(br, volume_text@, mode, offset_text@, crossfade_ms, logged_in));
    items
}

/// The lines of a lyric row: the text, and the translation indented by two
/// spaces where it is more than whitespace.
pub open spec fn lyric_row(l: LyricLine) -> Seq<Seq<char>> {
    match l.translation {
        Some(t) => if trim(t@).len() > 0 {
            seq![l.text@, "  "@ + t@]
        } else {
            seq![l.text@]
        },
        None => seq![l.text@],
    }
}

/// The texts of a list of strings.
pub open spec fn texts(v: Vec<String>) -> Seq<Seq<char>> {
    v@.map_values(|s: String| s@)
}

/// The rows of the lyrics list (see `lyric_row`).
pub fn lyric_rows(lyrics: &Vec<LyricLine>) -> (r: Vec<Vec<String>>)
    ensures
        r@.len() == lyrics@.len(),
        forall|i: int| 0 <= i < r@.len() ==> #[trigger] texts(r@[i]) == lyric_row(lyrics@[i]),
{
    let mut rows: Vec<Vec<String>> = Vec::new();
    let mut i: usize = 0;
    while i < lyrics.len()
        invariant
            i <= lyrics@.len(),
            rows@.len() == i,
            forall|k: int| 0 <= k < i ==> #[trigger] texts(rows@[k]) == lyric_row(lyrics@[k]),
        decreases lyrics@.len() - i,
    {
        let l = &lyrics[i];
        let mut row: Vec<String> = Vec::new();
        row.push(l.text.clone());
        match &l.translation {
            Some(t) => {
                let tc = chars_of(t.as_str());
                let tt = trim_chars(tc.as_slice());
                if tt.len() > 0 {
                    let mut line = "  ".to_string();
                    push_str(&mut line, t.as_str());
                    row.push(line);
                }
            },
            None => {},
        }
        assert(texts(row) =~= lyric_row(lyrics@[i as int]));
        rows.push(row);
        i += 1;
    }
    rows
}

/// How many lines of context the lyrics list keeps around the highlighted
/// line: 5, or half the rows inside the border where fewer.
pub fn lyric_scroll_padding(height: u16) -> (r: usize)
    ensures
        r == (if height < 2 {
            0
        } else if (height - 2) / 2 < 5 {
            (height - 2) / 2
        } else {
            5
        }),
{
    let half = (height.saturating_sub(2) / 2) as usize;
    if half < 5 {
        half
    } else {
        5
    }
}

/// The highlighted lyric line, for a non-empty list: while following, the
/// line that plays at the position shifted by the offset (exactly that line
/// where the lines are in time order, some line otherwise); else the
/// selection, at most the last line.
pub fn lyric_highlight(lyrics: &Vec<LyricLine>, follow: bool, selected: usize, elapsed_ms: u64, offset_ms: i64) -> (r: usize)
    requires
        lyrics@.len() > 0,
        offset_ms > i64::MIN,
    ensures
        r < lyrics@.len(),
        !follow ==> r == (if selected < lyrics@.len() { selected } else { (lyrics@.len() - 1) as usize }),
        follow && times_sorted(line_times(lyrics@)) ==> Some(r) == lyric_index_at(
            line_times(lyrics@),
            offset_elapsed(elapsed_ms, offset_ms) as u64,
        ),
{
    if follow {
        match current_lyric_index(lyrics.as_slice(), apply_lyrics_offset(elapsed_ms, offset_ms)) {
            Some(i) => i,
            None => 0,
        }
    } else if selected < lyrics.len() {
        selected
    } else {
        lyrics.len() - 1
    }
}

/// The rows of the action menu: ` > ` before the selected item, three
/// spaces before the others.
pub open spec fn menu_row(selected: bool, item: Seq<char>) -> Seq<char> {
    (if selected {
        " > "@
    } else {
        "   "@
    }) + item
}

/// The rows of the action menu (see `menu_row`).
pub fn menu_rows(items: &Vec<String>, selected: usize) -> (r: Vec<String>)
    ensures
        r@.len() == items@.len(),
        forall|i: int| 0 <= i < r@.len() ==> #[trigger] r@[i]@ == menu_row(i == selected, items@[i]@),
{
    let mut rows: Vec<String> = Vec::new();
    let mut i: usize = 0;
    while i < items.len()
        invariant
            i <= items@.len(),
            rows@.len() == i,
            forall|k: int| 0 <= k < i ==> #[trigger] rows@[k]@ == menu_row(k == selected, items@[k]@),
        decreases items@.len() - i,
    {
        let mut row = if i == selected {
            " > ".to_string()
        } else {
            "   ".to_string()
        };
        push_str(&mut row, items[i].as_str());
        rows.push(row);
        i += 1;
    }
    rows
}

/// The text of a notification: its level's icon, a space, its message.
pub open spec fn toast_line(level: ToastLevel, message: Seq<char>) -> Seq<char> {
    (match level {
        ToastLevel::Error => "❌"@,
        ToastLevel::Warning => "⚠️ "@,
        ToastLevel::Info => "ℹ️ "@,
    }) + " "@ + message
}

/// The text of a notification (see `toast_line`).
pub fn toast_text(toast: &Toast) -> (r: String)
    ensures
        r@ == toast_line(toast.level, toast.message@),
{
    let mut t = match toast.level {
        ToastLevel::Error => "❌".to_string(),
        ToastLevel::Warning => "⚠️ ".to_string(),
        ToastLevel::Info => "ℹ️ ".to_string(),
    };
    push_str(&mut t, " ");
    push_str(&mut t, toast.message.as_str());
    t
}

/// The label of each tab: its title and its function key, from F1.
pub open spec fn tab_label(i: int, title: Seq<char>) -> Seq<char> {
    title + "[F"@ + count_text(i + 1) + "]"@
}

/// The labels of the tabs (see `tab_label`).
pub fn tab_labels(titles: &Vec<String>) -> (r: Vec<String>)
    ensures
        r@.len() == titles@.len(),
        forall|i: int| 0 <= i < r@.len() ==> #[trigger] r@[i]@ == tab_label(i, titles@[i]@),
{
    let mut out: Vec<String> = Vec::new();
    let mut i: usize = 0;
    while i < titles.len()
        invariant
            i <= titles@.len(),
            out@.len() == i,
            forall|k: int| 0 <= k < i ==> #[trigger] out@[k]@ == tab_label(k, titles@[k]@),
        decreases titles@.len() - i,
    {
        let mut l = titles[i].clone();
        push_str(&mut l, "[F");
        push_chars(&mut l, usize_chars(i + 1).as_slice());
        push_str(&mut l, "]");
        out.push(l);
        i += 1;
    }
    out
}

/// The search line of the header: the typed text, or a hint while there is none.
pub open spec fn search_hint(input: Seq<char>) -> Seq<char> {
    if input.len() == 0 {
        "Search[1]: (type and Enter)"@
    } else {
        "Search[1]: "@ + input
    }
}

/// The search line of the header (see `search_hint`).
pub fn search_hint_text(input: &str) -> (r: String)
    ensures
        r@ == search_hint(input@),
{
    let cs = chars_of(input);
    if cs.len() == 0 {
        "Search[1]: (type and Enter)".to_string()
    } else {
        let mut l = "Search[1]: ".to_string();
        push_str(&mut l, input);
        l
    }
}

/// The name of a focus area on the status line.
pub open spec fn focus_name(f: command::UiFocus) -> Seq<char> {
    match f {
        command::UiFocus::HeaderSearch => "Search"@,
        command::UiFocus::BodyLeft => "Left"@,
        command::UiFocus::BodyCenter => "Center"@,
        command::UiFocus::BodyRight => "Right"@,
    }
}

/// The status line of the header: the page, the focus, whether somebody is
/// logged in, whether the help shows.
pub open spec fn header_status(view_title: Seq<char>, focus: command::UiFocus, logged_in: bool, help_visible: bool) -> Seq<char> {
    "View:"@ + view_title + "|Focus:"@ + focus_name(focus) + "|Login:"@ + (if logged_in {
        "Yes"@
    } else {
        "No"@
    }) + "|Help:"@ + (if help_visible {
        "On"@
    } else {
        "Off"@
    })
}

/// The status line of the header (see `header_status`).
pub fn header_status_text(view_title: &str, focus: command::UiFocus, logged_in: bool, help_visible: bool) -> (r: String)
    ensures
        r@ == header_status(view_title@, focus, logged_in, help_visible),
{
    let mut l = "View:".to_string();
    push_str(&mut l, view_title);
    push_str(&mut l, "|Focus:");
    push_str(
        &mut l,
        match focus {
            command::UiFocus::HeaderSearch => "Search",
            command::UiFocus::BodyLeft => "Left",
            command::UiFocus::BodyCenter => "Center",
            command::UiFocus::BodyRight => "Right",
        },
    );
    push_str(&mut l, "|Login:");
    push_str(&mut l, if logged_in { "Yes" } else { "No" });
    push_str(&mut l, "|Help:");
    push_str(&mut l, if help_visible { "On" } else { "Off" });
    l
}

/// The settings groups in the left panel, the selected one marked `>`.
pub open spec fn settings_groups(selected: usize) -> Seq<Seq<char>> {
    seq![
        (if selected == 0 { ">"@ } else { " "@ }) + "播放"@,
        (if selected == 1 { ">"@ } else { " "@ }) + "歌词"@,
        (if selected == 2 { ">"@ } else { " "@ }) + "缓存"@,
        (if selected == 3 { ">"@ } else { " "@ }) + "账号"@,
    ]
}

/// The title and lines of the left panel on each page but the playlists
/// page, which lists the playlists there instead.
pub open spec fn left_panel(a: App, offset_text: Seq<char>, group_selected: usize) -> Option<(Seq<char>, Seq<Seq<char>>)> {
    match a.view {
        command::View::Playlists => None,
        command::View::Search => Some((
            "搜索"@,
            seq![
                "关键词: "@ + a.search_input@,
                a.search_status@,
                "结果: "@ + count_text(a.search_results@.len() as int),
            ],
        )),
        command::View::Lyrics => Some((
            "歌词"@,
            seq![
                "模式: "@ + (if a.lyrics_follow { "跟随"@ } else { "锁定"@ }),
                "offset: "@ + offset_text,
                "行数: "@ + count_text(a.lyrics@.len() as int),
            ],
        )),
        command::View::Settings => Some(("设置分组"@, settings_groups(group_selected))),
        command::View::Login => Some((
            "登录"@,
            seq![a.login_status@, "l 生成二维码"@, "c Cookie 登录"@],
        )),
    }
}

fn with_prefix(prefix: &str, rest: &str) -> (r: String)
    ensures
        r@ == prefix@ + rest@,
{
    let mut s = prefix.to_string();
    push_str(&mut s, rest);
    s
}

fn group_line(mark: bool, label: &str) -> (r: String)
    ensures
        r@ == (if mark { ">"@ } else { " "@ }) + label@,
{
    let mut s = if mark {
        ">".to_string()
    } else {
        " ".to_string()
    };
    push_str(&mut s, label);
    s
}

/// The left panel's title and lines (see `left_panel`).
pub fn left_panel_lines(app: &App, offset_text: &str, group_selected: usize) -> (r: Option<(&'static str, Vec<String>)>)
    ensures
        match left_panel(*app, offset_text@, group_selected) {
            None => r is None,
            Some((t, ls)) => r matches Some((rt, rl)) && rt@ == t && texts(rl) == ls,
        },
{
    let mut lines: Vec<String> = Vec::new();
    match app.view {
        command::View::Playlists => None,
        command::View::Search => {
            lines.push(with_prefix("关键词: ", app.search_input.as_str()));
            lines.push(app.search_status.clone());
            let mut l = "结果: ".to_string();
            push_chars(&mut l, usize_chars(app.search_results.len()).as_slice());
            lines.push(l);
            assert(texts(lines) =~= left_panel(*app, offset_text@, group_selected).unwrap().1);
            Some(("搜索", lines))
        },
        command::View::Lyrics => {
            lines.push(with_prefix("模式: ", if app.lyrics_follow { "跟随" } else { "锁定" }));
            lines.push(with_prefix("offset: ", offset_text));
            let mut l = "行数: ".to_string();
            push_chars(&mut l, usize_chars(app.lyrics.len()).as_slice());
            lines.push(l);
            assert(texts(lines) =~= left_panel(*app, offset_text@, group_selected).unwrap().1);
            Some(("歌词", lines))
        },
        command::View::Settings => {
            lines.push(group_line(group_selected == 0, "播放"));
            lines.push(group_line(group_selected == 1, "歌词"));
            lines.push(group_line(group_selected == 2, "缓存"));
            lines.push(group_line(group_selected == 3, "账号"));
            assert(texts(lines) =~= settings_groups(group_selected));
            Some(("设置分组", lines))
        },
        command::View::Login => {
            lines.push(app.login_status.clone());
            lines.push("l 生成二维码".to_string());
            lines.push("c Cookie 登录".to_string());
            assert(texts(lines) =~= left_panel(*app, offset_text@, group_selected).unwrap().1);
            Some(("登录", lines))
        },
    }
}

/// How to find the cookie, on the full login page.
pub const COOKIE_HELP_FULL: &'static str = "获取方式：\n1. 浏览器登录 music.163.com\n2. 开发者工具(F12) -> Application -> Cookies\n3. 找到 MUSIC_U 并复制值\n\n快捷键：Enter 提交 | Esc 取消 | c 二维码登录\nF1-F4 / Ctrl+Tab 切换页面 | ? 帮助 | q 退出";

/// How to find the cookie, on the compact login page.
pub const COOKIE_HELP_COMPACT: &'static str = "获取方式：\n1. 浏览器登录 music.163.com\n2. 开发者工具(F12) -> Application -> Cookies\n3. 找到 MUSIC_U 并复制值\n\n快捷键: Enter 提交 | Esc 取消 | c 二维码登录";

/// What the cookie input is for.
pub const COOKIE_PROMPT: &'static str = "手动登录：输入 MUSIC_U Cookie 值";

/// The hint below a missing QR code, on the full login page.
pub const QR_HINT_FULL: &'static str = "\n\n按 l 生成二维码\n按 c 使用 Cookie 登录";

/// The hint below a missing QR code, on the compact login page.
pub const QR_HINT_COMPACT: &'static str = "\n\n按 l 生成二维码，或按 c 使用 Cookie 登录";

/// The key help of the full login page, between the login state and the URL.
pub const LOGIN_KEYS_FULL: &'static str = "\n\n快捷键:\nl - 生成二维码\nc - Cookie 登录\nF1-F4 / Ctrl+Tab - 切换页面\n? - 帮助\nq - 退出\n\nCookie 登录：\n浏览器登录 music.163.com\n后按 c 输入 MUSIC_U\n\nURL:\n";

/// The key help of the compact login page, after the URL.
pub const LOGIN_KEYS_COMPACT: &'static str = "\n\n快捷键:\nl - 生成二维码 | c - Cookie 登录\nCtrl+Tab - 切换页面 | q - 退出\n\nCookie 登录：浏览器登录 music.163.com\n后按 c，输入 MUSIC_U 值即可";

/// Whether somebody is logged in, as the login page says it.
pub open spec fn logged_in_text(logged_in: bool) -> Seq<char> {
    if logged_in {
        "是"@
    } else {
        "否 (可扫码或 Cookie 登录)"@
    }
}

/// The QR code, or that there is none yet followed by how to get one.
pub open spec fn qr_display(qr_ascii: Option<String>, full: bool) -> Seq<char> {
    match qr_ascii {
        Some(q) => q@,
        None => "尚未生成二维码"@ + (if full {
            QR_HINT_FULL@
        } else {
            QR_HINT_COMPACT@
        }),
    }
}

/// The login information beside (full page) or below (compact) the QR code.
pub open spec fn login_info(status: Seq<char>, logged_in: bool, qr_url: Option<String>, full: bool) -> Seq<char> {
    let url = match qr_url {
        Some(u) => u@,
        None => "-"@,
    };
    if full {
        "状态:\n"@ + status + "\n\n已登录: "@ + logged_in_text(logged_in) + LOGIN_KEYS_FULL@ + url
    } else {
        "状态: "@ + status + "\n已登录: "@ + logged_in_text(logged_in) + "\nURL: "@ + url + LOGIN_KEYS_COMPACT@
    }
}

/// The QR code block and the information block of the login page.
pub fn login_qr_texts(qr_ascii: &Option<String>, qr_url: &Option<String>, status: &str, logged_in: bool, full: bool) -> (r: (String, String))
    ensures
        r.0@ == qr_display(*qr_ascii, full),
        r.1@ == login_info(status@, logged_in, *qr_url, full),
{
    let qr = match qr_ascii {
        Some(q) => q.clone(),
        None => {
            let mut t = "尚未生成二维码".to_string();
            push_str(&mut t, if full { QR_HINT_FULL } else { QR_HINT_COMPACT });
            t
        },
    };
    let url: &str = match qr_url {
        Some(u) => u.as_str(),
        None => "-",
    };
    let li = if logged_in {
        "是"
    } else {
        "否 (可扫码或 Cookie 登录)"
    };
    let mut info = if full {
        "状态:\n".to_string()
    } else {
        "状态: ".to_string()
    };
    push_str(&mut info, status);
    if full {
        push_str(&mut info, "\n\n已登录: ");
        push_str(&mut info, li);
        push_str(&mut info, LOGIN_KEYS_FULL);
        push_str(&mut info, url);
    } else {
        push_str(&mut info, "\n已登录: ");
        push_str(&mut info, li);
        push_str(&mut info, "\nURL: ");
        push_str(&mut info, url);
        push_str(&mut info, LOGIN_KEYS_COMPACT);
    }
    (qr, info)
}

/// The prompt block of the cookie login: on the full page with the login
/// state.
pub open spec fn cookie_prompt(status: Seq<char>, full: bool) -> Seq<char> {
    if full {
        "状态: "@ + status + "\n"@ + COOKIE_PROMPT@
    } else {
        COOKIE_PROMPT@
    }
}

/// The prompt and help blocks of the cookie login.
pub fn login_cookie_texts(status: &str, full: bool) -> (r: (String, String))
    ensures
        r.0@ == cookie_prompt(status@, full),
        r.1@ == (if full { COOKIE_HELP_FULL@ } else { COOKIE_HELP_COMPACT@ }),
{
    if full {
        let mut p = "状态: ".to_string();
        push_str(&mut p, status);
        push_str(&mut p, "\n");
        push_str(&mut p, COOKIE_PROMPT);
        (p, COOKIE_HELP_FULL.to_string())
    } else {
        (COOKIE_PROMPT.to_string(), COOKIE_HELP_COMPACT.to_string())
    }
}

} // verus!
