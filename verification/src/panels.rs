//! The text the side panels show: the queue preview and the context panel
//! of each page.
use vstd::prelude::*;
use crate::app_state::App;
use crate::command;
use crate::command::PlaylistMode;
use crate::model::{LyricLine, Song};
use crate::play_mode::{mode_label, play_mode_label};
use crate::text::{dec_digits, push_chars, push_str, signed_dec, i64_dec_chars, u64_dec_chars};
use crate::widgets::{
    apply_lyrics_offset, br_label, br_text, current_lyric_index, line_times, lyric_index_at,
    offset_elapsed, times_sorted,
};

verus! {

/// The decimal text of a count.
pub open spec fn count_text(n: int) -> Seq<char> {
    dec_digits(n as nat)
}

/// One line of the queue preview: a marker (`>` on the first), the song's
/// place in the queue from 1, its name and its artists.
pub open spec fn queue_line(first: bool, place: int, s: Song) -> Seq<char> {
    (if first {
        ">"@
    } else {
        " "@
    }) + count_text(place) + "."@ + s.name@ + "-"@ + s.artists@
}

/// Where the preview starts: the queue position (0 without one), at most the
/// last song.
pub open spec fn preview_start(len: nat, pos: Option<usize>) -> int {
    let p: int = match pos {
        Some(p) => p as int,
        None => 0,
    };
    if p < len - 1 {
        p
    } else {
        len - 1
    }
}

/// The queue preview in at most `max_lines` lines: nothing for no lines;
/// `队列: 空` for an empty queue; else a head line `队列:{start+1}/{total}`
/// and the songs from the start on, as many as the other lines hold.
pub open spec fn queue_preview(queue: Seq<Song>, pos: Option<usize>, max_lines: nat) -> Seq<Seq<char>> {
    if max_lines == 0 {
        seq![]
    } else if queue.len() == 0 {
        seq!["队列: 空"@]
    } else {
        let start = preview_start(queue.len(), pos);
        let room: int = max_lines - 1;
        let n: int = if room < queue.len() - start {
            room
        } else {
            queue.len() - start
        };
        seq!["队列:"@ + count_text(start + 1) + "/"@ + count_text(queue.len() as int)] + Seq::new(
            n as nat,
            |i: int| queue_line(i == 0, start + i + 1, queue[start + i]),
        )
    }
}

/// The queue preview never takes more lines than it is given, and shows the
/// current song first where it shows any song.
pub proof fn lemma_queue_preview_fits(queue: Seq<Song>, pos: Option<usize>, max_lines: nat)
    ensures
        queue_preview(queue, pos, max_lines).len() <= max_lines,
        max_lines >= 2 && queue.len() > 0 && (pos matches Some(p) && p < queue.len()) ==> queue_preview(
            queue,
            pos,
            max_lines,
        )[1] == queue_line(true, pos.unwrap() + 1, queue[pos.unwrap() as int]),
{
}

fn usize_text(n: usize) -> (r: Vec<char>)
    ensures
        r@ == count_text(n as int),
{
    u64_dec_chars(n as u64)
}

/// The lines of the queue preview (see `queue_preview`).
pub fn queue_preview_lines(queue: &Vec<Song>, pos: Option<usize>, max_lines: usize) -> (r: Vec<String>)
    ensures
        r@.map_values(|s: String| s@) == queue_preview(queue@, pos, max_lines as nat),
{
    let mut lines: Vec<String> = Vec::new();
    if max_lines == 0 {
        assert(lines@.map_values(|s: String| s@) =~= queue_preview(queue@, pos, max_lines as nat));
        return lines;
    }
    if queue.len() == 0 {
        lines.push("队列: 空".to_string());
        assert(lines@.map_values(|s: String| s@) =~= queue_preview(queue@, pos, max_lines as nat));
        return lines;
    }
    let total = queue.len();
    let p: usize = match pos {
        Some(p) => p,
        None => 0,
    };
    let start: usize = if p < total - 1 {
        p
    } else {
        total - 1
    };
    let mut head = "队列:".to_string();
    push_chars(&mut head, usize_text(start + 1).as_slice());
    push_str(&mut head, "/");
    push_chars(&mut head, usize_text(total).as_slice());
    lines.push(head);
    let room = max_lines - 1;
    let n: usize = if room < total - start {
        room
    } else {
        total - start
    };
    let ghost spec_lines = queue_preview(queue@, pos, max_lines as nat);
    assert(start as int == preview_start(queue@.len(), pos));
    let mut i: usize = 0;
    while i < n
        invariant
            n <= total - start,
            start < total,
            total == queue@.len(),
            start as int == preview_start(queue@.len(), pos),
            max_lines > 0,
            n as int == (if (max_lines - 1) < total - start {
                max_lines - 1
            } else {
                total - start
            }),
            i <= n,
            lines@.len() == i + 1,
            spec_lines == queue_preview(queue@, pos, max_lines as nat),
            forall|k: int| 0 <= k < i + 1 ==> #[trigger] lines@[k]@ == spec_lines[k],
        decreases n - i,
    {
        let song = &queue[start + i];
        let mut line = if i == 0 {
            ">".to_string()
        } else {
            " ".to_string()
        };
        push_chars(&mut line, usize_text(start + i + 1).as_slice());
        push_str(&mut line, ".");
        push_str(&mut line, song.name.as_str());
        push_str(&mut line, "-");
        push_str(&mut line, song.artists.as_str());
        lines.push(line);
        i += 1;
    }
    assert(lines@.map_values(|s: String| s@) =~= queue_preview(queue@, pos, max_lines as nat));
    lines
}

/// What the context panel shows besides the state: the lyric offset and
/// the volume as the UI writes them, the playback position, and the
/// crossfade.
pub struct PanelExtras {
    pub offset_text: String,
    pub volume_text: String,
    pub elapsed_ms: u64,
    pub crossfade_ms: u64,
}

/// The place of the selected item counted from 1, or 0 for an empty list.
pub open spec fn selected_place(total: nat, selected: usize) -> int {
    if total == 0 {
        0
    } else {
        selected + 1
    }
}

/// `a - b`, or 0 where `b` is larger.
pub open spec fn room_left(a: nat, b: nat) -> nat {
    if b <= a {
        (a - b) as nat
    } else {
        0
    }
}

/// The lines of the playlists page's context, before the queue preview.
pub open spec fn playlists_context(a: App) -> Seq<Seq<char>> {
    let tracks = a.playlist_mode == PlaylistMode::Tracks;
    let total: nat = if tracks {
        a.playlist_tracks@.len()
    } else {
        a.playlists@.len()
    };
    let sel = if tracks {
        a.playlist_tracks_selected
    } else {
        a.playlists_selected
    };
    let base = seq![
        a.playlists_status@,
        "模式: "@ + (if tracks {
            "歌曲"@
        } else {
            "歌单"@
        }),
        "数量: "@ + count_text(total as int) + " | 选中: "@ + count_text(selected_place(total, sel)),
    ];
    let extra: Seq<Seq<char>> = if !tracks && a.playlists_selected < a.playlists@.len() {
        let p = a.playlists@[a.playlists_selected as int];
        seq!["歌单: "@ + p.name@, "曲目: "@ + signed_dec(p.track_count as int)]
    } else if tracks && a.playlist_tracks_selected < a.playlist_tracks@.len() {
        let t = a.playlist_tracks@[a.playlist_tracks_selected as int];
        seq!["歌曲: "@ + t.name@, "艺人: "@ + t.artists@]
    } else {
        seq![]
    };
    base + extra
}

/// The lines of the search page's context, before the queue preview.
pub open spec fn search_context(a: App) -> Seq<Seq<char>> {
    let total = a.search_results@.len();
    let base = seq![
        "关键词: "@ + a.search_input@,
        a.search_status@,
        "结果: "@ + count_text(total as int),
        "选中: "@ + count_text(selected_place(total, a.search_selected)),
    ];
    if a.search_selected < total {
        let s = a.search_results@[a.search_selected as int];
        base + seq!["歌曲: "@ + s.name@, "艺人: "@ + s.artists@]
    } else {
        base
    }
}

/// The lines of the lyrics page's context, before the current line.
pub open spec fn lyrics_context(a: App, x: PanelExtras) -> Seq<Seq<char>> {
    seq![
        a.lyrics_status@,
        "模式: "@ + (if a.lyrics_follow {
            "跟随"@
        } else {
            "锁定"@
        }),
        "offset: "@ + x.offset_text@,
        "行数: "@ + count_text(a.lyrics@.len() as int),
    ]
}

/// The lines of the settings page's context.
pub open spec fn settings_context(a: App, x: PanelExtras) -> Seq<Seq<char>> {
    seq![
        a.settings_status@,
        "选中: "@ + count_text(a.settings_selected + 1),
        "音质: "@ + br_text(a.play_br),
        "音量: "@ + x.volume_text@,
        "模式: "@ + mode_label(a.play_mode),
        "offset: "@ + x.offset_text@,
        "淡入淡出: "@ + dec_digits(x.crossfade_ms as nat) + "ms"@,
    ]
}

/// The title of the context panel on each page.
pub open spec fn context_title(v: command::View) -> Seq<char> {
    match v {
        command::View::Login => "登录"@,
        command::View::Playlists => "歌单"@,
        command::View::Search => "搜索"@,
        command::View::Lyrics => "歌词"@,
        command::View::Settings => "设置"@,
    }
}

/// Whether `lines` is what the context panel of `a` shows in `inner` rows:
/// the page's lines; on the playlists and search pages followed by the queue
/// preview in the rows left; on the lyrics page, where there are lyrics,
/// followed by the line that plays at the playback position shifted by the
/// offset (which one exactly where the lines are in time order, as parsed
/// lyrics are; some line otherwise).
pub open spec fn context_lines_ok(a: App, inner: nat, x: PanelExtras, lines: Seq<Seq<char>>) -> bool {
    match a.view {
        command::View::Login => lines == seq![
            a.login_status@,
            "已登录: "@ + (if a.logged_in {
                "是"@
            } else {
                "否"@
            }),
        ],
        command::View::Playlists => lines == playlists_context(a) + queue_preview(
            a.queue@,
            a.queue_pos,
            room_left(inner, playlists_context(a).len()),
        ),
        command::View::Search => lines == search_context(a) + queue_preview(
            a.queue@,
            a.queue_pos,
            room_left(inner, search_context(a).len()),
        ),
        command::View::Lyrics => if a.lyrics@.len() == 0 {
            lines == lyrics_context(a, x)
        } else {
            let t = line_times(a.lyrics@);
            let e = offset_elapsed(x.elapsed_ms, a.lyrics_offset_ms) as u64;
            exists|i: int|
                0 <= i < a.lyrics@.len() && (times_sorted(t) ==> lyric_index_at(t, e) == Some(i as usize))
                    && lines == lyrics_context(a, x).push("当前: "@ + a.lyrics@[i].text@)
        },
        command::View::Settings => lines == settings_context(a, x),
    }
}

fn prefixed(prefix: &str, rest: &str) -> (r: String)
    ensures
        r@ == prefix@ + rest@,
{
    let mut s = prefix.to_string();
    push_str(&mut s, rest);
    s
}

fn prefixed_chars(prefix: &str, rest: &[char]) -> (r: String)
    ensures
        r@ == prefix@ + rest@,
{
    let mut s = prefix.to_string();
    push_chars(&mut s, rest);
    s
}

/// The title and lines of the context panel, for a panel with `inner` rows
/// inside its border.
pub fn context_panel(app: &App, inner: usize, extras: &PanelExtras) -> (r: (&'static str, Vec<String>))
    requires
        app.playlists_selected < usize::MAX,
        app.playlist_tracks_selected < usize::MAX,
        app.search_selected < usize::MAX,
        app.settings_selected < usize::MAX,
        app.lyrics_offset_ms > i64::MIN,
    ensures
        r.0@ == context_title(app.view),
        context_lines_ok(*app, inner as nat, *extras, r.1@.map_values(|s: String| s@)),
{
    let mut lines: Vec<String> = Vec::new();
    match app.view {
        command::View::Login => {
            lines.push(app.login_status.clone());
            lines.push(prefixed("已登录: ", if app.logged_in { "是" } else { "否" }));
            assert(lines@.map_values(|s: String| s@) =~= seq![
                app.login_status@,
                "已登录: "@ + (if app.logged_in {
                    "是"@
                } else {
                    "否"@
                }),
            ]);
            ("登录", lines)
        },
        command::View::Playlists => {
            let tracks = app.playlist_mode == PlaylistMode::Tracks;
            let total = if tracks {
                app.playlist_tracks.len()
            } else {
                app.playlists.len()
            };
            let sel = if tracks {
                app.playlist_tracks_selected
            } else {
                app.playlists_selected
            };
            lines.push(app.playlists_status.clone());
            lines.push(prefixed("模式: ", if tracks { "歌曲" } else { "歌单" }));
            let mut count = prefixed_chars("数量: ", usize_text(total).as_slice());
            push_str(&mut count, " | 选中: ");
            let place: usize = if total == 0 {
                0
            } else {
                sel + 1
            };
            push_chars(&mut count, usize_text(place).as_slice());
            lines.push(count);
            if !tracks && app.playlists_selected < app.playlists.len() {
                let p = &app.playlists[app.playlists_selected];
                lines.push(prefixed("歌单: ", p.name.as_str()));
                lines.push(prefixed_chars("曲目: ", i64_dec_chars(p.track_count).as_slice()));
            } else if tracks && app.playlist_tracks_selected < app.playlist_tracks.len() {
                let t = &app.playlist_tracks[app.playlist_tracks_selected];
                lines.push(prefixed("歌曲: ", t.name.as_str()));
                lines.push(prefixed("艺人: ", t.artists.as_str()));
            }
            assert(lines@.map_values(|s: String| s@) =~= playlists_context(*app));
            let left: usize = if lines.len() <= inner {
                inner - lines.len()
            } else {
                0
            };
            let mut preview = queue_preview_lines(&app.queue, app.queue_pos, left);
            let ghost before = lines@;
            lines.append(&mut preview);
            assert(lines@.map_values(|s: String| s@) =~= before.map_values(|s: String| s@)
                + queue_preview(app.queue@, app.queue_pos, left as nat));
            ("歌单", lines)
        },
        command::View::Search => {
            let total = app.search_results.len();
            lines.push(prefixed("关键词: ", app.search_input.as_str()));
            lines.push(app.search_status.clone());
            lines.push(prefixed_chars("结果: ", usize_text(total).as_slice()));
            let place: usize = if total == 0 {
                0
            } else {
                app.search_selected + 1
            };
            lines.push(prefixed_chars("选中: ", usize_text(place).as_slice()));
            if app.search_selected < total {
                let s = &app.search_results[app.search_selected];
                lines.push(prefixed("歌曲: ", s.name.as_str()));
                lines.push(prefixed("艺人: ", s.artists.as_str()));
            }
            assert(lines@.map_values(|s: String| s@) =~= search_context(*app));
            let left: usize = if lines.len() <= inner {
                inner - lines.len()
            } else {
                0
            };
            let mut preview = queue_preview_lines(&app.queue, app.queue_pos, left);
            let ghost before = lines@;
            lines.append(&mut preview);
            assert(lines@.map_values(|s: String| s@) =~= before.map_values(|s: String| s@)
                + queue_preview(app.queue@, app.queue_pos, left as nat));
            ("搜索", lines)
        },
        command::View::Lyrics => {
            lines.push(app.lyrics_status.clone());
            lines.push(prefixed("模式: ", if app.lyrics_follow { "跟随" } else { "锁定" }));
            lines.push(prefixed("offset: ", extras.offset_text.as_str()));
            lines.push(prefixed_chars("行数: ", usize_text(app.lyrics.len()).as_slice()));
            assert(lines@.map_values(|s: String| s@) =~= lyrics_context(*app, *extras));
            if app.lyrics.len() > 0 {
                let e = apply_lyrics_offset(extras.elapsed_ms, app.lyrics_offset_ms);
                let idx = match current_lyric_index(app.lyrics.as_slice(), e) {
                    Some(i) => i,
                    None => 0,
                };
                let ghost before = lines@;
                lines.push(prefixed("当前: ", app.lyrics[idx].text.as_str()));
                assert(lines@.map_values(|s: String| s@) =~= lyrics_context(*app, *extras).push(
                    "当前: "@ + app.lyrics@[idx as int].text@,
                ));
            }
            ("歌词", lines)
        },
        command::View::Settings => {
            lines.push(app.settings_status.clone());
            lines.push(prefixed_chars("选中: ", usize_text(app.settings_selected + 1).as_slice()));
            lines.push(prefixed("音质: ", br_label(app.play_br)));
            lines.push(prefixed("音量: ", extras.volume_text.as_str()));
            lines.push(prefixed("模式: ", play_mode_label(app.play_mode)));
            lines.push(prefixed("offset: ", extras.offset_text.as_str()));
            let mut fade = prefixed_chars("淡入淡出: ", u64_dec_chars(extras.crossfade_ms).as_slice());
            push_str(&mut fade, "ms");
            lines.push(fade);
            assert(lines@.map_values(|s: String| s@) =~= settings_context(*app, *extras));
            ("设置", lines)
        },
    }
}

} // verus!
