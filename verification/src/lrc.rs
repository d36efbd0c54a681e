//! Parsing of LRC lyric text: `[mm:ss.xx]` time tags followed by the line.
use vstd::prelude::*;
use crate::text::{
    all_digits, chars_of, lemma_first_index, digits_value, find_char_from, first_index, is_ascii_digit, parse_u64_spec,
    parse_u64_chars, slice_to_vec, string_from_chars, trim, trim_chars,
};

verus! {

/// The leading ASCII digits of `s`.
pub open spec fn leading_digits(s: Seq<char>) -> Seq<char>
    decreases s.len(),
{
    if s.len() > 0 && is_ascii_digit(s[0]) {
        seq![s[0]] + leading_digits(s.drop_first())
    } else {
        seq![]
    }
}

/// Milliseconds spelled by the fraction after the dot: at most three leading
/// digits, scaled by how many there are.
pub open spec fn frac_ms_spec(frac: Seq<char>) -> nat {
    let ld = leading_digits(frac);
    let fd = if ld.len() > 3 {
        ld.take(3)
    } else {
        ld
    };
    let fv = digits_value(fd);
    if fd.len() == 0 {
        0
    } else if fd.len() == 1 {
        fv * 100
    } else if fd.len() == 2 {
        fv * 10
    } else {
        fv
    }
}

/// The value of a tag `mm:ss[.frac]` in milliseconds, unbounded; `None` when
/// the tag is not a time.
pub open spec fn lrc_timestamp_spec(tag: Seq<char>) -> Option<int> {
    match first_index(tag, ':') {
        None => None,
        Some(c) => {
            let mm_s = tag.take(c);
            let rest = tag.skip(c + 1);
            let ss_s = match first_index(rest, '.') {
                Some(d) => rest.take(d),
                None => rest,
            };
            let frac = match first_index(rest, '.') {
                Some(d) => rest.skip(d + 1),
                None => seq![],
            };
            match parse_u64_spec(mm_s) {
                None => None,
                Some(mm) => match parse_u64_spec(ss_s) {
                    None => None,
                    Some(ss) => Some(mm * 60000 + ss * 1000 + frac_ms_spec(frac)),
                },
            }
        },
    }
}

/// A tag whose value, if it is a time, fits in a `u64`.
pub open spec fn lrc_timestamp_fits(tag: Seq<char>) -> bool {
    match lrc_timestamp_spec(tag) {
        Some(v) => v <= u64::MAX,
        None => true,
    }
}

proof fn lemma_leading_digits(s: Seq<char>)
    ensures
        leading_digits(s).len() <= s.len(),
        all_digits(leading_digits(s)),
        leading_digits(s) == s.take(leading_digits(s).len() as int),
        leading_digits(s).len() < s.len() ==> !is_ascii_digit(s[leading_digits(s).len() as int]),
    decreases s.len(),
{
    if s.len() > 0 && is_ascii_digit(s[0]) {
        lemma_leading_digits(s.drop_first());
        let l = leading_digits(s.drop_first());
        assert(leading_digits(s) =~= s.take(l.len() + 1int));
        assert forall|i: int| 0 <= i < leading_digits(s).len() implies is_ascii_digit(
            #[trigger] leading_digits(s)[i],
        ) by {
            if i > 0 {
                assert(leading_digits(s)[i] == l[i - 1]);
            }
        }
        if l.len() + 1 < s.len() {
            assert(s[l.len() + 1int] == s.drop_first()[l.len() as int]);
        }
    } else {
        assert(s.take(0) =~= seq![]);
    }
}

/// Milliseconds of the fraction digits starting at `lo` in `s`.
fn frac_ms_chars(s: &[char], lo: usize) -> (r: u64)
    requires
        lo <= s@.len(),
    ensures
        r == frac_ms_spec(s@.skip(lo as int)),
        r <= 999,
{
    let ghost frac = s@.skip(lo as int);
    let ghost ld = leading_digits(frac);
    proof {
        lemma_leading_digits(frac);
    }
    let mut k: usize = lo;
    let mut v: u64 = 0;
    while k - lo < 3 && k < s.len() && '0' <= s[k] && s[k] <= '9'
        invariant
            lo <= k <= s@.len(),
            s@.len() == s.len(),
            frac == s@.skip(lo as int),
            ld == leading_digits(frac),
            k - lo <= 3,
            k - lo <= ld.len(),
            ld == frac.take(ld.len() as int),
            ld.len() < frac.len() ==> !is_ascii_digit(frac[ld.len() as int]),
            all_digits(frac.take(k - lo)),
            v == digits_value(frac.take(k - lo)),
            v <= 999,
        decreases s.len() - k,
    {
        let ghost n = k - lo;
        let c = s[k];
        assert(frac[n] == c);
        let d = ((c as u32) - ('0' as u32)) as u64;
        assert(frac.take(n + 1).drop_last() == frac.take(n));
        assert(frac.take(n + 1).last() == c);
        proof {
            if n == ld.len() {
                assert(false);
            }
            assert forall|j: int| 0 <= j < n + 1 implies is_ascii_digit(
                #[trigger] frac.take(n + 1)[j],
            ) by {
                if j < n {
                    assert(frac.take(n + 1)[j] == frac.take(n)[j]);
                }
            }
            lemma_digits_value_bound3(frac.take(n + 1));
        }
        v = v * 10 + d;
        k += 1;
    }
    let n = k - lo;
    let ghost fd = if ld.len() > 3 {
        ld.take(3)
    } else {
        ld
    };
    proof {
        lemma_digits_value_bound3(frac.take(n as int));
        if n < 3 {
            if n < ld.len() {
                assert(frac[n as int] == ld[n as int]);
                assert(is_ascii_digit(ld[n as int]));
                assert(k < s@.len());
                assert(s@[k as int] == frac[n as int]);
                assert(false);
            }
            assert(n == ld.len());
            assert(fd =~= frac.take(n as int));
        } else {
            assert(fd =~= frac.take(3));
        }
    }
    if n == 0 {
        0
    } else if n == 1 {
        v * 100
    } else if n == 2 {
        v * 10
    } else {
        v
    }
}

/// The value of a time tag, computed without bound.
fn timestamp_value_chars(tag: &[char]) -> (r: Option<u128>)
    ensures
        match lrc_timestamp_spec(tag@) {
            Some(v) => r == Some(v as u128) && v <= u128::MAX,
            None => r is None,
        },
{
    let colon = match find_char_from(tag, 0, ':') {
        Some(c) => c,
        None => {
            assert(tag@.skip(0) == tag@);
            return None;
        },
    };
    assert(tag@.skip(0) == tag@);
    assert(tag@.len() == tag.len());
    let mm_s = slice_to_vec(tag, 0, colon);
    assert(mm_s@ == tag@.take(colon as int));
    let rest = slice_to_vec(tag, colon + 1, tag.len());
    assert(rest@ == tag@.skip(colon + 1));
    let mm = match parse_u64_chars(mm_s.as_slice()) {
        Some(m) => m,
        None => return None,
    };
    let dot = find_char_from(rest.as_slice(), 0, '.');
    assert(rest@.skip(0) == rest@);
    let (ss_s, frac_ms) = match dot {
        Some(d) => {
            let ss = slice_to_vec(rest.as_slice(), 0, d);
            assert(ss@ == rest@.take(d as int));
            (ss, frac_ms_chars(rest.as_slice(), d + 1))
        },
        None => {
            assert(rest@.skip(rest@.len() as int) =~= seq![]);
            (rest.clone(), frac_ms_chars(rest.as_slice(), rest.len()))
        },
    };
    let ss = match parse_u64_chars(ss_s.as_slice()) {
        Some(s) => s,
        None => return None,
    };
    Some((mm as u128) * 60000 + (ss as u128) * 1000 + (frac_ms as u128))
}

/// Parses an LRC time tag `mm:ss`, `mm:ss.x`, `mm:ss.xx` or `mm:ss.xxx`
/// into milliseconds.
pub fn parse_lrc_timestamp_chars(tag: &[char]) -> (r: Option<u64>)
    requires
        lrc_timestamp_fits(tag@),
    ensures
        r == (match lrc_timestamp_spec(tag@) {
            Some(v) => Some(v as u64),
            None => None::<u64>,
        }),
{
    match timestamp_value_chars(tag) {
        Some(v) => Some(v as u64),
        None => None,
    }
}

/// Whether a tag is no time or a time that fits in a `u64`.
pub fn timestamp_fits_chars(tag: &[char]) -> (r: bool)
    ensures
        r == lrc_timestamp_fits(tag@),
{
    match timestamp_value_chars(tag) {
        Some(v) => v <= (u64::MAX as u128),
        None => true,
    }
}

proof fn lemma_digits_value_bound3(s: Seq<char>)
    requires
        s.len() <= 3,
        all_digits(s),
    ensures
        s.len() == 0 ==> digits_value(s) == 0,
        s.len() == 1 ==> digits_value(s) <= 9,
        s.len() == 2 ==> digits_value(s) <= 99,
        s.len() == 3 ==> digits_value(s) <= 999,
    decreases s.len(),
{
    if s.len() > 0 {
        lemma_digits_value_bound3(s.drop_last());
    }
}

/// Parses an LRC time tag given as a string slice.
pub fn parse_lrc_timestamp_ms(tag: &str) -> (r: Option<u64>)
    requires
        lrc_timestamp_fits(tag@),
    ensures
        r == (match lrc_timestamp_spec(tag@) {
            Some(v) => Some(v as u64),
            None => None::<u64>,
        }),
{
    let cs = chars_of(tag);
    parse_lrc_timestamp_chars(cs.as_slice())
}

/// The time tags at the start of `rest` and what follows them: each `[tag]`
/// is consumed; a tag that is a time contributes its value.
pub open spec fn take_tags(rest: Seq<char>) -> (Seq<int>, Seq<char>)
    decreases rest.len(),
{
    if rest.len() > 0 && rest[0] == '[' {
        let stripped = rest.drop_first();
        match first_index(stripped, ']') {
            None => (seq![], rest),
            Some(end) => {
                proof {
                    lemma_first_index(stripped, ']');
                }
                let tag = stripped.take(end);
                let after = take_tags(stripped.skip(end + 1));
                match lrc_timestamp_spec(tag) {
                    Some(t) => (seq![t] + after.0, after.1),
                    None => after,
                }
            },
        }
    } else {
        (seq![], rest)
    }
}

/// Every tag at the start of `rest` is either no time or a time that fits
/// in a `u64`.
pub open spec fn tags_fit(rest: Seq<char>) -> bool
    decreases rest.len(),
{
    if rest.len() > 0 && rest[0] == '[' {
        let stripped = rest.drop_first();
        match first_index(stripped, ']') {
            None => true,
            Some(end) => {
                proof {
                    lemma_first_index(stripped, ']');
                }
                lrc_timestamp_fits(stripped.take(end)) && tags_fit(stripped.skip(end + 1))
            },
        }
    } else {
        true
    }
}

pub open spec fn ints_of(v: Seq<u128>) -> Seq<int> {
    v.map_values(|x: u128| x as int)
}

pub proof fn lemma_tags_fit(rest: Seq<char>)
    ensures
        tags_fit(rest) <==> forall|i: int|
            0 <= i < take_tags(rest).0.len() ==> #[trigger] take_tags(rest).0[i] <= u64::MAX,
    decreases rest.len(),
{
    if rest.len() > 0 && rest[0] == '[' {
        let stripped = rest.drop_first();
        lemma_first_index(stripped, ']');
        match first_index(stripped, ']') {
            None => {},
            Some(end) => {
                let after = take_tags(stripped.skip(end + 1));
                lemma_tags_fit(stripped.skip(end + 1));
                match lrc_timestamp_spec(stripped.take(end)) {
                    Some(t) => {
                        let all = take_tags(rest).0;
                        assert(all == seq![t] + after.0);
                        if tags_fit(rest) {
                            assert forall|i: int| 0 <= i < all.len() implies #[trigger] all[i]
                                <= u64::MAX by {
                                if i > 0 {
                                    assert(all[i] == after.0[i - 1]);
                                }
                            }
                        }
                        if forall|i: int| 0 <= i < all.len() ==> #[trigger] all[i] <= u64::MAX {
                            assert(all[0] == t);
                            assert forall|i: int| 0 <= i < after.0.len() implies #[trigger] after.0[i]
                                <= u64::MAX by {
                                assert(all[i + 1] == after.0[i]);
                            }
                        }
                    },
                    None => {
                        assert(lrc_timestamp_fits(stripped.take(end)));
                        assert(take_tags(rest) == after);
                        assert(tags_fit(rest) == tags_fit(stripped.skip(end + 1)));
                    },
                }
            },
        }
    } else {
        assert(take_tags(rest).0.len() == 0);
    }
}

/// The time tags at the start of `l`: their values and where the text after
/// them begins.
fn scan_tags(l: &[char]) -> (r: (Vec<u128>, usize))
    ensures
        r.1 <= l@.len(),
        ints_of(r.0@) == take_tags(l@).0,
        l@.skip(r.1 as int) == take_tags(l@).1,
{
    let mut times: Vec<u128> = Vec::new();
    let mut p: usize = 0;
    let mut done = false;
    assert(l@.skip(0) == l@);
    assert(ints_of(times@) + take_tags(l@.skip(0)).0 =~= take_tags(l@).0);
    while !done && p < l.len() && l[p] == '['
        invariant
            p <= l@.len(),
            l@.len() == l.len(),
            ints_of(times@) + take_tags(l@.skip(p as int)).0 == take_tags(l@).0,
            take_tags(l@.skip(p as int)).1 == take_tags(l@).1,
            done ==> take_tags(l@.skip(p as int)) == (Seq::<int>::empty(), l@.skip(p as int)),
        decreases (l.len() - p) as int + (if done { 0int } else { 1int }),
    {
        let ghost rest = l@.skip(p as int);
        let ghost stripped = rest.drop_first();
        assert(stripped == l@.skip(p + 1));
        assert(rest[0] == '[');
        match find_char_from(l, p + 1, ']') {
            None => {
                assert(take_tags(rest) == (Seq::<int>::empty(), rest));
                done = true;
            },
            Some(e) => {
                let ghost end = e - (p + 1);
                assert(first_index(stripped, ']') == Some(end));
                let tag = slice_to_vec(l, p + 1, e);
                assert(tag@ == stripped.take(end));
                assert(stripped.skip(end + 1) == l@.skip(e + 1));
                let v = timestamp_value_chars(tag.as_slice());
                let ghost after = take_tags(l@.skip(e + 1));
                let ghost old_times = ints_of(times@);
                match v {
                    Some(t) => {
                        times.push(t);
                        assert(ints_of(times@) =~= old_times.push(t as int));
                        assert(take_tags(rest).0 == seq![t as int] + after.0);
                        assert(ints_of(times@) + after.0 =~= old_times + take_tags(rest).0);
                    },
                    None => {
                        assert(take_tags(rest) == after);
                    },
                }
                p = e + 1;
            },
        }
    }
    proof {
        if !done {
            let rest = l@.skip(p as int);
            if p < l@.len() {
                assert(rest[0] == l@[p as int]);
            }
            assert(take_tags(rest) == (Seq::<int>::empty(), rest));
        }
        assert(ints_of(times@) + Seq::<int>::empty() =~= ints_of(times@));
    }
    (times, p)
}

/// The entries that one line contributes.
pub open spec fn line_entries(line: Seq<char>, allow_empty_text: bool) -> Seq<(u64, Seq<char>)> {
    let l = trim(line);
    let tags = take_tags(l);
    let content = trim(tags.1);
    if content.len() == 0 && !allow_empty_text {
        seq![]
    } else {
        tags.0.map_values(|t: int| (t as u64, content))
    }
}

/// The lines of `s` split at `'\n'`; the last piece may be empty.
pub open spec fn split_lines(s: Seq<char>) -> Seq<Seq<char>>
    decreases s.len(),
{
    if s.len() == 0 {
        seq![seq![]]
    } else {
        let ls = split_lines(s.drop_last());
        if s.last() == '\n' {
            ls.push(seq![])
        } else {
            ls.update(ls.len() - 1, ls.last().push(s.last()))
        }
    }
}

pub proof fn lemma_split_lines_nonempty(s: Seq<char>)
    ensures
        split_lines(s).len() >= 1,
    decreases s.len(),
{
    if s.len() > 0 {
        lemma_split_lines_nonempty(s.drop_last());
    }
}

/// Entries of the given lines, in line order.
pub open spec fn entries_of_lines(ls: Seq<Seq<char>>, allow_empty_text: bool) -> Seq<(u64, Seq<char>)>
    decreases ls.len(),
{
    if ls.len() == 0 {
        seq![]
    } else {
        entries_of_lines(ls.drop_last(), allow_empty_text) + line_entries(ls.last(), allow_empty_text)
    }
}

/// Every line's tags fit.
pub open spec fn lrc_fits(text: Seq<char>) -> bool {
    forall|i: int| 0 <= i < split_lines(text).len() ==> tags_fit(trim(#[trigger] split_lines(text)[i]))
}

/// The entries of one line.
fn line_entries_exec(line: &[char], allow_empty_text: bool) -> (r: Vec<(u64, Vec<char>)>)
    requires
        tags_fit(trim(line@)),
    ensures
        chars_entry_views(r@) == line_entries(line@, allow_empty_text),
{
    let l = trim_chars(line);
    let (times, start) = scan_tags(l.as_slice());
    proof {
        lemma_tags_fit(l@);
    }
    let rest_v = slice_to_vec(l.as_slice(), start, l.len());
    let ghost rest = l@.skip(start as int);
    assert(rest_v@ == rest);
    let content = trim_chars(rest_v.as_slice());
    let mut out: Vec<(u64, Vec<char>)> = Vec::new();
    if content.len() == 0 && !allow_empty_text {
        return out;
    }
    let ghost ts = take_tags(l@).0;
    let mut i: usize = 0;
    while i < times.len()
        invariant
            i <= times@.len(),
            ints_of(times@) == ts,
            forall|j: int| 0 <= j < ts.len() ==> #[trigger] ts[j] <= u64::MAX,
            chars_entry_views(out@) == ts.take(i as int).map_values(
                |t: int| (t as u64, trim(rest)),
            ),
            content@ == trim(rest),
        decreases times.len() - i,
    {
        assert(ts[i as int] == times@[i as int] as int);
        let t = times[i] as u64;
        let c = slice_to_vec(content.as_slice(), 0, content.len());
        assert(content@.subrange(0, content@.len() as int) == content@);
        let ghost old_out = out@;
        out.push((t, c));
        proof {
            let f = |t: int| (t as u64, trim(rest));
            assert(ts.take(i + 1) == ts.take(i as int).push(ts[i as int]));
            assert(ts.take(i + 1).map_values(f) =~= ts.take(i as int).map_values(f).push(f(ts[i as int])));
            assert(chars_entry_views(out@) =~= chars_entry_views(old_out).push((t, c@)));
        }
        i += 1;
    }
    assert(ts.take(ts.len() as int) == ts);
    out
}

proof fn lemma_split_lines_step(s: Seq<char>, j: int)
    requires
        0 <= j < s.len(),
    ensures
        split_lines(s.take(j + 1)) == (if s[j] == '\n' {
            split_lines(s.take(j)).push(seq![])
        } else {
            split_lines(s.take(j)).update(
                split_lines(s.take(j)).len() - 1,
                split_lines(s.take(j)).last().push(s[j]),
            )
        }),
{
    assert(s.take(j + 1).drop_last() == s.take(j));
    assert(s.take(j + 1).last() == s[j]);
}

/// The lines of a prefix agree with the lines of a longer prefix, except for
/// the last line of the shorter one, which may still grow.
proof fn lemma_split_lines_prefix(s: Seq<char>, i: int, j: int)
    requires
        0 <= i <= j <= s.len(),
    ensures
        split_lines(s.take(i)).len() <= split_lines(s.take(j)).len(),
        forall|k: int|
            0 <= k < split_lines(s.take(i)).len() - 1 ==> #[trigger] split_lines(s.take(i))[k]
                == split_lines(s.take(j))[k],
        i < j && s[i] == '\n' ==> split_lines(s.take(i)).len() < split_lines(s.take(j)).len()
            && split_lines(s.take(i)).last() == split_lines(s.take(j))[split_lines(s.take(i)).len()
            - 1],
        split_lines(s.take(i)).len() == split_lines(s.take(j)).len() ==> split_lines(s.take(i)).last().is_prefix_of(
            split_lines(s.take(j)).last(),
        ),
    decreases j - i,
{
    lemma_split_lines_nonempty(s.take(i));
    lemma_split_lines_nonempty(s.take(j));
    if i < j {
        lemma_split_lines_prefix(s, i, j - 1);
        lemma_split_lines_step(s, j - 1);
        lemma_split_lines_nonempty(s.take(j - 1));
        let a = split_lines(s.take(i));
        let b = split_lines(s.take(j - 1));
        let c = split_lines(s.take(j));
        if i == j - 1 && s[i] == '\n' {
            assert(a == b);
        }
        if a.len() == c.len() {
            assert(a.len() == b.len());
            assert(s[j - 1] != '\n');
            assert(a.last().is_prefix_of(b.last()));
            assert(c.last() == b.last().push(s[j - 1]));
        }
    }
}

/// Entries of all lines of `text`, in text order.
fn raw_entries(text: &[char], allow_empty_text: bool) -> (r: Vec<(u64, Vec<char>)>)
    requires
        lrc_fits(text@),
    ensures
        chars_entry_views(r@) == entries_of_lines(split_lines(text@), allow_empty_text),
{
    let ghost full = split_lines(text@);
    let mut raw: Vec<(u64, Vec<char>)> = Vec::new();
    let mut cur: Vec<char> = Vec::new();
    let mut i: usize = 0;
    assert(text@.take(0) =~= seq![]);
    while i < text.len()
        invariant
            i <= text@.len(),
            full == split_lines(text@),
            lrc_fits(text@),
            cur@ == split_lines(text@.take(i as int)).last(),
            chars_entry_views(raw@) == entries_of_lines(
                split_lines(text@.take(i as int)).drop_last(),
                allow_empty_text,
            ),
        decreases text.len() - i,
    {
        let c = text[i];
        let ghost a = split_lines(text@.take(i as int));
        proof {
            lemma_split_lines_step(text@, i as int);
            lemma_split_lines_nonempty(text@.take(i as int));
        }
        if c == '\n' {
            proof {
                lemma_split_lines_prefix(text@, i as int, text@.len() as int);
                assert(text@.take(text@.len() as int) == text@);
                assert(a.last() == full[a.len() - 1]);
                assert(tags_fit(trim(full[a.len() - 1])));
            }
            let entries = line_entries_exec(cur.as_slice(), allow_empty_text);
            let ghost old_raw = raw@;
            let mut entries = entries;
            raw.append(&mut entries);
            proof {
                let b = split_lines(text@.take(i + 1));
                assert(b.drop_last() == a);
                assert(a == a.drop_last().push(a.last()));
                assert(chars_entry_views(raw@) =~= chars_entry_views(old_raw) + line_entries(
                    a.last(),
                    allow_empty_text,
                ));
            }
            cur = Vec::new();
        } else {
            cur.push(c);
            proof {
                let b = split_lines(text@.take(i + 1));
                assert(b.drop_last() =~= a.drop_last());
            }
        }
        i += 1;
    }
    proof {
        assert(text@.take(text@.len() as int) == text@);
        lemma_split_lines_nonempty(text@);
        assert(tags_fit(trim(full[full.len() - 1])));
    }
    let entries = line_entries_exec(cur.as_slice(), allow_empty_text);
    let ghost old_raw = raw@;
    let mut entries = entries;
    raw.append(&mut entries);
    proof {
        assert(full == full.drop_last().push(full.last()));
        assert(chars_entry_views(raw@) =~= chars_entry_views(old_raw) + line_entries(
            full.last(),
            allow_empty_text,
        ));
    }
    raw
}

/// Position where `t` goes in `s` so that the elements with the same time
/// keep their order: after every element whose time is at most `t`,
/// counted from the end.
pub open spec fn insert_pos(s: Seq<(u64, Seq<char>)>, t: u64) -> int
    decreases s.len(),
{
    if s.len() == 0 {
        0
    } else if s.last().0 <= t {
        s.len() as int
    } else {
        insert_pos(s.drop_last(), t)
    }
}

/// Stable sort by time (what `sort_by_key` on the time gives).
pub open spec fn sort_by_time(s: Seq<(u64, Seq<char>)>) -> Seq<(u64, Seq<char>)>
    decreases s.len(),
{
    if s.len() == 0 {
        s
    } else {
        let sorted = sort_by_time(s.drop_last());
        sorted.insert(insert_pos(sorted, s.last().0), s.last())
    }
}

/// The `(time, text)` pairs of an LRC text, sorted by time with ties kept in
/// text order.
pub open spec fn lrc_text_spec(text: Seq<char>, allow_empty_text: bool) -> Seq<(u64, Seq<char>)> {
    sort_by_time(entries_of_lines(split_lines(text), allow_empty_text))
}

pub open spec fn entry_views(v: Seq<(u64, String)>) -> Seq<(u64, Seq<char>)> {
    v.map_values(|e: (u64, String)| (e.0, e.1@))
}

pub open spec fn chars_entry_views(v: Seq<(u64, Vec<char>)>) -> Seq<(u64, Seq<char>)> {
    v.map_values(|e: (u64, Vec<char>)| (e.0, e.1@))
}

proof fn lemma_insert_pos_bound(s: Seq<(u64, Seq<char>)>, t: u64)
    ensures
        0 <= insert_pos(s, t) <= s.len(),
    decreases s.len(),
{
    if s.len() > 0 && s.last().0 > t {
        lemma_insert_pos_bound(s.drop_last(), t);
    }
}

proof fn lemma_sort_len(s: Seq<(u64, Seq<char>)>)
    ensures
        sort_by_time(s).len() == s.len(),
    decreases s.len(),
{
    if s.len() > 0 {
        lemma_sort_len(s.drop_last());
        lemma_insert_pos_bound(sort_by_time(s.drop_last()), s.last().0);
    }
}

/// Whether the entries' times never decrease.
pub open spec fn times_nondecreasing(s: Seq<(u64, Seq<char>)>) -> bool {
    forall|i: int, j: int| 0 <= i <= j < s.len() ==> s[i].0 <= s[j].0
}

proof fn lemma_insert_pos_split(s: Seq<(u64, Seq<char>)>, t: u64)
    requires
        times_nondecreasing(s),
    ensures
        0 <= insert_pos(s, t) <= s.len(),
        forall|k: int| 0 <= k < insert_pos(s, t) ==> s[k].0 <= t,
        forall|k: int| insert_pos(s, t) <= k < s.len() ==> s[k].0 > t,
    decreases s.len(),
{
    if s.len() == 0 {
    } else if s.last().0 <= t {
        assert forall|k: int| 0 <= k < s.len() implies s[k].0 <= t by {
            assert(s[k].0 <= s[s.len() - 1].0);
        }
    } else {
        let d = s.drop_last();
        assert(times_nondecreasing(d)) by {
            assert forall|i: int, j: int| 0 <= i <= j < d.len() implies d[i].0 <= d[j].0 by {
                assert(d[i] == s[i] && d[j] == s[j]);
            }
        }
        lemma_insert_pos_split(d, t);
        assert forall|k: int| insert_pos(s, t) <= k < s.len() implies s[k].0 > t by {
            if k < d.len() {
                assert(d[k] == s[k]);
            }
        }
        assert forall|k: int| 0 <= k < insert_pos(s, t) implies s[k].0 <= t by {
            assert(d[k] == s[k]);
        }
    }
}

/// Sorting by time leaves the times in non-decreasing order.
pub proof fn lemma_sort_by_time_sorted(s: Seq<(u64, Seq<char>)>)
    ensures
        times_nondecreasing(sort_by_time(s)),
    decreases s.len(),
{
    if s.len() > 0 {
        let sorted = sort_by_time(s.drop_last());
        lemma_sort_by_time_sorted(s.drop_last());
        let x = s.last();
        lemma_insert_pos_split(sorted, x.0);
        let p = insert_pos(sorted, x.0);
        let r = sorted.insert(p, x);
        assert(r == sort_by_time(s));
        assert forall|i: int, j: int| 0 <= i <= j < r.len() implies r[i].0 <= r[j].0 by {
            if i < p && j < p {
                assert(r[i] == sorted[i] && r[j] == sorted[j]);
            } else if i < p && j == p {
                assert(r[i] == sorted[i]);
            } else if i < p && j > p {
                assert(r[i] == sorted[i] && r[j] == sorted[j - 1]);
            } else if i == p && j > p {
                assert(r[j] == sorted[j - 1]);
            } else if i > p {
                assert(r[i] == sorted[i - 1] && r[j] == sorted[j - 1]);
            }
        }
    }
}

/// The lines parsed from an LRC text come in time order.
pub proof fn lemma_lrc_text_sorted(text: Seq<char>, allow_empty_text: bool)
    ensures
        times_nondecreasing(lrc_text_spec(text, allow_empty_text)),
{
    lemma_sort_by_time_sorted(entries_of_lines(split_lines(text), allow_empty_text));
}

proof fn lemma_filter_from(s: Seq<(u64, Seq<char>)>, pred: spec_fn((u64, Seq<char>)) -> bool)
    ensures
        forall|k: int|
            0 <= k < s.filter(pred).len() ==> exists|j: int|
                0 <= j < s.len() && s[j] == #[trigger] s.filter(pred)[k],
    decreases s.len(),
{
    reveal(Seq::filter);
    if s.len() > 0 {
        let d = s.drop_last();
        lemma_filter_from(d, pred);
        let f = d.filter(pred);
        assert forall|k: int| 0 <= k < s.filter(pred).len() implies exists|j: int|
            0 <= j < s.len() && s[j] == #[trigger] s.filter(pred)[k] by {
            if pred(s.last()) && k == f.len() {
                assert(s[s.len() - 1] == s.filter(pred)[k]);
            } else {
                assert(s.filter(pred)[k] == f[k]);
                let j = choose|j: int| 0 <= j < d.len() && d[j] == #[trigger] f[k];
                assert(s[j] == d[j]);
            }
        }
    }
}

/// Keeping some of the entries keeps their time order.
pub proof fn lemma_filter_sorted(s: Seq<(u64, Seq<char>)>, pred: spec_fn((u64, Seq<char>)) -> bool)
    requires
        times_nondecreasing(s),
    ensures
        times_nondecreasing(s.filter(pred)),
    decreases s.len(),
{
    reveal(Seq::filter);
    if s.len() > 0 {
        let d = s.drop_last();
        assert(times_nondecreasing(d)) by {
            assert forall|i: int, j: int| 0 <= i <= j < d.len() implies d[i].0 <= d[j].0 by {
                assert(d[i] == s[i] && d[j] == s[j]);
            }
        }
        lemma_filter_sorted(d, pred);
        if pred(s.last()) {
            let f = d.filter(pred);
            let r = f.push(s.last());
            assert(r == s.filter(pred));
            lemma_filter_from(d, pred);
            assert forall|i: int, j: int| 0 <= i <= j < r.len() implies r[i].0 <= r[j].0 by {
                if j == f.len() {
                    if i < f.len() {
                        assert(r[i] == f[i]);
                        let jj = choose|jj: int| 0 <= jj < d.len() && d[jj] == #[trigger] f[i];
                        assert(d[jj] == s[jj]);
                        assert(s[jj].0 <= s[s.len() - 1].0);
                    }
                } else {
                    assert(r[i] == f[i] && r[j] == f[j]);
                }
            }
        }
    }
}

/// Position at which `t` is inserted, searched from the back.
fn insert_pos_exec(v: &Vec<(u64, Vec<char>)>, t: u64) -> (r: usize)
    ensures
        r == insert_pos(chars_entry_views(v@), t),
{
    let ghost vs = chars_entry_views(v@);
    let mut k = v.len();
    assert(vs.take(k as int) == vs);
    while k > 0 && v[k - 1].0 > t
        invariant
            k <= v@.len(),
            vs == chars_entry_views(v@),
            insert_pos(vs, t) == insert_pos(vs.take(k as int), t),
        decreases k,
    {
        proof {
            let p = vs.take(k as int);
            assert(p.last().0 == v@[k - 1].0);
            assert(p.drop_last() == vs.take(k - 1));
        }
        k -= 1;
    }
    proof {
        let p = vs.take(k as int);
        if k > 0 {
            assert(p.last().0 == v@[k - 1].0);
        } else {
            assert(p.len() == 0);
        }
        assert(vs.take(v@.len() as int) == vs);
    }
    k
}

/// Sorts entries by time, keeping entries with equal times in order.
fn sort_entries(raw: &Vec<(u64, Vec<char>)>) -> (out: Vec<(u64, Vec<char>)>)
    ensures
        chars_entry_views(out@) == sort_by_time(chars_entry_views(raw@)),
{
    let ghost rv = chars_entry_views(raw@);
    let mut out: Vec<(u64, Vec<char>)> = Vec::new();
    let mut i: usize = 0;
    while i < raw.len()
        invariant
            i <= raw@.len(),
            rv == chars_entry_views(raw@),
            chars_entry_views(out@) == sort_by_time(rv.take(i as int)),
        decreases raw.len() - i,
    {
        let t = raw[i].0;
        let txt = slice_to_vec(raw[i].1.as_slice(), 0, raw[i].1.len());
        assert(raw[i as int].1@.subrange(0, raw[i as int].1@.len() as int) == raw[i as int].1@);
        let pos = insert_pos_exec(&out, t);
        proof {
            lemma_insert_pos_bound(chars_entry_views(out@), t);
        }
        let ghost before = out@;
        out.insert(pos, (t, txt));
        proof {
            let p = rv.take(i + 1);
            assert(p.drop_last() == rv.take(i as int));
            assert(p.last() == (t, txt@));
            assert(chars_entry_views(out@) =~= chars_entry_views(before).insert(pos as int, (t, txt@)));
        }
        i += 1;
    }
    assert(rv.take(raw@.len() as int) == rv);
    out
}

} // verus!

verus! {

/// Whether the time tags of one line fit.
fn line_fits(line: &[char]) -> (r: bool)
    ensures
        r == tags_fit(trim(line@)),
{
    let l = trim_chars(line);
    let (times, _start) = scan_tags(l.as_slice());
    proof {
        lemma_tags_fit(l@);
    }
    let ghost ts = take_tags(l@).0;
    let mut i: usize = 0;
    while i < times.len()
        invariant
            i <= times@.len(),
            ints_of(times@) == ts,
            l@ == trim(line@),
            ts == take_tags(l@).0,
            tags_fit(l@) <==> forall|j: int| 0 <= j < ts.len() ==> #[trigger] ts[j] <= u64::MAX,
            forall|j: int| 0 <= j < i ==> #[trigger] ts[j] <= u64::MAX,
        decreases times.len() - i,
    {
        assert(ts[i as int] == times@[i as int] as int);
        if times[i] > (u64::MAX as u128) {
            assert(!(ts[i as int] <= u64::MAX));
            return false;
        }
        i += 1;
    }
    true
}

/// Whether every time tag of an LRC text fits in a `u64`; parsing a text
/// where one does not would overflow.
pub fn lrc_text_fits(text: &str) -> (r: bool)
    ensures
        r == lrc_fits(text@),
{
    let text = chars_of(text);
    let ghost full = split_lines(text@);
    let mut ok = true;
    let mut cur: Vec<char> = Vec::new();
    let mut i: usize = 0;
    assert(text@.take(0) =~= seq![]);
    while i < text.len()
        invariant
            i <= text@.len(),
            full == split_lines(text@),
            cur@ == split_lines(text@.take(i as int)).last(),
            ok == forall|k: int|
                0 <= k < split_lines(text@.take(i as int)).len() - 1 ==> tags_fit(
                    trim(#[trigger] split_lines(text@.take(i as int))[k]),
                ),
        decreases text.len() - i,
    {
        let c = text[i];
        let ghost a = split_lines(text@.take(i as int));
        proof {
            lemma_split_lines_step(text@, i as int);
            lemma_split_lines_nonempty(text@.take(i as int));
        }
        if c == '\n' {
            let f = line_fits(cur.as_slice());
            ok = ok && f;
            cur = Vec::new();
            proof {
                let b = split_lines(text@.take(i + 1));
                assert(b.len() == a.len() + 1);
                assert forall|k: int| 0 <= k < a.len() - 1 implies b[k] == a[k] by {}
                assert(b[a.len() - 1] == a.last());
            }
        } else {
            cur.push(c);
            proof {
                let b = split_lines(text@.take(i + 1));
                assert forall|k: int| 0 <= k < a.len() - 1 implies b[k] == a[k] by {}
            }
        }
        i += 1;
    }
    let f = line_fits(cur.as_slice());
    proof {
        assert(text@.take(text@.len() as int) == text@);
        lemma_split_lines_nonempty(text@);
        if ok && f {
            assert forall|k: int| 0 <= k < full.len() implies tags_fit(trim(#[trigger] full[k])) by {
                if k < full.len() - 1 {
                } else {
                    assert(full[k] == full.last());
                }
            }
        }
        if !ok {
            let k = choose|k: int|
                0 <= k < full.len() - 1 && !tags_fit(trim(#[trigger] full[k]));
            assert(!tags_fit(trim(full[k])));
        }
    }
    ok && f
}

/// Parses LRC text into `(time, text)` pairs sorted by time (ties keep text
/// order). Lines whose text is empty are skipped unless
/// `allow_empty_text`.
pub fn parse_lrc_text(text: &str, allow_empty_text: bool) -> (r: Vec<(u64, String)>)
    requires
        lrc_fits(text@),
    ensures
        entry_views(r@) == lrc_text_spec(text@, allow_empty_text),
{
    let cs = chars_of(text);
    let raw = raw_entries(cs.as_slice(), allow_empty_text);
    let sorted = sort_entries(&raw);
    let mut out: Vec<(u64, String)> = Vec::new();
    let mut i: usize = 0;
    while i < sorted.len()
        invariant
            i <= sorted@.len(),
            entry_views(out@) == chars_entry_views(sorted@).take(i as int),
        decreases sorted.len() - i,
    {
        let s = string_from_chars(sorted[i].1.as_slice());
        let ghost old_out = out@;
        out.push((sorted[i].0, s));
        proof {
            let sv = chars_entry_views(sorted@);
            assert(sv.take(i + 1) == sv.take(i as int).push(sv[i as int]));
            assert(entry_views(out@) =~= entry_views(old_out).push((sorted@[i as int].0, s@)));
        }
        i += 1;
    }
    assert(chars_entry_views(sorted@).take(sorted@.len() as int) == chars_entry_views(sorted@));
    out
}

} // verus!
