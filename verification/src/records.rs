//! Recovering structured search records from the provider's rendered text.
//!
//! The primary pass walks the text line by line, filling three accumulator
//! slots (title, url, description) and emitting a record at the earliest
//! point at which both the title and the url are known. If that pass finds
//! nothing, a fallback scan collects every bare `http://` or `https://`
//! substring and synthesizes a record around each.

use vstd::prelude::*;
use vstd::string::StringExecFns;
use crate::chars::all_char;
use crate::chars::chars_all;
use crate::chars::chars_have_prefix;
use crate::chars::chars_have_prefix_at;
use crate::chars::chars_of_str;
use crate::chars::chars_subrange;
use crate::chars::check_space_char;
use crate::chars::digit_chars;
use crate::chars::has_prefix;
use crate::chars::is_space_char;
use crate::chars::is_trimmed;
use crate::chars::lemma_trim_id;
use crate::chars::spec_digits;
use crate::chars::spec_trim;
use crate::chars::spec_trim_front;
use crate::chars::string_of_chars;
use crate::chars::trim_chars;

verus! {

/// One recovered search result: its place in the produced sequence is the
/// provider's relevance order.
#[derive(Debug, Clone)]
pub struct SearchResult {
    pub title: String,
    pub url: String,
    pub description: String,
}

/// The mathematical model of a record: its three fields as character
/// sequences. The parser's accumulator slots have the same shape.
pub struct RecordModel {
    pub title: Seq<char>,
    pub url: Seq<char>,
    pub description: Seq<char>,
}

impl View for SearchResult {
    type V = RecordModel;

    open spec fn view(&self) -> RecordModel {
        RecordModel { title: self.title@, url: self.url@, description: self.description@ }
    }
}

impl DeepView for SearchResult {
    type V = RecordModel;

    open spec fn deep_view(&self) -> RecordModel {
        self.view()
    }
}

/// The views of a sequence of character vectors.
pub open spec fn line_views(ls: Seq<Vec<char>>) -> Seq<Seq<char>> {
    ls.map_values(|v: Vec<char>| v@)
}

/// The views of a sequence of records.
pub open spec fn record_views(rs: Seq<SearchResult>) -> Seq<RecordModel> {
    rs.map_values(|r: SearchResult| r@)
}

// ---------------------------------------------------------------------------
// Splitting the raw text into lines.
// ---------------------------------------------------------------------------
/// The position of the first line feed at or after `from`, or the length of
/// `s` if there is none.
pub open spec fn find_nl(s: Seq<char>, from: int) -> int
    decreases s.len() - from,
    when 0 <= from <= s.len()
{
    if from >= s.len() {
        s.len() as int
    } else if s[from] == '\n' {
        from
    } else {
        find_nl(s, from + 1)
    }
}

pub proof fn lemma_find_nl(s: Seq<char>, from: int)
    requires
        0 <= from <= s.len(),
    ensures
        from <= find_nl(s, from) <= s.len(),
        find_nl(s, from) < s.len() ==> s[find_nl(s, from)] == '\n',
        forall|j: int| from <= j < find_nl(s, from) ==> s[j] != '\n',
    decreases s.len() - from,
{
    if from < s.len() && s[from] != '\n' {
        lemma_find_nl(s, from + 1);
    }
}

/// A line with one trailing carriage return removed, as the standard line
/// splitting does.
pub open spec fn strip_cr(s: Seq<char>) -> Seq<char> {
    if s.len() > 0 && s[s.len() - 1] == '\r' {
        s.drop_last()
    } else {
        s
    }
}

/// The lines of `s`: the segments between line feeds, each with one trailing
/// carriage return removed, and no final empty segment after a trailing
/// line feed.
pub open spec fn spec_lines(s: Seq<char>) -> Seq<Seq<char>>
    decreases s.len(),
    via spec_lines_decreases
{
    if s.len() == 0 {
        Seq::empty()
    } else {
        let j = find_nl(s, 0);
        let line0 = strip_cr(s.take(j));
        if j == s.len() {
            seq![line0]
        } else {
            seq![line0] + spec_lines(s.skip(j + 1))
        }
    }
}

#[via_fn]
proof fn spec_lines_decreases(s: Seq<char>) {
    if s.len() > 0 {
        lemma_find_nl(s, 0);
    }
}

// ---------------------------------------------------------------------------
// The line state machine of the primary pass.
// ---------------------------------------------------------------------------
/// The three accumulator slots, all starting empty.
pub open spec fn empty_accumulators() -> RecordModel {
    RecordModel { title: Seq::empty(), url: Seq::empty(), description: Seq::empty() }
}

/// A trimmed line the pass ignores: blank, or a pure separator run.
pub open spec fn line_is_skipped(l: Seq<char>) -> bool {
    l.len() == 0 || all_char(l, '=') || all_char(l, '-')
}

/// What remains of `l` after the prefix `p`, trimmed.
pub open spec fn rest_after(l: Seq<char>, p: Seq<char>) -> Seq<char> {
    spec_trim(l.skip(p.len() as int))
}

/// How one trimmed, non-skipped line updates the accumulator slots. The
/// checks are tried in a fixed priority order and the first that applies
/// wins.
pub open spec fn classify_line(st: RecordModel, l: Seq<char>) -> RecordModel {
    if has_prefix(l, "http://"@) || has_prefix(l, "https://"@) {
        RecordModel { title: st.title, url: l, description: st.description }
    } else if has_prefix(l, "URL:"@) {
        RecordModel { title: st.title, url: rest_after(l, "URL:"@), description: st.description }
    } else if has_prefix(l, "Title:"@) {
        RecordModel { title: rest_after(l, "Title:"@), url: st.url, description: st.description }
    } else if has_prefix(l, "Description:"@) {
        RecordModel { title: st.title, url: st.url, description: rest_after(l, "Description:"@) }
    } else if st.url.len() > 0 && st.title.len() == 0 {
        RecordModel { title: l, url: st.url, description: st.description }
    } else if st.url.len() > 0 && st.title.len() > 0 && st.description.len() == 0 {
        RecordModel { title: st.title, url: st.url, description: l }
    } else {
        st
    }
}

/// One whole step of the pass: trim the raw line, skip it or classify it,
/// and emit a record as soon as both the title and the url are filled.
/// Emission resets all three slots, so a description arriving later attaches
/// to the following record, not to the one already emitted.
pub open spec fn step_line(st: RecordModel, raw: Seq<char>) -> (RecordModel, Option<RecordModel>) {
    let l = spec_trim(raw);
    if line_is_skipped(l) {
        (st, None)
    } else {
        let c = classify_line(st, l);
        if c.url.len() > 0 && c.title.len() > 0 {
            (empty_accumulators(), Some(c))
        } else {
            (c, None)
        }
    }
}

/// The pass over a whole sequence of lines: the final accumulator state and
/// the emitted records in order.
pub open spec fn run_lines(st: RecordModel, lines: Seq<Seq<char>>) -> (RecordModel, Seq<
    RecordModel,
>)
    decreases lines.len(),
{
    if lines.len() == 0 {
        (st, Seq::empty())
    } else {
        let sr = step_line(st, lines[0]);
        let rest = run_lines(sr.0, lines.drop_first());
        match sr.1 {
            Some(r) => (rest.0, seq![r] + rest.1),
            None => (rest.0, rest.1),
        }
    }
}

/// The records the primary, line-oriented pass recovers from the raw text.
pub open spec fn primary_records(text: Seq<char>) -> Seq<RecordModel> {
    run_lines(empty_accumulators(), spec_lines(text)).1
}

// ---------------------------------------------------------------------------
// The fallback scan for bare URLs.
// ---------------------------------------------------------------------------
/// The length of the URL scheme prefix found at position `i`, or zero.
pub open spec fn url_prefix_len_at(s: Seq<char>, i: int) -> int {
    if has_prefix(s.skip(i), "https://"@) {
        8
    } else if has_prefix(s.skip(i), "http://"@) {
        7
    } else {
        0
    }
}

/// Whether a URL match begins at position `i`: a scheme prefix followed by
/// at least one non-whitespace character.
pub open spec fn url_match_at(s: Seq<char>, i: int) -> bool {
    let p = url_prefix_len_at(s, i);
    p > 0 && i + p < s.len() && !is_space_char(s[i + p])
}

/// The position of the first whitespace character at or after `j`, or the
/// length of `s`: a match extends maximally up to here.
pub open spec fn scan_end(s: Seq<char>, j: int) -> int
    decreases s.len() - j,
    when 0 <= j <= s.len()
{
    if j >= s.len() {
        s.len() as int
    } else if is_space_char(s[j]) {
        j
    } else {
        scan_end(s, j + 1)
    }
}

pub proof fn lemma_scan_end(s: Seq<char>, j: int)
    requires
        0 <= j <= s.len(),
    ensures
        j <= scan_end(s, j) <= s.len(),
    decreases s.len() - j,
{
    if j < s.len() && !is_space_char(s[j]) {
        lemma_scan_end(s, j + 1);
    }
}

/// The synthesized title of the fallback record at zero-based position `k`.
pub open spec fn fallback_title(k: int) -> Seq<char> {
    "Search Result "@ + spec_digits((k + 1) as nat)
}

/// The fallback records found at or after position `i`, numbering them from
/// zero-based position `k` on: one per maximal URL-shaped substring, in
/// order, non-overlapping, leftmost first, each with a synthesized title and
/// an empty description.
pub open spec fn fallback_records_from(s: Seq<char>, i: int, k: int) -> Seq<RecordModel>
    decreases s.len() - i,
    when 0 <= i <= s.len()
    via fallback_records_decreases
{
    if i >= s.len() {
        Seq::empty()
    } else if url_match_at(s, i) {
        let j = scan_end(s, i + url_prefix_len_at(s, i));
        seq![
            RecordModel {
                title: fallback_title(k),
                url: s.subrange(i, j),
                description: Seq::empty(),
            },
        ] + fallback_records_from(s, j, k + 1)
    } else {
        fallback_records_from(s, i + 1, k)
    }
}

#[via_fn]
proof fn fallback_records_decreases(s: Seq<char>, i: int, k: int) {
    if 0 <= i < s.len() && url_match_at(s, i) {
        lemma_scan_end(s, i + url_prefix_len_at(s, i));
    }
}

/// The records the fallback scan produces for the whole text.
pub open spec fn fallback_records(text: Seq<char>) -> Seq<RecordModel> {
    fallback_records_from(text, 0, 0)
}

/// What parsing the provider's raw text yields: the primary pass's records,
/// or the fallback's whenever the primary pass found none.
pub open spec fn parsed_records(text: Seq<char>) -> Seq<RecordModel> {
    let prim = primary_records(text);
    if prim.len() > 0 {
        prim
    } else {
        fallback_records(text)
    }
}

// ---------------------------------------------------------------------------
// The executable parser.
// ---------------------------------------------------------------------------
/// Splits the text into its lines.
fn split_lines(v: &Vec<char>) -> (lines: Vec<Vec<char>>)
    ensures
        line_views(lines@) == spec_lines(v@),
{
    let n: usize = v.len();
    let mut lines: Vec<Vec<char>> = Vec::new();
    let mut pos: usize = 0;
    proof {
        assert(v@.skip(0) =~= v@);
        assert(line_views(lines@) + spec_lines(v@) =~= spec_lines(v@));
    }
    while pos < n
        invariant
            pos <= n,
            n == v@.len(),
            spec_lines(v@) =~= line_views(lines@) + spec_lines(v@.skip(pos as int)),
        decreases n - pos,
    {
        let ghost w = v@.skip(pos as int);
        let mut j: usize = pos;
        while j < n && v[j] != '\n'
            invariant
                pos <= j <= n,
                n == v@.len(),
                w == v@.skip(pos as int),
                find_nl(w, 0) == find_nl(w, j - pos),
            decreases n - j,
        {
            proof {
                assert(w[j - pos] == v@[j as int]);
            }
            j = j + 1;
        }
        proof {
            if j < n {
                assert(w[j - pos] == v@[j as int]);
            }
            assert(find_nl(w, 0) == j - pos);
        }
        let end: usize = if j > pos && v[j - 1] == '\r' {
            proof {
                assert(w.take(j - pos)[j - 1 - pos] == v@[j - 1]);
            }
            j - 1
        } else {
            j
        };
        let line = chars_subrange(v, pos, end);
        proof {
            if j > pos && v@[j - 1] == '\r' {
                assert(w.take(j - pos).drop_last() =~= v@.subrange(pos as int, end as int));
            } else {
                if j > pos {
                    assert(w.take(j - pos)[j - pos - 1] == v@[j - 1]);
                }
                assert(w.take(j - pos) =~= v@.subrange(pos as int, end as int));
            }
            assert(strip_cr(w.take(j - pos)) == line@);
        }
        let ghost lv0 = line_views(lines@);
        lines.push(line);
        proof {
            assert(line_views(lines@) =~= lv0.push(strip_cr(w.take(j - pos))));
        }
        if j < n {
            proof {
                assert(w.skip(j - pos + 1) =~= v@.skip(j + 1));
                assert(spec_lines(w) == seq![strip_cr(w.take(j - pos))] + spec_lines(
                    v@.skip(j + 1),
                ));
                assert(spec_lines(v@) =~= line_views(lines@) + spec_lines(v@.skip(j + 1)));
            }
            pos = j + 1;
        } else {
            proof {
                assert(spec_lines(w) == seq![strip_cr(w.take(j - pos))]);
                assert(v@.skip(n as int) =~= Seq::<char>::empty());
                assert(spec_lines(v@) =~= line_views(lines@) + spec_lines(v@.skip(n as int)));
            }
            pos = n;
        }
    }
    proof {
        assert(v@.skip(n as int) =~= Seq::<char>::empty());
        assert(spec_lines(v@) =~= line_views(lines@));
    }
    lines
}

/// Recovers the sequence of search records from the provider's rendered
/// text. The primary line-oriented pass never fails; if it recovers no
/// record at all, the fallback scan over bare URLs supplies the result,
/// which may itself be empty.
pub fn extract_urls_from_results(raw: &str) -> (results: Vec<SearchResult>)
    ensures
        record_views(results@) == parsed_records(raw@),
{
    let text = chars_of_str(raw);
    let lines = split_lines(&text);
    let ghost all = line_views(lines@);
    let mut out: Vec<SearchResult> = Vec::new();
    let mut title: Vec<char> = Vec::new();
    let mut url: Vec<char> = Vec::new();
    let mut desc: Vec<char> = Vec::new();
    let mut i: usize = 0;
    proof {
        assert(all.skip(0) =~= all);
        assert(record_views(out@) + run_lines(empty_accumulators(), all).1 =~= run_lines(
            empty_accumulators(),
            all,
        ).1);
    }
    while i < lines.len()
        invariant
            i <= lines@.len(),
            all == line_views(lines@),
            run_lines(empty_accumulators(), all).0 == run_lines(
                RecordModel { title: title@, url: url@, description: desc@ },
                all.skip(i as int),
            ).0,
            run_lines(empty_accumulators(), all).1 =~= record_views(out@) + run_lines(
                RecordModel { title: title@, url: url@, description: desc@ },
                all.skip(i as int),
            ).1,
        decreases lines@.len() - i,
    {
        let ghost cur0 = RecordModel { title: title@, url: url@, description: desc@ };
        let ghost rawline = all[i as int];
        let ghost outtop = record_views(out@);
        proof {
            assert(lines@[i as int]@ == all[i as int]);
        }
        let line = trim_chars(&lines[i]);
        let ghost l = spec_trim(rawline);
        let skipped = line.len() == 0 || chars_all(&line, '=') || chars_all(&line, '-');
        if !skipped {
            if chars_have_prefix(&line, "http://") || chars_have_prefix(&line, "https://") {
                url = line;
            } else if chars_have_prefix(&line, "URL:") {
                let plen: usize = "URL:".unicode_len();
                url = trim_chars(&chars_subrange(&line, plen, line.len()));
                proof {
                    assert(line@.subrange(plen as int, line@.len() as int) =~= l.skip(plen as int));
                }
            } else if chars_have_prefix(&line, "Title:") {
                let plen: usize = "Title:".unicode_len();
                title = trim_chars(&chars_subrange(&line, plen, line.len()));
                proof {
                    assert(line@.subrange(plen as int, line@.len() as int) =~= l.skip(plen as int));
                }
            } else if chars_have_prefix(&line, "Description:") {
                let plen: usize = "Description:".unicode_len();
                desc = trim_chars(&chars_subrange(&line, plen, line.len()));
                proof {
                    assert(line@.subrange(plen as int, line@.len() as int) =~= l.skip(plen as int));
                }
            } else if url.len() > 0 && title.len() == 0 {
                title = line;
            } else if url.len() > 0 && title.len() > 0 && desc.len() == 0 {
                desc = line;
            }
            proof {
                assert(RecordModel { title: title@, url: url@, description: desc@ }
                    == classify_line(cur0, l));
            }
            if url.len() > 0 && title.len() > 0 {
                let rec = SearchResult {
                    title: string_of_chars(&title),
                    url: string_of_chars(&url),
                    description: string_of_chars(&desc),
                };
                proof {
                    assert(rec@ == classify_line(cur0, l));
                }
                out.push(rec);
                proof {
                    assert(record_views(out@) =~= outtop.push(classify_line(cur0, l)));
                }
                title = Vec::new();
                url = Vec::new();
                desc = Vec::new();
            }
        }
        proof {
            let curn = RecordModel { title: title@, url: url@, description: desc@ };
            let sl = step_line(cur0, rawline);
            assert(sl.0 == curn);
            assert(all.skip(i as int)[0] == all[i as int]);
            assert(all.skip(i as int).drop_first() =~= all.skip(i as int + 1));
            assert(run_lines(cur0, all.skip(i as int)).0 == run_lines(
                curn,
                all.skip(i as int + 1),
            ).0);
            match sl.1 {
                Some(r) => {
                    assert(record_views(out@) =~= outtop.push(r));
                    assert(run_lines(cur0, all.skip(i as int)).1 =~= seq![r] + run_lines(
                        curn,
                        all.skip(i as int + 1),
                    ).1);
                },
                None => {
                    assert(record_views(out@) == outtop);
                    assert(run_lines(cur0, all.skip(i as int)).1 =~= run_lines(
                        curn,
                        all.skip(i as int + 1),
                    ).1);
                },
            }
            assert(run_lines(empty_accumulators(), all).1 =~= record_views(out@) + run_lines(
                curn,
                all.skip(i as int + 1),
            ).1);
        }
        i = i + 1;
    }
    proof {
        assert(all.skip(lines@.len() as int) =~= Seq::<Seq<char>>::empty());
        assert(record_views(out@) =~= primary_records(text@));
    }
    if out.len() == 0 {
        let n: usize = text.len();
        let mut i: usize = 0;
        proof {
            assert(record_views(out@) =~= Seq::<RecordModel>::empty());
            assert(fallback_records_from(text@, 0, 0) =~= record_views(out@)
                + fallback_records_from(text@, 0, 0));
        }
        while i < n
            invariant
                i <= n,
                n == text@.len(),
                8 * out@.len() <= i,
                fallback_records_from(text@, 0, 0) =~= record_views(out@)
                    + fallback_records_from(text@, i as int, out@.len() as int),
            decreases n - i,
        {
            let plen: usize = if chars_have_prefix_at(&text, i, "https://") {
                8
            } else if chars_have_prefix_at(&text, i, "http://") {
                7
            } else {
                0
            };
            proof {
                reveal_strlit("https://");
                reveal_strlit("http://");
                assert(plen as int == url_prefix_len_at(text@, i as int));
            }
            if plen > 0 && i + plen < n && !check_space_char(text[i + plen]) {
                let start_end: usize = i + plen;
                let mut j: usize = start_end;
                while j < n && !check_space_char(text[j])
                    invariant
                        start_end <= j <= n,
                        n == text@.len(),
                        scan_end(text@, start_end as int) == scan_end(text@, j as int),
                    decreases n - j,
                {
                    j = j + 1;
                }
                proof {
                    assert(scan_end(text@, start_end as int) == j as int);
                    lemma_scan_end(text@, start_end as int + 1);
                    assert(scan_end(text@, start_end as int) == scan_end(
                        text@,
                        start_end as int + 1,
                    ));
                    assert(j >= start_end + 1);
                }
                let u = chars_subrange(&text, i, j);
                let mut title_s = String::new();
                title_s.append("Search Result ");
                let digits = digit_chars(out.len() + 1);
                title_s.append(string_of_chars(&digits).as_str());
                let rec = SearchResult {
                    title: title_s,
                    url: string_of_chars(&u),
                    description: String::new(),
                };
                let ghost out0 = record_views(out@);
                let ghost k0 = out@.len() as int;
                proof {
                    assert(rec@.title =~= fallback_title(k0));
                    assert(rec@.description =~= Seq::<char>::empty());
                }
                out.push(rec);
                proof {
                    assert(record_views(out@) =~= out0.push(rec@));
                    assert(fallback_records_from(text@, i as int, k0) == seq![
                        RecordModel {
                            title: fallback_title(k0),
                            url: text@.subrange(i as int, j as int),
                            description: Seq::empty(),
                        },
                    ] + fallback_records_from(text@, j as int, k0 + 1));
                    assert(rec@ == RecordModel {
                        title: fallback_title(k0),
                        url: text@.subrange(i as int, j as int),
                        description: Seq::empty(),
                    });
                    assert(fallback_records_from(text@, 0, 0) =~= record_views(out@)
                        + fallback_records_from(text@, j as int, out@.len() as int));
                }
                i = j;
            } else {
                proof {
                    assert(!url_match_at(text@, i as int));
                    assert(fallback_records_from(text@, i as int, out@.len() as int)
                        == fallback_records_from(text@, i as int + 1, out@.len() as int));
                }
                i = i + 1;
            }
        }
        proof {
            assert(fallback_records_from(text@, n as int, out@.len() as int) =~= Seq::<
                RecordModel,
            >::empty());
            assert(record_views(out@) =~= fallback_records(text@));
        }
    }
    out
}

// ---------------------------------------------------------------------------
// Laws of the primary pass.
// ---------------------------------------------------------------------------
/// No line feed anywhere in the sequence.
pub open spec fn no_newline(s: Seq<char>) -> bool {
    forall|i: int| 0 <= i < s.len() ==> s[i] != '\n'
}

/// A field fit for rendering on a labelled line of its own: already in
/// trimmed form, with no line feed inside.
pub open spec fn well_formed_field(s: Seq<char>) -> bool {
    is_trimmed(s) && no_newline(s)
}

/// A triple fit for the labelled rendering: a non-empty title, a non-empty
/// url and a description, each a well-formed field.
pub open spec fn well_formed_triple(t: RecordModel) -> bool {
    well_formed_field(t.title) && t.title.len() > 0 && well_formed_field(t.url) && t.url.len() > 0
        && well_formed_field(t.description)
}

/// One triple rendered in the provider's labelled form, one field per line.
pub open spec fn render_triple(t: RecordModel) -> Seq<char> {
    "Title: "@ + t.title + "\n"@ + "URL: "@ + t.url + "\n"@ + "Description: "@ + t.description
        + "\n"@
}

/// A whole sequence of triples rendered one after the other.
pub open spec fn render_triples(ts: Seq<RecordModel>) -> Seq<char>
    decreases ts.len(),
{
    if ts.len() == 0 {
        Seq::empty()
    } else {
        render_triple(ts[0]) + render_triples(ts.drop_first())
    }
}

/// The three lines one rendered triple splits into.
pub open spec fn triple_lines(t: RecordModel) -> Seq<Seq<char>> {
    seq!["Title: "@ + t.title, "URL: "@ + t.url, "Description: "@ + t.description]
}

/// The lines a whole rendering splits into.
pub open spec fn triples_lines(ts: Seq<RecordModel>) -> Seq<Seq<char>>
    decreases ts.len(),
{
    if ts.len() == 0 {
        Seq::empty()
    } else {
        triple_lines(ts[0]) + triples_lines(ts.drop_first())
    }
}

proof fn lemma_lines_of_line(c: Seq<char>, rest: Seq<char>)
    requires
        no_newline(c),
        c.len() > 0 ==> c[c.len() - 1] != '\r',
    ensures
        spec_lines(c + "\n"@ + rest) == seq![c] + spec_lines(rest),
{
    reveal_strlit("\n");
    let s = c + "\n"@ + rest;
    assert(s[c.len() as int] == '\n');
    lemma_find_nl(s, 0);
    let f = find_nl(s, 0);
    assert(forall|j: int| 0 <= j < c.len() ==> s[j] == c[j]);
    if f < c.len() {
        assert(s[f] != '\n');
    }
    if f > c.len() {
        assert(s[c.len() as int] != '\n');
    }
    assert(f == c.len());
    assert(s.take(f) =~= c);
    assert(strip_cr(c) == c);
    assert(s.skip(f + 1) =~= rest);
    assert(spec_lines(s) == seq![strip_cr(s.take(f))] + spec_lines(s.skip(f + 1)));
}

proof fn lemma_run_lines_append(st: RecordModel, a: Seq<Seq<char>>, b: Seq<Seq<char>>)
    ensures
        ({
            let ra = run_lines(st, a);
            let rb = run_lines(ra.0, b);
            run_lines(st, a + b).0 == rb.0 && run_lines(st, a + b).1 == ra.1 + rb.1
        }),
    decreases a.len(),
{
    let ra = run_lines(st, a);
    let rb = run_lines(ra.0, b);
    if a.len() == 0 {
        assert(a + b =~= b);
        assert(ra.1 + rb.1 =~= rb.1);
    } else {
        let sr = step_line(st, a[0]);
        assert((a + b)[0] == a[0]);
        assert((a + b).drop_first() =~= a.drop_first() + b);
        lemma_run_lines_append(sr.0, a.drop_first(), b);
        let ra1 = run_lines(sr.0, a.drop_first());
        let rb1 = run_lines(ra1.0, b);
        match sr.1 {
            Some(r) => {
                assert(ra.1 + rb.1 =~= seq![r] + (ra1.1 + rb1.1));
            },
            None => {
            },
        }
    }
}

proof fn lemma_lines_of_render(ts: Seq<RecordModel>)
    requires
        forall|i: int| 0 <= i < ts.len() ==> well_formed_triple(#[trigger] ts[i]),
    ensures
        spec_lines(render_triples(ts)) == triples_lines(ts),
    decreases ts.len(),
{
    reveal_strlit("Title: ");
    reveal_strlit("URL: ");
    reveal_strlit("Description: ");
    reveal_strlit("\n");
    if ts.len() == 0 {
    } else {
        let t = ts[0];
        assert(well_formed_triple(t));
        let rest = render_triples(ts.drop_first());
        let c1 = "Title: "@ + t.title;
        let c2 = "URL: "@ + t.url;
        let c3 = "Description: "@ + t.description;
        assert(no_newline(c1)) by {
            assert(forall|j: int| 0 <= j < 7 ==> "Title: "@[j] != '\n');
        }
        assert(no_newline(c2)) by {
            assert(forall|j: int| 0 <= j < 5 ==> "URL: "@[j] != '\n');
        }
        assert(no_newline(c3)) by {
            assert(forall|j: int| 0 <= j < 13 ==> "Description: "@[j] != '\n');
        }
        assert(c1[c1.len() - 1] != '\r') by {
            assert(c1[c1.len() - 1] == t.title[t.title.len() - 1]);
            assert(!is_space_char(t.title[t.title.len() - 1]));
        }
        assert(c2[c2.len() - 1] != '\r') by {
            assert(c2[c2.len() - 1] == t.url[t.url.len() - 1]);
            assert(!is_space_char(t.url[t.url.len() - 1]));
        }
        assert(c3[c3.len() - 1] != '\r') by {
            if t.description.len() == 0 {
                assert(c3[c3.len() - 1] == "Description: "@[12]);
            } else {
                assert(c3[c3.len() - 1] == t.description[t.description.len() - 1]);
                assert(!is_space_char(t.description[t.description.len() - 1]));
            }
        }
        lemma_lines_of_line(c3, rest);
        lemma_lines_of_line(c2, c3 + "\n"@ + rest);
        lemma_lines_of_line(c1, c2 + "\n"@ + (c3 + "\n"@ + rest));
        lemma_lines_of_render(ts.drop_first());
        assert(render_triples(ts) =~= c1 + "\n"@ + (c2 + "\n"@ + (c3 + "\n"@ + rest)));
        assert(spec_lines(render_triples(ts)) =~= triple_lines(t) + triples_lines(
            ts.drop_first(),
        ));
    }
}

proof fn lemma_run_one_triple(d: Seq<char>, t: RecordModel)
    requires
        well_formed_triple(t),
    ensures
        ({
            let st0 = RecordModel { title: Seq::empty(), url: Seq::empty(), description: d };
            let r = run_lines(st0, triple_lines(t));
            r.0 == RecordModel { title: Seq::empty(), url: Seq::empty(), description: t.description }
                && r.1 == seq![RecordModel { title: t.title, url: t.url, description: d }]
        }),
{
    reveal_strlit("Title: ");
    reveal_strlit("Title:");
    reveal_strlit("URL: ");
    reveal_strlit("URL:");
    reveal_strlit("Description: ");
    reveal_strlit("Description:");
    reveal_strlit("http://");
    reveal_strlit("https://");
    let st0 = RecordModel { title: Seq::empty(), url: Seq::empty(), description: d };
    let c1 = "Title: "@ + t.title;
    let c2 = "URL: "@ + t.url;
    let c3 = "Description: "@ + t.description;

    // Line one assigns the title and emits nothing.
    assert(c1[0] == 'T');
    assert(is_trimmed(c1)) by {
        assert(c1[c1.len() - 1] == t.title[t.title.len() - 1]);
    }
    lemma_trim_id(c1);
    assert(!line_is_skipped(c1)) by {
        assert(c1[0] != '=');
        assert(c1[0] != '-');
    }
    assert(!has_prefix(c1, "http://"@)) by {
        if has_prefix(c1, "http://"@) {
            assert(c1.subrange(0, 7)[0] == c1[0]);
        }
    }
    assert(!has_prefix(c1, "https://"@)) by {
        if has_prefix(c1, "https://"@) {
            assert(c1.subrange(0, 8)[0] == c1[0]);
        }
    }
    assert(!has_prefix(c1, "URL:"@)) by {
        if has_prefix(c1, "URL:"@) {
            assert(c1.subrange(0, 4)[0] == c1[0]);
        }
    }
    assert(has_prefix(c1, "Title:"@)) by {
        assert(c1.subrange(0, 6) =~= "Title:"@);
    }
    assert(rest_after(c1, "Title:"@) == t.title) by {
        assert(c1.skip(6) =~= seq![' '] + t.title);
        crate::chars::lemma_trim_space_prefixed(t.title);
    }
    let st1 = RecordModel { title: t.title, url: Seq::empty(), description: d };
    assert(classify_line(st0, c1) == st1);
    assert(step_line(st0, c1) == (st1, None::<RecordModel>));

    // Line two assigns the url and emits the record with the description
    // the slots held coming in.
    assert(c2[0] == 'U');
    assert(is_trimmed(c2)) by {
        assert(c2[c2.len() - 1] == t.url[t.url.len() - 1]);
    }
    lemma_trim_id(c2);
    assert(!line_is_skipped(c2)) by {
        assert(c2[0] != '=');
        assert(c2[0] != '-');
    }
    assert(!has_prefix(c2, "http://"@)) by {
        if has_prefix(c2, "http://"@) {
            assert(c2.subrange(0, 7)[0] == c2[0]);
        }
    }
    assert(!has_prefix(c2, "https://"@)) by {
        if has_prefix(c2, "https://"@) {
            assert(c2.subrange(0, 8)[0] == c2[0]);
        }
    }
    assert(has_prefix(c2, "URL:"@)) by {
        assert(c2.subrange(0, 4) =~= "URL:"@);
    }
    assert(rest_after(c2, "URL:"@) == t.url) by {
        assert(c2.skip(4) =~= seq![' '] + t.url);
        crate::chars::lemma_trim_space_prefixed(t.url);
    }
    let emitted = RecordModel { title: t.title, url: t.url, description: d };
    assert(classify_line(st1, c2) == emitted);
    assert(step_line(st1, c2) == (empty_accumulators(), Some(emitted)));

    // Line three assigns the description into freshly reset slots and emits
    // nothing: the description ends up attached to whatever comes next.
    let l3 = spec_trim(c3);
    if t.description.len() == 0 {
        assert(c3 =~= "Description: "@);
        assert(spec_trim_front(c3) == c3) by {
            assert(c3[0] == 'D');
            crate::chars::lemma_trim_front_id(c3);
        }
        assert(l3 == "Description:"@) by {
            assert(c3[c3.len() - 1] == ' ');
            assert(c3.drop_last() =~= "Description:"@);
            assert("Description:"@[11] == ':');
            crate::chars::lemma_trim_back_id("Description:"@);
        }
        assert(rest_after(l3, "Description:"@) == t.description) by {
            assert(l3.skip(12) =~= Seq::<char>::empty());
        }
    } else {
        assert(c3[0] == 'D');
        assert(is_trimmed(c3)) by {
            assert(c3[c3.len() - 1] == t.description[t.description.len() - 1]);
        }
        lemma_trim_id(c3);
        assert(l3 == c3);
        assert(rest_after(l3, "Description:"@) == t.description) by {
            assert(l3.skip(12) =~= seq![' '] + t.description);
            crate::chars::lemma_trim_space_prefixed(t.description);
        }
    }
    assert(l3[0] == 'D');
    assert(!line_is_skipped(l3)) by {
        assert(l3[0] != '=');
        assert(l3[0] != '-');
    }
    assert(!has_prefix(l3, "http://"@)) by {
        if has_prefix(l3, "http://"@) {
            assert(l3.subrange(0, 7)[0] == l3[0]);
        }
    }
    assert(!has_prefix(l3, "https://"@)) by {
        if has_prefix(l3, "https://"@) {
            assert(l3.subrange(0, 8)[0] == l3[0]);
        }
    }
    assert(!has_prefix(l3, "URL:"@)) by {
        if has_prefix(l3, "URL:"@) {
            assert(l3.subrange(0, 4)[0] == l3[0]);
        }
    }
    assert(!has_prefix(l3, "Title:"@)) by {
        if has_prefix(l3, "Title:"@) {
            assert(l3.subrange(0, 6)[0] == l3[0]);
        }
    }
    assert(has_prefix(l3, "Description:"@)) by {
        assert(l3.subrange(0, 12) =~= "Description:"@);
    }
    let st3 = RecordModel { title: Seq::empty(), url: Seq::empty(), description: t.description };
    assert(classify_line(empty_accumulators(), l3) == st3);
    assert(step_line(empty_accumulators(), c3) == (st3, None::<RecordModel>));

    // Stitch the three steps together.
    let ls = triple_lines(t);
    let ls1 = seq![c2, c3];
    let ls2 = seq![c3];
    assert(ls[0] == c1);
    assert(ls.drop_first() =~= ls1);
    assert(ls1[0] == c2);
    assert(ls1.drop_first() =~= ls2);
    assert(ls2[0] == c3);
    assert(ls2.drop_first() =~= Seq::<Seq<char>>::empty());
    assert(run_lines(st3, Seq::<Seq<char>>::empty()) == (st3, Seq::<RecordModel>::empty()));
    assert(run_lines(empty_accumulators(), ls2).0 == st3);
    assert(run_lines(empty_accumulators(), ls2).1 =~= Seq::<RecordModel>::empty());
    assert(run_lines(st1, ls1).0 == st3);
    assert(run_lines(st1, ls1).1 =~= seq![emitted]);
    assert(run_lines(st0, ls).0 == st3);
    assert(run_lines(st0, ls).1 =~= seq![emitted]);
}

proof fn lemma_run_triples(d: Seq<char>, ts: Seq<RecordModel>)
    requires
        forall|i: int| 0 <= i < ts.len() ==> well_formed_triple(#[trigger] ts[i]),
    ensures
        ({
            let st0 = RecordModel { title: Seq::empty(), url: Seq::empty(), description: d };
            let r = run_lines(st0, triples_lines(ts));
            &&& r.1.len() == ts.len()
            &&& forall|i: int|
                0 <= i < ts.len() ==> (#[trigger] r.1[i]).title == ts[i].title && r.1[i].url
                    == ts[i].url
            &&& forall|i: int|
                0 <= i < ts.len() ==> (#[trigger] r.1[i]).description == (if i == 0 {
                    d
                } else {
                    ts[i - 1].description
                })
            &&& r.0 == RecordModel {
                title: Seq::empty(),
                url: Seq::empty(),
                description: (if ts.len() > 0 {
                    ts[ts.len() - 1].description
                } else {
                    d
                }),
            }
        }),
    decreases ts.len(),
{
    let st0 = RecordModel { title: Seq::empty(), url: Seq::empty(), description: d };
    if ts.len() == 0 {
    } else {
        let t = ts[0];
        assert(well_formed_triple(t));
        lemma_run_one_triple(d, t);
        lemma_run_lines_append(st0, triple_lines(t), triples_lines(ts.drop_first()));
        lemma_run_triples(t.description, ts.drop_first());
        let r1 = run_lines(st0, triple_lines(t));
        let r2 = run_lines(r1.0, triples_lines(ts.drop_first()));
        let r = run_lines(st0, triples_lines(ts));
        assert(r.1 == r1.1 + r2.1);
        assert(r.1.len() == ts.len());
        assert(forall|i: int| 0 <= i < ts.drop_first().len() ==> #[trigger] ts.drop_first()[i]
            == ts[i + 1]);
        assert(forall|i: int| 1 <= i < ts.len() ==> #[trigger] r.1[i] == r2.1[i - 1]);
        assert(r.1[0] == RecordModel { title: t.title, url: t.url, description: d });
    }
}

/// The parser recovers exactly one record per rendered
/// `Title:`/`URL:`/`Description:` triple, in input order, with each
/// record's title and url taken from its own triple. A record is emitted as
/// soon as its title and url are both known, which is before its
/// `Description:` line arrives: so the first record carries an empty
/// description, and every later record carries the description of the
/// triple before it.
pub proof fn lemma_parser_recovers_triples(ts: Seq<RecordModel>)
    requires
        ts.len() > 0,
        forall|i: int| 0 <= i < ts.len() ==> well_formed_triple(#[trigger] ts[i]),
    ensures
        ({
            let recs = parsed_records(render_triples(ts));
            &&& recs.len() == ts.len()
            &&& forall|i: int|
                0 <= i < ts.len() ==> (#[trigger] recs[i]).title == ts[i].title && recs[i].url
                    == ts[i].url
            &&& recs[0].description == Seq::<char>::empty()
            &&& forall|i: int|
                1 <= i < ts.len() ==> (#[trigger] recs[i]).description == ts[i - 1].description
        }),
{
    lemma_lines_of_render(ts);
    lemma_run_triples(Seq::empty(), ts);
    assert(empty_accumulators() == RecordModel {
        title: Seq::<char>::empty(),
        url: Seq::<char>::empty(),
        description: Seq::<char>::empty(),
    });
    let recs = primary_records(render_triples(ts));
    assert(recs.len() == ts.len());
}

} // verus!
