//! How ffmpeg prints its loudness report, and the proof that the parser
//! reads back exactly the measured values ffmpeg printed, whatever came
//! before the report in the error stream.
use vstd::prelude::*;
use crate::text;
use super::loudnorm::{quoted, spec_parse_loudnorm, LoudnormField, LoudnormValues};

verus! {

/// No character of `s` is `c`.
pub open spec fn no_char(s: Seq<char>, c: char) -> bool {
    forall|i: int| 0 <= i < s.len() ==> s[i] != c
}

/// A value as ffmpeg prints it in the report (a number, `-inf`, or a word
/// such as `dynamic`): no quote, brace or underscore.
pub open spec fn is_measurement(s: Seq<char>) -> bool {
    &&& no_char(s, '"')
    &&& no_char(s, '{')
    &&& no_char(s, '}')
    &&& no_char(s, '_')
}

/// Everything the `loudnorm` filter reports after an analysis pass.
#[verifier::ext_equal]
pub struct LoudnormReport {
    /// The values the encoding pass uses.
    pub measured: LoudnormValues,
    pub output_i: Seq<char>,
    pub output_tp: Seq<char>,
    pub output_lra: Seq<char>,
    pub output_thresh: Seq<char>,
    pub normalization_type: Seq<char>,
}

/// The keys of the report, in the order ffmpeg prints them.
pub open spec fn printed_keys() -> Seq<Seq<char>> {
    seq![
        "input_i"@,
        "input_tp"@,
        "input_lra"@,
        "input_thresh"@,
        "output_i"@,
        "output_tp"@,
        "output_lra"@,
        "output_thresh"@,
        "normalization_type"@,
        "target_offset"@,
    ]
}

/// The values of the report, in the order ffmpeg prints them.
pub open spec fn printed_values(r: LoudnormReport) -> Seq<Seq<char>> {
    seq![
        r.measured.input_i,
        r.measured.input_tp,
        r.measured.input_lra,
        r.measured.input_thresh,
        r.output_i,
        r.output_tp,
        r.output_lra,
        r.output_thresh,
        r.normalization_type,
        r.measured.target_offset,
    ]
}

/// Every value of the report is printed as a plain value.
pub open spec fn plain_report(r: LoudnormReport) -> bool {
    forall|i: int| 0 <= i < 10 ==> is_measurement(#[trigger] printed_values(r)[i])
}

/// One line of the report: a tab, the quoted key, ` : ` and the quoted value.
#[verifier::opaque]
pub open spec fn printed_entry(key: Seq<char>, value: Seq<char>) -> Seq<char> {
    "\t\""@ + key + "\" : \""@ + value + "\""@
}

/// The `i`-th line of the report.
pub open spec fn entry_of(r: LoudnormReport, i: int) -> Seq<char> {
    printed_entry(printed_keys()[i], printed_values(r)[i])
}

/// The first `n` lines, separated by `,` and a line break.
pub open spec fn entries_text(r: LoudnormReport, n: nat) -> Seq<char>
    decreases n,
{
    if n <= 1 {
        entry_of(r, 0)
    } else {
        entries_text(r, (n - 1) as nat) + ",\n"@ + entry_of(r, n - 1)
    }
}

/// The report as ffmpeg prints it: braces around its ten lines.
#[verifier::opaque]
pub open spec fn printed_report(r: LoudnormReport) -> Seq<char> {
    "{\n"@ + entries_text(r, 10) + "\n}"@
}

/// What the proofs need of a key: no quote in it, an underscore at `u`,
/// and a first character that no separator of the block has.
pub open spec fn key_shape(k: Seq<char>, u: int) -> bool {
    &&& no_char(k, '"')
    &&& no_char(k, '{')
    &&& no_char(k, '}')
    &&& 0 <= u < k.len()
    &&& k[u] == '_'
    &&& k[0] != ' ' && k[0] != ',' && k[0] != '\n'
}

proof fn lemma_literals()
    ensures
        "\t\""@ =~= seq!['\t', '"'],
        "\" : \""@ =~= seq!['"', ' ', ':', ' ', '"'],
        "\""@ =~= seq!['"'],
        "{\n"@ =~= seq!['{', '\n'],
        ",\n"@ =~= seq![',', '\n'],
        "\n}"@ =~= seq!['\n', '}'],
{
    reveal_strlit("\t\"");
    reveal_strlit("\" : \"");
    reveal_strlit("\"");
    reveal_strlit("{\n");
    reveal_strlit(",\n");
    reveal_strlit("\n}");
}

/// The characters of an entry, position by position.
proof fn lemma_entry_layout(k: Seq<char>, v: Seq<char>)
    ensures
        ({
            let e = printed_entry(k, v);
            let n = k.len() as int;
            let m = v.len() as int;
            &&& e.len() == n + m + 8
            &&& e[0] == '\t'
            &&& e[1] == '"'
            &&& forall|t: int| 0 <= t < n ==> e[2 + t] == k[t]
            &&& e[2 + n] == '"'
            &&& e[3 + n] == ' '
            &&& e[4 + n] == ':'
            &&& e[5 + n] == ' '
            &&& e[6 + n] == '"'
            &&& forall|t: int| 0 <= t < m ==> e[7 + n + t] == v[t]
            &&& e[7 + n + m] == '"'
        }),
{
    reveal(printed_entry);
    lemma_literals();
}

proof fn lemma_window(b: Seq<char>, needle: Seq<char>, j: int, t: int)
    requires
        text::occurs_at(b, needle, j),
        0 <= t < needle.len(),
    ensures
        b[j + t] == needle[t],
{
    assert(b.subrange(j, j + needle.len())[t] == b[j + t]);
}

proof fn lemma_inside(b: Seq<char>, base: int, e: Seq<char>, x: int)
    requires
        0 <= base,
        base + e.len() <= b.len(),
        b.subrange(base, base + e.len()) =~= e,
        base <= x < base + e.len(),
    ensures
        b[x] == e[x - base],
{
    assert(b.subrange(base, base + e.len())[x - base] == b[x]);
}

proof fn lemma_quoted(k: Seq<char>)
    ensures
        quoted(k).len() == k.len() + 2,
        quoted(k)[0] == '"',
        quoted(k)[k.len() + 1int] == '"',
        forall|t: int| 0 <= t < k.len() ==> #[trigger] quoted(k)[1 + t] == k[t],
{
}

/// The quoted key `kf` occurs nowhere in an entry of another key `kg`.
proof fn lemma_no_key_in_other_entry(
    b: Seq<char>,
    base: int,
    kg: Seq<char>,
    ug: int,
    vg: Seq<char>,
    kf: Seq<char>,
    uf: int,
    j: int,
)
    requires
        key_shape(kg, ug),
        key_shape(kf, uf),
        kg != kf,
        is_measurement(vg),
        0 <= base,
        base + printed_entry(kg, vg).len() < b.len(),
        b.subrange(base, base + printed_entry(kg, vg).len()) =~= printed_entry(kg, vg),
        b[base + printed_entry(kg, vg).len()] == ',' || b[base + printed_entry(kg, vg).len()]
            == '\n',
        base <= j < base + printed_entry(kg, vg).len(),
    ensures
        !text::occurs_at(b, quoted(kf), j),
{
    let e = printed_entry(kg, vg);
    let n = kg.len() as int;
    let m = vg.len() as int;
    let nf = kf.len() as int;
    let r = j - base;
    let needle = quoted(kf);
    lemma_entry_layout(kg, vg);
    lemma_quoted(kf);
    if text::occurs_at(b, needle, j) {
        lemma_window(b, needle, j, 0);
        lemma_inside(b, base, e, j);
        if r == 1 {
            if nf < n {
                lemma_window(b, needle, j, 1 + nf);
                lemma_inside(b, base, e, j + 1 + nf);
                assert(e[2 + nf] == kg[nf]);
            } else if nf > n {
                lemma_window(b, needle, j, 1 + n);
                lemma_inside(b, base, e, j + 1 + n);
                assert(needle[1 + n] == kf[n]);
            } else {
                assert forall|t: int| 0 <= t < nf implies kf[t] == kg[t] by {
                    lemma_window(b, needle, j, 1 + t);
                    lemma_inside(b, base, e, j + 1 + t);
                    assert(e[2 + t] == kg[t]);
                    assert(needle[1 + t] == kf[t]);
                }
                assert(kf =~= kg);
            }
        } else if r == 2 + n {
            lemma_window(b, needle, j, 1);
            lemma_inside(b, base, e, j + 1);
            assert(needle[1 + 0int] == kf[0]);
        } else if r == 6 + n {
            if nf > m {
                lemma_window(b, needle, j, 1 + m);
                lemma_inside(b, base, e, j + 1 + m);
                assert(needle[1 + m] == kf[m]);
            } else {
                lemma_window(b, needle, j, 1 + uf);
                lemma_inside(b, base, e, j + 1 + uf);
                assert(e[7 + n + uf] == vg[uf]);
                assert(needle[1 + uf] == kf[uf]);
            }
        } else if r == 7 + n + m {
            lemma_window(b, needle, j, 1);
            assert(needle[1 + 0int] == kf[0]);
        } else if 2 <= r < 2 + n {
            assert(e[2 + (r - 2)] == kg[r - 2]);
        } else if 7 + n <= r < 7 + n + m {
            assert(e[7 + n + (r - 7 - n)] == vg[r - 7 - n]);
        }
    }
}

/// An entry holds no brace.
proof fn lemma_entry_no_braces(k: Seq<char>, u: int, v: Seq<char>)
    requires
        key_shape(k, u),
        is_measurement(v),
    ensures
        no_char(printed_entry(k, v), '{'),
        no_char(printed_entry(k, v), '}'),
{
    let e = printed_entry(k, v);
    let n = k.len() as int;
    let m = v.len() as int;
    lemma_entry_layout(k, v);
    assert forall|r: int| 0 <= r < e.len() implies e[r] != '{' && e[r] != '}' by {
        if 2 <= r < 2 + n {
            assert(e[2 + (r - 2)] == k[r - 2]);
        } else if 7 + n <= r < 7 + n + m {
            assert(e[7 + n + (r - 7 - n)] == v[r - 7 - n]);
        }
    }
}

/// `spec_extract` finds the value of the entry at `base` when the quoted key
/// occurs nowhere before it.
proof fn lemma_extract_entry(b: Seq<char>, f: LoudnormField, u: int, v: Seq<char>, base: int)
    requires
        key_shape(f.spec_key(), u),
        is_measurement(v),
        0 <= base,
        base + printed_entry(f.spec_key(), v).len() <= b.len(),
        b.subrange(base, base + printed_entry(f.spec_key(), v).len()) =~= printed_entry(
            f.spec_key(),
            v,
        ),
        forall|j: int| 0 <= j <= base ==> !text::occurs_at(b, quoted(f.spec_key()), j),
    ensures
        super::loudnorm::spec_extract(b, f) == Ok::<Seq<char>, super::loudnorm::LoudnormError>(v),
{
    let k = f.spec_key();
    let e = printed_entry(k, v);
    let n = k.len() as int;
    let m = v.len() as int;
    let needle = quoted(k);
    lemma_entry_layout(k, v);
    lemma_quoted(k);
    assert(b.subrange(base + 1, base + 1 + needle.len()) =~= needle) by {
        assert forall|t: int| 0 <= t < needle.len() implies b.subrange(
            base + 1,
            base + 1 + needle.len(),
        )[t] == needle[t] by {
            lemma_inside(b, base, e, base + 1 + t);
            if 1 <= t <= n {
                assert(needle[1 + (t - 1)] == k[t - 1]);
                assert(e[2 + (t - 1)] == k[t - 1]);
            }
        }
    }
    assert(text::is_first_occurrence(b, needle, base + 1));
    text::lemma_find_seq_is(b, needle, base + 1);
    let after = b.skip(base + 1 + needle.len());
    assert forall|t: int| 0 <= t < m + 5 implies after[t] == e[n + 3 + t] by {
        lemma_inside(b, base, e, base + n + 3 + t);
    }
    let quote = seq!['"'];
    assert(after.subrange(3, 4) =~= quote);
    assert forall|j: int| 0 <= j < 3 implies !text::occurs_at(after, quote, j) by {
        assert(after.subrange(j, j + 1)[0] == after[j]);
    }
    text::lemma_find_seq_is(after, quote, 3);
    let inner = after.skip(4);
    assert forall|t: int| 0 <= t < m implies inner[t] == v[t] by {
        assert(e[7 + n + t] == v[t]);
    }
    assert(inner[m] == '"');
    assert(inner.subrange(m, m + 1) =~= quote);
    assert forall|j: int| 0 <= j < m implies !text::occurs_at(inner, quote, j) by {
        assert(inner.subrange(j, j + 1)[0] == inner[j]);
    }
    text::lemma_find_seq_is(inner, quote, m);
    assert(inner.take(m) =~= v);
}

/// Where the `i`-th line starts in the printed report.
pub open spec fn entry_offset(r: LoudnormReport, i: nat) -> int
    decreases i,
{
    if i == 0 {
        2
    } else {
        entry_offset(r, (i - 1) as nat) + entry_of(r, i - 1).len() + 2
    }
}

/// Position of the underscore in the `i`-th key.
pub open spec fn underscore_at(i: int) -> int {
    if i < 4 {
        5
    } else if i == 8 {
        13
    } else {
        6
    }
}

proof fn lemma_printed_keys(i: int, g: int)
    requires
        0 <= i < 10,
        0 <= g < 10,
    ensures
        key_shape(printed_keys()[i], underscore_at(i)),
        i != g ==> printed_keys()[i] != printed_keys()[g],
{
    reveal_strlit("input_i");
    reveal_strlit("input_tp");
    reveal_strlit("input_lra");
    reveal_strlit("input_thresh");
    reveal_strlit("output_i");
    reveal_strlit("output_tp");
    reveal_strlit("output_lra");
    reveal_strlit("output_thresh");
    reveal_strlit("normalization_type");
    reveal_strlit("target_offset");
    let k = printed_keys()[i];
    if i != g {
        let h = printed_keys()[g];
        assert(k.len() != h.len() || k[0] != h[0]);
    }
}

proof fn lemma_entry_measured(r: LoudnormReport, i: int)
    requires
        plain_report(r),
        0 <= i < 10,
    ensures
        is_measurement(printed_values(r)[i]),
        no_char(entry_of(r, i), '{'),
        no_char(entry_of(r, i), '}'),
        entry_of(r, i)[0] == '\t',
        entry_of(r, i).len() >= 8,
{
    lemma_printed_keys(i, i);
    assert(is_measurement(printed_values(r)[i]));
    lemma_entry_no_braces(printed_keys()[i], underscore_at(i), printed_values(r)[i]);
    lemma_entry_layout(printed_keys()[i], printed_values(r)[i]);
}

/// The length of the first `n` lines.
proof fn lemma_entries_len(r: LoudnormReport, n: nat)
    requires
        1 <= n <= 10,
    ensures
        entries_text(r, n).len() == entry_offset(r, (n - 1) as nat) - 2 + entry_of(r, n - 1).len(),
    decreases n,
{
    lemma_literals();
    if n > 1 {
        lemma_entries_len(r, (n - 1) as nat);
    }
}

/// Line `i` sits at its offset among the first `n` lines.
proof fn lemma_entry_in_entries(r: LoudnormReport, n: nat, i: nat)
    requires
        i < n <= 10,
    ensures
        entry_offset(r, i) - 2 + entry_of(r, i as int).len() <= entries_text(r, n).len(),
        entries_text(r, n).subrange(
            entry_offset(r, i) - 2,
            entry_offset(r, i) - 2 + entry_of(r, i as int).len(),
        ) =~= entry_of(r, i as int),
    decreases n,
{
    lemma_literals();
    lemma_entries_len(r, n);
    if n > 1 {
        let m = (n - 1) as nat;
        lemma_entries_len(r, m);
        let prev = entries_text(r, m);
        assert(entries_text(r, n) == prev + ",\n"@ + entry_of(r, n - 1));
        let lo = entry_offset(r, i) - 2;
        let hi = lo + entry_of(r, i as int).len();
        lemma_offsets_grow(r, i, m);
        if i < m {
            lemma_offsets_grow(r, i, (m - 1) as nat);
            lemma_entry_in_entries(r, m, i);
            assert(entries_text(r, n).subrange(lo, hi) =~= prev.subrange(lo, hi));
        } else {
            assert(entries_text(r, n).subrange(lo, hi) =~= entry_of(r, i as int));
        }
    }
}

/// The separator after line `i` among the first `n` lines.
proof fn lemma_sep_in_entries(r: LoudnormReport, n: nat, i: nat)
    requires
        i + 1 < n <= 10,
    ensures
        entries_text(r, n)[entry_offset(r, i) - 2 + entry_of(r, i as int).len()] == ',',
        entries_text(r, n)[entry_offset(r, i) - 2 + entry_of(r, i as int).len() + 1] == '\n',
    decreases n,
{
    lemma_literals();
    let m = (n - 1) as nat;
    lemma_entries_len(r, m);
    let x = entry_offset(r, i) - 2 + entry_of(r, i as int).len();
    assert(entries_text(r, n) == entries_text(r, m) + ",\n"@ + entry_of(r, n - 1));
    lemma_offsets_grow(r, i, (m - 1) as nat);
    if i + 1 < m {
        lemma_sep_in_entries(r, m, i);
        lemma_entry_in_entries(r, m, i + 1);
        assert(entries_text(r, n)[x] == entries_text(r, m)[x]);
        assert(entries_text(r, n)[x + 1] == entries_text(r, m)[x + 1]);
    }
}

/// The braces around the report and its length.
proof fn lemma_report_frame(r: LoudnormReport)
    ensures
        ({
            let b = printed_report(r);
            &&& b[0] == '{'
            &&& b[1] == '\n'
            &&& b.len() == entry_offset(r, 9) + entry_of(r, 9).len() + 2
            &&& b.len() >= 4
            &&& b[b.len() - 2] == '\n'
            &&& b[b.len() - 1] == '}'
        }),
{
    reveal(printed_report);
    lemma_literals();
    lemma_entries_len(r, 10);
    lemma_offsets_grow(r, 0, 9);
}

/// Line `i` of the report at its offset.
proof fn lemma_report_entry(r: LoudnormReport, i: nat)
    requires
        i < 10,
    ensures
        entry_offset(r, i) + entry_of(r, i as int).len() <= printed_report(r).len(),
        printed_report(r).subrange(entry_offset(r, i), entry_offset(r, i) + entry_of(r, i as int).len())
            =~= entry_of(r, i as int),
{
    reveal(printed_report);
    lemma_literals();
    lemma_entry_in_entries(r, 10, i);
    let b = printed_report(r);
    let body = entries_text(r, 10);
    assert(b == "{\n"@ + body + "\n}"@);
    lemma_offsets_grow(r, 0, i);
    let lo = entry_offset(r, i);
    let hi = lo + entry_of(r, i as int).len();
    assert(b.subrange(lo, hi) =~= body.subrange(lo - 2, hi - 2));
}

/// The separator after line `i` of the report.
proof fn lemma_report_sep(r: LoudnormReport, i: nat)
    requires
        i < 9,
    ensures
        printed_report(r)[entry_offset(r, i) + entry_of(r, i as int).len()] == ',',
        printed_report(r)[entry_offset(r, i) + entry_of(r, i as int).len() + 1] == '\n',
{
    reveal(printed_report);
    lemma_literals();
    lemma_sep_in_entries(r, 10, i);
    lemma_entries_len(r, 10);
    lemma_entry_in_entries(r, 10, i + 1);
    lemma_offsets_grow(r, 0, i);
    let b = printed_report(r);
    let body = entries_text(r, 10);
    assert(b == "{\n"@ + body + "\n}"@);
    let x = entry_offset(r, i) + entry_of(r, i as int).len();
    assert(b[x] == body[x - 2]);
    assert(b[x + 1] == body[x - 1]);
}

/// Lines follow each other: each starts after the previous one and its
/// separator.
proof fn lemma_offsets_grow(r: LoudnormReport, i: nat, g: nat)
    requires
        i <= g,
    ensures
        2 <= entry_offset(r, i) <= entry_offset(r, g),
        i < g ==> entry_offset(r, i) + entry_of(r, i as int).len() + 2 <= entry_offset(r, g),
    decreases g,
{
    if i < g {
        lemma_offsets_grow(r, i, (g - 1) as nat);
    } else if i > 0 {
        lemma_offsets_grow(r, (i - 1) as nat, (i - 1) as nat);
    }
}

/// A position inside the lines of the report lies in some line or in the
/// separator after it.
proof fn lemma_locate(r: LoudnormReport, n: nat, x: int) -> (g: nat)
    requires
        1 <= n <= 10,
        2 <= x < entry_offset(r, n),
    ensures
        g < n,
        entry_offset(r, g) <= x < entry_offset(r, g) + entry_of(r, g as int).len() + 2,
    decreases n,
{
    let m = (n - 1) as nat;
    if x >= entry_offset(r, m) {
        m
    } else {
        lemma_locate(r, m, x)
    }
}

proof fn lemma_not_quote(b: Seq<char>, needle: Seq<char>, j: int)
    requires
        needle.len() > 0,
        needle[0] == '"',
        0 <= j < b.len(),
        b[j] != '"',
    ensures
        !text::occurs_at(b, needle, j),
{
    if text::occurs_at(b, needle, j) {
        lemma_window(b, needle, j, 0);
    }
}

/// The quoted `i`-th key occurs nowhere before its own line.
proof fn lemma_no_key_before(r: LoudnormReport, i: nat, j: int)
    requires
        plain_report(r),
        i < 10,
        0 <= j <= entry_offset(r, i),
    ensures
        !text::occurs_at(printed_report(r), quoted(printed_keys()[i as int]), j),
{
    let b = printed_report(r);
    let k = printed_keys()[i as int];
    let needle = quoted(k);
    lemma_report_frame(r);
    lemma_report_entry(r, i);
    lemma_quoted(k);
    lemma_printed_keys(i as int, i as int);
    lemma_offsets_grow(r, i, 9);
    if j == entry_offset(r, i) {
        lemma_entry_measured(r, i as int);
        lemma_inside(b, entry_offset(r, i), entry_of(r, i as int), j);
        lemma_not_quote(b, needle, j);
    } else if j < 2 {
        lemma_not_quote(b, needle, j);
    } else {
        let g = lemma_locate(r, i, j);
        let eg = entry_of(r, g as int);
        lemma_entry_measured(r, g as int);
        lemma_printed_keys(g as int, i as int);
        lemma_offsets_grow(r, g, 9);
        lemma_offsets_grow(r, g, i);
        lemma_report_entry(r, g);
        lemma_report_sep(r, g);
        if j < entry_offset(r, g) + eg.len() {
            lemma_no_key_in_other_entry(
                b,
                entry_offset(r, g),
                printed_keys()[g as int],
                underscore_at(g as int),
                printed_values(r)[g as int],
                k,
                underscore_at(i as int),
                j,
            );
        } else {
            lemma_not_quote(b, needle, j);
        }
    }
}

/// No brace inside the report but the opening and the closing one.
proof fn lemma_report_braces(r: LoudnormReport, x: int)
    requires
        plain_report(r),
        0 < x < printed_report(r).len() - 1,
    ensures
        printed_report(r)[x] != '{',
        printed_report(r)[x] != '}',
{
    let b = printed_report(r);
    lemma_report_frame(r);
    if x >= 2 {
        let last = entry_offset(r, 9) + entry_of(r, 9).len();
        if x < last {
            let g: nat = if x >= entry_offset(r, 9) { 9 } else { lemma_locate(r, 9, x) };
            let eg = entry_of(r, g as int);
            lemma_entry_measured(r, g as int);
            lemma_offsets_grow(r, g, 9);
            lemma_report_entry(r, g);
            if x < entry_offset(r, g) + eg.len() {
                lemma_inside(b, entry_offset(r, g), eg, x);
            } else {
                lemma_report_sep(r, g);
            }
        }
    }
}

/// The object that the parser cuts out of the stream is the printed report.
proof fn lemma_json_block_found(preamble: Seq<char>, r: LoudnormReport)
    requires
        plain_report(r),
    ensures
        super::loudnorm::spec_json_block(preamble + printed_report(r)) == Ok::<
            Seq<char>,
            super::loudnorm::LoudnormError,
        >(printed_report(r)),
{
    let b = printed_report(r);
    let s = preamble + b;
    let p = preamble.len() as int;
    lemma_report_frame(r);
    assert(s[p] == '{');
    assert forall|j: int| p < j < s.len() implies s[j] != '{' by {
        if j - p < b.len() - 1 {
            lemma_report_braces(r, j - p);
        }
    }
    text::lemma_rfind_char_is(s, '{', p);
    assert(s.skip(p) =~= b);
    let close = seq!['}'];
    assert(b.subrange(b.len() - 1, b.len() as int) =~= close);
    assert forall|j: int| 0 <= j < b.len() - 1 implies !text::occurs_at(b, close, j) by {
        assert(b.subrange(j, j + 1)[0] == b[j]);
        if j > 0 {
            lemma_report_braces(r, j);
        }
    }
    text::lemma_find_seq_is(b, close, b.len() - 1);
    assert(s.subrange(p, p + (b.len() - 1) + 1) =~= b);
}

/// The field printed on line `i` is read from that line.
proof fn lemma_field_read(r: LoudnormReport, i: nat, f: LoudnormField)
    requires
        plain_report(r),
        i < 10,
        f.spec_key() == printed_keys()[i as int],
    ensures
        super::loudnorm::spec_extract(printed_report(r), f) == Ok::<
            Seq<char>,
            super::loudnorm::LoudnormError,
        >(printed_values(r)[i as int]),
{
    let b = printed_report(r);
    lemma_report_frame(r);
    lemma_report_entry(r, i);
    lemma_printed_keys(i as int, i as int);
    lemma_entry_measured(r, i as int);
    lemma_offsets_grow(r, i, 9);
    assert forall|j: int| 0 <= j <= entry_offset(r, i) implies !text::occurs_at(
        b,
        quoted(f.spec_key()),
        j,
    ) by {
        lemma_no_key_before(r, i, j);
    }
    lemma_extract_entry(b, f, underscore_at(i as int), printed_values(r)[i as int], entry_offset(r, i));
}

/// Whatever ffmpeg printed before it, a loudness report as ffmpeg prints it
/// is read back as exactly the measured values it holds.
pub proof fn law_reads_back_printed_report(preamble: Seq<char>, r: LoudnormReport)
    requires
        plain_report(r),
    ensures
        spec_parse_loudnorm(preamble + printed_report(r)) == Ok::<
            LoudnormValues,
            super::loudnorm::LoudnormError,
        >(r.measured),
{
    let b = printed_report(r);
    lemma_json_block_found(preamble, r);
    reveal_strlit("input_i");
    reveal_strlit("input_tp");
    reveal_strlit("input_lra");
    reveal_strlit("input_thresh");
    reveal_strlit("target_offset");
    lemma_field_read(r, 0, LoudnormField::InputI);
    lemma_field_read(r, 1, LoudnormField::InputTp);
    lemma_field_read(r, 2, LoudnormField::InputLra);
    lemma_field_read(r, 3, LoudnormField::InputThresh);
    lemma_field_read(r, 9, LoudnormField::TargetOffset);
    let v = super::loudnorm::spec_values(b);
    assert(v matches Ok(w) && w =~= r.measured);
}

/// The encoding pass normalises with the values the analysis pass measured:
/// after a successful analysis whose output ends with ffmpeg's report, the
/// next step encodes with exactly those measurements.
pub proof fn law_encoding_uses_measurements(
    job: super::EncodeJob,
    preamble: Seq<char>,
    r: LoudnormReport,
)
    requires
        plain_report(r),
        job.format.spec_requires_ffmpeg(),
    ensures
        job.spec_after_analysis(true, preamble + printed_report(r)) == super::StepView::RunEncode(
            super::encode_args(job.format, r.measured, job.volume_pct as nat),
        ),
{
    law_reads_back_printed_report(preamble, r);
}

} // verus!
