//! The iCalendar feed of a building's Kehrwoche duties: one all-day
//! `VEVENT` per Kehrwoche week (Monday to Sunday), so residents can
//! subscribe to the cleaning schedule in their calendar app.

use crate::dates::{
    chrono_format_date, chrono_format_utc, format_date, format_utc, utc_format_char, utc_now, Date,
    UtcTime,
};
use crate::scheduler::{week_views, WeekAssignment, WeekView};
use crate::web::pdf::{sanitize_filename, sanitize_spec};
use crate::text::{
    all_digits, lemma_decimal_digits, lemma_padded_digits, decimal, digits_value, int_decimal, int_padded, is_digit, push_char, push_decimal,
    push_int, push_int_padded, utf8_len, utf8_width, char_utf8_width, lemma_utf8_len_push,
    zero_pad,
};
use vstd::prelude::*;

verus! {

/// The feed always covers the current ISO year and the following one, so a
/// subscription reaches at least a full year ahead and never goes stale on
/// January 1st.
pub const FEED_YEARS: i32 = 2;

/// `Kehrwoche-{sanitized name}.ics`.
pub open spec fn ical_filename_spec(building_name: Seq<char>) -> Seq<char> {
    "Kehrwoche-"@ + sanitize_spec(building_name) + ".ics"@
}

/// The download name of a building's calendar feed.
pub fn ical_filename(building_name: &str) -> (res: String)
    ensures
        res@ == ical_filename_spec(building_name@),
{
    let safe = sanitize_filename(building_name);
    let mut out = String::from_str("Kehrwoche-");
    out.append(safe.as_str());
    out.append(".ics");
    out
}

// ---------------------------------------------------------------------------
// Event identifiers

/// `kehrwoche-{year}-{iso_week:02}-{slug}@kehrkraft`.
pub open spec fn uid_spec(slug: Seq<char>, year: int, iso_week: int) -> Seq<char> {
    "kehrwoche-"@ + int_decimal(year) + seq!['-'] + int_padded(iso_week, 2) + seq!['-'] + slug
        + "@kehrkraft"@
}

/// Stable, unique event identifier across regenerations of the feed, so
/// subscribing calendar apps replace events instead of duplicating them.
/// The secret slug is unique per building and never changes.
pub fn uid_for(slug: &str, year: i32, iso_week: u32) -> (res: String)
    ensures
        res@ == uid_spec(slug@, year as int, iso_week as int),
{
    let mut out = String::from_str("kehrwoche-");
    push_int(&mut out, year as i64);
    push_char(&mut out, '-');
    push_int_padded(&mut out, iso_week as i64, 2);
    push_char(&mut out, '-');
    out.append(slug);
    out.append("@kehrkraft");
    assert(out@ =~= uid_spec(slug@, year as int, iso_week as int));
    out
}

/// `d1 + "-" + r1 == d2 + "-" + r2` with digit runs `d1`, `d2` splits the
/// same way on both sides.
proof fn lemma_split_at_dash(d1: Seq<char>, r1: Seq<char>, d2: Seq<char>, r2: Seq<char>)
    requires
        all_digits(d1),
        all_digits(d2),
        d1 + seq!['-'] + r1 == d2 + seq!['-'] + r2,
    ensures
        d1 == d2,
        r1 == r2,
{
    let x = d1 + seq!['-'] + r1;
    let y = d2 + seq!['-'] + r2;
    if d1.len() < d2.len() {
        assert(x[d1.len() as int] == '-');
        assert(y[d1.len() as int] == d2[d1.len() as int]);
        assert(is_digit(d2[d1.len() as int]));
    } else if d2.len() < d1.len() {
        assert(y[d2.len() as int] == '-');
        assert(x[d2.len() as int] == d1[d2.len() as int]);
        assert(is_digit(d1[d2.len() as int]));
    }
    assert(d1 =~= x.subrange(0, d1.len() as int));
    assert(d2 =~= y.subrange(0, d2.len() as int));
    assert(r1 =~= x.subrange(d1.len() as int + 1, x.len() as int));
    assert(r2 =~= y.subrange(d2.len() as int + 1, y.len() as int));
}

/// Different weeks or buildings never share an event identifier: the
/// identifier determines the slug, the year and the ISO week.
#[verifier::spinoff_prover]
#[verifier::rlimit(40)]
pub proof fn law_uid_identifies_week_and_building(
    slug1: Seq<char>,
    year1: int,
    week1: int,
    slug2: Seq<char>,
    year2: int,
    week2: int,
)
    requires
        week1 >= 0,
        week2 >= 0,
        uid_spec(slug1, year1, week1) == uid_spec(slug2, year2, week2),
    ensures
        slug1 == slug2,
        year1 == year2,
        week1 == week2,
{
    let head = "kehrwoche-"@;
    let tail = "@kehrkraft"@;
    let p1 = int_padded(week1, 2);
    let p2 = int_padded(week2, 2);
    let rest1 = int_decimal(year1) + seq!['-'] + (p1 + seq!['-'] + slug1 + tail);
    let rest2 = int_decimal(year2) + seq!['-'] + (p2 + seq!['-'] + slug2 + tail);
    assert(uid_spec(slug1, year1, week1) =~= head + rest1);
    assert(uid_spec(slug2, year2, week2) =~= head + rest2);
    assert(rest1 =~= (head + rest1).subrange(head.len() as int, (head + rest1).len() as int));
    assert(rest2 =~= (head + rest2).subrange(head.len() as int, (head + rest2).len() as int));
    assert(rest1 == rest2);
    let m1: nat = if year1 < 0 { (-year1) as nat } else { year1 as nat };
    let m2: nat = if year2 < 0 { (-year2) as nat } else { year2 as nat };
    lemma_decimal_digits(m1);
    lemma_decimal_digits(m2);
    let q1 = p1 + seq!['-'] + slug1 + tail;
    let q2 = p2 + seq!['-'] + slug2 + tail;
    if year1 < 0 && year2 < 0 {
        assert(rest1 =~= seq!['-'] + (decimal(m1) + seq!['-'] + q1));
        assert(rest2 =~= seq!['-'] + (decimal(m2) + seq!['-'] + q2));
        assert(decimal(m1) + seq!['-'] + q1 =~= rest1.subrange(1, rest1.len() as int));
        assert(decimal(m2) + seq!['-'] + q2 =~= rest2.subrange(1, rest2.len() as int));
        lemma_split_at_dash(decimal(m1), q1, decimal(m2), q2);
    } else if year1 >= 0 && year2 >= 0 {
        assert(rest1 =~= decimal(m1) + seq!['-'] + q1);
        assert(rest2 =~= decimal(m2) + seq!['-'] + q2);
        lemma_split_at_dash(decimal(m1), q1, decimal(m2), q2);
    } else if year1 < 0 {
        assert(rest1[0] == '-');
        assert(rest2[0] == decimal(m2)[0]);
        assert(is_digit(decimal(m2)[0]));
    } else {
        assert(rest2[0] == '-');
        assert(rest1[0] == decimal(m1)[0]);
        assert(is_digit(decimal(m1)[0]));
    }
    assert(m1 == m2);
    lemma_padded_digits(week1 as nat, 2);
    lemma_padded_digits(week2 as nat, 2);
    assert(q1 =~= p1 + seq!['-'] + (slug1 + tail));
    assert(q2 =~= p2 + seq!['-'] + (slug2 + tail));
    lemma_split_at_dash(p1, slug1 + tail, p2, slug2 + tail);
    assert(slug1 =~= (slug1 + tail).subrange(0, slug1.len() as int));
    assert(slug2 =~= (slug2 + tail).subrange(0, slug2.len() as int));
}

// ---------------------------------------------------------------------------
// Escaping and folding

/// The escape of one character of a property value (RFC 5545 §3.3.11).
pub open spec fn escape_char(c: char) -> Seq<char> {
    if c == '\\' {
        seq!['\\', '\\']
    } else if c == ';' {
        seq!['\\', ';']
    } else if c == ',' {
        seq!['\\', ',']
    } else if c == '\n' {
        seq!['\\', 'n']
    } else {
        seq![c]
    }
}

/// A property value with every character escaped.
pub open spec fn escape_spec(s: Seq<char>) -> Seq<char>
    decreases s.len(),
{
    if s.len() == 0 {
        seq![]
    } else {
        escape_spec(s.drop_last()) + escape_char(s.last())
    }
}

/// Escape a property value per RFC 5545 §3.3.11: backslash, semicolon,
/// comma, and newline.
pub fn escape_ical(s: &str) -> (res: String)
    ensures
        res@ == escape_spec(s@),
{
    let n = s.unicode_len();
    let mut out = String::new();
    let mut i: usize = 0;
    while i < n
        invariant
            n == s@.len(),
            i <= n,
            out@ == escape_spec(s@.subrange(0, i as int)),
        decreases n - i,
    {
        let c = s.get_char(i);
        if c == '\\' {
            push_char(&mut out, '\\');
            push_char(&mut out, '\\');
        } else if c == ';' {
            push_char(&mut out, '\\');
            push_char(&mut out, ';');
        } else if c == ',' {
            push_char(&mut out, '\\');
            push_char(&mut out, ',');
        } else if c == '\n' {
            push_char(&mut out, '\\');
            push_char(&mut out, 'n');
        } else {
            push_char(&mut out, c);
        }
        assert(s@.subrange(0, i + 1).drop_last() =~= s@.subrange(0, i as int));
        assert(out@ =~= escape_spec(s@.subrange(0, i + 1)));
        i = i + 1;
    }
    assert(s@.subrange(0, n as int) =~= s@);
    out
}

/// An escaped value holds no line break, so it cannot end its line early.
pub proof fn law_escaped_value_has_no_newline(s: Seq<char>)
    ensures
        forall|i: int| 0 <= i < escape_spec(s).len() ==> #[trigger] escape_spec(s)[i] != '\n',
    decreases s.len(),
{
    if s.len() > 0 {
        law_escaped_value_has_no_newline(s.drop_last());
        let a = escape_spec(s.drop_last());
        let b = escape_char(s.last());
        assert forall|i: int| 0 <= i < (a + b).len() implies #[trigger] (a + b)[i] != '\n' by {
            if i >= a.len() {
                assert((a + b)[i] == b[i - a.len()]);
            }
        }
    }
}

/// The most octets of one physical line.
pub open spec fn fold_limit() -> nat {
    75
}

/// Folding the characters of `s` one after another: the physical lines
/// already closed, and the one being filled. The first physical line may
/// carry 75 octets; each continuation line starts with a space, which
/// leaves 74 for its characters. A character that would overflow the current
/// line starts the next one.
pub open spec fn fold_state(s: Seq<char>) -> (Seq<Seq<char>>, Seq<char>)
    decreases s.len(),
{
    if s.len() == 0 {
        (seq![], seq![])
    } else {
        let prev = fold_state(s.drop_last());
        let c = s.last();
        let limit: nat = if prev.0.len() == 0 {
            fold_limit()
        } else {
            (fold_limit() - 1) as nat
        };
        if utf8_len(prev.1) + utf8_width(c) > limit {
            (prev.0.push(prev.1), seq![c])
        } else {
            (prev.0, prev.1.push(c))
        }
    }
}

/// The physical lines a long line folds into.
pub open spec fn fold_chunks(s: Seq<char>) -> Seq<Seq<char>> {
    let st = fold_state(s);
    st.0.push(st.1)
}

/// Physical lines joined by CRLF and a continuation space.
pub open spec fn join_folded(chunks: Seq<Seq<char>>) -> Seq<char>
    decreases chunks.len(),
{
    if chunks.len() == 0 {
        seq![]
    } else if chunks.len() == 1 {
        chunks[0]
    } else {
        join_folded(chunks.drop_last()) + seq!['\r', '\n', ' '] + chunks.last()
    }
}

/// Each closed physical line followed by CRLF and a continuation space.
pub open spec fn join_closed(chunks: Seq<Seq<char>>) -> Seq<char>
    decreases chunks.len(),
{
    if chunks.len() == 0 {
        seq![]
    } else {
        join_closed(chunks.drop_last()) + chunks.last() + seq!['\r', '\n', ' ']
    }
}

/// A line of at most 75 octets stays as it is; a longer one is folded.
pub open spec fn fold_spec(line: Seq<char>) -> Seq<char> {
    if utf8_len(line) <= fold_limit() {
        line
    } else {
        join_folded(fold_chunks(line))
    }
}

proof fn lemma_join_closed_then_last(done: Seq<Seq<char>>, cur: Seq<char>)
    ensures
        join_folded(done.push(cur)) == join_closed(done) + cur,
    decreases done.len(),
{
    if done.len() == 0 {
        assert(done.push(cur).len() == 1);
        assert(join_closed(done) + cur =~= cur);
    } else {
        let d = done.drop_last();
        lemma_join_closed_then_last(d, done.last());
        assert(done.push(cur).drop_last() =~= done);
        assert(d.push(done.last()) =~= done);
        assert(join_folded(done.push(cur)) == join_folded(done) + seq!['\r', '\n', ' '] + cur);
        assert(join_folded(done) + seq!['\r', '\n', ' '] + cur =~= join_closed(done) + cur);
    }
}

/// Whether `s` takes at most `limit` octets in UTF-8.
fn fits_octets(s: &str, limit: usize) -> (res: bool)
    ensures
        res == (utf8_len(s@) <= limit),
{
    let n = s.unicode_len();
    let mut i: usize = 0;
    let mut acc: usize = 0;
    while i < n
        invariant
            n == s@.len(),
            i <= n,
            acc == utf8_len(s@.subrange(0, i as int)),
            acc <= limit,
        decreases n - i,
    {
        let w = char_utf8_width(s.get_char(i));
        proof {
            lemma_utf8_len_push(s@.subrange(0, i as int), s@[i as int]);
            assert(s@.subrange(0, i + 1) =~= s@.subrange(0, i as int).push(s@[i as int]));
        }
        if w > limit - acc {
            proof {
                crate::text::lemma_utf8_len_concat(
                    s@.subrange(0, i + 1),
                    s@.subrange(i + 1, n as int),
                );
                assert(s@.subrange(0, i + 1) + s@.subrange(i + 1, n as int) =~= s@);
            }
            return false;
        }
        acc = acc + w;
        i = i + 1;
    }
    assert(s@.subrange(0, n as int) =~= s@);
    true
}

/// Fold a single iCal line into physical lines of at most 75 octets
/// (RFC 5545 §3.1), continuing on new lines that start with a single space.
/// Breaks on character boundaries so multi-byte UTF-8 sequences stay intact.
pub fn fold_line(line: &str) -> (res: String)
    ensures
        res@ == fold_spec(line@),
{
    if fits_octets(line, 75) {
        return String::from_str(line);
    }
    let n = line.unicode_len();
    let mut out = String::new();
    let mut current = String::new();
    let mut cur_bytes: usize = 0;
    let mut first = true;
    let mut i: usize = 0;
    while i < n
        invariant
            n == line@.len(),
            i <= n,
            out@ == join_closed(fold_state(line@.subrange(0, i as int)).0),
            current@ == fold_state(line@.subrange(0, i as int)).1,
            cur_bytes == utf8_len(current@),
            cur_bytes <= 75,
            first == (fold_state(line@.subrange(0, i as int)).0.len() == 0),
        decreases n - i,
    {
        let ch = line.get_char(i);
        let w = char_utf8_width(ch);
        let limit: usize = if first {
            75
        } else {
            74
        };
        let ghost prefix = line@.subrange(0, i + 1);
        assert(prefix.drop_last() =~= line@.subrange(0, i as int));
        if cur_bytes + w > limit {
            let ghost done = fold_state(line@.subrange(0, i as int)).0;
            out.append(current.as_str());
            push_char(&mut out, '\r');
            push_char(&mut out, '\n');
            push_char(&mut out, ' ');
            assert(done.push(current@).drop_last() =~= done);
            assert(out@ =~= join_closed(done.push(current@)));
            first = false;
            current = String::new();
            cur_bytes = 0;
        }
        proof {
            lemma_utf8_len_push(current@, ch);
        }
        push_char(&mut current, ch);
        cur_bytes = cur_bytes + w;
        proof {
            if cur_bytes > 75 {
                assert(utf8_width(ch) <= 4);
            }
        }
        i = i + 1;
    }
    assert(line@.subrange(0, n as int) =~= line@);
    proof {
        let st = fold_state(line@);
        lemma_join_closed_then_last(st.0, st.1);
    }
    out.append(current.as_str());
    out
}

/// Removing every CRLF-plus-space continuation marker (unfolding, RFC 5545
/// §3.1).
pub open spec fn unfold_spec(s: Seq<char>) -> Seq<char>
    decreases s.len(),
{
    if s.len() >= 3 && s[0] == '\r' && s[1] == '\n' && s[2] == ' ' {
        unfold_spec(s.subrange(3, s.len() as int))
    } else if s.len() == 0 {
        seq![]
    } else {
        seq![s[0]] + unfold_spec(s.subrange(1, s.len() as int))
    }
}

pub open spec fn no_newline(s: Seq<char>) -> bool {
    forall|i: int| 0 <= i < s.len() ==> #[trigger] s[i] != '\n'
}

proof fn lemma_unfold_plain_prefix(a: Seq<char>, t: Seq<char>)
    requires
        no_newline(a),
        t.len() == 0 || t[0] != '\n',
    ensures
        unfold_spec(a + t) == a + unfold_spec(t),
    decreases a.len(),
{
    if a.len() > 0 {
        let s = a + t;
        assert(s[0] == a[0]);
        if a.len() > 1 {
            assert(s[1] == a[1]);
        } else if t.len() > 0 {
            assert(s[1] == t[0]);
        }
        let a1 = a.subrange(1, a.len() as int);
        assert(s.subrange(1, s.len() as int) =~= a1 + t);
        lemma_unfold_plain_prefix(a1, t);
        assert(seq![a[0]] + (a1 + unfold_spec(t)) =~= a + unfold_spec(t));
    } else {
        assert(a + t =~= t);
    }
}

/// The characters of the physical lines in order.
pub open spec fn flatten_chunks(chunks: Seq<Seq<char>>) -> Seq<char>
    decreases chunks.len(),
{
    if chunks.len() == 0 {
        seq![]
    } else {
        flatten_chunks(chunks.drop_last()) + chunks.last()
    }
}

proof fn lemma_fold_state(s: Seq<char>)
    ensures
        flatten_chunks(fold_state(s).0) + fold_state(s).1 == s,
        s.len() > 0 ==> fold_state(s).1.len() > 0,
        forall|i: int|
            0 <= i < fold_state(s).0.len() ==> #[trigger] fold_state(s).0[i].len() > 0,
        forall|i: int|
            0 <= i < fold_state(s).0.len() ==> utf8_len(#[trigger] fold_state(s).0[i]) <= if i
                == 0 {
                fold_limit()
            } else {
                (fold_limit() - 1) as nat
            },
        utf8_len(fold_state(s).1) <= if fold_state(s).0.len() == 0 {
            fold_limit()
        } else {
            (fold_limit() - 1) as nat
        },
    decreases s.len(),
{
    if s.len() > 0 {
        let prev = fold_state(s.drop_last());
        let c = s.last();
        lemma_fold_state(s.drop_last());
        lemma_utf8_len_push(prev.1, c);
        assert(utf8_len(seq![c]) == utf8_width(c)) by {
            assert(seq![c].drop_last() =~= Seq::<char>::empty());
            assert(utf8_len(Seq::<char>::empty()) == 0);
        }
        assert(utf8_width(c) <= 4);
        let st = fold_state(s);
        if utf8_len(prev.1) + utf8_width(c) > (if prev.0.len() == 0 {
            fold_limit()
        } else {
            (fold_limit() - 1) as nat
        }) {
            assert(st.0.drop_last() =~= prev.0);
            assert(flatten_chunks(st.0) == flatten_chunks(prev.0) + prev.1);
            assert(flatten_chunks(st.0) + st.1 =~= s.drop_last().push(c));
            if s.drop_last().len() == 0 {
                assert(prev.1.len() == 0);
                assert(utf8_len(prev.1) == 0);
            }
            assert forall|i: int| 0 <= i < st.0.len() implies #[trigger] st.0[i].len() > 0 by {
                if i < prev.0.len() {
                    assert(st.0[i] == prev.0[i]);
                } else {
                    assert(st.0[i] == prev.1);
                    if prev.1.len() == 0 {
                        assert(utf8_len(prev.1) == 0);
                    }
                }
            }
            assert forall|i: int| 0 <= i < st.0.len() implies utf8_len(#[trigger] st.0[i]) <= if i
                == 0 {
                fold_limit()
            } else {
                (fold_limit() - 1) as nat
            } by {
                if i < prev.0.len() {
                    assert(st.0[i] == prev.0[i]);
                }
            }
        } else {
            assert(flatten_chunks(st.0) + st.1 =~= s.drop_last().push(c));
        }
        assert(s.drop_last().push(c) =~= s);
    }
}

proof fn lemma_unfold_join(chunks: Seq<Seq<char>>)
    requires
        forall|i: int| 0 <= i < chunks.len() ==> no_newline(#[trigger] chunks[i]),
        forall|i: int| 0 <= i < chunks.len() ==> (#[trigger] chunks[i]).len() > 0,
    ensures
        unfold_spec(join_folded(chunks)) == flatten_chunks(chunks),
        chunks.len() > 0 ==> join_folded(chunks).len() > 0 && join_folded(chunks)[0] != '\n',
    decreases chunks.len(),
{
    if chunks.len() == 1 {
        assert(chunks.drop_last().len() == 0);
        assert(no_newline(chunks[0]));
        lemma_unfold_plain_prefix(chunks[0], seq![]);
        assert(chunks[0] + Seq::<char>::empty() =~= chunks[0]);
        assert(flatten_chunks(chunks.drop_last()) =~= Seq::<char>::empty());
        assert(flatten_chunks(chunks) =~= chunks[0]);
        assert(chunks[0][0] != '\n');
    } else if chunks.len() > 1 {
        let d = chunks.drop_last();
        let l = chunks.last();
        assert forall|i: int| 0 <= i < d.len() implies no_newline(#[trigger] d[i]) by {
            assert(d[i] == chunks[i]);
        }
        assert forall|i: int| 0 <= i < d.len() implies (#[trigger] d[i]).len() > 0 by {
            assert(d[i] == chunks[i]);
        }
        lemma_unfold_join(d);
        assert(no_newline(chunks[chunks.len() - 1]));
        assert(l[0] != '\n');
        // unfold(J + "\r\n " + l) == unfold(J) + l, by unfolding from the back
        lemma_unfold_split(join_folded(d), l);
        assert(join_folded(d)[0] != '\n');
    }
}

/// Unfolding a folded pair of lines unfolds each part.
proof fn lemma_unfold_split(j: Seq<char>, l: Seq<char>)
    requires
        no_newline(l),
        l.len() > 0,
    ensures
        unfold_spec(j + seq!['\r', '\n', ' '] + l) == unfold_spec(j) + l,
    decreases j.len(),
{
    let s = j + seq!['\r', '\n', ' '] + l;
    if j.len() == 0 {
        assert(s.subrange(3, s.len() as int) =~= l);
        lemma_unfold_plain_prefix(l, seq![]);
        assert(l + Seq::<char>::empty() =~= l);
        assert(unfold_spec(j) =~= Seq::<char>::empty());
        assert(unfold_spec(j) + l =~= l);
    } else if j.len() >= 3 && j[0] == '\r' && j[1] == '\n' && j[2] == ' ' {
        let j3 = j.subrange(3, j.len() as int);
        assert(s.subrange(3, s.len() as int) =~= j3 + seq!['\r', '\n', ' '] + l);
        lemma_unfold_split(j3, l);
    } else {
        let j1 = j.subrange(1, j.len() as int);
        assert(s[0] == j[0]);
        if j.len() >= 3 {
            assert(s[1] == j[1] && s[2] == j[2]);
        } else if j.len() == 2 {
            assert(s[1] == j[1] && s[2] == '\r');
        } else {
            assert(s[1] == '\r');
        }
        assert(s.subrange(1, s.len() as int) =~= j1 + seq!['\r', '\n', ' '] + l);
        lemma_unfold_split(j1, l);
        assert(seq![j[0]] + (unfold_spec(j1) + l) =~= unfold_spec(j) + l);
    }
}

/// Folding keeps every character in order, puts at most 75 octets on each
/// physical line (the continuation space included), and unfolding the
/// result gives the line back.
pub proof fn law_fold_unfolds_to_line(line: Seq<char>)
    requires
        no_newline(line),
    ensures
        flatten_chunks(fold_chunks(line)) == line,
        utf8_len(fold_chunks(line)[0]) <= fold_limit(),
        forall|i: int|
            1 <= i < fold_chunks(line).len() ==> 1 + utf8_len(#[trigger] fold_chunks(line)[i])
                <= fold_limit(),
        unfold_spec(fold_spec(line)) == line,
{
    lemma_fold_state(line);
    let st = fold_state(line);
    let c = fold_chunks(line);
    assert(c.drop_last() =~= st.0);
    assert(flatten_chunks(c) == line);
    assert forall|i: int| 1 <= i < c.len() implies 1 + utf8_len(#[trigger] c[i]) <= fold_limit() by {
        if i < st.0.len() {
            assert(c[i] == st.0[i]);
        }
    }
    if st.0.len() > 0 {
        assert(c[0] == st.0[0]);
    }
    if utf8_len(line) <= fold_limit() {
        lemma_unfold_plain_prefix(line, seq![]);
        assert(line + Seq::<char>::empty() =~= line);
        assert(unfold_spec(Seq::<char>::empty()) =~= Seq::<char>::empty());
    } else {
        assert(line.len() > 0) by {
            if line.len() == 0 {
                assert(utf8_len(line) == 0);
            }
        }
        lemma_chunks_have_no_newline(line);
        assert forall|i: int| 0 <= i < c.len() implies (#[trigger] c[i]).len() > 0 by {
            if i < st.0.len() {
                assert(c[i] == st.0[i]);
            }
        }
        lemma_unfold_join(c);
    }
}

proof fn lemma_chunks_have_no_newline(line: Seq<char>)
    requires
        no_newline(line),
    ensures
        forall|i: int|
            0 <= i < fold_chunks(line).len() ==> no_newline(#[trigger] fold_chunks(line)[i]),
{
    lemma_fold_state(line);
    let c = fold_chunks(line);
    assert(c.drop_last() =~= fold_state(line).0);
    assert(flatten_chunks(c) == line);
    assert forall|i: int| 0 <= i < c.len() implies no_newline(#[trigger] c[i]) by {
        lemma_chunk_within(c, i, line);
    }
}

proof fn lemma_chunk_within(c: Seq<Seq<char>>, i: int, line: Seq<char>)
    requires
        0 <= i < c.len(),
        flatten_chunks(c) == line,
        no_newline(line),
    ensures
        no_newline(c[i]),
    decreases c.len(),
{
    let d = c.drop_last();
    assert(flatten_chunks(c) == flatten_chunks(d) + c.last());
    if i == c.len() - 1 {
        assert forall|k: int| 0 <= k < c[i].len() implies #[trigger] c[i][k] != '\n' by {
            assert(line[flatten_chunks(d).len() + k] == c[i][k]);
        }
    } else {
        assert forall|k: int| 0 <= k < flatten_chunks(d).len() implies #[trigger] flatten_chunks(
            d,
        )[k] != '\n' by {
            assert(line[k] == flatten_chunks(d)[k]);
        }
        lemma_chunk_within(d, i, flatten_chunks(d));
        assert(d[i] == c[i]);
    }
}

// ---------------------------------------------------------------------------
// Lines, events, the document

/// One `NAME:value` content line: value escaped, line folded, CRLF at the
/// end.
pub open spec fn ical_line(name: Seq<char>, value: Seq<char>) -> Seq<char> {
    fold_spec(name + seq![':'] + escape_spec(value)) + seq!['\r', '\n']
}

/// Append one escaped and folded `NAME:value` line (CRLF-terminated) to
/// `out`.
pub fn push_ical_line(out: &mut String, name: &str, value: &str)
    ensures
        final(out)@ == old(out)@ + ical_line(name@, value@),
{
    let mut line = String::from_str(name);
    push_char(&mut line, ':');
    let escaped = escape_ical(value);
    line.append(escaped.as_str());
    assert(line@ =~= name@ + seq![':'] + escape_spec(value@));
    let folded = fold_line(line.as_str());
    assert(folded@ == fold_spec(name@ + seq![':'] + escape_spec(value@)));
    let ghost o = out@;
    out.append(folded.as_str());
    assert(out@ == o + folded@);
    push_char(out, '\r');
    push_char(out, '\n');
    assert(out@ =~= old(out)@ + ical_line(name@, value@));
}

/// Whether a week can be rendered: its dates, and the day after its last,
/// lie in chrono's range.
pub open spec fn week_renderable(w: WeekView) -> bool {
    &&& crate::dates::date_valid(w.start)
    &&& crate::dates::date_valid(w.end + 1)
    &&& crate::dates::date_valid(w.end)
}

/// `Kehrwoche KW {iso_week}: {assignee or "Nicht zugewiesen"}`.
pub open spec fn summary_spec(w: WeekView) -> Seq<char> {
    let name = match w.assignee_name {
        Some(n) => n,
        None => "Nicht zugewiesen"@,
    };
    "Kehrwoche KW "@ + decimal(w.iso_week as nat) + ": "@ + name
}

/// `Gebäude: {building}`, a line break, then the week's first and last day.
pub open spec fn description_spec(building_name: Seq<char>, w: WeekView) -> Seq<char> {
    "Gebäude: "@ + building_name + seq!['\n'] + chrono_format_date(w.start, "%d.%m.%Y"@)
        + " – "@ + chrono_format_date(w.end, "%d.%m.%Y"@)
}

/// One all-day `VEVENT` for a week, stamped with `stamp` (UTC,
/// `YYYYMMDDTHHMMSSZ`). `DTEND` is exclusive (RFC 5545), so it names the day
/// after the week's Sunday.
pub open spec fn event_spec(building_name: Seq<char>, slug: Seq<char>, w: WeekView, stamp: Seq<char>) -> Seq<char> {
    "BEGIN:VEVENT\r\n"@ + ical_line("UID"@, uid_spec(slug, w.year, w.iso_week)) + ical_line(
        "DTSTAMP"@,
        stamp,
    ) + ical_line("DTSTART;VALUE=DATE"@, chrono_format_date(w.start, "%Y%m%d"@)) + ical_line(
        "DTEND;VALUE=DATE"@,
        chrono_format_date(w.end + 1, "%Y%m%d"@),
    ) + ical_line("SUMMARY"@, summary_spec(w)) + ical_line(
        "DESCRIPTION"@,
        description_spec(building_name, w),
    ) + "END:VEVENT\r\n"@
}

/// The `DTSTAMP` text of an instant.
pub open spec fn stamp_spec(t: UtcTime) -> Seq<char> {
    chrono_format_utc(t.secs as int, t.nanos as int, "%Y%m%dT%H%M%SZ"@)
}

/// A `DTSTAMP` text: the stamp of an instant that chrono represents, made
/// of digits, `T`, `Z` and a year sign only.
pub open spec fn is_stamp(s: Seq<char>) -> bool {
    &&& exists|t: UtcTime| t.valid() && s == stamp_spec(t)
    &&& forall|i: int| 0 <= i < s.len() ==> utc_format_char(#[trigger] s[i])
}

/// [`event_block`] at a given instant.
pub fn event_block_at(building_name: &str, slug: &str, w: &WeekAssignment, now: UtcTime) -> (res: String)
    requires
        week_renderable(w@),
        now.valid(),
    ensures
        res@ == event_spec(building_name@, slug@, w@, stamp_spec(now)),
        is_stamp(stamp_spec(now)),
{
    let mut summary = String::from_str("Kehrwoche KW ");
    push_decimal(&mut summary, w.iso_week as u64);
    summary.append(": ");
    match &w.assignee_name {
        Some(n) => summary.append(n.as_str()),
        None => summary.append("Nicht zugewiesen"),
    }
    let mut description = String::from_str("Gebäude: ");
    description.append(building_name);
    push_char(&mut description, '\n');
    let from = format_date(w.start, "%d.%m.%Y");
    description.append(from.as_str());
    description.append(" – ");
    let to = format_date(w.end, "%d.%m.%Y");
    description.append(to.as_str());
    let next_monday = Date { days: w.end.days + 1 };
    let mut out = String::from_str("BEGIN:VEVENT\r\n");
    let ghost o0 = out@;
    let uid = uid_for(slug, w.year, w.iso_week);
    push_ical_line(&mut out, "UID", uid.as_str());
    let stamp = format_utc(now, "%Y%m%dT%H%M%SZ");
    push_ical_line(&mut out, "DTSTAMP", stamp.as_str());
    let start = format_date(w.start, "%Y%m%d");
    push_ical_line(&mut out, "DTSTART;VALUE=DATE", start.as_str());
    let end = format_date(next_monday, "%Y%m%d");
    push_ical_line(&mut out, "DTEND;VALUE=DATE", end.as_str());
    push_ical_line(&mut out, "SUMMARY", summary.as_str());
    push_ical_line(&mut out, "DESCRIPTION", description.as_str());
    out.append("END:VEVENT\r\n");
    proof {
        assert(summary@ =~= summary_spec(w@));
        assert(description@ =~= description_spec(building_name@, w@));
        assert(out@ =~= event_spec(building_name@, slug@, w@, stamp_spec(now)));
        assert(stamp@ == stamp_spec(now));
    }
    out
}

/// One all-day `VEVENT` for a single Kehrwoche week (Monday to Sunday),
/// stamped with the current time: whatever instant the clock gives, the
/// event is that of [`event_block_at`] at it.
pub fn event_block(building_name: &str, slug: &str, w: &WeekAssignment) -> (res: String)
    requires
        week_renderable(w@),
    ensures
        exists|s: Seq<char>| is_stamp(s) && res@ == event_spec(building_name@, slug@, w@, s),
{
    let now = utc_now();
    let res = event_block_at(building_name, slug, w, now);
    assert(is_stamp(stamp_spec(now)) && res@ == event_spec(building_name@, slug@, w@, stamp_spec(now)));
    res
}

/// The events of a run of weeks, each with its own stamp.
pub open spec fn events_spec(
    building_name: Seq<char>,
    slug: Seq<char>,
    weeks: Seq<WeekView>,
    stamps: Seq<Seq<char>>,
) -> Seq<char>
    decreases weeks.len(),
{
    if weeks.len() == 0 {
        seq![]
    } else {
        events_spec(building_name, slug, weeks.drop_last(), stamps) + event_spec(
            building_name,
            slug,
            weeks.last(),
            stamps[weeks.len() - 1],
        )
    }
}

/// The weeks of several schedules, one after another.
pub open spec fn all_weeks(schedules: Seq<Vec<WeekAssignment>>) -> Seq<WeekView>
    decreases schedules.len(),
{
    if schedules.len() == 0 {
        seq![]
    } else {
        all_weeks(schedules.drop_last()) + week_views(schedules.last()@)
    }
}

/// The calendar header lines.
pub open spec fn calendar_head(building_name: Seq<char>) -> Seq<char> {
    "BEGIN:VCALENDAR\r\n"@ + ical_line("VERSION"@, "2.0"@) + ical_line(
        "PRODID"@,
        "-//Kehrkraft//Kehrwoche//DE"@,
    ) + ical_line("CALSCALE"@, "GREGORIAN"@) + ical_line(
        "X-WR-CALNAME"@,
        "Kehrwoche "@ + building_name,
    )
}

/// The full iCalendar document with one stamp per event.
pub open spec fn document_spec(
    building_name: Seq<char>,
    slug: Seq<char>,
    weeks: Seq<WeekView>,
    stamps: Seq<Seq<char>>,
) -> Seq<char> {
    calendar_head(building_name) + events_spec(building_name, slug, weeks, stamps)
        + "END:VCALENDAR\r\n"@
}

/// The events of one schedule, each stamped when it is rendered.
fn schedule_events(building_name: &str, slug: &str, schedule: &Vec<WeekAssignment>) -> (res: String)
    requires
        forall|i: int|
            0 <= i < schedule@.len() ==> week_renderable(#[trigger] schedule@[i]@),
    ensures
        exists|stamps: Seq<Seq<char>>|
            stamps.len() == schedule@.len() && (forall|i: int|
                0 <= i < stamps.len() ==> is_stamp(#[trigger] stamps[i])) && res@ == #[trigger] events_spec(
                building_name@,
                slug@,
                week_views(schedule@),
                stamps,
            ),
{
    let ghost these = week_views(schedule@);
    let ghost mut stamps: Seq<Seq<char>> = seq![];
    let mut out = String::new();
    let mut wi: usize = 0;
    while wi < schedule.len()
        invariant
            wi <= schedule@.len(),
            these == week_views(schedule@),
            stamps.len() == wi,
            forall|i: int| 0 <= i < stamps.len() ==> is_stamp(#[trigger] stamps[i]),
            out@ == events_spec(building_name@, slug@, these.subrange(0, wi as int), stamps),
            forall|i: int|
                0 <= i < schedule@.len() ==> week_renderable(#[trigger] schedule@[i]@),
        decreases schedule@.len() - wi,
    {
        let w = &schedule[wi];
        assert(these[wi as int] == w@);
        let block = event_block(building_name, slug, w);
        let ghost st = choose|s: Seq<char>|
            is_stamp(s) && block@ == event_spec(building_name@, slug@, w@, s);
        let ghost old_stamps = stamps;
        proof {
            stamps = stamps.push(st);
            let ws = these.subrange(0, wi + 1);
            assert(ws.drop_last() =~= these.subrange(0, wi as int));
            assert(ws.last() == w@);
            lemma_events_extend_stamps(building_name@, slug@, ws.drop_last(), old_stamps, stamps);
        }
        out.append(block.as_str());
        wi = wi + 1;
    }
    assert(these.subrange(0, schedule@.len() as int) =~= these);
    out
}

proof fn lemma_events_concat(
    building_name: Seq<char>,
    slug: Seq<char>,
    a: Seq<WeekView>,
    sa: Seq<Seq<char>>,
    b: Seq<WeekView>,
    sb: Seq<Seq<char>>,
)
    requires
        sa.len() == a.len(),
        sb.len() == b.len(),
    ensures
        events_spec(building_name, slug, a + b, sa + sb) == events_spec(building_name, slug, a, sa)
            + events_spec(building_name, slug, b, sb),
    decreases b.len(),
{
    if b.len() == 0 {
        assert(a + b =~= a);
        lemma_events_extend_stamps(building_name, slug, a, sa, sa + sb);
        assert(events_spec(building_name, slug, b, sb) =~= Seq::<char>::empty());
        assert(events_spec(building_name, slug, a, sa) + Seq::<char>::empty() =~= events_spec(
            building_name,
            slug,
            a,
            sa,
        ));
    } else {
        let b1 = b.drop_last();
        let sb1 = sb.drop_last();
        lemma_events_concat(building_name, slug, a, sa, b1, sb1);
        assert((a + b).drop_last() =~= a + b1);
        assert((a + b).last() == b.last());
        assert((sa + sb)[(a + b).len() - 1] == sb[b.len() - 1]);
        lemma_events_extend_stamps(building_name, slug, a + b1, sa + sb1, sa + sb);
        lemma_events_extend_stamps(building_name, slug, b1, sb1, sb);
    }
}

/// Compose the full iCalendar document: the calendar header, one all-day
/// event per week of each schedule, and the closing `END:VCALENDAR`. Each
/// event is stamped when it is rendered; whatever instants the clock gives,
/// the document is that of [`document_spec`] with their stamps.
pub fn ical_document(building_name: &str, slug: &str, schedules: &[Vec<WeekAssignment>]) -> (res:
    String)
    requires
        forall|i: int|
            0 <= i < all_weeks(schedules@).len() ==> week_renderable(
                #[trigger] all_weeks(schedules@)[i],
            ),
    ensures
        exists|stamps: Seq<Seq<char>>|
            stamps.len() == all_weeks(schedules@).len() && (forall|i: int|
                0 <= i < stamps.len() ==> is_stamp(#[trigger] stamps[i])) && res@ == document_spec(
                building_name@,
                slug@,
                all_weeks(schedules@),
                stamps,
            ),
{
    let mut out = String::from_str("BEGIN:VCALENDAR\r\n");
    push_ical_line(&mut out, "VERSION", "2.0");
    push_ical_line(&mut out, "PRODID", "-//Kehrkraft//Kehrwoche//DE");
    push_ical_line(&mut out, "CALSCALE", "GREGORIAN");
    let mut calname = String::from_str("Kehrwoche ");
    calname.append(building_name);
    push_ical_line(&mut out, "X-WR-CALNAME", calname.as_str());
    let ghost head = out@;
    assert(head =~= calendar_head(building_name@));
    let ghost mut stamps: Seq<Seq<char>> = seq![];
    let mut si: usize = 0;
    while si < schedules.len()
        invariant
            si <= schedules@.len(),
            head == calendar_head(building_name@),
            stamps.len() == all_weeks(schedules@.subrange(0, si as int)).len(),
            forall|i: int| 0 <= i < stamps.len() ==> is_stamp(#[trigger] stamps[i]),
            out@ == head + events_spec(
                building_name@,
                slug@,
                all_weeks(schedules@.subrange(0, si as int)),
                stamps,
            ),
            forall|i: int|
                0 <= i < all_weeks(schedules@).len() ==> week_renderable(
                    #[trigger] all_weeks(schedules@)[i],
                ),
        decreases schedules@.len() - si,
    {
        let schedule = &schedules[si];
        let ghost before = all_weeks(schedules@.subrange(0, si as int));
        let ghost these = week_views(schedule@);
        proof {
            assert(schedules@.subrange(0, si + 1).drop_last() =~= schedules@.subrange(
                0,
                si as int,
            ));
            assert(all_weeks(schedules@.subrange(0, si + 1)) == before + these);
            lemma_all_weeks_prefix(schedules@, si as int + 1);
            assert forall|i: int| 0 <= i < schedule@.len() implies week_renderable(
                #[trigger] schedule@[i]@,
            ) by {
                assert((before + these)[before.len() + i] == schedule@[i]@);
            }
        }
        let block = schedule_events(building_name, slug, schedule);
        let ghost st = choose|st: Seq<Seq<char>>|
            st.len() == schedule@.len() && (forall|i: int|
                0 <= i < st.len() ==> is_stamp(#[trigger] st[i])) && block@ == events_spec(
                building_name@,
                slug@,
                these,
                st,
            );
        proof {
            lemma_events_concat(building_name@, slug@, before, stamps, these, st);
            assert forall|i: int| 0 <= i < (stamps + st).len() implies is_stamp(
                #[trigger] (stamps + st)[i],
            ) by {
                if i < stamps.len() {
                    assert((stamps + st)[i] == stamps[i]);
                } else {
                    assert((stamps + st)[i] == st[i - stamps.len()]);
                }
            }
            stamps = stamps + st;
        }
        out.append(block.as_str());
        si = si + 1;
    }
    assert(schedules@.subrange(0, schedules@.len() as int) =~= schedules@);
    out.append("END:VCALENDAR\r\n");
    assert(out@ =~= document_spec(building_name@, slug@, all_weeks(schedules@), stamps));
    out
}

proof fn lemma_all_weeks_prefix(schedules: Seq<Vec<WeekAssignment>>, k: int)
    requires
        0 <= k <= schedules.len(),
    ensures
        all_weeks(schedules.subrange(0, k)).len() <= all_weeks(schedules).len(),
        forall|i: int|
            0 <= i < all_weeks(schedules.subrange(0, k)).len() ==> #[trigger] all_weeks(
                schedules.subrange(0, k),
            )[i] == all_weeks(schedules)[i],
    decreases schedules.len(),
{
    if k < schedules.len() {
        let d = schedules.drop_last();
        lemma_all_weeks_prefix(d, k);
        assert(d.subrange(0, k) =~= schedules.subrange(0, k));
        let tail = week_views(schedules.last()@);
        assert(all_weeks(schedules) == all_weeks(d) + tail);
        assert forall|i: int|
            0 <= i < all_weeks(schedules.subrange(0, k)).len() implies #[trigger] all_weeks(
                schedules.subrange(0, k),
            )[i] == all_weeks(schedules)[i] by {
            assert(all_weeks(schedules)[i] == all_weeks(d)[i]);
        }
    } else {
        assert(schedules.subrange(0, k) =~= schedules);
    }
}

proof fn lemma_events_extend_stamps(
    building_name: Seq<char>,
    slug: Seq<char>,
    weeks: Seq<WeekView>,
    stamps: Seq<Seq<char>>,
    more: Seq<Seq<char>>,
)
    requires
        stamps.len() == weeks.len(),
        more.len() >= stamps.len(),
        forall|i: int| 0 <= i < stamps.len() ==> more[i] == stamps[i],
    ensures
        events_spec(building_name, slug, weeks, more) == events_spec(
            building_name,
            slug,
            weeks,
            stamps,
        ),
    decreases weeks.len(),
{
    if weeks.len() > 0 {
        lemma_events_extend_stamps(
            building_name,
            slug,
            weeks.drop_last(),
            stamps.drop_last(),
            more,
        );
        lemma_events_extend_stamps(
            building_name,
            slug,
            weeks.drop_last(),
            stamps.drop_last(),
            stamps,
        );
    }
}

} // verus!
