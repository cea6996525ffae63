//! The printable schedule: the rows of the two-column table, the Typst
//! source that lays it out, the link and QR code to the PDF itself, and the
//! download file names.

use crate::dates::{chrono_format_date, format_date};
use crate::scheduler::{WeekAssignment, WeekView};
use crate::text::{bool_text, decimal, int_decimal, push_bool, push_char, push_decimal, push_int};
use fast_qr::convert::svg::SvgBuilder;
use fast_qr::qr::QRBuilder;
use vstd::prelude::*;

verus! {

// ---------------------------------------------------------------------------
// Escaping and file names

/// The escape of one character inside a Typst string literal.
pub open spec fn typst_escape_char(c: char) -> Seq<char> {
    if c == '\\' {
        seq!['\\', '\\']
    } else if c == '"' {
        seq!['\\', '"']
    } else {
        seq![c]
    }
}

/// `s` with every backslash doubled and every double quote escaped.
pub open spec fn escape_typst_spec(s: Seq<char>) -> Seq<char>
    decreases s.len(),
{
    if s.len() == 0 {
        seq![]
    } else {
        escape_typst_spec(s.drop_last()) + typst_escape_char(s.last())
    }
}

/// Escape text for a Typst string literal.
pub fn escape_typst_str(s: &str) -> (res: String)
    ensures
        res@ == escape_typst_spec(s@),
{
    let n = s.unicode_len();
    let mut out = String::new();
    let mut i: usize = 0;
    while i < n
        invariant
            n == s@.len(),
            i <= n,
            out@ == escape_typst_spec(s@.subrange(0, i as int)),
        decreases n - i,
    {
        let c = s.get_char(i);
        if c == '\\' {
            push_char(&mut out, '\\');
            push_char(&mut out, '\\');
        } else if c == '"' {
            push_char(&mut out, '\\');
            push_char(&mut out, '"');
        } else {
            push_char(&mut out, c);
        }
        assert(s@.subrange(0, i + 1).drop_last() =~= s@.subrange(0, i as int));
        assert(out@ =~= escape_typst_spec(s@.subrange(0, i + 1)));
        i = i + 1;
    }
    assert(s@.subrange(0, n as int) =~= s@);
    out
}

/// An ASCII letter or digit.
pub open spec fn is_ascii_alnum(c: char) -> bool {
    let v = c as u32;
    ||| 48 <= v <= 57
    ||| 65 <= v <= 90
    ||| 97 <= v <= 122
}

/// `s` with every character that is not an ASCII letter or digit replaced by
/// `-`.
pub open spec fn sanitize_spec(s: Seq<char>) -> Seq<char> {
    Seq::new(s.len(), |i: int| if is_ascii_alnum(s[i]) { s[i] } else { '-' })
}

/// A file-name-safe form of a building name.
pub fn sanitize_filename(s: &str) -> (res: String)
    ensures
        res@ == sanitize_spec(s@),
{
    let n = s.unicode_len();
    let mut out = String::new();
    let mut i: usize = 0;
    while i < n
        invariant
            n == s@.len(),
            i <= n,
            out@ == sanitize_spec(s@).subrange(0, i as int),
        decreases n - i,
    {
        let c = s.get_char(i);
        let v = c as u32;
        if (48 <= v && v <= 57) || (65 <= v && v <= 90) || (97 <= v && v <= 122) {
            push_char(&mut out, c);
        } else {
            push_char(&mut out, '-');
        }
        assert(out@ =~= sanitize_spec(s@).subrange(0, i + 1));
        i = i + 1;
    }
    assert(sanitize_spec(s@).subrange(0, n as int) =~= sanitize_spec(s@));
    out
}

/// `Kehrwoche-{sanitized name}-{year}.pdf`.
pub open spec fn pdf_filename_spec(building_name: Seq<char>, year: int) -> Seq<char> {
    "Kehrwoche-"@ + sanitize_spec(building_name) + seq!['-'] + int_decimal(year) + ".pdf"@
}

/// The download name of a building's schedule PDF.
pub fn pdf_filename(building_name: &str, year: i32) -> (res: String)
    ensures
        res@ == pdf_filename_spec(building_name@, year as int),
{
    let safe = sanitize_filename(building_name);
    let mut out = String::from_str("Kehrwoche-");
    out.append(safe.as_str());
    push_char(&mut out, '-');
    push_int(&mut out, year as i64);
    out.append(".pdf");
    assert(out@ =~= pdf_filename_spec(building_name@, year as int));
    out
}

/// `inline; filename="{filename}"`.
pub open spec fn content_disposition_spec(filename: Seq<char>) -> Seq<char> {
    "inline; filename=\""@ + filename + seq!['"']
}

/// The `Content-Disposition` value that shows a download inline under
/// `filename`.
pub fn content_disposition(filename: &str) -> (res: String)
    ensures
        res@ == content_disposition_spec(filename@),
{
    let mut out = String::from_str("inline; filename=\"");
    out.append(filename);
    push_char(&mut out, '"');
    out
}

// ---------------------------------------------------------------------------
// Table rows

/// Whether a week's rows can be rendered: its dates lie in chrono's range.
pub open spec fn row_renderable(w: WeekView) -> bool {
    crate::dates::date_valid(w.start) && crate::dates::date_valid(w.end)
}

/// One row of the table as a Typst dictionary; `info` marks rows that do not
/// belong to `year` (shown greyed out by the template).
pub open spec fn row_spec(year: int, w: WeekView) -> Seq<char> {
    let name = match w.assignee_name {
        Some(n) => n,
        None => seq![],
    };
    "(week: "@ + decimal(w.iso_week as nat) + ", start: \""@ + chrono_format_date(
        w.start,
        "%d.%m.%y"@,
    ) + "\", end: \""@ + chrono_format_date(w.end, "%d.%m.%y"@) + "\", name: \""@
        + escape_typst_spec(name) + "\", info: "@ + bool_text(w.year != year) + seq![')']
}

/// The rows joined by `,` and a line break.
pub open spec fn joined_rows(year: int, rows: Seq<WeekView>) -> Seq<char>
    decreases rows.len(),
{
    if rows.len() == 0 {
        seq![]
    } else if rows.len() == 1 {
        row_spec(year, rows[0])
    } else {
        joined_rows(year, rows.drop_last()) + ",\n"@ + row_spec(year, rows.last())
    }
}

/// The views of a column of week references.
pub open spec fn row_views(rows: Seq<&WeekAssignment>) -> Seq<WeekView> {
    rows.map_values(|w: &WeekAssignment| w@)
}

/// A Typst array of the rows.
pub open spec fn rows_source_spec(year: int, rows: Seq<WeekView>) -> Seq<char> {
    "(\n"@ + joined_rows(year, rows) + "\n)"@
}

/// The rows keep their order: the rows of `a` followed by those of `b` give
/// the rows of `a`, a `,` and a line break, and the rows of `b`.
pub proof fn law_rows_join_in_order(year: int, a: Seq<WeekView>, b: Seq<WeekView>)
    requires
        a.len() > 0,
        b.len() > 0,
    ensures
        joined_rows(year, a + b) == joined_rows(year, a) + ",\n"@ + joined_rows(year, b),
    decreases b.len(),
{
    let ab = a + b;
    assert(ab.last() == b.last());
    if b.len() == 1 {
        assert(ab.drop_last() =~= a);
    } else {
        assert(ab.drop_last() =~= a + b.drop_last());
        law_rows_join_in_order(year, a, b.drop_last());
        assert(joined_rows(year, ab) =~= joined_rows(year, a) + ",\n"@ + joined_rows(year, b));
    }
}

/// A column's array opens with the first row and closes with the last:
/// the source starts with `(`, a line break and the row of `rows[0]`, and
/// ends with the row of the last week, a line break and `)`.
pub proof fn law_rows_source_first_and_last(year: int, rows: Seq<WeekView>)
    requires
        rows.len() > 0,
    ensures
        ({
            let src = rows_source_spec(year, rows);
            let first = row_spec(year, rows[0]);
            let last = row_spec(year, rows.last());
            &&& src.take((first.len() + 2) as int) == "(\n"@ + first
            &&& src.skip(src.len() - last.len() - 2) == last + "\n)"@
        }),
{
    reveal_strlit("(\n");
    reveal_strlit("\n)");
    let src = rows_source_spec(year, rows);
    let first = row_spec(year, rows[0]);
    let last = row_spec(year, rows.last());
    let j = joined_rows(year, rows);
    if rows.len() == 1 {
        assert(j == first);
    } else {
        let head = rows.take(1);
        let tail = rows.skip(1);
        assert(rows =~= head + tail);
        law_rows_join_in_order(year, head, tail);
        assert(joined_rows(year, head) == first);
        assert(j == first + ",\n"@ + joined_rows(year, tail));
        assert(j == joined_rows(year, rows.drop_last()) + ",\n"@ + last);
    }
    assert(src.take((first.len() + 2) as int) =~= "(\n"@ + first);
    assert(src.skip(src.len() - last.len() - 2) =~= last + "\n)"@);
}

fn row_source(year: i32, w: &WeekAssignment) -> (res: String)
    requires
        row_renderable(w@),
    ensures
        res@ == row_spec(year as int, w@),
{
    let mut out = String::from_str("(week: ");
    push_decimal(&mut out, w.iso_week as u64);
    out.append(", start: \"");
    let start = format_date(w.start, "%d.%m.%y");
    out.append(start.as_str());
    out.append("\", end: \"");
    let end = format_date(w.end, "%d.%m.%y");
    out.append(end.as_str());
    out.append("\", name: \"");
    let name = match &w.assignee_name {
        Some(n) => escape_typst_str(n.as_str()),
        None => escape_typst_str(""),
    };
    proof {
        reveal_strlit("");
    }
    out.append(name.as_str());
    out.append("\", info: ");
    push_bool(&mut out, w.year != year);
    push_char(&mut out, ')');
    assert(out@ =~= row_spec(year as int, w@));
    out
}

/// Typst source for one column of the schedule table. `info` is true for
/// rows that are not part of `year` (shown greyed out; see the template).
pub fn rows_source(year: i32, rows: &[&WeekAssignment]) -> (res: String)
    requires
        forall|i: int| 0 <= i < rows@.len() ==> row_renderable(#[trigger] rows@[i]@),
    ensures
        res@ == rows_source_spec(year as int, row_views(rows@)),
{
    let ghost views = row_views(rows@);
    let mut body = String::new();
    let mut i: usize = 0;
    while i < rows.len()
        invariant
            i <= rows@.len(),
            views == row_views(rows@),
            body@ == joined_rows(year as int, views.subrange(0, i as int)),
            forall|k: int| 0 <= k < rows@.len() ==> row_renderable(#[trigger] rows@[k]@),
        decreases rows@.len() - i,
    {
        let w: &WeekAssignment = rows[i];
        if i > 0 {
            body.append(",\n");
        }
        let row = row_source(year, w);
        body.append(row.as_str());
        proof {
            let ws = views.subrange(0, i + 1);
            assert(ws.drop_last() =~= views.subrange(0, i as int));
            assert(ws.last() == w@);
            if i == 0 {
                assert(body@ =~= row_spec(year as int, ws[0]));
            }
        }
        i = i + 1;
    }
    assert(views.subrange(0, rows@.len() as int) =~= views);
    let mut out = String::from_str("(\n");
    out.append(body.as_str());
    out.append("\n)");
    out
}

// ---------------------------------------------------------------------------
// Columns

/// The references of a column, dereferenced.
pub open spec fn derefs(s: Seq<&WeekAssignment>) -> Seq<WeekAssignment> {
    s.map_values(|w: &WeekAssignment| *w)
}

/// The two columns of a year's table. An even year splits in half. A year
/// with an odd number of ISO weeks (53) cannot split evenly, so the last
/// week of the previous year goes greyed out at the top of the left column
/// and the first two weeks of the next year at the bottom of the right one,
/// which makes both columns `(n + 3) / 2` rows long.
pub open spec fn columns_spec(
    prev: Seq<WeekAssignment>,
    current: Seq<WeekAssignment>,
    next: Seq<WeekAssignment>,
) -> (Seq<WeekAssignment>, Seq<WeekAssignment>) {
    let n = current.len() as int;
    if n % 2 == 0 {
        (current.subrange(0, n / 2), current.subrange(n / 2, n))
    } else {
        let left_current = (n + 3) / 2 - 1;
        (
            seq![prev.last()] + current.subrange(0, left_current),
            current.subrange(left_current, n) + next.subrange(0, 2),
        )
    }
}

/// Split a year's schedule into two equally sized columns (see
/// [`columns_spec`]).
pub fn balanced_columns<'a>(
    prev: &'a [WeekAssignment],
    current: &'a [WeekAssignment],
    next: &'a [WeekAssignment],
) -> (res: (Vec<&'a WeekAssignment>, Vec<&'a WeekAssignment>))
    requires
        current@.len() % 2 == 1 ==> prev@.len() >= 1 && next@.len() >= 2,
    ensures
        derefs(res.0@) == columns_spec(prev@, current@, next@).0,
        derefs(res.1@) == columns_spec(prev@, current@, next@).1,
{
    let n = current.len();
    let mut left: Vec<&'a WeekAssignment> = Vec::new();
    let mut right: Vec<&'a WeekAssignment> = Vec::new();
    let split: usize;
    if n % 2 == 0 {
        split = n / 2;
    } else {
        left.push(&prev[prev.len() - 1]);
        split = n / 2 + 1;
    }
    let ghost left0 = derefs(left@);
    let mut i: usize = 0;
    while i < split
        invariant
            split <= n,
            n == current@.len(),
            i <= split,
            left0.len() <= 1,
            derefs(left@) == left0 + current@.subrange(0, i as int),
        decreases split - i,
    {
        let r: &'a WeekAssignment = &current[i];
        assert(*r == current@[i as int]);
        let ghost before = left@;
        left.push(r);
        assert(left@ == before.push(r));
        assert(derefs(before.push(r)) =~= derefs(before).push(*r));
        assert(current@.subrange(0, i + 1) =~= current@.subrange(0, i as int).push(*r));
        assert(derefs(left@) =~= left0 + current@.subrange(0, i + 1));
        i = i + 1;
    }
    let mut j: usize = split;
    while j < n
        invariant
            split <= j <= n,
            n == current@.len(),
            derefs(right@) == current@.subrange(split as int, j as int),
        decreases n - j,
    {
        let r: &'a WeekAssignment = &current[j];
        assert(*r == current@[j as int]);
        let ghost before = right@;
        right.push(r);
        assert(right@ == before.push(r));
        assert(derefs(before.push(r)) =~= derefs(before).push(*r));
        assert(current@.subrange(split as int, j + 1) =~= current@.subrange(split as int, j as int).push(*r));
        assert(derefs(right@) =~= current@.subrange(split as int, j + 1));
        j = j + 1;
    }
    if n % 2 == 1 {
        let ghost r0 = derefs(right@);
        right.push(&next[0]);
        right.push(&next[1]);
        assert(derefs(right@) =~= r0 + next@.subrange(0, 2));
    }
    proof {
        if n % 2 == 1 {
            assert(left0 =~= seq![prev@.last()]);
        } else {
            assert(left0 =~= Seq::<WeekAssignment>::empty());
            assert(derefs(left@) =~= current@.subrange(0, split as int));
        }
    }
    (left, right)
}

/// Both columns have the same number of rows, and read one after the other
/// they hold every week of the year exactly once and in order, framed in an
/// odd year by the previous year's last week and the next year's first
/// two.
pub proof fn law_columns_balanced(
    prev: Seq<WeekAssignment>,
    current: Seq<WeekAssignment>,
    next: Seq<WeekAssignment>,
)
    requires
        current.len() % 2 == 1 ==> prev.len() >= 1 && next.len() >= 2,
    ensures
        columns_spec(prev, current, next).0.len() == columns_spec(prev, current, next).1.len(),
        columns_spec(prev, current, next).0 + columns_spec(prev, current, next).1 == if current.len()
            % 2 == 0 {
            current
        } else {
            seq![prev.last()] + current + next.subrange(0, 2)
        },
{
    let n = current.len() as int;
    let c = columns_spec(prev, current, next);
    if n % 2 == 0 {
        assert(c.0 + c.1 =~= current);
    } else {
        assert(c.0 + c.1 =~= seq![prev.last()] + current + next.subrange(0, 2));
    }
}

// ---------------------------------------------------------------------------
// Link and QR code

/// `{public_url}/p/{slug}/kehrwoche.pdf`, or nothing without a public URL.
pub open spec fn pdf_url_spec(public_url: Option<Seq<char>>, secret_slug: Seq<char>) -> Seq<char> {
    match public_url {
        Some(base) => base + "/p/"@ + secret_slug + "/kehrwoche.pdf"@,
        None => seq![],
    }
}

/// Absolute link for the QR code on the PDF; empty when no public URL is
/// configured (the template then renders a placeholder instead of a QR
/// code).
pub fn pdf_url_for(public_url: Option<&str>, secret_slug: &str) -> (res: String)
    ensures
        res@ == pdf_url_spec(
            match public_url {
                Some(b) => Some(b@),
                None => None,
            },
            secret_slug@,
        ),
{
    match public_url {
        Some(base) => {
            let mut out = String::from_str(base);
            out.append("/p/");
            out.append(secret_slug);
            out.append("/kehrwoche.pdf");
            out
        },
        None => String::new(),
    }
}

/// The SVG that fast_qr draws for `data` with its default builders, or
/// `None` when the data does not fit in a QR code.
pub uninterp spec fn fast_qr_svg(data: Seq<char>) -> Option<Seq<char>>;

/// `QRBuilder::new(data).build()` drawn by `SvgBuilder::default().to_str`:
/// the QR code of the text's bytes as SVG, or `None` when fast_qr reports
/// that the data is too large to encode.
#[verifier::external_body]
fn qr_svg(data: &str) -> (res: Option<String>)
    ensures
        match res {
            Some(svg) => fast_qr_svg(data@) == Some(svg@),
            None => fast_qr_svg(data@) is None,
        },
{
    match QRBuilder::new(data).build() {
        Ok(qr) => Some(SvgBuilder::default().to_str(&qr)),
        Err(_) => None,
    }
}

/// The link the PDF shows and its QR code, given what drawing the code gave:
/// without a drawing the link is dropped too, so that the template shows its
/// placeholder.
pub fn link_with_qr(pdf_url: String, qr: Option<String>) -> (res: (String, Option<String>))
    ensures
        match qr {
            Some(svg) => res.0@ == pdf_url@ && res.1 == Some(svg),
            None => res.0@ == Seq::<char>::empty() && res.1 is None,
        },
{
    match qr {
        Some(svg) => (pdf_url, Some(svg)),
        None => (String::new(), None),
    }
}

/// The link for the PDF and its QR code: no link without a public URL, and
/// a QR code that cannot be drawn drops the link.
pub fn pdf_link_and_qr(public_url: Option<&str>, secret_slug: &str) -> (res: (
    String,
    Option<String>,
))
    ensures
        ({
            let url = pdf_url_spec(
                match public_url {
                    Some(b) => Some(b@),
                    None => None,
                },
                secret_slug@,
            );
            if url.len() == 0 {
                res.0@ == url && res.1 is None
            } else {
                match fast_qr_svg(url) {
                    Some(svg) => res.0@ == url && (res.1 matches Some(s) && s@ == svg),
                    None => res.0@ == Seq::<char>::empty() && res.1 is None,
                }
            }
        }),
{
    let url = pdf_url_for(public_url, secret_slug);
    if url.unicode_len() == 0 {
        return (url, None);
    }
    let qr = qr_svg(url.as_str());
    link_with_qr(url, qr)
}

/// The Typst wrapper document: page setup with the version in the footer,
/// then the schedule data bound to variables and handed to the
/// `kehrwoche` template. The building name is escaped for a Typst string;
/// the link goes in as it is.
pub open spec fn typst_source_spec(
    building_name: Seq<char>,
    year: int,
    left_rows: Seq<char>,
    right_rows: Seq<char>,
    pdf_url: Seq<char>,
    version: Seq<char>,
) -> Seq<char> {
    "#import \"kehrwoche.typ\": kehrwoche\n\n#set page(\n  paper: \"a4\",\n  margin: (top: 1.7cm, bottom: 1.5cm, x: 1.6cm),\n  footer: [\n    #set text(8pt)\n    #columns(2)[\n      #set align(left)\n      Erstellt mit Kehrkraft v"@ + version + "\n      #colbreak()\n      #set align(right)\n      Stand: #datetime.today().display(\"[day].[month].[year]\")\n    ]\n  ]\n)\n\n#let building_name = \""@ + escape_typst_spec(building_name) + "\"\n#let year = "@
        + int_decimal(year) + "\n#let left_rows = "@ + left_rows + "\n#let right_rows = "@ + right_rows + "\n#let pdf_url = \""@ + pdf_url
        + "\"\n\n#kehrwoche(\n  building_name: building_name,\n  year: year,\n  left_rows: left_rows,\n  right_rows: right_rows,\n  pdf_url: pdf_url,\n)\n"@
}

/// Build the Typst wrapper source that renders the schedule PDF.
pub fn typst_source(
    building_name: &str,
    year: i32,
    left_rows: &str,
    right_rows: &str,
    pdf_url: &str,
    version: &str,
) -> (res: String)
    ensures
        res@ == typst_source_spec(
            building_name@,
            year as int,
            left_rows@,
            right_rows@,
            pdf_url@,
            version@,
        ),
{
    let name = escape_typst_str(building_name);
    let mut out = String::from_str("#import \"kehrwoche.typ\": kehrwoche\n\n#set page(\n  paper: \"a4\",\n  margin: (top: 1.7cm, bottom: 1.5cm, x: 1.6cm),\n  footer: [\n    #set text(8pt)\n    #columns(2)[\n      #set align(left)\n      Erstellt mit Kehrkraft v");
    out.append(version);
    out.append("\n      #colbreak()\n      #set align(right)\n      Stand: #datetime.today().display(\"[day].[month].[year]\")\n    ]\n  ]\n)\n\n#let building_name = \"");
    out.append(name.as_str());
    out.append("\"\n#let year = ");
    push_int(&mut out, year as i64);
    out.append("\n#let left_rows = ");
    out.append(left_rows);
    out.append("\n#let right_rows = ");
    out.append(right_rows);
    out.append("\n#let pdf_url = \"");
    out.append(pdf_url);
    out.append("\"\n\n#kehrwoche(\n  building_name: building_name,\n  year: year,\n  left_rows: left_rows,\n  right_rows: right_rows,\n  pdf_url: pdf_url,\n)\n");
    assert(out@ =~= typst_source_spec(
        building_name@,
        year as int,
        left_rows@,
        right_rows@,
        pdf_url@,
        version@,
    ));
    out
}

} // verus!
