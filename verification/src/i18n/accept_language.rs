//! Reading the browser's `Accept-Language` header into its entries: the
//! language each entry names and the text of its `q` weight.
//!
//! The weights are floating-point numbers (`str::parse::<f32>`), so ranking
//! the entries by weight is left to the application; the library splits the
//! header and reads the tags.

use crate::i18n::{from_code_spec, Lang};
use crate::text::{find_char_from, find_from, lemma_find_from, trim, trim_spec};
use vstd::prelude::*;

verus! {

// ---------------------------------------------------------------------------
// The header's grammar

/// The segments of `s` from position `from` on, separated by `sep`, as
/// `str::split` yields them (empty segments included).
pub open spec fn split_from(s: Seq<char>, sep: char, from: int) -> Seq<Seq<char>>
    decreases s.len() - from,
    when 0 <= from <= s.len()
{
    proof {
        lemma_find_from(s, sep, from);
    }
    match find_from(s, sep, from) {
        Some(i) => seq![s.subrange(from, i)] + split_from(s, sep, i + 1),
        None => seq![s.subrange(from, s.len() as int)],
    }
}

/// The text of an entry's weight: its first parameter, trimmed, after a
/// `q=` prefix; `None` without a parameter or without the prefix.
pub open spec fn weight_text_spec(param: Option<Seq<char>>) -> Option<Seq<char>> {
    match param {
        Some(p) => {
            let t = trim_spec(p);
            if t.len() >= 2 && t[0] == 'q' && t[1] == '=' {
                Some(t.skip(2))
            } else {
                None
            }
        },
        None => None,
    }
}

/// The primary subtag of a language tag: the text before its first `-`.
pub open spec fn primary_tag_spec(tag: Seq<char>) -> Seq<char> {
    match find_from(tag, '-', 0) {
        Some(i) => tag.subrange(0, i),
        None => tag,
    }
}

/// One comma-separated entry: the language that the primary subtag of its
/// tag (the trimmed text before the first `;`) names, and the weight text
/// of its first parameter; `None` when the tag is empty.
pub open spec fn entry_spec(e: Seq<char>) -> Option<(Option<Lang>, Option<Seq<char>>)> {
    let first_end = match find_from(e, ';', 0) {
        Some(i) => i,
        None => e.len() as int,
    };
    let tag = trim_spec(e.subrange(0, first_end));
    let param = match find_from(e, ';', 0) {
        Some(i) => Some(
            e.subrange(
                i + 1,
                match find_from(e, ';', i + 1) {
                    Some(j) => j,
                    None => e.len() as int,
                },
            ),
        ),
        None => None,
    };
    if tag.len() == 0 {
        None
    } else {
        Some((from_code_spec(primary_tag_spec(tag)), weight_text_spec(param)))
    }
}

/// The entries of a run of segments, in order, leaving out those with an
/// empty tag.
pub open spec fn entries_of(segs: Seq<Seq<char>>) -> Seq<(Option<Lang>, Option<Seq<char>>)>
    decreases segs.len(),
{
    if segs.len() == 0 {
        Seq::empty()
    } else {
        entries_of(segs.drop_last()) + match entry_spec(segs.last()) {
            Some(x) => seq![x],
            None => Seq::empty(),
        }
    }
}

/// The entries of an `Accept-Language` header.
pub open spec fn header_entries(header: Seq<char>) -> Seq<(Option<Lang>, Option<Seq<char>>)> {
    entries_of(split_from(header, ',', 0))
}

// ---------------------------------------------------------------------------
// Reading the header

/// One entry of an `Accept-Language` header: the supported language its
/// primary subtag names, if any, and the text of its `q` weight, if given.
pub struct LanguageEntry<'a> {
    pub lang: Option<Lang>,
    pub weight: Option<&'a str>,
}

/// The view of an entry.
pub open spec fn entry_view(e: LanguageEntry) -> (Option<Lang>, Option<Seq<char>>) {
    (
        e.lang,
        match e.weight {
            Some(w) => Some(w@),
            None => None,
        },
    )
}

/// The views of a run of entries.
pub open spec fn entry_views(es: Seq<LanguageEntry>) -> Seq<(Option<Lang>, Option<Seq<char>>)> {
    Seq::new(es.len(), |i: int| entry_view(es[i]))
}

/// The weight text of an entry's parameter (see [`weight_text_spec`]).
fn weight_text<'a>(param: Option<&'a str>) -> (res: Option<&'a str>)
    ensures
        match res {
            Some(w) => weight_text_spec(
                match param {
                    Some(p) => Some(p@),
                    None => None,
                },
            ) == Some(w@),
            None => weight_text_spec(
                match param {
                    Some(p) => Some(p@),
                    None => None,
                },
            ) is None,
        },
{
    match param {
        Some(p) => {
            let t = trim(p);
            let tn = t.unicode_len();
            if tn >= 2 && t.get_char(0) == 'q' && t.get_char(1) == '=' {
                let v = t.substring_char(2, tn);
                assert(v@ =~= t@.skip(2));
                Some(v)
            } else {
                None
            }
        },
        None => None,
    }
}

/// The primary subtag of a language tag (see [`primary_tag_spec`]).
fn primary_tag(tag: &str) -> (res: &str)
    ensures
        res@ == primary_tag_spec(tag@),
{
    proof {
        lemma_find_from(tag@, '-', 0);
    }
    match find_char_from(tag, '-', 0) {
        Some(i) => tag.substring_char(0, i),
        None => tag,
    }
}

/// One entry of the header (see [`entry_spec`]).
fn parse_entry<'a>(e: &'a str) -> (res: Option<LanguageEntry<'a>>)
    ensures
        match res {
            Some(x) => entry_spec(e@) == Some(entry_view(x)),
            None => entry_spec(e@) is None,
        },
{
    let n = e.unicode_len();
    proof {
        lemma_find_from(e@, ';', 0);
    }
    let first = find_char_from(e, ';', 0);
    let first_end = match first {
        Some(i) => i,
        None => n,
    };
    let tag = trim(e.substring_char(0, first_end));
    let param = match first {
        Some(i) => {
            proof {
                lemma_find_from(e@, ';', i + 1);
            }
            let end = match find_char_from(e, ';', i + 1) {
                Some(j) => j,
                None => n,
            };
            Some(e.substring_char(i + 1, end))
        },
        None => None,
    };
    if tag.unicode_len() == 0 {
        None
    } else {
        let lang = Lang::from_code(primary_tag(tag));
        let weight = weight_text(param);
        Some(LanguageEntry { lang, weight })
    }
}

/// The entries of an `Accept-Language` header, in order (see
/// [`header_entries`]).
pub fn language_entries<'a>(header: &'a str) -> (res: Vec<LanguageEntry<'a>>)
    ensures
        entry_views(res@) == header_entries(header@),
{
    let n = header.unicode_len();
    let ghost segs = split_from(header@, ',', 0);
    let ghost mut done: Seq<Seq<char>> = seq![];
    let mut out: Vec<LanguageEntry<'a>> = Vec::new();
    let mut from: usize = 0;
    assert(segs =~= done + split_from(header@, ',', 0));
    loop
        invariant
            n == header@.len(),
            from <= n,
            segs == split_from(header@, ',', 0),
            segs == done + split_from(header@, ',', from as int),
            entry_views(out@) == entries_of(done),
        decreases n - from,
    {
        proof {
            lemma_find_from(header@, ',', from as int);
        }
        let found = find_char_from(header, ',', from);
        let end = match found {
            Some(i) => i,
            None => n,
        };
        let seg = header.substring_char(from, end);
        let ghost before = out@;
        match parse_entry(seg) {
            Some(x) => {
                out.push(x);
            },
            None => {},
        }
        proof {
            let next = done.push(seg@);
            assert(next.drop_last() =~= done);
            assert(entry_views(out@) =~= entries_of(next));
            done = next;
        }
        match found {
            Some(i) => {
                assert(segs =~= done + split_from(header@, ',', i + 1));
            },
            None => {
                assert(segs =~= done);
                return out;
            },
        }
        from = end + 1;
    }
}

} // verus!
