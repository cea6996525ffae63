//! German and English UI copy.
//!
//! German stays the fallback language, but once a visitor picks a language
//! the choice wins over the browser preference: the language selector sets a
//! cookie (`lang=de` / `lang=en`) that overrides `Accept-Language` from then
//! on.
//!
//! All user-facing copy lives in one catalog ([`catalog::catalog`]): every
//! message has a stable key plus a German and an English rendering.
//! Templates reach it through a [`Ui`] value (one per request), other code
//! through [`msg`] / [`msgf`]. Messages may contain `{0}`/`{1}`/…
//! placeholders; the `t1`–`t3` methods on [`Ui`] and [`msgf`] substitute
//! them. The database validation triggers raise `ERR_*` codes, which are
//! ordinary catalog keys, so the database stays language-neutral.

pub mod accept_language;
pub mod catalog;

use crate::i18n::catalog::{catalog, catalog_entry, CATALOG_LEN};
use crate::text::{
    find_char_from, find_from, lemma_find_from, lemma_parse_unsigned_nonneg, parse_unsigned, parse_unsigned_spec, push_char, str_eq,
    to_owned, trim, trim_spec,
};
use vstd::prelude::*;

verus! {

/// The languages the UI can be rendered in.
#[derive(Debug, Clone, Copy, PartialEq, Eq, Structural)]
pub enum Lang {
    De,
    En,
}

/// The code of a language in URLs, cookies and the `lang` attribute.
pub open spec fn lang_code_spec(lang: Lang) -> Seq<char> {
    match lang {
        Lang::De => "de"@,
        Lang::En => "en"@,
    }
}

/// The language a `de`/`en` code names, if any.
pub open spec fn from_code_spec(code: Seq<char>) -> Option<Lang> {
    if code == "de"@ {
        Some(Lang::De)
    } else if code == "en"@ {
        Some(Lang::En)
    } else {
        None
    }
}

impl Lang {
    /// The language code used in URLs, cookies and the `lang` attribute.
    pub fn code(self) -> (res: &'static str)
        ensures
            res@ == lang_code_spec(self),
    {
        match self {
            Lang::De => "de",
            Lang::En => "en",
        }
    }

    /// Parse a `de`/`en` language code (used for the cookie and the
    /// `/language/{code}` route).
    pub fn from_code(code: &str) -> (res: Option<Lang>)
        ensures
            res == from_code_spec(code@),
    {
        if str_eq(code, "de") {
            Some(Lang::De)
        } else if str_eq(code, "en") {
            Some(Lang::En)
        } else {
            None
        }
    }
}

/// Every language's code parses back to that language.
pub proof fn law_code_round_trip(lang: Lang)
    ensures
        from_code_spec(lang_code_spec(lang)) == Some(lang),
{
    reveal_strlit("de");
    reveal_strlit("en");
    assert("de"@ != "en"@) by {
        assert("de"@[0] != "en"@[0]);
    }
}

/// The name of the language-preference cookie.
pub const COOKIE_NAME: &'static str = "lang";

/// Lifetime of the preference cookie in seconds (a year: the choice wins
/// until it is changed).
pub const COOKIE_MAX_AGE: u32 = 60 * 60 * 24 * 365;

/// The value of one `;`-separated segment of a `Cookie` header when the
/// segment, trimmed, is `name=value`: the text before its first `=` must be
/// `name` exactly.
pub open spec fn cookie_pair_value(segment: Seq<char>, name: Seq<char>) -> Option<Seq<char>> {
    let t = trim_spec(segment);
    match find_from(t, '=', 0) {
        Some(e) => if t.subrange(0, e) == name {
            Some(t.subrange(e + 1, t.len() as int))
        } else {
            None
        },
        None => None,
    }
}

/// The value of the first cookie called `name` among the `;`-separated
/// segments of `header` that start at or after `from`.
pub open spec fn cookie_from(header: Seq<char>, name: Seq<char>, from: int) -> Option<Seq<char>>
    decreases header.len() - from,
    when 0 <= from <= header.len()
{
    let end = match find_from(header, ';', from) {
        Some(i) => i,
        None => header.len() as int,
    };
    proof {
        lemma_find_from(header, ';', from);
    }
    match cookie_pair_value(header.subrange(from, end), name) {
        Some(v) => Some(v),
        None => if end < header.len() {
            cookie_from(header, name, end + 1)
        } else {
            None
        },
    }
}

/// Read a cookie by name from a raw `Cookie` request header.
pub fn cookie_value<'a>(header: &'a str, name: &str) -> (res: Option<&'a str>)
    ensures
        match res {
            Some(v) => cookie_from(header@, name@, 0) == Some(v@),
            None => cookie_from(header@, name@, 0) is None,
        },
{
    let n = header.unicode_len();
    let mut from: usize = 0;
    loop
        invariant
            n == header@.len(),
            from <= n,
            cookie_from(header@, name@, 0) == cookie_from(header@, name@, from as int),
        decreases n - from,
    {
        proof {
            lemma_find_from(header@, ';', from as int);
        }
        let end = match find_char_from(header, ';', from) {
            Some(i) => i,
            None => n,
        };
        let segment = header.substring_char(from, end);
        let t = trim(segment);
        let tn = t.unicode_len();
        match find_char_from(t, '=', 0) {
            Some(e) => {
                proof {
                    lemma_find_from(t@, '=', 0);
                }
                let key = t.substring_char(0, e);
                if str_eq(key, name) {
                    return Some(t.substring_char(e + 1, tn));
                }
            },
            None => {},
        }
        if end >= n {
            return None;
        }
        from = end + 1;
    }
}

/// The language a request is rendered in: the `lang` cookie, trimmed, wins
/// when it names a supported language; otherwise `preferred`, the supported
/// language that the browser's `Accept-Language` header ranks first; German
/// when neither decides.
pub open spec fn negotiate_spec(cookie: Option<Seq<char>>, preferred: Option<Lang>) -> Lang {
    let fallback = match preferred {
        Some(l) => l,
        None => Lang::De,
    };
    match cookie {
        Some(c) => match from_code_spec(trim_spec(c)) {
            Some(l) => l,
            None => fallback,
        },
        None => fallback,
    }
}

/// Pick the UI language for a request: an explicit `lang` cookie wins,
/// otherwise `preferred`, the supported language that the browser's
/// `Accept-Language` list ranks first (its entries come from
/// [`accept_language::language_entries`]; ranking them by their
/// floating-point weights is the application's), and German is the
/// fallback when the browser names no supported language.
pub fn negotiate(cookie: Option<&str>, preferred: Option<Lang>) -> (res: Lang)
    ensures
        res == negotiate_spec(
            match cookie {
                Some(c) => Some(c@),
                None => None,
            },
            preferred,
        ),
{
    let from_cookie = match cookie {
        Some(c) => Lang::from_code(trim(c)),
        None => None,
    };
    match from_cookie {
        Some(l) => l,
        None => match preferred {
            Some(l) => l,
            None => Lang::De,
        },
    }
}

/// An explicit cookie choice always wins: whatever the browser prefers, a
/// cookie naming a supported language decides.
pub proof fn law_cookie_choice_wins(cookie: Seq<char>, preferred: Option<Lang>, lang: Lang)
    requires
        from_code_spec(trim_spec(cookie)) == Some(lang),
    ensures
        negotiate_spec(Some(cookie), preferred) == lang,
{
}

/// German is the fallback: without a usable cookie and without a supported
/// language that the browser prefers, the page is German.
pub proof fn law_german_is_the_fallback(cookie: Option<Seq<char>>)
    requires
        match cookie {
            Some(c) => from_code_spec(trim_spec(c)) is None,
            None => true,
        },
    ensures
        negotiate_spec(cookie, None) == Lang::De,
{
}

/// The position of the first catalog entry at or after `i` whose key is
/// `key`.
pub open spec fn lookup_from(key: Seq<char>, i: int) -> Option<int>
    decreases CATALOG_LEN - i,
{
    if i < 0 || i >= CATALOG_LEN {
        None
    } else if catalog(i).0@ == key {
        Some(i)
    } else {
        lookup_from(key, i + 1)
    }
}

/// The position of the catalog entry for `key`, if there is one.
pub open spec fn lookup(key: Seq<char>) -> Option<int> {
    lookup_from(key, 0)
}

/// The text of a catalog entry in `lang`.
pub open spec fn text_in(lang: Lang, e: (&'static str, &'static str, &'static str)) -> &'static str {
    match lang {
        Lang::De => e.1,
        Lang::En => e.2,
    }
}

/// The message for `key` in `lang`; an unknown key renders as the key
/// itself, so that a typo shows in the UI at once.
pub open spec fn msg_spec(lang: Lang, key: &'static str) -> &'static str {
    match lookup(key@) {
        Some(i) => text_in(lang, catalog(i)),
        None => key,
    }
}

/// Look the key up in the catalog.
fn entry_index(key: &str) -> (res: Option<usize>)
    ensures
        match res {
            Some(i) => lookup(key@) == Some(i as int) && i < CATALOG_LEN,
            None => lookup(key@) is None,
        },
{
    let mut i: usize = 0;
    while i < CATALOG_LEN
        invariant
            i <= CATALOG_LEN,
            lookup(key@) == lookup_from(key@, i as int),
        decreases CATALOG_LEN - i,
    {
        let e = catalog_entry(i);
        if str_eq(e.0, key) {
            return Some(i);
        }
        i = i + 1;
    }
    None
}

/// The whole catalog, in order.
pub fn messages() -> (res: Vec<(&'static str, &'static str, &'static str)>)
    ensures
        res@.len() == CATALOG_LEN,
        forall|i: int| 0 <= i < CATALOG_LEN ==> #[trigger] res@[i] == catalog(i),
{
    let mut out: Vec<(&'static str, &'static str, &'static str)> = Vec::new();
    let mut i: usize = 0;
    while i < CATALOG_LEN
        invariant
            i <= CATALOG_LEN,
            out@.len() == i,
            forall|k: int| 0 <= k < i ==> #[trigger] out@[k] == catalog(k),
        decreases CATALOG_LEN - i,
    {
        out.push(catalog_entry(i));
        i = i + 1;
    }
    out
}

/// The message for `key` in `lang`. An unknown key renders as the key
/// itself (visible immediately in the UI, so a typo cannot hide).
pub fn msg(lang: Lang, key: &'static str) -> (res: &'static str)
    ensures
        res == msg_spec(lang, key),
{
    match entry_index(key) {
        Some(i) => {
            let e = catalog_entry(i);
            match lang {
                Lang::De => e.1,
                Lang::En => e.2,
            }
        },
        None => key,
    }
}

/// The views of substitution arguments.
pub open spec fn arg_views(args: Seq<&str>) -> Seq<Seq<char>> {
    args.map_values(|a: &str| a@)
}

/// `t[pos..]` with its `{i}` placeholders replaced by `args[i]`: a `{`
/// whose text up to the next `}` parses as an index below `args.len()` is a
/// placeholder; any other `{` stays, and the scan goes on after it; with no
/// `}` after a `{`, the rest stays as it is.
pub open spec fn subst_from(t: Seq<char>, pos: int, args: Seq<Seq<char>>) -> Seq<char>
    decreases t.len() - pos,
    when 0 <= pos <= t.len()
{
    match find_from(t, '{', pos) {
        None => t.subrange(pos, t.len() as int),
        Some(s) => {
            proof {
                lemma_find_from(t, '{', pos);
                lemma_find_from(t, '}', s + 1);
            }
            match find_from(t, '}', s + 1) {
                None => t.subrange(pos, t.len() as int),
                Some(e) => match parse_unsigned_spec(t.subrange(s + 1, e), usize::MAX as int) {
                    Some(idx) => if idx < args.len() {
                        t.subrange(pos, s) + args[idx] + subst_from(t, e + 1, args)
                    } else {
                        t.subrange(pos, s) + seq!['{'] + subst_from(t, s + 1, args)
                    },
                    None => t.subrange(pos, s) + seq!['{'] + subst_from(t, s + 1, args),
                },
            }
        },
    }
}

/// `template` with its placeholders replaced (see [`subst_from`]).
pub open spec fn substitute_spec(template: Seq<char>, args: Seq<Seq<char>>) -> Seq<char> {
    subst_from(template, 0, args)
}

/// Replace `{0}`, `{1}`, … placeholders with `args[i]`. Unknown markers
/// and markers beyond `args` stay untouched so mistakes remain visible.
pub fn substitute(template: &str, args: &[&str]) -> (res: String)
    ensures
        res@ == substitute_spec(template@, arg_views(args@)),
{
    let ghost a = arg_views(args@);
    let n = template.unicode_len();
    let mut out = String::new();
    let mut pos: usize = 0;
    loop
        invariant
            n == template@.len(),
            pos <= n,
            a == arg_views(args@),
            out@ + subst_from(template@, pos as int, a) == subst_from(template@, 0, a),
        decreases n - pos,
    {
        let ghost t = template@;
        proof {
            lemma_find_from(t, '{', pos as int);
        }
        match find_char_from(template, '{', pos) {
            None => {
                out.append(template.substring_char(pos, n));
                return out;
            },
            Some(s) => {
                proof {
                    lemma_find_from(t, '}', s + 1);
                }
                match find_char_from(template, '}', s + 1) {
                    None => {
                        out.append(template.substring_char(pos, n));
                        return out;
                    },
                    Some(e) => {
                        let ghost before = out@;
                        out.append(template.substring_char(pos, s));
                        let inner = template.substring_char(s + 1, e);
                        let parsed = parse_unsigned(inner, usize::MAX as u64);
                        let mut replaced = false;
                        match parsed {
                            Some(v) => {
                                let idx = v as usize;
                                if idx < args.len() {
                                    out.append(args[idx]);
                                    assert(a[idx as int] == args@[idx as int]@);
                                    assert(out@ + subst_from(t, e + 1, a) =~= before
                                        + subst_from(t, pos as int, a));
                                    pos = e + 1;
                                    replaced = true;
                                }
                            },
                            None => {},
                        }
                        if !replaced {
                            push_char(&mut out, '{');
                            assert(out@ + subst_from(t, s + 1, a) =~= before + subst_from(
                                t,
                                pos as int,
                                a,
                            ));
                            pos = s + 1;
                        }
                    },
                }
            },
        }
    }
}

/// With no arguments every marker stays, so the template comes back
/// unchanged.
pub proof fn law_substitute_without_args(template: Seq<char>)
    ensures
        substitute_spec(template, seq![]) == template,
{
    lemma_subst_no_args(template, 0);
    assert(template.subrange(0, template.len() as int) =~= template);
}

proof fn lemma_subst_no_args(t: Seq<char>, pos: int)
    requires
        0 <= pos <= t.len(),
    ensures
        subst_from(t, pos, seq![]) == t.subrange(pos, t.len() as int),
    decreases t.len() - pos,
{
    let e: Seq<Seq<char>> = seq![];
    lemma_find_from(t, '{', pos);
    match find_from(t, '{', pos) {
        None => {
            assert(subst_from(t, pos, e) == t.subrange(pos, t.len() as int));
        },
        Some(s) => {
            lemma_find_from(t, '}', s + 1);
            match find_from(t, '}', s + 1) {
                None => {},
                Some(c) => {
                    lemma_parse_unsigned_nonneg(t.subrange(s + 1, c), usize::MAX as int);
                    lemma_subst_no_args(t, s + 1);
                    assert(subst_from(t, pos, e) == t.subrange(pos, s) + seq!['{'] + subst_from(t, s + 1, e));
                    assert(t.subrange(pos, s) + seq!['{'] + t.subrange(s + 1, t.len() as int)
                        =~= t.subrange(pos, t.len() as int));
                },
            }
        },
    }
}

/// [`msg`] with `{0}`/`{1}`/… placeholders substituted by `args`.
pub fn msgf(lang: Lang, key: &'static str, args: &[&str]) -> (res: String)
    ensures
        res@ == substitute_spec(msg_spec(lang, key)@, arg_views(args@)),
{
    substitute(msg(lang, key), args)
}

/// Translate a message that came out of the database: the validation
/// triggers raise `ERR_*` codes, which are catalog keys; other messages are
/// passed through unchanged.
pub fn db_msg(lang: Lang, message: &str) -> (res: String)
    ensures
        res@ == match lookup(message@) {
            Some(i) => text_in(lang, catalog(i))@,
            None => message@,
        },
{
    match entry_index(message) {
        Some(i) => {
            let e = catalog_entry(i);
            match lang {
                Lang::De => to_owned(e.1),
                Lang::En => to_owned(e.2),
            }
        },
        None => to_owned(message),
    }
}

/// The strftime pattern of calendar dates in the UI: German `21.09.2026`,
/// English (unambiguous) `2026-09-21`.
pub open spec fn date_format_spec(lang: Lang) -> Seq<char> {
    match lang {
        Lang::De => "%d.%m.%Y"@,
        Lang::En => "%Y-%m-%d"@,
    }
}

/// The strftime pattern used to render calendar dates in the UI.
pub fn date_format(lang: Lang) -> (res: &'static str)
    ensures
        res@ == date_format_spec(lang),
{
    match lang {
        Lang::De => "%d.%m.%Y",
        Lang::En => "%Y-%m-%d",
    }
}

/// The `Ui` value handed to every template so its copy can be rendered in
/// the request's language.
#[derive(Debug, Clone, Copy)]
pub struct Ui {
    pub lang: Lang,
}

impl Ui {
    pub fn for_lang(lang: Lang) -> (res: Ui)
        ensures
            res.lang == lang,
    {
        Ui { lang }
    }

    /// HTML `lang` attribute value ("de"/"en").
    pub fn lang_code(&self) -> (res: &'static str)
        ensures
            res@ == lang_code_spec(self.lang),
    {
        self.lang.code()
    }

    /// Whether the German UI is active (used to highlight the selector).
    pub fn is_de(&self) -> (res: bool)
        ensures
            res == (self.lang == Lang::De),
    {
        self.lang == Lang::De
    }

    /// A message without placeholders.
    pub fn t(&self, key: &'static str) -> (res: &'static str)
        ensures
            res == msg_spec(self.lang, key),
    {
        msg(self.lang, key)
    }

    /// A message with one `{0}` placeholder.
    pub fn t1(&self, key: &'static str, a: &str) -> (res: String)
        ensures
            res@ == substitute_spec(msg_spec(self.lang, key)@, seq![a@]),
    {
        let args = [a];
        let res = msgf(self.lang, key, &args);
        assert(arg_views(args@) =~= seq![a@]);
        res
    }

    /// A message with `{0}` and `{1}` placeholders.
    pub fn t2(&self, key: &'static str, a: &str, b: &str) -> (res: String)
        ensures
            res@ == substitute_spec(msg_spec(self.lang, key)@, seq![a@, b@]),
    {
        let args = [a, b];
        let res = msgf(self.lang, key, &args);
        assert(arg_views(args@) =~= seq![a@, b@]);
        res
    }

    /// A message with `{0}`, `{1}` and `{2}` placeholders.
    pub fn t3(&self, key: &'static str, a: &str, b: &str, c: &str) -> (res: String)
        ensures
            res@ == substitute_spec(msg_spec(self.lang, key)@, seq![a@, b@, c@]),
    {
        let args = [a, b, c];
        let res = msgf(self.lang, key, &args);
        assert(arg_views(args@) =~= seq![a@, b@, c@]);
        res
    }
}

} // verus!
