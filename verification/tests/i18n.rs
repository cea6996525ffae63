use kehrkraft::i18n::accept_language::{language_entries, LanguageEntry};
use kehrkraft::i18n::catalog::CATALOG_LEN;
use kehrkraft::i18n::{
    cookie_value, date_format, db_msg, messages, msg, msgf, substitute, Lang, Ui,
    COOKIE_MAX_AGE, COOKIE_NAME,
};

fn placeholders(s: &str) -> Vec<usize> {
    let mut out = Vec::new();
    let mut rest = s;
    while let Some(start) = rest.find('{') {
        let after = &rest[start + 1..];
        let Some(end) = after.find('}') else { break };
        if let Ok(idx) = after[..end].parse::<usize>() {
            out.push(idx);
        }
        rest = &after[end + 1..];
    }
    out
}

#[test]
fn catalog_has_no_duplicate_keys() {
    let mut keys: Vec<&str> = messages().iter().map(|(k, _, _)| *k).collect();
    let count = keys.len();
    keys.sort_unstable();
    keys.dedup();
    assert_eq!(keys.len(), count, "duplicate catalog key");
}

#[test]
fn catalog_placeholders_match_between_languages() {
    for (key, de, en) in messages() {
        assert_eq!(
            placeholders(de),
            placeholders(en),
            "placeholder mismatch for {key:?}"
        );
    }
}

#[test]
fn cookie_values_are_parsed_by_name() {
    assert_eq!(
        cookie_value("session=abc; lang=en; theme=dark", COOKIE_NAME),
        Some("en")
    );
    assert_eq!(cookie_value("lang=de", COOKIE_NAME), Some("de"));
    assert_eq!(cookie_value("langauge=de", COOKIE_NAME), None);
}

#[test]
fn placeholders_substitute_in_order() {
    assert_eq!(substitute("a {0} b {1} c", &["x", "y"]), "a x b y c");
    assert_eq!(substitute("only {1}", &["x", "y"]), "only y");
    assert_eq!(substitute("{0}{0}", &["x"]), "xx");
    // Missing arguments and unknown markers stay visible.
    assert_eq!(substitute("a {0} {1}", &["x"]), "a x {1}");
    assert_eq!(substitute("a {x} b", &["y"]), "a {x} b");
}

#[test]
fn db_codes_map_to_messages() {
    assert_eq!(
        db_msg(Lang::De, "ERR_NAME_EMPTY"),
        "Name darf nicht leer sein."
    );
    assert_eq!(
        db_msg(Lang::En, "ERR_NAME_EMPTY"),
        "The name must not be empty."
    );
    // Unknown messages pass through untouched.
    assert_eq!(
        db_msg(Lang::En, "Name darf nicht leer sein."),
        "Name darf nicht leer sein."
    );
}

#[test]
fn ui_helper_methods_resolve_messages() {
    let de = Ui::for_lang(Lang::De);
    let en = Ui::for_lang(Lang::En);
    assert_eq!(de.t("nav.buildings"), "Gebäude");
    assert_eq!(en.t("nav.buildings"), "Buildings");
    assert_eq!(de.lang_code(), "de");
    assert_eq!(en.lang_code(), "en");
    assert_eq!(en.t1("role.since", "2026-01-01"), "since 2026-01-01");
}

#[test]
fn codes_round_trip() {
    for lang in [Lang::De, Lang::En] {
        assert_eq!(Lang::from_code(lang.code()), Some(lang));
    }
    assert_eq!(Lang::from_code("fr"), None);
    assert_eq!(Lang::from_code(" de"), None);
}

/// The language a request gets from its cookie and `Accept-Language`
/// header, as the application composes it: the library reads the header's
/// entries, they are ranked by their `f32` weights, and the library decides
/// between cookie, browser and fallback.
fn negotiate(cookie: Option<&str>, accept_language: Option<&str>) -> Lang {
    let preferred = accept_language.and_then(|h| {
        let mut entries: Vec<(Option<Lang>, f32)> = language_entries(h)
            .into_iter()
            .map(|e| (e.lang, e.weight.and_then(|v| v.parse::<f32>().ok()).unwrap_or(1.0)))
            .collect();
        entries.sort_by(|a, b| b.1.total_cmp(&a.1));
        entries
            .into_iter()
            .find_map(|(lang, q)| if q <= 0.0 { None } else { lang })
    });
    kehrkraft::i18n::negotiate(cookie, preferred)
}

fn entries(h: &str) -> Vec<(Option<Lang>, Option<&str>)> {
    language_entries(h)
        .into_iter()
        .map(|e: LanguageEntry| (e.lang, e.weight))
        .collect()
}

#[test]
fn cookie_wins_over_accept_language() {
    assert_eq!(
        negotiate(Some("en"), Some("de-DE,de;q=0.9")),
        Lang::En,
        "an explicit cookie choice always wins"
    );
    assert_eq!(negotiate(Some("de"), Some("en-US,en;q=0.9")), Lang::De);
}

#[test]
fn accept_language_picks_first_supported() {
    assert_eq!(negotiate(None, Some("en-US,en;q=0.9,de;q=0.8")), Lang::En);
    assert_eq!(negotiate(None, Some("de-DE,de;q=0.9")), Lang::De);
    assert_eq!(negotiate(None, Some("fr,fr-CH;q=0.8,de;q=0.5")), Lang::De);
}

#[test]
fn accept_language_q_weights_are_honoured() {
    assert_eq!(negotiate(None, Some("de;q=0.8, en;q=0.9")), Lang::En);
    assert_eq!(negotiate(None, Some("de;q=0, en;q=0")), Lang::De);
}

#[test]
fn missing_preference_falls_back_to_german() {
    assert_eq!(negotiate(None, None), Lang::De);
    assert_eq!(negotiate(None, Some("fr")), Lang::De);
    assert_eq!(negotiate(Some("fr"), None), Lang::De);
    assert_eq!(negotiate(Some(""), None), Lang::De);
}

#[test]
fn trimmed_cookie_wins_and_unknown_cookie_defers_to_the_browser() {
    assert_eq!(negotiate(Some(" de "), Some("en")), Lang::De);
    assert_eq!(negotiate(Some("fr"), Some("en")), Lang::En);
}

#[test]
fn header_entries_carry_language_and_weight_text() {
    assert_eq!(
        entries("en-US,en;q=0.9,de;q=0.8"),
        vec![
            (Some(Lang::En), None),
            (Some(Lang::En), Some("0.9")),
            (Some(Lang::De), Some("0.8")),
        ]
    );
    // Empty tags are left out; the weight text is taken as written.
    assert_eq!(
        entries(" , ;q=1, EN, fr-CH; q=1e-9 ;x"),
        vec![(None, None), (None, Some("1e-9"))]
    );
    // A first parameter other than `q=` gives no weight text.
    assert_eq!(entries("de;level=1;q=0.5"), vec![(Some(Lang::De), None)]);
    assert_eq!(entries(""), vec![]);
}

#[test]
fn explicit_cookie_wins_over_the_library_preference() {
    assert_eq!(kehrkraft::i18n::negotiate(Some(" de "), Some(Lang::En)), Lang::De);
    assert_eq!(kehrkraft::i18n::negotiate(Some("fr"), Some(Lang::En)), Lang::En);
    assert_eq!(kehrkraft::i18n::negotiate(None, None), Lang::De);
}

#[test]
fn weights_rank_as_f32() {
    assert_eq!(negotiate(None, Some("en;q=1e-9, de;q=0.5")), Lang::De);
    assert_eq!(negotiate(None, Some("en;q=0.3,de;q=0.30000001")), Lang::En);
}

#[test]
fn unknown_keys_render_as_themselves() {
    assert_eq!(msg(Lang::En, "no.such.key"), "no.such.key");
    assert_eq!(msgf(Lang::De, "no.such.{0}", &["key"]), "no.such.key");
}

#[test]
fn messages_with_several_placeholders() {
    assert_eq!(
        msgf(Lang::De, "ical.summary", &["12", "Anna"]),
        "Kehrwoche KW 12: Anna"
    );
    assert_eq!(
        Ui::for_lang(Lang::En).t2("ical.summary", "12", "Anna"),
        "Kehrwoche CW 12: Anna"
    );
}

#[test]
fn substitution_without_arguments_keeps_the_template() {
    let t = "a {0} {1} {x} {";
    assert_eq!(substitute(t, &[]), t);
    assert_eq!(substitute("{+1}", &["a", "b"]), "b");
    assert_eq!(substitute("{ 1}", &["a", "b"]), "{ 1}");
}

#[test]
fn cookie_edge_cases() {
    assert_eq!(cookie_value("", "lang"), None);
    assert_eq!(cookie_value("lang=", "lang"), Some(""));
    assert_eq!(cookie_value("a=1;lang=de=x", "lang"), Some("de=x"));
    assert_eq!(cookie_value("lang=en; lang=de", "lang"), Some("en"));
}

#[test]
fn date_formats_and_cookie_lifetime() {
    assert_eq!(date_format(Lang::De), "%d.%m.%Y");
    assert_eq!(date_format(Lang::En), "%Y-%m-%d");
    assert_eq!(COOKIE_MAX_AGE, 31_536_000);
    assert_eq!(messages().len(), CATALOG_LEN);
    assert!(Ui::for_lang(Lang::De).is_de());
    assert!(!Ui::for_lang(Lang::En).is_de());
}
