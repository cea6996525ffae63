//! What the database layer decides before it writes: fresh identifiers,
//! whether a contact was entered, whether a submitted apartment order can be
//! stored, and the values the create-and-close operations take.

use crate::text::{is_blank, is_blank_str, str_eq};
use base64::Engine;
use rand::Rng;
use vstd::prelude::*;

verus! {

/// The initial owner of a new apartment or building, as the forms collect
/// it.
pub struct NewOwner<'a> {
    pub name: &'a str,
    pub email: &'a str,
    pub start_date: &'a str,
    pub end_date: Option<&'a str>,
}

/// The previous period that a new one closes: its id and the day it shall
/// end on.
pub struct PreviousPeriod<'a> {
    pub id: &'a str,
    pub end_date: &'a str,
}

/// `n` bytes from the thread-local random generator
/// (`rand::rng().fill_bytes`): random, so nothing is promised of them
/// beyond their number.
#[verifier::external_body]
pub(crate) fn random_bytes(n: usize) -> (res: Vec<u8>)
    ensures
        res@.len() == n,
{
    let mut bytes = vec![0u8; n];
    rand::rng().fill_bytes(&mut bytes);
    bytes
}

/// The character of a six-bit value in base64's URL-safe alphabet.
pub open spec fn url_safe_char(v: int) -> char {
    if v < 26 {
        (65 + v) as char
    } else if v < 52 {
        (97 + v - 26) as char
    } else if v < 62 {
        (48 + v - 52) as char
    } else if v == 62 {
        '-'
    } else {
        '_'
    }
}

/// The text that base64's `URL_SAFE_NO_PAD` engine encodes `bytes` to: each
/// group of three bytes becomes four characters of six bits each, most
/// significant first; a last group of one or two bytes becomes two or three
/// characters, its missing low bits zero, with no padding.
pub open spec fn base64_url_no_pad(bytes: Seq<u8>) -> Seq<char>
    decreases bytes.len(),
{
    if bytes.len() == 0 {
        Seq::empty()
    } else if bytes.len() == 1 {
        let b0 = bytes[0] as int;
        seq![url_safe_char(b0 / 4), url_safe_char((b0 % 4) * 16)]
    } else if bytes.len() == 2 {
        let b0 = bytes[0] as int;
        let b1 = bytes[1] as int;
        seq![
            url_safe_char(b0 / 4),
            url_safe_char((b0 % 4) * 16 + b1 / 16),
            url_safe_char((b1 % 16) * 4),
        ]
    } else {
        let b0 = bytes[0] as int;
        let b1 = bytes[1] as int;
        let b2 = bytes[2] as int;
        seq![
            url_safe_char(b0 / 4),
            url_safe_char((b0 % 4) * 16 + b1 / 16),
            url_safe_char((b1 % 16) * 4 + b2 / 64),
            url_safe_char(b2 % 64),
        ] + base64_url_no_pad(bytes.subrange(3, bytes.len() as int))
    }
}

/// A character of base64's URL-safe alphabet (`A`–`Z`, `a`–`z`, `0`–`9`,
/// `-`, `_`).
pub open spec fn is_url_safe_char(c: char) -> bool {
    let v = c as u32;
    ||| 65 <= v <= 90
    ||| 97 <= v <= 122
    ||| 48 <= v <= 57
    ||| c == '-'
    ||| c == '_'
}

/// `URL_SAFE_NO_PAD.encode(bytes)`: base64 without padding over the
/// URL-safe alphabet, so four characters per three bytes and two or three
/// for a last partial group.
#[verifier::external_body]
fn encode_url_safe_no_pad(bytes: &[u8]) -> (res: String)
    requires
        bytes@.len() <= usize::MAX / 2,
    ensures
        res@ == base64_url_no_pad(bytes@),
        res@.len() == (4 * bytes@.len() + 2) / 3,
        forall|i: int| 0 <= i < res@.len() ==> is_url_safe_char(#[trigger] res@[i]),
{
    base64::engine::general_purpose::URL_SAFE_NO_PAD.encode(bytes)
}

/// A fresh random identifier: 16 random bytes in URL-safe base64, which
/// makes 22 characters that can stand in a URL as they are.
pub fn gen_token() -> (res: String)
    ensures
        exists|b: Seq<u8>| b.len() == 16 && res@ == base64_url_no_pad(b),
        res@.len() == 22,
        forall|i: int| 0 <= i < res@.len() ==> is_url_safe_char(#[trigger] res@[i]),
{
    let bytes = random_bytes(16);
    encode_url_safe_no_pad(bytes.as_slice())
}

/// Whether an Ansprechpartner was entered: the name or the e-mail address
/// is not blank.
pub open spec fn contact_given_spec(name: Seq<char>, email: Seq<char>) -> bool {
    !is_blank(name) || !is_blank(email)
}

/// Whether an Ansprechpartner was entered: a building is created without
/// one when both fields are blank; a partially filled contact is still
/// stored (and then rejected by the database triggers).
pub fn contact_given(name: &str, email: &str) -> (res: bool)
    ensures
        res == contact_given_spec(name@, email@),
{
    !is_blank_str(name) || !is_blank_str(email)
}

/// Whether the ids name no apartment twice.
pub open spec fn ids_distinct(ids: Seq<String>) -> bool {
    forall|i: int, j: int| 0 <= i < j < ids.len() ==> (#[trigger] ids[i])@ != (#[trigger] ids[j])@
}

/// A submitted apartment order can be stored when it has as many ids as the
/// building has apartments and no id twice (each id must then also belong to
/// the building, which the per-row updates check).
pub open spec fn reorder_acceptable_spec(count: int, ids: Seq<String>) -> bool {
    count == ids.len() && ids_distinct(ids)
}

/// Check a submitted apartment order against the building's apartment count
/// before the per-row updates.
pub fn reorder_acceptable(count: i64, ordered_ids: &[String]) -> (res: bool)
    requires
        ordered_ids@.len() <= i64::MAX,
    ensures
        res == reorder_acceptable_spec(count as int, ordered_ids@),
{
    let n = ordered_ids.len();
    if count < 0 || count as u64 != n as u64 {
        return false;
    }
    let mut i: usize = 0;
    while i < n
        invariant
            n == ordered_ids@.len(),
            i <= n,
            forall|a: int, b: int|
                0 <= a < b < n && a < i ==> (#[trigger] ordered_ids@[a])@ != (
                #[trigger] ordered_ids@[b])@,
        decreases n - i,
    {
        let mut j: usize = i + 1;
        while j < n
            invariant
                n == ordered_ids@.len(),
                i < n,
                i + 1 <= j <= n,
                forall|a: int, b: int|
                    0 <= a < b < n && a < i ==> (#[trigger] ordered_ids@[a])@ != (
                    #[trigger] ordered_ids@[b])@,
                forall|b: int| i < b < j ==> ordered_ids@[i as int]@ != (#[trigger] ordered_ids@[b])@,
            decreases n - j,
        {
            if str_eq(ordered_ids[i].as_str(), ordered_ids[j].as_str()) {
                return false;
            }
            j = j + 1;
        }
        i = i + 1;
    }
    true
}

} // verus!
