//! Calls into `std` and into outside crates, each with the contract that the
//! rest of the library relies on.

use vstd::prelude::*;
use vstd::utf8::*;

use crate::json::Field;
use crate::protocol::diff::LineChange;
use crate::protocol::ids::IdError;

verus! {

/// `char::is_whitespace`: the characters with Unicode's `White_Space`
/// property.
pub open spec fn white_space(c: char) -> bool {
    ||| 0x09 <= c as u32 <= 0x0d
    ||| c as u32 == 0x20
    ||| c as u32 == 0x85
    ||| c as u32 == 0xa0
    ||| c as u32 == 0x1680
    ||| 0x2000 <= c as u32 <= 0x200a
    ||| c as u32 == 0x2028
    ||| c as u32 == 0x2029
    ||| c as u32 == 0x202f
    ||| c as u32 == 0x205f
    ||| c as u32 == 0x3000
}

/// `char::is_whitespace` answers whether the character has the `White_Space`
/// property, whose members [`white_space`] lists.
pub assume_specification[ char::is_whitespace ](c: char) -> (r: bool)
    ensures
        r == white_space(c),
;

/// `String::push` appends one character at the end.
pub assume_specification[ String::push ](s: &mut String, ch: char)
    ensures
        final(s)@ == old(s)@.push(ch),
;

/// The number that `ulid::Ulid::from_string` reads from a text, if it reads
/// one.
pub uninterp spec fn ulid_number(text: Seq<char>) -> Option<u128>;

/// The text that `ulid::Ulid::to_string` writes for a number.
pub uninterp spec fn ulid_chars(n: u128) -> Seq<char>;

/// `ulid::Ulid::new` takes the clock and a random source: nothing is known of
/// the number it makes.
#[verifier::external_body]
pub(crate) fn ulid_new() -> u128 {
    ulid::Ulid::new().0
}

/// `ulid::Ulid::to_string` writes 26 characters, from which
/// `ulid::Ulid::from_string` reads the same number back.
#[verifier::external_body]
pub(crate) fn ulid_to_string(n: u128) -> (r: String)
    ensures
        r@ == ulid_chars(n),
        r@.len() == 26,
        ulid_number(r@) == Some(n),
{
    ulid::Ulid(n).to_string()
}

/// `ulid::Ulid::from_string` reads a number, or says that the text is not 26
/// bytes long, or that it holds a character outside its alphabet.
#[verifier::external_body]
pub(crate) fn ulid_from_string(s: &str) -> (r: Result<u128, IdError>)
    ensures
        r.ok() == ulid_number(s@),
        (r matches Err(IdError::InvalidLength)) <==> encode_utf8(s@).len() != 26,
{
    match ulid::Ulid::from_string(s) {
        Ok(id) => Ok(id.0),
        Err(ulid::DecodeError::InvalidLength) => Err(IdError::InvalidLength),
        Err(ulid::DecodeError::InvalidChar) => Err(IdError::InvalidChar),
    }
}

/// The instant that `chrono::DateTime::parse_from_rfc3339` reads from a text,
/// in seconds and nanoseconds of UTC.
pub uninterp spec fn rfc3339_instant(text: Seq<char>) -> Option<(i64, u32)>;

/// The text that `chrono::DateTime::<Utc>::to_rfc3339` writes for an instant.
pub uninterp spec fn rfc3339_chars(secs: i64, nanos: u32) -> Seq<char>;

/// `chrono::DateTime::parse_from_rfc3339`, taken to UTC.
#[verifier::external_body]
pub(crate) fn rfc3339_parse(s: &str) -> (r: Option<(i64, u32)>)
    ensures
        r == rfc3339_instant(s@),
{
    match chrono::DateTime::parse_from_rfc3339(s) {
        Ok(t) => Some((t.timestamp(), t.timestamp_subsec_nanos())),
        Err(_) => None,
    }
}

/// `chrono::DateTime::<Utc>::to_rfc3339` writes an instant of the years 0 to
/// 9999, from which `parse_from_rfc3339` reads the same instant back.
#[verifier::external_body]
pub(crate) fn rfc3339_write(secs: i64, nanos: u32) -> (r: String)
    requires
        -62167219200 <= secs <= 253402300799,
        nanos < 1_000_000_000,
    ensures
        r@ == rfc3339_chars(secs, nanos),
        rfc3339_instant(r@) == Some((secs, nanos)),
{
    chrono::DateTime::from_timestamp(secs, nanos).expect("instant in range").to_rfc3339()
}

/// The changes that `similar::TextDiff::from_lines` finds between two texts,
/// line by line, in the order of `iter_all_changes`.
pub uninterp spec fn line_changes(old: Seq<char>, new: Seq<char>) -> Seq<LineChange>;

/// The text that `similar`'s `unified_diff` writes for two texts, with a number
/// of lines of context and two names for the header.
pub uninterp spec fn unified_text(
    old: Seq<char>,
    new: Seq<char>,
    context: nat,
    a: Seq<char>,
    b: Seq<char>,
) -> Seq<char>;

/// Whether a line ends at a position for `similar`: at a line feed, or at a
/// carriage return that no line feed follows.
pub open spec fn ends_line(s: Seq<char>, i: int) -> bool {
    s[i] == '\n' || (s[i] == '\r' && !(i + 1 < s.len() && s[i + 1] == '\n'))
}

/// How many lines end from a position on.
pub open spec fn line_ends(s: Seq<char>, from: int) -> nat
    decreases s.len() - from,
{
    if from < 0 || from >= s.len() {
        0
    } else {
        line_ends(s, from + 1) + if ends_line(s, from) {
            1nat
        } else {
            0nat
        }
    }
}

/// How many lines a text has for `similar`: those that end, and what follows
/// the last of them.
pub open spec fn line_count(s: Seq<char>) -> nat {
    line_ends(s, 0) + if s.len() > 0 && s.last() != '\n' && s.last() != '\r' {
        1nat
    } else {
        0nat
    }
}

/// The two lines with which a unified diff begins.
pub open spec fn unified_header(a: Seq<char>, b: Seq<char>) -> Seq<char> {
    "--- "@ + a + "\n+++ "@ + b + "\n"@
}

/// The test for changes of a kind.
pub open spec fn is_change(kind: LineChange) -> spec_fn(LineChange) -> bool {
    |c: LineChange| c == kind
}

/// How many changes of a kind a list holds.
pub open spec fn change_count(changes: Seq<LineChange>, kind: LineChange) -> nat {
    changes.filter(is_change(kind)).len()
}

/// `similar::TextDiff::from_lines` and `iter_all_changes`: each line of the old
/// text is kept or deleted, each line of the new one kept or inserted, and two
/// texts have no changes exactly if they are equal. It numbers distinct lines
/// with 32 bits.
#[verifier::external_body]
pub(crate) fn diff_lines(old: &str, new: &str) -> (r: Vec<LineChange>)
    requires
        line_count(old@) + line_count(new@) <= u32::MAX,
    ensures
        r@ == line_changes(old@, new@),
        change_count(r@, LineChange::Equal) + change_count(r@, LineChange::Delete) == line_count(
            old@,
        ),
        change_count(r@, LineChange::Equal) + change_count(r@, LineChange::Insert) == line_count(
            new@,
        ),
        old@ == new@ <==> change_count(r@, LineChange::Delete) + change_count(
            r@,
            LineChange::Insert,
        ) == 0,
{
    let mut out = Vec::new();
    for change in similar::TextDiff::from_lines(old, new).iter_all_changes() {
        out.push(match change.tag() {
            similar::ChangeTag::Equal => LineChange::Equal,
            similar::ChangeTag::Delete => LineChange::Delete,
            similar::ChangeTag::Insert => LineChange::Insert,
        });
    }
    out
}

/// `similar`'s `unified_diff`, `context_radius` and `header`: the text is empty
/// exactly if the two texts are equal; otherwise it begins with both names and
/// the start of a hunk.
/// It doubles the number of lines of context.
#[verifier::external_body]
pub(crate) fn diff_unified(old: &str, new: &str, context: usize, a: &str, b: &str) -> (r: String)
    requires
        line_count(old@) + line_count(new@) <= u32::MAX,
        context <= 0x7fff_ffff,
    ensures
        r@ == unified_text(old@, new@, context as nat, a@, b@),
        old@ == new@ <==> r@.len() == 0,
        old@ != new@ ==> (unified_header(a@, b@) + "@@ -"@).is_prefix_of(r@),
{
    similar::TextDiff::from_lines(old, new)
        .unified_diff()
        .context_radius(context)
        .header(a, b)
        .to_string()
}

/// The string that `serde_json` reads under a key of a JSON text that is an
/// object; none if the text is no JSON, no object, or holds no string there.
pub uninterp spec fn json_text_member(text: Seq<char>, key: Seq<char>) -> Option<Seq<char>>;

/// The number that `serde_json` reads under a key of a JSON text that is an
/// object, if it is one of 64 bits without sign.
pub uninterp spec fn json_u64_member(text: Seq<char>, key: Seq<char>) -> Option<u64>;

/// The string that `serde_json` reads under a key of the object under another
/// key of a JSON text.
pub uninterp spec fn json_nested_member(
    text: Seq<char>,
    outer: Seq<char>,
    inner: Seq<char>,
) -> Option<Seq<char>>;

/// `serde_json::from_str`, `Value::get` twice and `Value::as_str`.
#[verifier::external_body]
pub(crate) fn json_get_nested(text: &str, outer: &str, inner: &str) -> (r: Option<String>)
    ensures
        r is Some <==> json_nested_member(text@, outer@, inner@) is Some,
        r matches Some(s) ==> json_nested_member(text@, outer@, inner@) == Some(s@),
{
    let value: serde_json::Value = serde_json::from_str(text).ok()?;
    value.get(outer)?.get(inner)?.as_str().map(str::to_owned)
}

/// The compact text that `serde_json` writes for what it reads under a key of
/// a JSON text that is an object; none if there is no such member.
pub uninterp spec fn json_member(text: Seq<char>, key: Seq<char>) -> Option<Seq<char>>;

/// `serde_json::from_str`, `Value::get` and `Value::to_string`.
#[verifier::external_body]
pub(crate) fn json_get_member(text: &str, key: &str) -> (r: Option<String>)
    ensures
        r is Some <==> json_member(text@, key@) is Some,
        r matches Some(s) ==> json_member(text@, key@) == Some(s@),
{
    let value: serde_json::Value = serde_json::from_str(text).ok()?;
    value.get(key).map(serde_json::Value::to_string)
}

/// The compact text that `serde_json` writes for what it reads from a text;
/// none if the text is no JSON.
pub uninterp spec fn json_compact(text: Seq<char>) -> Option<Seq<char>>;

/// The compact text that `serde_json` writes for an object.
pub uninterp spec fn json_object_text(members: Seq<(Seq<char>, crate::json::FieldView)>) -> Seq<char>;

/// `serde_json::from_str`, `Value::get` and `Value::as_str`.
#[verifier::external_body]
pub(crate) fn json_get_text(text: &str, key: &str) -> (r: Option<String>)
    ensures
        r is Some <==> json_text_member(text@, key@) is Some,
        r matches Some(s) ==> json_text_member(text@, key@) == Some(s@),
{
    let value: serde_json::Value = serde_json::from_str(text).ok()?;
    value.get(key)?.as_str().map(str::to_owned)
}

/// `serde_json::from_str`, `Value::get` and `Value::as_u64`.
#[verifier::external_body]
pub(crate) fn json_get_u64(text: &str, key: &str) -> (r: Option<u64>)
    ensures
        r == json_u64_member(text@, key@),
{
    let value: serde_json::Value = serde_json::from_str(text).ok()?;
    value.get(key)?.as_u64()
}

/// `serde_json::from_str` and `Value::to_string`.
#[verifier::external_body]
pub(crate) fn json_rewrite(text: &str) -> (r: Option<String>)
    ensures
        r is Some <==> json_compact(text@) is Some,
        r matches Some(s) ==> json_compact(text@) == Some(s@),
{
    let value: serde_json::Value = serde_json::from_str(text).ok()?;
    Some(value.to_string())
}

/// The key that `serde_json` keeps for raw JSON: it reads an object with this
/// key as the JSON that the key's string spells.
pub open spec fn json_reserved_key() -> Seq<char> {
    "$serde_json::private::RawValue"@
}

/// `serde_json::Map::insert` and `Value::to_string`: an object from which each
/// string, number, truth value and null comes back under its key, as long as no
/// key occurs twice, and which is in compact form already. None of the keys is
/// the reserved one.
#[verifier::external_body]
pub(crate) fn json_write_object(members: &Vec<(String, Field)>) -> (r: String)
    requires
        crate::json::plain_keys(members@),
    ensures
        r@ == json_object_text(crate::json::members_view(members@)),
        json_compact(r@) == Some(r@),
        crate::json::distinct_keys(members@) ==> forall|i: int|
            #![trigger members@[i]]
            0 <= i < members@.len() ==> match members@[i].1 {
                Field::Text(s) => json_text_member(r@, members@[i].0@) == Some(s@),
                Field::Number(n) => json_u64_member(r@, members@[i].0@) == Some(n),
                _ => json_text_member(r@, members@[i].0@) is None,
            },
        crate::json::distinct_keys(members@) ==> forall|i: int|
            #![trigger members@[i]]
            0 <= i < members@.len() ==> match members@[i].1 {
                Field::Flag(b) => json_member(r@, members@[i].0@) == Some(
                    if b {
                        "true"@
                    } else {
                        "false"@
                    },
                ),
                Field::Null => json_member(r@, members@[i].0@) == Some("null"@),
                _ => true,
            },
{
    let mut map = serde_json::Map::new();
    for (key, field) in members {
        let value = match field {
            Field::Text(s) => serde_json::Value::from(s.as_str()),
            Field::Flag(b) => serde_json::Value::from(*b),
            Field::Number(n) => serde_json::Value::from(*n),
            Field::Null => serde_json::Value::Null,
        };
        map.insert(key.clone(), value);
    }
    serde_json::Value::Object(map).to_string()
}

/// What `grep_regex` says against a pattern; none if it accepts it.
pub uninterp spec fn regex_problem(pattern: Seq<char>) -> Option<Seq<char>>;

/// `grep_regex::RegexMatcher::new`: the message of its error, if it gives one.
#[verifier::external_body]
pub(crate) fn regex_check(pattern: &str) -> (r: Option<String>)
    ensures
        r is Some <==> regex_problem(pattern@) is Some,
        r matches Some(e) ==> regex_problem(pattern@) == Some(e@),
{
    match grep_regex::RegexMatcher::new(pattern) {
        Ok(_) => None,
        Err(e) => Some(e.to_string()),
    }
}

/// The text that `String::from_utf8_lossy` makes of bytes.
pub uninterp spec fn lossy_text(bytes: Seq<u8>) -> Seq<char>;

/// `String::from_utf8_lossy`: valid UTF-8 is decoded as it is.
#[verifier::external_body]
pub(crate) fn utf8_lossy(bytes: &[u8]) -> (r: String)
    ensures
        r@ == lossy_text(bytes@),
        valid_utf8(bytes@) ==> r@ == decode_utf8(bytes@),
{
    String::from_utf8_lossy(bytes).into_owned()
}

/// `rand::rng` and `RngCore::fill_bytes`: 32 bytes of chance, of which nothing
/// is known.
#[verifier::external_body]
pub(crate) fn random_bytes() -> [u8; 32] {
    let mut bytes = [0u8; 32];
    rand::RngCore::fill_bytes(&mut rand::rng(), &mut bytes);
    bytes
}

/// `rand::Rng::random_range` over an inclusive range from zero: some number of
/// the range.
#[verifier::external_body]
pub(crate) fn random_up_to(largest: u64) -> (r: u64)
    ensures
        r <= largest,
{
    rand::Rng::random_range(&mut rand::rng(), 0..=largest)
}

/// The text that `base64`'s URL-safe engine without padding writes.
pub uninterp spec fn base64_url_text(bytes: Seq<u8>) -> Seq<char>;

/// `base64::engine::general_purpose::URL_SAFE_NO_PAD.encode`: four characters
/// for each three bytes, and no padding; no character is white space.
#[verifier::external_body]
pub(crate) fn base64_url_encode(bytes: &[u8; 32]) -> (r: String)
    ensures
        r@ == base64_url_text(bytes@),
        r@.len() == 43,
        forall|i: int| 0 <= i < r@.len() ==> !white_space(#[trigger] r@[i]),
{
    base64::Engine::encode(&base64::engine::general_purpose::URL_SAFE_NO_PAD, bytes)
}

/// The text that `base64`'s standard engine writes.
pub uninterp spec fn base64_text(bytes: Seq<u8>) -> Seq<char>;

/// The bytes that `base64`'s standard engine reads from a text, if it reads
/// any.
pub uninterp spec fn base64_bytes(text: Seq<char>) -> Option<Seq<u8>>;

/// `base64::engine::general_purpose::STANDARD.encode`: `decode` reads the same
/// bytes back, and no character is white space.
#[verifier::external_body]
pub(crate) fn base64_encode(bytes: &[u8]) -> (r: String)
    requires
        bytes@.len() <= 0x2000_0000,
    ensures
        r@ == base64_text(bytes@),
        base64_bytes(r@) == Some(bytes@),
        forall|i: int| 0 <= i < r@.len() ==> !white_space(#[trigger] r@[i]),
{
    base64::Engine::encode(&base64::engine::general_purpose::STANDARD, bytes)
}

/// `base64::engine::general_purpose::STANDARD.decode`.
#[verifier::external_body]
pub(crate) fn base64_decode(text: &str) -> (r: Option<Vec<u8>>)
    ensures
        r is Some <==> base64_bytes(text@) is Some,
        r matches Some(bytes) ==> base64_bytes(text@) == Some(bytes@),
{
    base64::Engine::decode(&base64::engine::general_purpose::STANDARD, text).ok()
}

/// `subtle::ConstantTimeEq::ct_eq` on byte slices: whether they are equal.
#[verifier::external_body]
pub(crate) fn bytes_equal(a: &[u8], b: &[u8]) -> (r: bool)
    ensures
        r == (a@ == b@),
{
    subtle::ConstantTimeEq::ct_eq(a, b).into()
}

/// The public key of a seed, as `ed25519_dalek` derives it.
pub uninterp spec fn ed25519_public(seed: Seq<u8>) -> Seq<u8>;

/// The signature of a message under a seed, as `ed25519_dalek` makes it.
pub uninterp spec fn ed25519_signature(seed: Seq<u8>, message: Seq<u8>) -> Seq<u8>;

/// `ed25519_dalek::SigningKey::from_bytes` and `verifying_key`: 32 bytes.
#[verifier::external_body]
pub(crate) fn public_key(seed: &[u8; 32]) -> (r: Vec<u8>)
    ensures
        r@ == ed25519_public(seed@),
        r@.len() == 32,
{
    ed25519_dalek::SigningKey::from_bytes(seed).verifying_key().to_bytes().to_vec()
}

/// `ed25519_dalek::SigningKey::from_bytes` and `Signer::sign`: 64 bytes, which
/// depend on the seed and the message alone.
#[verifier::external_body]
pub(crate) fn sign(seed: &[u8; 32], message: &[u8]) -> (r: Vec<u8>)
    ensures
        r@ == ed25519_signature(seed@, message@),
        r@.len() == 64,
{
    let key = ed25519_dalek::SigningKey::from_bytes(seed);
    ed25519_dalek::Signer::sign(&key, message).to_bytes().to_vec()
}

/// The text that `str::to_lowercase` makes of a text.
pub uninterp spec fn lowercase_text(s: Seq<char>) -> Seq<char>;

/// `str::to_lowercase`.
#[verifier::external_body]
pub(crate) fn lowercase(s: &str) -> (r: String)
    ensures
        r@ == lowercase_text(s@),
{
    s.to_lowercase()
}

/// Whether `char::is_alphanumeric` accepts a character.
pub uninterp spec fn alphanumeric(c: char) -> bool;

/// `char::is_alphanumeric`.
#[verifier::external_body]
pub(crate) fn is_word_char(c: char) -> (r: bool)
    ensures
        r == alphanumeric(c),
{
    c.is_alphanumeric()
}

} // verus!
