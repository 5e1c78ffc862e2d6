//! Strings as sequences of characters: comparison, trimming, splitting,
//! searching and decimal notation.

use vstd::prelude::*;
use vstd::string::*;
use vstd::utf8::*;

use crate::outside;


verus! {

/// Whether two strings hold the same characters.
pub fn same(a: &str, b: &str) -> (r: bool)
    ensures
        r == (a@ == b@),
{
    a.to_owned() == b.to_owned()
}

/// The characters of a string, in order.
pub fn to_chars(s: &str) -> (r: Vec<char>)
    ensures
        r@ == s@,
{
    let mut out: Vec<char> = Vec::new();
    for c in it: s.chars()
        invariant
            out@ == it.seq().take(it.index()),
            it.seq() == s@,
    {
        out.push(c);
    }
    assert(out@ == s@);
    out
}

/// The character of a decimal digit.
pub open spec fn digit_char(d: nat) -> char {
    ('0' as u32 + d) as char
}

/// Decimal notation of a number.
pub open spec fn decimal(n: nat) -> Seq<char>
    decreases n,
{
    if n < 10 {
        seq![digit_char(n)]
    } else {
        decimal(n / 10).push(digit_char(n % 10))
    }
}

fn digit_to_char(d: u64) -> (r: char)
    requires
        d < 10,
    ensures
        r == digit_char(d as nat),
{
    match d {
        0 => '0',
        1 => '1',
        2 => '2',
        3 => '3',
        4 => '4',
        5 => '5',
        6 => '6',
        7 => '7',
        8 => '8',
        _ => '9',
    }
}

/// Decimal notation of a number.
pub fn number(n: u64) -> (r: String)
    ensures
        r@ == decimal(n as nat),
    decreases n,
{
    if n < 10 {
        let mut out = String::new();
        out.push(digit_to_char(n));
        assert(out@ == seq![digit_char(n as nat)]);
        out
    } else {
        let mut out = number(n / 10);
        out.push(digit_to_char(n % 10));
        out
    }
}

/// Two strings, one after the other.
pub fn join2(a: &str, b: &str) -> (r: String)
    ensures
        r@ == a@ + b@,
{
    let mut out = a.to_owned();
    out.append(b);
    out
}

/// Three strings, one after the other.
pub fn join3(a: &str, b: &str, c: &str) -> (r: String)
    ensures
        r@ == a@ + b@ + c@,
{
    let mut out = a.to_owned();
    out.append(b);
    out.append(c);
    out
}

/// A copy of an optional string.
pub fn copy_option(s: &Option<String>) -> (r: Option<String>)
    ensures
        r == *s,
{
    match s {
        Some(v) => Some(v.clone()),
        None => None,
    }
}

/// Bytes that a character takes in UTF-8.
pub open spec fn char_bytes(c: char) -> nat {
    if c as u32 <= 0x7f {
        1
    } else if c as u32 <= 0x7ff {
        2
    } else if c as u32 <= 0xffff {
        3
    } else {
        4
    }
}

/// Bytes that a string takes in UTF-8.
pub open spec fn byte_len(s: Seq<char>) -> nat
    decreases s.len(),
{
    if s.len() == 0 {
        0
    } else {
        byte_len(s.drop_last()) + char_bytes(s.last())
    }
}

proof fn lemma_encode_push(s: Seq<char>, c: char)
    ensures
        encode_utf8(s.push(c)).len() == encode_utf8(s).len() + char_bytes(c),
    decreases s.len(),
{
    if s.len() == 0 {
        let one = s.push(c);
        assert(one.drop_first() == Seq::<char>::empty());
        assert(encode_utf8(one.drop_first()) == Seq::<u8>::empty());
        assert(encode_utf8(one) == encode_scalar(c as u32) + encode_utf8(one.drop_first()));
    } else {
        let more = s.push(c);
        assert(more.drop_first() == s.drop_first().push(c));
        lemma_encode_push(s.drop_first(), c);
        assert(encode_utf8(more) == encode_scalar(more[0] as u32) + encode_utf8(more.drop_first()));
        assert(encode_utf8(s) == encode_scalar(s[0] as u32) + encode_utf8(s.drop_first()));
    }
}

/// The byte length is the length of the UTF-8 encoding.
pub proof fn lemma_byte_len(s: Seq<char>)
    ensures
        byte_len(s) == encode_utf8(s).len(),
    decreases s.len(),
{
    if s.len() > 0 {
        lemma_byte_len(s.drop_last());
        lemma_encode_push(s.drop_last(), s.last());
        assert(s.drop_last().push(s.last()) == s);
    }
}

/// Bytes that a string takes.
pub fn byte_count(s: &str) -> (r: usize)
    ensures
        r == byte_len(s@),
{
    proof {
        lemma_byte_len(s@);
    }
    s.as_bytes().len()
}

/// The longest prefix of a string that takes no more than a number of bytes.
pub fn take_bytes(s: &str, max: usize) -> (r: String)
    ensures
        r@.is_prefix_of(s@),
        byte_len(r@) <= max,
        r@.len() < s@.len() ==> byte_len(s@.take(r@.len() as int + 1)) > max,
{
    let chars = to_chars(s);
    let mut out = String::new();
    let mut used: usize = 0;
    let mut i: usize = 0;
    while i < chars.len()
        invariant
            i <= chars.len(),
            chars@ == s@,
            out@ == s@.take(i as int),
            used == byte_len(out@),
            used <= max,
        decreases chars.len() - i,
    {
        let c = chars[i];
        let width: usize = char_width(c);
        assert(s@.take(i + 1) == out@.push(c));
        assert(s@.take(i + 1).drop_last() == out@);
        if width > max - used {
            assert(out@ == s@.subrange(0, i as int));
            return out;
        }
        out.push(c);
        used = used + width;
        i += 1;
    }
    assert(s@.take(i as int) == s@);
    out
}

fn char_width(c: char) -> (r: usize)
    ensures
        r == char_bytes(c),
{
    let v = c as u32;
    if v <= 0x7f {
        1
    } else if v <= 0x7ff {
        2
    } else if v <= 0xffff {
        3
    } else {
        4
    }
}

/// A string without the white space at its start.
pub open spec fn trim_start(s: Seq<char>) -> Seq<char>
    decreases s.len(),
{
    if s.len() > 0 && outside::white_space(s[0]) {
        trim_start(s.drop_first())
    } else {
        s
    }
}

/// A string without the white space at its end.
pub open spec fn trim_end(s: Seq<char>) -> Seq<char>
    decreases s.len(),
{
    if s.len() > 0 && outside::white_space(s.last()) {
        trim_end(s.drop_last())
    } else {
        s
    }
}

/// A string without the white space at either end.
pub open spec fn trim(s: Seq<char>) -> Seq<char> {
    trim_end(trim_start(s))
}

/// The string without the white space at its end.
pub fn trimmed_end(s: &str) -> (r: String)
    ensures
        r@ == trim_end(s@),
{
    let chars = to_chars(s);
    let mut end: usize = chars.len();
    assert(s@.take(end as int) == s@);
    while end > 0 && chars[end - 1].is_whitespace()
        invariant
            end <= chars.len(),
            chars@ == s@,
            trim_end(s@) == trim_end(s@.take(end as int)),
        decreases end,
    {
        assert(s@.take(end as int).drop_last() == s@.take(end - 1));
        end -= 1;
    }
    slice_text(&chars, 0, end)
}

/// The string without the white space at either end.
pub fn trimmed(s: &str) -> (r: String)
    ensures
        r@ == trim(s@),
{
    let chars = to_chars(s);
    let mut start: usize = 0;
    assert(s@.skip(0) == s@);
    while start < chars.len() && chars[start].is_whitespace()
        invariant
            start <= chars.len(),
            chars@ == s@,
            trim_start(s@) == trim_start(s@.skip(start as int)),
        decreases chars.len() - start,
    {
        assert(s@.skip(start as int).drop_first() == s@.skip(start + 1));
        start += 1;
    }
    assert(s@.skip(start as int) == s@.subrange(start as int, s@.len() as int));
    let rest = slice_text(&chars, start, chars.len());
    trimmed_end(rest.as_str())
}

/// The characters of a range, as a string.
pub fn slice_text(chars: &Vec<char>, from: usize, to: usize) -> (r: String)
    requires
        from <= to <= chars.len(),
    ensures
        r@ == chars@.subrange(from as int, to as int),
{
    let mut out = String::new();
    let mut i: usize = from;
    while i < to
        invariant
            from <= i <= to <= chars.len(),
            out@ == chars@.subrange(from as int, i as int),
        decreases to - i,
    {
        out.push(chars[i]);
        i += 1;
    }
    out
}

/// The pieces of a string between the characters that a test marks.
pub open spec fn split_by(s: Seq<char>, mark: spec_fn(char) -> bool) -> Seq<Seq<char>>
    decreases s.len(),
{
    if s.len() == 0 {
        seq![Seq::<char>::empty()]
    } else {
        let before = split_by(s.drop_last(), mark);
        if mark(s.last()) {
            before.push(Seq::<char>::empty())
        } else {
            before.drop_last().push(before.last().push(s.last()))
        }
    }
}

/// The test for one character.
pub open spec fn is_char(sep: char) -> spec_fn(char) -> bool {
    |c: char| c == sep
}

/// The pieces of a string between the occurrences of a character.
pub open spec fn split(s: Seq<char>, sep: char) -> Seq<Seq<char>> {
    split_by(s, is_char(sep))
}

/// A string holds a character, other than the one it is split at, exactly if
/// one of its pieces does.
pub proof fn lemma_split_holds(s: Seq<char>, sep: char, c: char)
    requires
        c != sep,
    ensures
        s.contains(c) <==> exists|k: int|
            0 <= k < split(s, sep).len() && (#[trigger] split(s, sep)[k]).contains(c),
    decreases s.len(),
{
    let all = split(s, sep);
    if s.len() == 0 {
        assert forall|k: int| 0 <= k < all.len() implies !(#[trigger] all[k]).contains(c) by {}
    } else {
        let before = split(s.drop_last(), sep);
        lemma_split_holds(s.drop_last(), sep, c);
        lemma_split_nonempty(s.drop_last(), is_char(sep));
        let n = before.len() - 1;
        if s.contains(c) {
            let i = choose|i: int| 0 <= i < s.len() && s[i] == c;
            if i < s.len() - 1 {
                assert(s.drop_last()[i] == c);
                let k = choose|k: int| 0 <= k < before.len() && (#[trigger] before[k]).contains(c);
                if k < n || s.last() == sep {
                    assert(all[k] == before[k]);
                } else {
                    let m = choose|m: int| 0 <= m < before[n].len() && before[n][m] == c;
                    assert(all[n][m] == c);
                    assert(all[n].contains(c));
                }
            } else {
                assert(all[n] == before[n].push(c));
                assert(all[n].last() == c);
                assert(all[n].contains(c));
            }
        }
        if exists|k: int| 0 <= k < all.len() && (#[trigger] all[k]).contains(c) {
            let k = choose|k: int| 0 <= k < all.len() && (#[trigger] all[k]).contains(c);
            let m = choose|m: int| 0 <= m < all[k].len() && all[k][m] == c;
            if k < n || (k == n && s.last() == sep) {
                assert(before[k] == all[k]);
                assert(before[k].contains(c));
            } else if k == n {
                if m < before[n].len() {
                    assert(before[n][m] == c);
                    assert(before[n].contains(c));
                } else {
                    assert(s[s.len() - 1] == c);
                }
            }
            if s.drop_last().contains(c) {
                let i = choose|i: int| 0 <= i < s.len() - 1 && s.drop_last()[i] == c;
                assert(s[i] == c);
            }
        }
    }
}

/// The non-empty pieces of a string between white space.
pub open spec fn words(s: Seq<char>) -> Seq<Seq<char>> {
    split_by(s, |c: char| outside::white_space(c)).filter(|w: Seq<char>| w.len() > 0)
}

/// What a list of strings holds.
pub open spec fn views(v: Seq<String>) -> Seq<Seq<char>> {
    v.map_values(|s: String| s@)
}

/// A split has at least one piece.
pub proof fn lemma_split_nonempty(s: Seq<char>, mark: spec_fn(char) -> bool)
    ensures
        split_by(s, mark).len() > 0,
    decreases s.len(),
{
    if s.len() > 0 {
        lemma_split_nonempty(s.drop_last(), mark);
    }
}

/// The pieces of the string between the occurrences of a character.
pub fn split_on(s: &str, sep: char) -> (r: Vec<String>)
    ensures
        views(r@) == split(s@, sep),
{
    let chars = to_chars(s);
    let ghost mark = is_char(sep);
    let mut done: Vec<String> = Vec::new();
    let mut last = String::new();
    let mut i: usize = 0;
    assert(views(done@).push(last@) == split_by(s@.take(0), mark));
    while i < chars.len()
        invariant
            i <= chars.len(),
            chars@ == s@,
            mark == is_char(sep),
            views(done@).push(last@) == split_by(s@.take(i as int), mark),
        decreases chars.len() - i,
    {
        let c = chars[i];
        proof {
            assert(s@.take(i + 1).drop_last() == s@.take(i as int));
            assert(s@.take(i + 1).last() == c);
            assert(views(done@).push(last@).drop_last() == views(done@));
            assert(views(done@.push(last)) == views(done@).push(last@));
        }
        if c == sep {
            done.push(last);
            last = String::new();
        } else {
            last.push(c);
        }
        i += 1;
    }
    assert(s@.take(i as int) == s@);
    assert(views(done@.push(last)) == views(done@).push(last@));
    done.push(last);
    done
}

/// The non-empty pieces of the string between white space.
pub fn split_whitespace(s: &str) -> (r: Vec<String>)
    ensures
        views(r@) == words(s@),
{
    let chars = to_chars(s);
    let ghost mark = |c: char| outside::white_space(c);
    let ghost kept = |w: Seq<char>| w.len() > 0;
    let mut done: Vec<String> = Vec::new();
    let mut last = String::new();
    let mut i: usize = 0;
    let ghost mut before: Seq<Seq<char>> = Seq::empty();
    proof {
        reveal(Seq::filter);
        assert(before.push(last@) == split_by(s@.take(0), mark));
        assert(before.filter(kept) == views(done@));
    }
    while i < chars.len()
        invariant
            i <= chars.len(),
            chars@ == s@,
            mark == (|c: char| outside::white_space(c)),
            kept == (|w: Seq<char>| w.len() > 0),
            before.push(last@) == split_by(s@.take(i as int), mark),
            before.filter(kept) == views(done@),
        decreases chars.len() - i,
    {
        let c = chars[i];
        proof {
            assert(s@.take(i + 1).drop_last() == s@.take(i as int));
            assert(s@.take(i + 1).last() == c);
            assert(before.push(last@).drop_last() == before);
        }
        if c.is_whitespace() {
            proof {
                reveal(Seq::filter);
                assert(before.push(last@).drop_last() == before);
                assert(views(done@.push(last)) == views(done@).push(last@));
                before = before.push(last@);
            }
            if !last.as_str().is_empty() {
                done.push(last);
            }
            last = String::new();
        } else {
            last.push(c);
        }
        i += 1;
    }
    proof {
        assert(s@.take(i as int) == s@);
        reveal(Seq::filter);
        assert(before.push(last@).drop_last() == before);
        assert(views(done@.push(last)) == views(done@).push(last@));
    }
    if !last.as_str().is_empty() {
        done.push(last);
    }
    done
}

/// Whether a pattern stands at a position of a string.
pub open spec fn occurs_at(s: Seq<char>, p: Seq<char>, i: int) -> bool {
    0 <= i && i + p.len() <= s.len() && s.subrange(i, i + p.len()) == p
}

/// Whether a pattern stands anywhere in a string.
pub open spec fn occurs(s: Seq<char>, p: Seq<char>) -> bool {
    exists|i: int| occurs_at(s, p, i)
}

/// The first position, from a given one on, at which a pattern stands.
pub open spec fn first_match(s: Seq<char>, p: Seq<char>, from: int) -> Option<int>
    decreases s.len() + 1 - from,
{
    if from < 0 || from + p.len() > s.len() {
        None
    } else if occurs_at(s, p, from) {
        Some(from)
    } else {
        first_match(s, p, from + 1)
    }
}

/// At how many positions, from a given one on, a pattern stands. Occurrences
/// may overlap.
pub open spec fn occurrences(s: Seq<char>, p: Seq<char>, from: int) -> nat
    decreases s.len() + 1 - from,
{
    if from < 0 || from + p.len() > s.len() {
        0
    } else {
        occurrences(s, p, from + 1) + if occurs_at(s, p, from) {
            1nat
        } else {
            0nat
        }
    }
}

/// How often a pattern stands in a string from a position on, counted from the
/// left without overlaps.
pub open spec fn match_count(s: Seq<char>, p: Seq<char>, from: int) -> nat
    decreases s.len() - from,
{
    if p.len() == 0 || from < 0 || from + p.len() > s.len() {
        0
    } else if occurs_at(s, p, from) {
        1 + match_count(s, p, from + p.len())
    } else {
        match_count(s, p, from + 1)
    }
}

/// Whether a pattern stands at exactly one position of a string.
pub open spec fn occurs_once(s: Seq<char>, p: Seq<char>) -> bool {
    exists|i: int| occurs_at(s, p, i) && forall|j: int| #[trigger] occurs_at(s, p, j) ==> j == i
}

fn stands_at(s: &Vec<char>, p: &Vec<char>, i: usize) -> (r: bool)
    requires
        i + p.len() <= s.len(),
    ensures
        r == occurs_at(s@, p@, i as int),
{
    let mut k: usize = 0;
    while k < p.len()
        invariant
            k <= p.len(),
            i + p.len() <= s.len(),
            s@.subrange(i as int, i + k) == p@.take(k as int),
        decreases p.len() - k,
    {
        if s[i + k] != p[k] {
            assert(s@.subrange(i as int, i + p.len())[k as int] != p@[k as int]);
            return false;
        }
        assert(s@.subrange(i as int, i + k + 1) == s@.subrange(i as int, i + k).push(s@[i + k]));
        assert(p@.take(k + 1) == p@.take(k as int).push(p@[k as int]));
        k += 1;
    }
    assert(p@.take(k as int) == p@);
    true
}

/// The first position, from a given one on, at which the pattern stands.
pub fn find_from(s: &Vec<char>, p: &Vec<char>, from: usize) -> (r: Option<usize>)
    ensures
        match r {
            Some(i) => first_match(s@, p@, from as int) == Some(i as int),
            None => first_match(s@, p@, from as int) is None,
        },
{
    let mut i: usize = from;
    while i <= s.len() && p.len() <= s.len() - i
        invariant
            from <= i,
            i > s.len() ==> i == from,
            first_match(s@, p@, from as int) == first_match(s@, p@, i as int),
        decreases s.len() + 1 - i,
    {
        if stands_at(s, p, i) {
            return Some(i);
        }
        assert(i < s.len()) by {
            if i == s.len() {
                assert(s@.subrange(i as int, i as int) == p@);
            }
        }
        i += 1;
    }
    None
}

/// At how many positions the pattern stands.
pub fn count_occurrences(s: &Vec<char>, p: &Vec<char>) -> (r: usize)
    requires
        p@.len() > 0,
    ensures
        r == occurrences(s@, p@, 0),
{
    let mut i: usize = 0;
    let mut n: usize = 0;
    while p.len() <= s.len() - i
        invariant
            i <= s.len(),
            p@.len() > 0,
            n <= i,
            n + occurrences(s@, p@, i as int) == occurrences(s@, p@, 0),
        decreases s.len() - i,
    {
        if stands_at(s, p, i) {
            n += 1;
        }
        i += 1;
    }
    n
}

/// How often the pattern stands in the string, counted from the left without
/// overlaps.
pub fn count_matches(s: &Vec<char>, p: &Vec<char>) -> (r: usize)
    requires
        p@.len() > 0,
    ensures
        r == match_count(s@, p@, 0),
{
    let mut i: usize = 0;
    let mut n: usize = 0;
    while p.len() <= s.len() - i
        invariant
            i <= s.len(),
            p@.len() > 0,
            n <= i,
            n + match_count(s@, p@, i as int) == match_count(s@, p@, 0),
        decreases s.len() - i,
    {
        if stands_at(s, p, i) {
            n += 1;
            i += p.len();
        } else {
            i += 1;
        }
    }
    n
}

proof fn lemma_occurrences_from(s: Seq<char>, p: Seq<char>, from: int)
    requires
        0 <= from,
    ensures
        occurrences(s, p, from) == 0 <==> forall|j: int|
            from <= j ==> !#[trigger] occurs_at(s, p, j),
        occurrences(s, p, from) == 1 <==> exists|i: int|
            from <= i && #[trigger] occurs_at(s, p, i) && forall|j: int|
                from <= j && #[trigger] occurs_at(s, p, j) ==> j == i,
    decreases s.len() + 1 - from,
{
    if from + p.len() <= s.len() {
        lemma_occurrences_from(s, p, from + 1);
        let rest = occurrences(s, p, from + 1);
        if occurs_at(s, p, from) {
            if rest == 0 {
                assert forall|j: int| from <= j && #[trigger] occurs_at(s, p, j) implies j
                    == from by {
                    if j > from {
                        assert(!occurs_at(s, p, j));
                    }
                }
            } else {
                let k = choose|k: int| from + 1 <= k && #[trigger] occurs_at(s, p, k);
                assert(k != from);
            }
        } else {
            assert forall|j: int| from <= j && #[trigger] occurs_at(s, p, j) implies from + 1
                <= j by {}
            if rest == 0 {
                assert forall|j: int| from <= j implies !#[trigger] occurs_at(s, p, j) by {
                    if j > from {
                        assert(!occurs_at(s, p, j));
                    }
                }
            }
        }
    } else {
        assert forall|j: int| from <= j implies !#[trigger] occurs_at(s, p, j) by {}
    }
}

/// No occurrence is counted where there is none, and one where there is one.
pub proof fn lemma_occurrences(s: Seq<char>, p: Seq<char>)
    ensures
        occurrences(s, p, 0) == 0 <==> !occurs(s, p),
        occurrences(s, p, 0) == 1 <==> occurs_once(s, p),
{
    lemma_occurrences_from(s, p, 0);
    if occurs(s, p) {
        let i = choose|i: int| occurs_at(s, p, i);
        assert(0 <= i && occurs_at(s, p, i));
    }
    if occurs_once(s, p) {
        let i = choose|i: int|
            occurs_at(s, p, i) && forall|j: int| #[trigger] occurs_at(s, p, j) ==> j == i;
        assert(0 <= i && occurs_at(s, p, i));
    }
    if occurrences(s, p, 0) == 1 {
        let i = choose|i: int|
            0 <= i && #[trigger] occurs_at(s, p, i) && forall|j: int|
                0 <= j && #[trigger] occurs_at(s, p, j) ==> j == i;
        assert(occurs_at(s, p, i) && forall|j: int| #[trigger] occurs_at(s, p, j) ==> j == i);
    }
}

proof fn lemma_first_match(s: Seq<char>, p: Seq<char>, from: int)
    requires
        0 <= from,
    ensures
        first_match(s, p, from) matches Some(i) ==> from <= i && occurs_at(s, p, i),
        forall|j: int| #[trigger] occurs_at(s, p, j) && from <= j ==> (first_match(s, p, from)
            matches Some(i) && i <= j),
    decreases s.len() + 1 - from,
{
    if from + p.len() <= s.len() && !occurs_at(s, p, from) {
        lemma_first_match(s, p, from + 1);
    }
}

/// The first match stands where it says, and nothing before it does.
pub proof fn lemma_first_match_is_first(s: Seq<char>, p: Seq<char>)
    ensures
        first_match(s, p, 0) matches Some(i) ==> occurs_at(s, p, i),
        forall|j: int| #[trigger] occurs_at(s, p, j) ==> (first_match(s, p, 0) matches Some(i)
            && i <= j),
        first_match(s, p, 0) is Some <==> occurs(s, p),
{
    lemma_first_match(s, p, 0);
}

/// Whether the pattern stands anywhere in the string.
pub fn contains(s: &str, p: &str) -> (r: bool)
    ensures
        r == occurs(s@, p@),
{
    proof {
        lemma_first_match_is_first(s@, p@);
    }
    let chars = to_chars(s);
    let pattern = to_chars(p);
    find_from(&chars, &pattern, 0).is_some()
}

/// Whether the string begins with the prefix.
pub fn begins_with(s: &str, p: &str) -> (r: bool)
    ensures
        r == p@.is_prefix_of(s@),
{
    let chars = to_chars(s);
    let prefix = to_chars(p);
    if prefix.len() > chars.len() {
        false
    } else {
        assert(s@.subrange(0, p@.len() as int) == s@.take(p@.len() as int));
        stands_at(&chars, &prefix, 0)
    }
}

/// Whether the string holds the character.
pub fn has_char(s: &str, c: char) -> (r: bool)
    ensures
        r == s@.contains(c),
{
    let chars = to_chars(s);
    let mut i: usize = 0;
    while i < chars.len()
        invariant
            i <= chars.len(),
            chars@ == s@,
            forall|k: int| 0 <= k < i ==> s@[k] != c,
        decreases chars.len() - i,
    {
        if chars[i] == c {
            assert(s@[i as int] == c);
            return true;
        }
        i += 1;
    }
    false
}

/// A character, in lower case where it is an ASCII letter.
pub open spec fn ascii_lower_char(c: char) -> char {
    if 'A' <= c && c <= 'Z' {
        (c as u32 + 32) as char
    } else {
        c
    }
}

/// A string with its ASCII letters in lower case.
pub open spec fn ascii_lower(s: Seq<char>) -> Seq<char> {
    s.map_values(|c: char| ascii_lower_char(c))
}

fn lower_char(c: char) -> (r: char)
    ensures
        r == ascii_lower_char(c),
{
    if 'A' <= c && c <= 'Z' {
        (c as u8 + 32) as char
    } else {
        c
    }
}

/// The string with its ASCII letters in lower case.
pub fn lowercase_ascii(s: &str) -> (r: String)
    ensures
        r@ == ascii_lower(s@),
{
    let chars = to_chars(s);
    let mut out = String::new();
    let mut i: usize = 0;
    while i < chars.len()
        invariant
            i <= chars.len(),
            chars@ == s@,
            out@ == ascii_lower(s@.take(i as int)),
        decreases chars.len() - i,
    {
        out.push(lower_char(chars[i]));
        assert(ascii_lower(s@.take(i + 1)) == ascii_lower(s@.take(i as int)).push(
            ascii_lower_char(s@[i as int]),
        ));
        i += 1;
    }
    assert(s@.take(i as int) == s@);
    out
}

/// Strings with a separator between each two.
pub open spec fn joined(parts: Seq<Seq<char>>, sep: Seq<char>) -> Seq<char>
    decreases parts.len(),
{
    if parts.len() == 0 {
        Seq::empty()
    } else if parts.len() == 1 {
        parts[0]
    } else {
        joined(parts.drop_last(), sep) + sep + parts.last()
    }
}

/// The strings with a separator between each two.
pub fn join(parts: &Vec<String>, sep: &str) -> (r: String)
    ensures
        r@ == joined(views(parts@), sep@),
{
    let mut out = String::new();
    let mut i: usize = 0;
    while i < parts.len()
        invariant
            i <= parts.len(),
            out@ == joined(views(parts@).take(i as int), sep@),
        decreases parts.len() - i,
    {
        proof {
            let seen = views(parts@).take(i + 1);
            assert(seen.drop_last() == views(parts@).take(i as int));
            assert(seen.last() == parts@[i as int]@);
        }
        if i > 0 {
            out.append(sep);
        }
        out.append(parts[i].as_str());
        i += 1;
    }
    assert(views(parts@).take(i as int) == views(parts@));
    out
}

/// Decimal notation of a number with a sign.
pub open spec fn signed_decimal(n: int) -> Seq<char> {
    if n < 0 {
        seq!['-'] + decimal((-n) as nat)
    } else {
        decimal(n as nat)
    }
}

/// Decimal notation of a number with a sign.
pub fn integer(n: i32) -> (r: String)
    ensures
        r@ == signed_decimal(n as int),
{
    if n < 0 {
        let mut out = String::new();
        out.push('-');
        let size: u64 = (-(n as i64)) as u64;
        out.append(number(size).as_str());
        assert(Seq::<char>::empty().push('-') == seq!['-']);
        out
    } else {
        number(n as u64)
    }
}

/// A string without the occurrences of a character at its end.
pub open spec fn without_end(s: Seq<char>, c: char) -> Seq<char>
    decreases s.len(),
{
    if s.len() > 0 && s.last() == c {
        without_end(s.drop_last(), c)
    } else {
        s
    }
}

/// The string without the occurrences of a character at its end.
pub fn trim_end_char(s: &str, c: char) -> (r: String)
    ensures
        r@ == without_end(s@, c),
{
    let chars = to_chars(s);
    let mut end: usize = chars.len();
    assert(s@.take(end as int) == s@);
    while end > 0 && chars[end - 1] == c
        invariant
            end <= chars.len(),
            chars@ == s@,
            without_end(s@, c) == without_end(s@.take(end as int), c),
        decreases end,
    {
        assert(s@.take(end as int).drop_last() == s@.take(end - 1));
        end -= 1;
    }
    slice_text(&chars, 0, end)
}

/// What follows a prefix of a string, if the string has it.
pub open spec fn after_prefix(s: Seq<char>, p: Seq<char>) -> Option<Seq<char>> {
    if p.is_prefix_of(s) {
        Some(s.skip(p.len() as int))
    } else {
        None
    }
}

/// What follows the prefix of the string, if the string has it.
pub fn strip_prefix(s: &str, p: &str) -> (r: Option<String>)
    ensures
        r is Some <==> after_prefix(s@, p@) is Some,
        r matches Some(rest) ==> after_prefix(s@, p@) == Some(rest@),
{
    if !begins_with(s, p) {
        return None;
    }
    let chars = to_chars(s);
    let skipped = p.unicode_len();
    assert(s@.skip(skipped as int) == s@.subrange(skipped as int, s@.len() as int));
    Some(slice_text(&chars, skipped, chars.len()))
}

/// The value of a decimal digit, if a character is one.
pub open spec fn digit_value(c: char) -> Option<nat> {
    if '0' <= c && c <= '9' {
        Some((c as u32 - '0' as u32) as nat)
    } else {
        None
    }
}

/// The number that decimal digits spell; none if a character is no digit.
pub open spec fn digits_value(s: Seq<char>) -> Option<nat>
    decreases s.len(),
{
    if s.len() == 0 {
        Some(0)
    } else {
        match (digits_value(s.drop_last()), digit_value(s.last())) {
            (Some(n), Some(d)) => Some(n * 10 + d),
            _ => None,
        }
    }
}

/// The number that a text spells: digits, after a plus sign or not, that fit
/// in 32 bits.
pub open spec fn u32_value(s: Seq<char>) -> Option<u32> {
    let digits = if s.len() > 0 && s[0] == '+' {
        s.skip(1)
    } else {
        s
    };
    match digits_value(digits) {
        Some(n) => if digits.len() > 0 && n <= u32::MAX {
            Some(n as u32)
        } else {
            None
        },
        None => None,
    }
}

proof fn lemma_digits_prefix(s: Seq<char>, i: int)
    requires
        0 <= i <= s.len(),
    ensures
        digits_value(s.take(i)) is None ==> digits_value(s) is None,
        digits_value(s) matches Some(n) ==> (digits_value(s.take(i)) matches Some(k) && k <= n),
    decreases s.len() - i,
{
    if i == s.len() {
        assert(s.take(i) == s);
    } else {
        assert(s.take(i + 1).drop_last() == s.take(i));
        lemma_digits_prefix(s, i + 1);
    }
}

/// The number that the text spells, if it spells one of 32 bits.
pub fn parse_u32(s: &str) -> (r: Option<u32>)
    ensures
        r == u32_value(s@),
{
    let chars = to_chars(s);
    let start: usize = if chars.len() > 0 && chars[0] == '+' {
        1
    } else {
        0
    };
    let ghost digits = if s@.len() > 0 && s@[0] == '+' {
        s@.skip(1)
    } else {
        s@
    };
    assert(digits == s@.skip(start as int));
    if start == chars.len() {
        return None;
    }
    let mut value: u32 = 0;
    let mut i: usize = start;
    assert(digits.take(0) == Seq::<char>::empty());
    while i < chars.len()
        invariant
            start <= i <= chars.len(),
            chars@ == s@,
            digits == s@.skip(start as int),
            digits_value(digits.take(i - start)) == Some(value as nat),
            u32_value(s@) == (match digits_value(digits) {
                Some(n) => if digits.len() > 0 && n <= u32::MAX {
                    Some(n as u32)
                } else {
                    None
                },
                None => None,
            }),
        decreases chars.len() - i,
    {
        let c = chars[i];
        proof {
            let k = i - start;
            assert(digits.take(k + 1).drop_last() == digits.take(k));
            assert(digits.take(k + 1).last() == c);
            lemma_digits_prefix(digits, k + 1);
        }
        if c < '0' || c > '9' {
            return None;
        }
        let d: u32 = c as u32 - '0' as u32;
        if value > (u32::MAX - d) / 10 {
            return None;
        }
        value = value * 10 + d;
        i += 1;
    }
    assert(digits.take(i - start) == digits);
    Some(value)
}

/// A string with its first occurrence of a pattern replaced.
pub open spec fn replaced(s: Seq<char>, p: Seq<char>, with: Seq<char>) -> Seq<char> {
    match first_match(s, p, 0) {
        Some(i) => s.take(i) + with + s.skip(i + p.len()),
        None => s,
    }
}

/// The string with its first occurrence of a pattern replaced.
pub fn replace_first(s: &str, p: &str, with: &str) -> (r: String)
    ensures
        r@ == replaced(s@, p@, with@),
{
    let chars = to_chars(s);
    let pattern = to_chars(p);
    match find_from(&chars, &pattern, 0) {
        Some(i) => {
            let size: usize = chars.len();
            proof {
                lemma_first_match_is_first(s@, p@);
                assert(occurs_at(s@, p@, i as int));
                let k = i + p@.len();
                assert(s@.take(i as int) == s@.subrange(0, i as int));
                assert(s@.skip(k) == s@.subrange(k, s@.len() as int));
            }
            assert(i + pattern@.len() <= size);
            let before = slice_text(&chars, 0, i);
            let after = slice_text(&chars, i + pattern.len(), size);
            join3(before.as_str(), with, after.as_str())
        },
        None => s.to_owned(),
    }
}

/// A string without white space is what trimming leaves of it.
pub proof fn lemma_trim_solid(s: Seq<char>)
    requires
        forall|i: int| 0 <= i < s.len() ==> !outside::white_space(#[trigger] s[i]),
    ensures
        trim(s) == s,
{
    if s.len() > 0 {
        assert(!outside::white_space(s[0]));
        assert(!outside::white_space(s[s.len() - 1]));
    }
}

proof fn lemma_trim_start(s: Seq<char>)
    ensures
        trim_start(s).len() > 0 ==> !outside::white_space(trim_start(s)[0]),
    decreases s.len(),
{
    if s.len() > 0 && outside::white_space(s[0]) {
        lemma_trim_start(s.drop_first());
    }
}

proof fn lemma_trim_end(s: Seq<char>)
    ensures
        trim_end(s).is_prefix_of(s),
        trim_end(s).len() > 0 ==> !outside::white_space(trim_end(s).last()),
    decreases s.len(),
{
    if s.len() > 0 && outside::white_space(s.last()) {
        lemma_trim_end(s.drop_last());
        let t = trim_end(s);
        assert(s.drop_last().take(t.len() as int) == s.take(t.len() as int));
    } else {
        assert(s.take(s.len() as int) == s);
    }
}

/// A string without white space at its ends has none to lose.
pub proof fn lemma_trim_twice(s: Seq<char>)
    ensures
        trim(trim(s)) == trim(s),
{
    lemma_trim_start(s);
    lemma_trim_end(trim_start(s));
    let t = trim(s);
    if t.len() > 0 {
        assert(t[0] == trim_start(s).take(t.len() as int)[0]);
    }
}

/// Law: taking a character off the end leaves a beginning of the string that
/// does not end with it, and takes off nothing else.
pub proof fn law_without_end(s: Seq<char>, c: char)
    ensures
        without_end(s, c).is_prefix_of(s),
        without_end(s, c).len() > 0 ==> without_end(s, c).last() != c,
        forall|i: int| without_end(s, c).len() <= i < s.len() ==> #[trigger] s[i] == c,
    decreases s.len(),
{
    if s.len() > 0 && s.last() == c {
        let rest = s.drop_last();
        law_without_end(rest, c);
        let t = without_end(s, c);
        assert(rest.take(t.len() as int) == s.take(t.len() as int));
        assert forall|i: int| t.len() <= i < s.len() implies #[trigger] s[i] == c by {
            if i < rest.len() {
                assert(rest[i] == s[i]);
            }
        }
    } else {
        assert(s.take(s.len() as int) == s);
    }
}

/// Law: trimming leaves a part of the string that neither begins nor ends with
/// white space, and takes off nothing but white space.
pub proof fn law_trim(s: Seq<char>)
    ensures
        trim(s).len() > 0 ==> !outside::white_space(trim(s)[0]) && !outside::white_space(
            trim(s).last(),
        ),
        exists|from: int| #[trigger] is_core(s, from, trim(s)),
{
    lemma_trim_start(s);
    lemma_trim_front(s);
    let t = trim_start(s);
    lemma_trim_end(t);
    lemma_trim_back(t);
    let core = trim(s);
    if core.len() > 0 {
        assert(core[0] == t.take(core.len() as int)[0]);
    }
    let from = s.len() - t.len();
    assert(core == t.take(core.len() as int));
    assert(s.subrange(from, from + core.len()) == core);
    assert forall|i: int| from + core.len() <= i < s.len() implies outside::white_space(
        #[trigger] s[i],
    ) by {
        assert(t[i - from] == s[i]);
    }
    assert(is_core(s, from, core));
}

/// Whether a part stands in a string from a position on, with nothing but white
/// space before it and after it.
pub open spec fn is_core(s: Seq<char>, from: int, part: Seq<char>) -> bool {
    &&& 0 <= from && from + part.len() <= s.len()
    &&& s.subrange(from, from + part.len()) == part
    &&& forall|i: int| 0 <= i < from ==> outside::white_space(#[trigger] s[i])
    &&& forall|i: int|
        from + part.len() <= i < s.len() ==> outside::white_space(#[trigger] s[i])
}

proof fn lemma_trim_front(s: Seq<char>)
    ensures
        trim_start(s).len() <= s.len(),
        trim_start(s) == s.skip(s.len() - trim_start(s).len()),
        forall|i: int|
            0 <= i < s.len() - trim_start(s).len() ==> outside::white_space(#[trigger] s[i]),
    decreases s.len(),
{
    if s.len() > 0 && outside::white_space(s[0]) {
        let rest = s.drop_first();
        lemma_trim_front(rest);
        let t = trim_start(s);
        assert(rest.skip(rest.len() - t.len()) == s.skip(s.len() - t.len()));
        assert forall|i: int| 0 <= i < s.len() - t.len() implies outside::white_space(
            #[trigger] s[i],
        ) by {
            if i > 0 {
                assert(rest[i - 1] == s[i]);
            }
        }
    } else {
        assert(s.skip(0) == s);
    }
}

proof fn lemma_trim_back(s: Seq<char>)
    ensures
        forall|i: int| trim_end(s).len() <= i < s.len() ==> outside::white_space(#[trigger] s[i]),
    decreases s.len(),
{
    if s.len() > 0 && outside::white_space(s.last()) {
        let rest = s.drop_last();
        lemma_trim_back(rest);
        assert forall|i: int| trim_end(s).len() <= i < s.len() implies outside::white_space(
            #[trigger] s[i],
        ) by {
            if i < rest.len() {
                assert(rest[i] == s[i]);
            }
        }
    }
}

/// Law: the pieces of a string, put together again with the character it was
/// split at, are the string; none of them holds that character.
pub proof fn law_split_and_join(s: Seq<char>, sep: char)
    ensures
        joined(split(s, sep), seq![sep]) == s,
        forall|k: int, i: int|
            0 <= k < split(s, sep).len() && 0 <= i < split(s, sep)[k].len() ==> #[trigger] split(
                s,
                sep,
            )[k][i] != sep,
    decreases s.len(),
{
    let all = split(s, sep);
    if s.len() == 0 {
        assert(joined(all, seq![sep]) == Seq::<char>::empty());
    } else {
        let before = split(s.drop_last(), sep);
        law_split_and_join(s.drop_last(), sep);
        lemma_split_nonempty(s.drop_last(), is_char(sep));
        assert(s == s.drop_last().push(s.last()));
        if s.last() == sep {
            assert(all.drop_last() == before);
            assert(joined(before, seq![sep]) + seq![sep] + Seq::<char>::empty() == s);
        } else {
            let rest = before.drop_last();
            let piece = before.last().push(s.last());
            assert(all == rest.push(piece));
            assert(all.drop_last() == rest);
            assert(before.drop_last() == rest);
            if rest.len() > 0 {
                assert(joined(rest, seq![sep]) + seq![sep] + piece == (joined(rest, seq![sep])
                    + seq![sep] + before.last()).push(s.last()));
            }
            assert forall|k: int, i: int|
                0 <= k < all.len() && 0 <= i < all[k].len() implies #[trigger] all[k][i] != sep by {
                if k < rest.len() {
                    assert(all[k] == before[k]);
                    assert(before[k][i] != sep);
                } else if i < before.last().len() {
                    assert(before[before.len() - 1][i] != sep);
                }
            }
        }
    }
}

/// Law: the decimal notation of a number is made of digits and spells that
/// number.
pub proof fn law_decimal_spells(n: nat)
    ensures
        digits_value(decimal(n)) == Some(n),
        decimal(n).len() > 0,
        decimal(n)[0] == '0' <==> n == 0,
    decreases n,
{
    if n < 10 {
        assert(decimal(n).drop_last() == Seq::<char>::empty());
        assert(digits_value(Seq::<char>::empty()) == Some(0nat));
        assert(decimal(n).last() == digit_char(n));
    } else {
        law_decimal_spells(n / 10);
        assert(decimal(n).drop_last() == decimal(n / 10));
    }
}

/// Law: replacing the first occurrence of a pattern changes a string exactly
/// there: what stands before the first occurrence and after it stays, and a
/// string without one stays whole.
pub proof fn law_replaced(s: Seq<char>, p: Seq<char>, with: Seq<char>, at: int)
    ensures
        occurs_at(s, p, at) && (forall|j: int| #[trigger] occurs_at(s, p, j) ==> at <= j)
            ==> replaced(s, p, with) == s.take(at) + with + s.skip(at + p.len()),
        !occurs(s, p) ==> replaced(s, p, with) == s,
{
    lemma_first_match_is_first(s, p);
}

/// Law: lower case changes the ASCII capitals to the letter 32 further on, and
/// nothing else; doing it again changes nothing.
pub proof fn law_ascii_lower(s: Seq<char>)
    ensures
        ascii_lower(s).len() == s.len(),
        forall|i: int|
            0 <= i < s.len() ==> (if 'A' <= s[i] && s[i] <= 'Z' {
                #[trigger] ascii_lower(s)[i] as int == s[i] as int + 32
            } else {
                ascii_lower(s)[i] == s[i]
            }),
        ascii_lower(ascii_lower(s)) == ascii_lower(s),
{
}

/// Law: a string without a character is the one piece of its split there.
pub proof fn law_split_whole(s: Seq<char>, sep: char)
    requires
        !s.contains(sep),
    ensures
        split(s, sep) == seq![s],
    decreases s.len(),
{
    if s.len() > 0 {
        let rest = s.drop_last();
        assert(!rest.contains(sep)) by {
            if rest.contains(sep) {
                let i = choose|i: int| 0 <= i < rest.len() && rest[i] == sep;
                assert(s[i] == sep);
            }
        }
        law_split_whole(rest, sep);
        assert(s.last() != sep) by {
            if s.last() == sep {
                assert(s[s.len() - 1] == sep);
            }
        }
        assert(rest.push(s.last()) == s);
        assert(split(s, sep) == seq![s]);
    } else {
        assert(s == Seq::<char>::empty());
    }
}

/// Law: what follows the last occurrence of a character is the last piece, and
/// what stands before it is split by itself.
pub proof fn law_split_last(head: Seq<char>, sep: char, tail: Seq<char>)
    requires
        !tail.contains(sep),
    ensures
        split(head + seq![sep] + tail, sep) == split(head, sep).push(tail),
    decreases tail.len(),
{
    let s = head + seq![sep] + tail;
    if tail.len() == 0 {
        assert(s.drop_last() == head);
        assert(s.last() == sep);
        assert(tail == Seq::<char>::empty());
    } else {
        let rest = tail.drop_last();
        assert(!rest.contains(sep)) by {
            if rest.contains(sep) {
                let i = choose|i: int| 0 <= i < rest.len() && rest[i] == sep;
                assert(tail[i] == sep);
            }
        }
        law_split_last(head, sep, rest);
        assert(s.drop_last() == head + seq![sep] + rest);
        assert(s.last() == tail[tail.len() - 1]);
        assert(s.last() != sep);
        let before = split(head, sep).push(rest);
        assert(before.drop_last() == split(head, sep));
        assert(rest.push(s.last()) == tail);
    }
}

/// Law: what stands before the first occurrence of a character is the first
/// piece.
pub proof fn law_split_first(head: Seq<char>, sep: char, tail: Seq<char>)
    requires
        !head.contains(sep),
    ensures
        split(head + seq![sep] + tail, sep).len() > 1,
        split(head + seq![sep] + tail, sep)[0] == head,
    decreases tail.len(),
{
    let s = head + seq![sep] + tail;
    if tail.len() == 0 {
        law_split_whole(head, sep);
        assert(s.drop_last() == head);
        assert(s.last() == sep);
    } else {
        let rest = tail.drop_last();
        law_split_first(head, sep, rest);
        assert(s.drop_last() == head + seq![sep] + rest);
    }
}

/// Law: taking the white space off the end leaves a beginning of the string that
/// does not end with any, and takes off nothing else.
pub proof fn law_trim_end(s: Seq<char>)
    ensures
        trim_end(s).is_prefix_of(s),
        trim_end(s).len() > 0 ==> !outside::white_space(trim_end(s).last()),
        forall|i: int| trim_end(s).len() <= i < s.len() ==> outside::white_space(#[trigger] s[i]),
{
    lemma_trim_end(s);
    lemma_trim_back(s);
}

/// Law: joining keeps the parts in order: the first one opens the text, and each
/// further one follows after the separator.
pub proof fn law_joined(parts: Seq<Seq<char>>, sep: Seq<char>, part: Seq<char>)
    ensures
        parts.len() == 0 ==> joined(parts.push(part), sep) == part,
        parts.len() > 0 ==> joined(parts.push(part), sep) == joined(parts, sep) + sep + part,
{
    assert(parts.push(part).drop_last() == parts);
}

/// Law: a number of 32 bits is read back from its decimal notation, with a plus
/// sign before it or not; a larger one, and an empty text, spells none.
pub proof fn law_u32_value(n: nat)
    ensures
        n <= u32::MAX ==> u32_value(decimal(n)) == Some(n as u32) && u32_value(
            seq!['+'] + decimal(n),
        ) == Some(n as u32),
        n > u32::MAX ==> u32_value(decimal(n)) is None,
        u32_value(Seq::empty()) is None,
        u32_value(seq!['+']) is None,
{
    law_decimal_spells(n);
    lemma_decimal_digits(n);
    assert((seq!['+'] + decimal(n)).skip(1) == decimal(n));
    assert(seq!['+'].skip(1) == Seq::<char>::empty());
}

proof fn lemma_decimal_digits(n: nat)
    ensures
        decimal(n).len() > 0,
        decimal(n)[0] != '+',
    decreases n,
{
    if n >= 10 {
        lemma_decimal_digits(n / 10);
        assert(decimal(n)[0] == decimal(n / 10)[0]);
    }
}

} // verus!
