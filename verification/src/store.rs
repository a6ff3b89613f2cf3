//! The layout of the token cache file.
//!
//! A token is kept as one text. Numbers take a fixed count of digits and
//! every string is preceded by its length, so that any string can be kept
//! without escaping and the text can be read back in one pass. Reading and
//! writing the file itself is left to the program around this crate.

use crate::decimal::{
    leading_number, lemma_leading_number_of_number, lemma_number_of_leading_number, number,
    number_limit, push_number, read_number, NUMBER_WIDTH,
};
use crate::token::{CachedToken, TokenView};
use vstd::prelude::*;
use vstd::string::{StrSliceExecFns, StringExecFns};

verus! {

/// The sign that stands in front of a number that is not negative, and in
/// front of a string that is there.
pub const PLUS: char = '+';

/// The sign that stands in front of a negative number, and in place of a
/// string that is not there.
pub const MINUS: char = '-';

/// A string as it is kept: its length in characters, then its characters.
pub open spec fn text(s: Seq<char>) -> Seq<char> {
    number(s.len()) + s
}

/// The distance of `t` from zero.
pub open spec fn magnitude(t: i64) -> nat {
    if t < 0 {
        (-(t as int)) as nat
    } else {
        t as nat
    }
}

/// A point in time as it is kept: a sign, then the magnitude.
pub open spec fn timestamp(t: i64) -> Seq<char> {
    seq![if t < 0 { MINUS } else { PLUS }] + number(magnitude(t))
}

/// A string that may be missing, as it is kept.
pub open spec fn optional_text(s: Option<Seq<char>>) -> Seq<char> {
    match s {
        Some(s) => seq![PLUS] + text(s),
        None => seq![MINUS],
    }
}

/// Strings as they are kept one after the other.
pub open spec fn texts(list: Seq<Seq<char>>) -> Seq<char>
    decreases list.len(),
{
    if list.len() == 0 {
        Seq::empty()
    } else {
        text(list.first()) + texts(list.drop_first())
    }
}

/// A list of strings as it is kept: their count, then the strings.
pub open spec fn text_list(list: Seq<Seq<char>>) -> Seq<char> {
    number(list.len()) + texts(list)
}

/// A token as it is kept in the cache file: the expiry, the access token,
/// the refresh token if there is one, and the granted scopes.
pub open spec fn encoding(token: TokenView) -> Seq<char> {
    timestamp(token.expires_at) + text(token.access_token) + optional_text(token.refresh_token)
        + text_list(token.granted_scopes)
}

/// Whether every string of the list is short enough for its length to be
/// written down.
pub open spec fn all_fit(list: Seq<Seq<char>>) -> bool {
    forall|i: int| 0 <= i < list.len() ==> (#[trigger] list[i]).len() < number_limit()
}

/// Whether every length in the token can be written down. This holds of
/// every token that a machine can hold.
pub open spec fn fits(token: TokenView) -> bool {
    &&& token.access_token.len() < number_limit()
    &&& token.refresh_token matches Some(r) ==> r.len() < number_limit()
    &&& token.granted_scopes.len() < number_limit()
    &&& all_fit(token.granted_scopes)
}

/// The string at the start of `s` and what follows it.
spec fn parse_text(s: Seq<char>) -> Option<(Seq<char>, Seq<char>)> {
    match leading_number(s) {
        Some(len) => {
            let rest = s.skip(NUMBER_WIDTH as int);
            if len <= rest.len() {
                Some((rest.take(len as int), rest.skip(len as int)))
            } else {
                None
            }
        },
        None => None,
    }
}

/// The point in time at the start of `s` and what follows it.
spec fn parse_timestamp(s: Seq<char>) -> Option<(i64, Seq<char>)> {
    if s.len() == 0 {
        None
    } else {
        match leading_number(s.skip(1)) {
            Some(m) => {
                let rest = s.skip(1).skip(NUMBER_WIDTH as int);
                if s[0] == PLUS && m <= i64::MAX {
                    Some((m as i64, rest))
                } else if s[0] == MINUS && 1 <= m <= -(i64::MIN as int) {
                    Some(((-(m as int)) as i64, rest))
                } else {
                    None
                }
            },
            None => None,
        }
    }
}

/// The string that may be missing at the start of `s`, and what follows it.
spec fn parse_optional_text(s: Seq<char>) -> Option<(Option<Seq<char>>, Seq<char>)> {
    if s.len() == 0 {
        None
    } else if s[0] == MINUS {
        Some((None, s.skip(1)))
    } else if s[0] == PLUS {
        match parse_text(s.skip(1)) {
            Some((t, rest)) => Some((Some(t), rest)),
            None => None,
        }
    } else {
        None
    }
}

/// The `count` strings at the start of `s`, and what follows them.
spec fn parse_texts(s: Seq<char>, count: nat) -> Option<(Seq<Seq<char>>, Seq<char>)>
    decreases count,
{
    if count == 0 {
        Some((Seq::empty(), s))
    } else {
        match parse_text(s) {
            Some((t, rest)) => match parse_texts(rest, (count - 1) as nat) {
                Some((list, rest)) => Some((seq![t] + list, rest)),
                None => None,
            },
            None => None,
        }
    }
}

/// The list of strings at the start of `s`, and what follows it.
spec fn parse_text_list(s: Seq<char>) -> Option<(Seq<Seq<char>>, Seq<char>)> {
    match leading_number(s) {
        Some(count) => parse_texts(s.skip(NUMBER_WIDTH as int), count),
        None => None,
    }
}

/// The token at the start of `s`, and what follows it.
spec fn parse_fields(s: Seq<char>) -> Option<(TokenView, Seq<char>)> {
    match parse_timestamp(s) {
        Some((expires_at, rest)) => match parse_text(rest) {
            Some((access_token, rest)) => match parse_optional_text(rest) {
                Some((refresh_token, rest)) => match parse_text_list(rest) {
                    Some((granted_scopes, rest)) => Some(
                        (
                            TokenView { access_token, refresh_token, expires_at, granted_scopes },
                            rest,
                        ),
                    ),
                    None => None,
                },
                None => None,
            },
            None => None,
        },
        None => None,
    }
}

/// The token that `s` holds from its first character to its last.
spec fn parse_token(s: Seq<char>) -> Option<TokenView> {
    match parse_fields(s) {
        Some((token, rest)) => if rest.len() == 0 {
            Some(token)
        } else {
            None
        },
        None => None,
    }
}

proof fn lemma_parse_text_of_text(t: Seq<char>, rest: Seq<char>)
    requires
        t.len() < number_limit(),
    ensures
        parse_text(text(t) + rest) == Some((t, rest)),
{
    let tail = t + rest;
    assert(text(t) + rest =~= number(t.len()) + tail);
    lemma_leading_number_of_number(t.len(), tail);
}

proof fn lemma_text_of_parse_text(s: Seq<char>)
    requires
        parse_text(s) is Some,
    ensures
        ({
            let (t, rest) = parse_text(s)->0;
            s == text(t) + rest && t.len() < number_limit()
        }),
{
    lemma_number_of_leading_number(s);
}

proof fn lemma_parse_timestamp_of_timestamp(t: i64, rest: Seq<char>)
    ensures
        parse_timestamp(timestamp(t) + rest) == Some((t, rest)),
{
    lemma_leading_number_of_number(magnitude(t), rest);
    assert((timestamp(t) + rest).skip(1) =~= number(magnitude(t)) + rest);
}

proof fn lemma_timestamp_of_parse_timestamp(s: Seq<char>)
    requires
        parse_timestamp(s) is Some,
    ensures
        ({
            let (t, rest) = parse_timestamp(s)->0;
            s == timestamp(t) + rest
        }),
{
    lemma_number_of_leading_number(s.skip(1));
    assert(s =~= seq![s[0]] + s.skip(1));
}

proof fn lemma_parse_optional_text_of_optional_text(t: Option<Seq<char>>, rest: Seq<char>)
    requires
        t matches Some(r) ==> r.len() < number_limit(),
    ensures
        parse_optional_text(optional_text(t) + rest) == Some((t, rest)),
{
    if let Some(r) = t {
        assert((optional_text(t) + rest).skip(1) =~= text(r) + rest);
        lemma_parse_text_of_text(r, rest);
    }
}

proof fn lemma_optional_text_of_parse_optional_text(s: Seq<char>)
    requires
        parse_optional_text(s) is Some,
    ensures
        ({
            let (t, rest) = parse_optional_text(s)->0;
            &&& s == optional_text(t) + rest
            &&& t matches Some(r) ==> r.len() < number_limit()
        }),
{
    assert(s =~= seq![s[0]] + s.skip(1));
    if s[0] == PLUS {
        lemma_text_of_parse_text(s.skip(1));
    }
}

proof fn lemma_parse_texts_of_texts(list: Seq<Seq<char>>, rest: Seq<char>)
    requires
        all_fit(list),
    ensures
        parse_texts(texts(list) + rest, list.len()) == Some((list, rest)),
    decreases list.len(),
{
    if list.len() == 0 {
        assert(list =~= Seq::empty());
    } else {
        let tail = list.drop_first();
        let after = texts(tail) + rest;
        assert(texts(list) + rest =~= text(list.first()) + after);
        assert(list.first() == list[0]);
        lemma_parse_text_of_text(list.first(), after);
        assert(all_fit(tail));
        lemma_parse_texts_of_texts(tail, rest);
    }
}

proof fn lemma_texts_of_parse_texts(s: Seq<char>, count: nat)
    requires
        parse_texts(s, count) is Some,
    ensures
        ({
            let (list, rest) = parse_texts(s, count)->0;
            &&& s == texts(list) + rest
            &&& list.len() == count
            &&& all_fit(list)
        }),
    decreases count,
{
    if count > 0 {
        lemma_text_of_parse_text(s);
        let (t, after) = parse_text(s)->0;
        lemma_texts_of_parse_texts(after, (count - 1) as nat);
        let (list, _) = parse_texts(s, count)->0;
        let (tail, _) = parse_texts(after, (count - 1) as nat)->0;
        assert(list.drop_first() =~= tail);
        assert(all_fit(list));
    }
}

proof fn lemma_parse_text_list_of_text_list(list: Seq<Seq<char>>, rest: Seq<char>)
    requires
        list.len() < number_limit(),
        all_fit(list),
    ensures
        parse_text_list(text_list(list) + rest) == Some((list, rest)),
{
    let after = texts(list) + rest;
    assert(text_list(list) + rest =~= number(list.len()) + after);
    lemma_leading_number_of_number(list.len(), after);
    lemma_parse_texts_of_texts(list, rest);
}

proof fn lemma_text_list_of_parse_text_list(s: Seq<char>)
    requires
        parse_text_list(s) is Some,
    ensures
        ({
            let (list, rest) = parse_text_list(s)->0;
            &&& s == text_list(list) + rest
            &&& list.len() < number_limit()
            &&& all_fit(list)
        }),
{
    lemma_number_of_leading_number(s);
    let count = leading_number(s)->0;
    lemma_texts_of_parse_texts(s.skip(NUMBER_WIDTH as int), count);
}

proof fn lemma_parse_fields_of_encoding(token: TokenView, rest: Seq<char>)
    requires
        fits(token),
    ensures
        parse_fields(encoding(token) + rest) == Some((token, rest)),
{
    let last = text_list(token.granted_scopes) + rest;
    let third = optional_text(token.refresh_token) + last;
    let second = text(token.access_token) + third;
    assert(encoding(token) + rest =~= timestamp(token.expires_at) + second);
    lemma_parse_timestamp_of_timestamp(token.expires_at, second);
    lemma_parse_text_of_text(token.access_token, third);
    lemma_parse_optional_text_of_optional_text(token.refresh_token, last);
    lemma_parse_text_list_of_text_list(token.granted_scopes, rest);
}

proof fn lemma_regroup(
    a: Seq<char>,
    b: Seq<char>,
    c: Seq<char>,
    d: Seq<char>,
    rest: Seq<char>,
)
    ensures
        a + (b + (c + (d + rest))) == a + b + c + d + rest,
{
}

proof fn lemma_encoding_of_parse_fields(s: Seq<char>)
    requires
        parse_fields(s) is Some,
    ensures
        ({
            let (token, rest) = parse_fields(s)->0;
            s == encoding(token) + rest && fits(token)
        }),
{
    lemma_timestamp_of_parse_timestamp(s);
    let (expires_at, second) = parse_timestamp(s)->0;
    lemma_text_of_parse_text(second);
    let (access_token, third) = parse_text(second)->0;
    lemma_optional_text_of_parse_optional_text(third);
    let (refresh_token, last) = parse_optional_text(third)->0;
    lemma_text_list_of_parse_text_list(last);
    let (granted_scopes, rest) = parse_text_list(last)->0;
    lemma_regroup(
        timestamp(expires_at),
        text(access_token),
        optional_text(refresh_token),
        text_list(granted_scopes),
        rest,
    );
}

proof fn lemma_parse_token_of_encoding(token: TokenView)
    requires
        fits(token),
    ensures
        parse_token(encoding(token)) == Some(token),
{
    lemma_parse_fields_of_encoding(token, Seq::empty());
}

proof fn lemma_encoding_of_parse_token(s: Seq<char>)
    requires
        parse_token(s) is Some,
    ensures
        encoding(parse_token(s)->0) == s,
        fits(parse_token(s)->0),
{
    lemma_encoding_of_parse_fields(s);
}

/// What a text holds: the token that is kept as exactly this text, or
/// nothing where no token is.
pub open spec fn decoding(s: Seq<char>) -> Option<TokenView> {
    if exists|t: TokenView| fits(t) && #[trigger] encoding(t) == s {
        Some(choose|t: TokenView| fits(t) && #[trigger] encoding(t) == s)
    } else {
        None
    }
}

proof fn lemma_parse_token_is_decoding(s: Seq<char>)
    ensures
        parse_token(s) == decoding(s),
{
    if parse_token(s) is Some {
        lemma_encoding_of_parse_token(s);
        let chosen = choose|t: TokenView| fits(t) && #[trigger] encoding(t) == s;
        lemma_parse_token_of_encoding(chosen);
    } else {
        assert forall|t: TokenView| fits(t) implies #[trigger] encoding(t) != s by {
            lemma_parse_token_of_encoding(t);
        }
    }
}

proof fn lemma_texts_push(list: Seq<Seq<char>>, last: Seq<char>)
    ensures
        texts(list.push(last)) == texts(list) + text(last),
    decreases list.len(),
{
    let longer = list.push(last);
    if list.len() == 0 {
        assert(texts(longer.drop_first()) =~= Seq::<char>::empty());
    } else {
        lemma_texts_push(list.drop_first(), last);
        assert(longer.drop_first() =~= list.drop_first().push(last));
    }
}

/// Appends a string to `out`, as it is kept.
fn push_text(out: &mut String, s: &str)
    ensures
        final(out)@ == old(out)@ + text(s@),
        s@.len() < number_limit(),
{
    let len: usize = s.unicode_len();
    push_number(out, len as u64);
    out.append(s);
}

/// Appends a point in time to `out`, as it is kept.
fn push_timestamp(out: &mut String, t: i64)
    ensures
        final(out)@ == old(out)@ + timestamp(t),
{
    proof {
        reveal_strlit("-");
        reveal_strlit("+");
    }
    if t < 0 {
        out.append("-");
        push_number(out, (-(t as i128)) as u64);
    } else {
        out.append("+");
        push_number(out, t as u64);
    }
}

/// Appends a string that may be missing to `out`, as it is kept.
fn push_optional_text(out: &mut String, s: &Option<String>)
    ensures
        final(out)@ == old(out)@ + optional_text(s.deep_view()),
        s.deep_view() matches Some(r) ==> r.len() < number_limit(),
{
    proof {
        reveal_strlit("-");
        reveal_strlit("+");
    }
    match s {
        Some(r) => {
            out.append("+");
            push_text(out, r.as_str());
        },
        None => {
            out.append("-");
        },
    }
}

/// Appends a list of strings to `out`, as it is kept.
fn push_text_list(out: &mut String, list: &Vec<String>)
    ensures
        final(out)@ == old(out)@ + text_list(list.deep_view()),
        list.deep_view().len() < number_limit(),
        all_fit(list.deep_view()),
{
    let ghost all = list.deep_view();
    push_number(out, list.len() as u64);
    let ghost head = out@;
    let mut i: usize = 0;
    while i < list.len()
        invariant
            i <= list.len(),
            all == list.deep_view(),
            out@ == head + texts(all.take(i as int)),
            all_fit(all.take(i as int)),
        decreases list.len() - i,
    {
        push_text(out, list[i].as_str());
        proof {
            let done = all.take(i as int);
            assert(all.take(i + 1) =~= done.push(all[i as int]));
            lemma_texts_push(done, all[i as int]);
            assert(all_fit(all.take(i + 1)));
        }
        i += 1;
    }
    assert(all.take(i as int) =~= all);
}

/// Writes a token down as it is kept in the cache file.
pub fn encode(token: &CachedToken) -> (text: String)
    ensures
        text@ == encoding(token@),
        fits(token@),
{
    let mut out = String::new();
    push_timestamp(&mut out, token.expires_at);
    push_text(&mut out, token.access_token.as_str());
    push_optional_text(&mut out, &token.refresh_token);
    push_text_list(&mut out, &token.granted_scopes);
    out
}

/// Reads the string that starts at the place `pos` of `s`, whose length in
/// characters is `len`, and says where it ends.
fn read_text(s: &str, len: usize, pos: usize) -> (found: Option<(String, usize)>)
    requires
        len == s@.len(),
        pos <= len,
    ensures
        match found {
            Some((t, next)) => pos + NUMBER_WIDTH <= next <= len && parse_text(s@.skip(pos as int))
                == Some((t@, s@.skip(next as int))),
            None => parse_text(s@.skip(pos as int)) is None,
        },
{
    match read_number(s, len, pos) {
        Some(n) => {
            let start: usize = pos + NUMBER_WIDTH;
            if n <= (len - start) as u128 {
                let end: usize = start + n as usize;
                let t = String::from_str(s.substring_char(start, end));
                assert(s@.skip(start as int).take(n as int) =~= s@.subrange(
                    start as int,
                    end as int,
                ));
                Some((t, end))
            } else {
                None
            }
        },
        None => None,
    }
}

/// Reads the point in time that starts at the place `pos` of `s`.
fn read_timestamp(s: &str, len: usize, pos: usize) -> (found: Option<(i64, usize)>)
    requires
        len == s@.len(),
        pos <= len,
    ensures
        match found {
            Some((t, next)) => pos < next <= len && parse_timestamp(s@.skip(pos as int)) == Some(
                (t, s@.skip(next as int)),
            ),
            None => parse_timestamp(s@.skip(pos as int)) is None,
        },
{
    if pos >= len {
        return None;
    }
    let sign = s.get_char(pos);
    assert(s@.skip(pos as int).skip(1) =~= s@.skip(pos + 1));
    match read_number(s, len, pos + 1) {
        Some(m) => {
            let next: usize = pos + 1 + NUMBER_WIDTH;
            if sign == PLUS && m <= i64::MAX as u128 {
                Some((m as i64, next))
            } else if sign == MINUS && 1 <= m && m <= 0x8000_0000_0000_0000u128 {
                Some(((-(m as i128)) as i64, next))
            } else {
                None
            }
        },
        None => None,
    }
}

/// Reads the string that may be missing at the place `pos` of `s`.
fn read_optional_text(s: &str, len: usize, pos: usize) -> (found: Option<(Option<String>, usize)>)
    requires
        len == s@.len(),
        pos <= len,
    ensures
        match found {
            Some((t, next)) => pos < next <= len && parse_optional_text(s@.skip(pos as int))
                == Some((t.deep_view(), s@.skip(next as int))),
            None => parse_optional_text(s@.skip(pos as int)) is None,
        },
{
    if pos >= len {
        return None;
    }
    let mark = s.get_char(pos);
    assert(s@.skip(pos as int).skip(1) =~= s@.skip(pos + 1));
    if mark == MINUS {
        Some((None, pos + 1))
    } else if mark == PLUS {
        match read_text(s, len, pos + 1) {
            Some((t, next)) => Some((Some(t), next)),
            None => None,
        }
    } else {
        None
    }
}

/// Reads the list of strings that starts at the place `pos` of `s`.
fn read_text_list(s: &str, len: usize, pos: usize) -> (found: Option<(Vec<String>, usize)>)
    requires
        len == s@.len(),
        pos <= len,
    ensures
        match found {
            Some((list, next)) => pos < next <= len && parse_text_list(s@.skip(pos as int))
                == Some((list.deep_view(), s@.skip(next as int))),
            None => parse_text_list(s@.skip(pos as int)) is None,
        },
{
    let count: u128 = match read_number(s, len, pos) {
        Some(n) => n,
        None => {
            return None;
        },
    };
    let start: usize = pos + NUMBER_WIDTH;
    assert(s@.skip(pos as int).skip(NUMBER_WIDTH as int) =~= s@.skip(start as int));
    let ghost wanted = parse_texts(s@.skip(start as int), count as nat);
    let mut list: Vec<String> = Vec::new();
    let mut at: usize = start;
    let mut i: u128 = 0;
    while i < count
        invariant
            len == s@.len(),
            start <= at <= len,
            pos < start,
            i <= count,
            parse_text_list(s@.skip(pos as int)) == wanted,
            wanted == match parse_texts(s@.skip(at as int), (count - i) as nat) {
                Some((more, rest)) => Some((list.deep_view() + more, rest)),
                None => None,
            },
        decreases len - at,
    {
        match read_text(s, len, at) {
            Some((t, next)) => {
                list.push(t);
                at = next;
                i += 1;
            },
            None => {
                return None;
            },
        }
    }
    Some((list, at))
}

/// Reads a token from the text of the cache file.
///
/// The result is the token that `encode` writes as exactly this text. Any
/// other text holds no token and gives `None`.
pub fn decode(text: &str) -> (token: Option<CachedToken>)
    ensures
        token.deep_view() == decoding(text@),
{
    let len: usize = text.unicode_len();
    proof {
        lemma_parse_token_is_decoding(text@);
        assert(text@.skip(0) =~= text@);
    }
    let (expires_at, pos) = match read_timestamp(text, len, 0) {
        Some(found) => found,
        None => {
            return None;
        },
    };
    let (access_token, pos) = match read_text(text, len, pos) {
        Some(found) => found,
        None => {
            return None;
        },
    };
    let (refresh_token, pos) = match read_optional_text(text, len, pos) {
        Some(found) => found,
        None => {
            return None;
        },
    };
    let (granted_scopes, pos) = match read_text_list(text, len, pos) {
        Some(found) => found,
        None => {
            return None;
        },
    };
    if pos != len {
        return None;
    }
    Some(CachedToken { access_token, refresh_token, expires_at, granted_scopes })
}

/// What a cache file holds: nothing where there is no file to read, and
/// otherwise what its text holds.
pub open spec fn loading(contents: Option<Seq<char>>) -> Option<TokenView> {
    match contents {
        Some(text) => decoding(text),
        None => None,
    }
}

/// What the token store finds in the cache: nothing where the file is
/// missing or unreadable (`contents` is `None`) or does not hold a token,
/// and the token otherwise.
pub fn load(contents: Option<&str>) -> (token: Option<CachedToken>)
    ensures
        token.deep_view() == loading(contents.deep_view()),
{
    match contents {
        Some(text) => decode(text),
        None => None,
    }
}

/// Reading back what was written gives the token that was written, equal in
/// every field.
pub proof fn law_decoding_inverts_encoding(token: TokenView)
    requires
        fits(token),
    ensures
        decoding(encoding(token)) == Some(token),
{
    lemma_parse_token_of_encoding(token);
    lemma_parse_token_is_decoding(encoding(token));
}

/// No token is kept as a text that another token's text starts with. So a
/// text that was cut short, or that something was appended to, holds no
/// token at all rather than some other token.
pub proof fn law_no_token_starts_another(shorter: TokenView, longer: TokenView)
    requires
        fits(shorter),
        fits(longer),
        encoding(shorter).is_prefix_of(encoding(longer)),
    ensures
        shorter == longer,
{
    let whole = encoding(longer);
    let rest = whole.skip(encoding(shorter).len() as int);
    assert(whole =~= encoding(shorter) + rest);
    lemma_parse_fields_of_encoding(shorter, rest);
    lemma_parse_fields_of_encoding(longer, Seq::<char>::empty());
}

/// A token's text that lost its end holds no token.
pub proof fn law_truncated_text_holds_no_token(token: TokenView, kept: int)
    requires
        fits(token),
        0 <= kept < encoding(token).len(),
    ensures
        decoding(encoding(token).take(kept)) is None,
{
    let cut = encoding(token).take(kept);
    law_decoding_accepts_encodings_only(cut);
    if decoding(cut) is Some {
        let other = decoding(cut)->0;
        law_no_token_starts_another(other, token);
    }
}

/// A text holds a token only if it is that token as `encode` writes it, so
/// two tokens that are kept as the same text are the same.
pub proof fn law_decoding_accepts_encodings_only(s: Seq<char>)
    ensures
        decoding(s) matches Some(token) ==> fits(token) && encoding(token) == s,
{
    lemma_parse_token_is_decoding(s);
    if parse_token(s) is Some {
        lemma_encoding_of_parse_token(s);
    }
}

} // verus!
