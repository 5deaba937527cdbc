//! Helpers: uid generation, `key=value;` parsing, URL file names, and YAML
//! headers.

use vstd::prelude::*;
use crate::text::{chars_of, split_char, split_on, index_of_char, lemma_index_of_char, lemma_split_on_nonempty, trim, trimmed, str_eq};

verus! {

/// The characters that generated uids are drawn from.
pub open spec fn uid_alphabet() -> Seq<char> {
    "0123456789abcdefghijklmnopqrstuvwxyzABCDEFGHIJKLMNOPQRSTUVWXYZ"@
}

/// Number of random characters in a generated uid.
pub const UID_RANDOM_LEN: usize = 11;

/// Random bytes that `get_uid` draws (sixteen rounds of the seventeen
/// bytes, `8 * 11 / 5`, that `nanoid::format` draws per round).
pub const UID_RANDOM_BYTES: usize = 272;

/// The uid character a random byte stands for, if any: its low six bits,
/// when they index the alphabet (the mask that `nanoid::format` applies,
/// keeping only indices below the alphabet's length).
pub open spec fn uid_char_of(b: u8) -> Option<char> {
    if (b as int) % 64 < 62 {
        Some(uid_alphabet()[(b as int) % 64])
    } else {
        None
    }
}

/// The characters that random bytes stand for, in order.
pub open spec fn uid_chars(bytes: Seq<u8>) -> Seq<char>
    decreases bytes.len(),
{
    if bytes.len() == 0 {
        Seq::empty()
    } else {
        let prev = uid_chars(bytes.drop_last());
        match uid_char_of(bytes.last()) {
            Some(c) => prev.push(c),
            None => prev,
        }
    }
}

/// The uid that `prefix` and the random bytes `bytes` give: the prefix and
/// the first eleven characters the bytes stand for, or none when they stand
/// for fewer.
pub open spec fn uid_spec(prefix: Seq<char>, bytes: Seq<u8>) -> Option<Seq<char>> {
    let cs = uid_chars(bytes);
    if cs.len() >= UID_RANDOM_LEN {
        Some(prefix + cs.take(UID_RANDOM_LEN as int))
    } else {
        None
    }
}

/// A uid as `get_uid(prefix)` makes them: the prefix, then eleven
/// characters of the uid alphabet.
pub open spec fn is_generated_uid(u: Seq<char>, prefix: Seq<char>) -> bool {
    &&& u.len() == prefix.len() + UID_RANDOM_LEN
    &&& u.subrange(0, prefix.len() as int) == prefix
    &&& forall|i: int| prefix.len() <= i < u.len() ==> uid_alphabet().contains(#[trigger] u[i])
}

/// Every character random bytes stand for is in the alphabet.
pub proof fn lemma_uid_chars_in_alphabet(bytes: Seq<u8>)
    ensures
        forall|i: int|
            0 <= i < uid_chars(bytes).len() ==> uid_alphabet().contains(#[trigger] uid_chars(bytes)[i]),
    decreases bytes.len(),
{
    if bytes.len() > 0 {
        lemma_uid_chars_in_alphabet(bytes.drop_last());
        reveal_strlit("0123456789abcdefghijklmnopqrstuvwxyzABCDEFGHIJKLMNOPQRSTUVWXYZ");
        let prev = uid_chars(bytes.drop_last());
        match uid_char_of(bytes.last()) {
            Some(c) => {
                let j = (bytes.last() as int) % 64;
                assert(uid_alphabet()[j] == c);
                assert forall|i: int| 0 <= i < prev.push(c).len() implies uid_alphabet().contains(
                    #[trigger] prev.push(c)[i],
                ) by {
                    if i < prev.len() {
                        assert(prev.push(c)[i] == prev[i]);
                    }
                }
            },
            None => {},
        }
    }
}

/// A uid made by `uid_spec` is a generated uid.
pub proof fn lemma_uid_spec_generated(prefix: Seq<char>, bytes: Seq<u8>)
    ensures
        uid_spec(prefix, bytes) matches Some(u) ==> is_generated_uid(u, prefix),
{
    lemma_uid_chars_in_alphabet(bytes);
    let cs = uid_chars(bytes);
    if cs.len() >= UID_RANDOM_LEN {
        let u = prefix + cs.take(UID_RANDOM_LEN as int);
        assert(u.subrange(0, prefix.len() as int) =~= prefix);
        assert forall|i: int| prefix.len() <= i < u.len() implies uid_alphabet().contains(#[trigger] u[i]) by {
            assert(u[i] == cs[i - prefix.len()]);
        }
    }
}

fn uid_char(alphabet: &Vec<char>, b: u8) -> (r: Option<char>)
    requires
        alphabet@ == uid_alphabet(),
    ensures
        r == uid_char_of(b),
{
    proof {
        reveal_strlit("0123456789abcdefghijklmnopqrstuvwxyzABCDEFGHIJKLMNOPQRSTUVWXYZ");
    }
    let i = b % 64;
    if i < 62 {
        Some(alphabet[i as usize])
    } else {
        None
    }
}

/// The uid that `prefix` and the random bytes `bytes` give.
pub fn uid_from_bytes(prefix: &str, bytes: &[u8]) -> (r: Option<String>)
    ensures
        match r {
            Some(s) => uid_spec(prefix@, bytes@) == Some(s@),
            None => uid_spec(prefix@, bytes@) is None,
        },
{
    let alphabet_text = "0123456789abcdefghijklmnopqrstuvwxyzABCDEFGHIJKLMNOPQRSTUVWXYZ";
    proof {
        reveal_strlit("0123456789abcdefghijklmnopqrstuvwxyzABCDEFGHIJKLMNOPQRSTUVWXYZ");
    }
    let alphabet = chars_of(alphabet_text);
    assert(alphabet@ == uid_alphabet());
    let mut cs: Vec<char> = Vec::new();
    let mut k: usize = 0;
    while k < bytes.len()
        invariant
            k <= bytes@.len(),
            alphabet@ == uid_alphabet(),
            cs@ == uid_chars(bytes@.take(k as int)),
        decreases bytes@.len() - k,
    {
        assert(bytes@.take(k + 1).drop_last() =~= bytes@.take(k as int));
        assert(bytes@.take(k + 1).last() == bytes@[k as int]);
        match uid_char(&alphabet, bytes[k]) {
            Some(c) => {
                cs.push(c);
            },
            None => {},
        }
        k = k + 1;
    }
    assert(bytes@.take(k as int) =~= bytes@);
    if cs.len() < UID_RANDOM_LEN {
        return None;
    }
    let (head, _rest) = cs.as_slice().split_at(UID_RANDOM_LEN);
    let id = crate::text::string_from_chars(head);
    assert(id@ =~= cs@.take(UID_RANDOM_LEN as int));
    let mut r = prefix.to_owned();
    r.append(id.as_str());
    Some(r)
}

/// A fresh uid: `prefix` followed by eleven characters of the uid alphabet,
/// from 272 bytes of the system random source as `uid_from_bytes` maps
/// them. `None` when the random source fails, or when the bytes stand for
/// fewer than eleven characters (each byte stands for one with probability
/// 62/64).
pub fn get_uid(prefix: &str) -> (r: Option<String>)
    ensures
        r matches Some(s) ==> is_generated_uid(s@, prefix@),
{
    let mut bytes: Vec<u8> = vec![0u8; UID_RANDOM_BYTES];
    if !crate::encrypt::fill_random(bytes.as_mut_slice()) {
        return None;
    }
    let r = uid_from_bytes(prefix, bytes.as_slice());
    proof {
        lemma_uid_spec_generated(prefix@, bytes@);
    }
    r
}

/// Whether `c` is a decimal digit.
pub open spec fn is_digit(c: char) -> bool {
    '0' <= c && c <= '9'
}

/// The number that a string of decimal digits denotes.
pub open spec fn digits_value(s: Seq<char>) -> nat
    decreases s.len(),
{
    if s.len() == 0 {
        0
    } else {
        digits_value(s.drop_last()) * 10 + ((s.last() as nat) - ('0' as nat)) as nat
    }
}

/// The text after an optional leading `+`.
pub open spec fn unsigned_digits(s: Seq<char>) -> Seq<char> {
    if s.len() > 0 && s[0] == '+' {
        s.drop_first()
    } else {
        s
    }
}

/// Every character is a decimal digit.
pub open spec fn all_digits(d: Seq<char>) -> bool {
    forall|i: int| 0 <= i < d.len() ==> is_digit(#[trigger] d[i])
}

/// What `u64::from_str` accepts: an optional `+` and at least one decimal
/// digit, denoting a value that fits.
pub open spec fn parse_u64(s: Seq<char>) -> Option<u64> {
    let d = unsigned_digits(s);
    if d.len() > 0 && all_digits(d) && digits_value(d) <= u64::MAX {
        Some(digits_value(d) as u64)
    } else {
        None
    }
}

/// Parses an unsigned decimal number as `u64::from_str` does.
pub fn parse_u64_str(s: &str) -> (r: Option<u64>)
    ensures
        r == parse_u64(s@),
{
    let v = chars_of(s);
    let start: usize = if v.len() > 0 && v[0] == '+' {
        1
    } else {
        0
    };
    let ghost d = unsigned_digits(s@);
    assert(d =~= v@.skip(start as int));
    if start >= v.len() {
        return None;
    }
    let mut value: u64 = 0;
    let mut i: usize = start;
    while i < v.len()
        invariant
            start <= i <= v@.len(),
            v@ == s@,
            d == v@.skip(start as int),
            d == unsigned_digits(s@),
            forall|k: int| start <= k < i ==> is_digit(#[trigger] v@[k]),
            value as nat == digits_value(v@.subrange(start as int, i as int)),
        decreases v@.len() - i,
    {
        let c = v[i];
        if !('0' <= c && c <= '9') {
            assert(d[i - start] == c);
            assert(!is_digit(d[i - start]));
            return None;
        }
        let digit = (c as u32 - '0' as u32) as u64;
        assert(v@.subrange(start as int, i + 1).drop_last() =~= v@.subrange(start as int, i as int));
        assert(v@.subrange(start as int, i + 1).last() == c);
        assert(digits_value(v@.subrange(start as int, i + 1)) == value * 10 + digit);
        match value.checked_mul(10) {
            Some(m) => match m.checked_add(digit) {
                Some(n) => {
                    value = n;
                },
                None => {
                    proof {
                        lemma_digits_value_grows(d, (i - start) as int + 1);
                        assert(v@.subrange(start as int, i + 1) =~= d.take((i - start) as int + 1));
                    }
                    return None;
                },
            },
            None => {
                proof {
                    lemma_digits_value_grows(d, (i - start) as int + 1);
                    assert(v@.subrange(start as int, i + 1) =~= d.take((i - start) as int + 1));
                }
                return None;
            },
        }
        i = i + 1;
    }
    assert(v@.subrange(start as int, i as int) =~= d);
    assert forall|k: int| 0 <= k < d.len() implies is_digit(#[trigger] d[k]) by {
        assert(d[k] == v@[start + k]);
    }
    Some(value)
}

/// The value of a digit string is at least that of any prefix.
proof fn lemma_digits_value_grows(d: Seq<char>, n: int)
    requires
        0 <= n <= d.len(),
        forall|k: int| 0 <= k < n ==> is_digit(#[trigger] d[k]),
    ensures
        digits_value(d.take(n)) <= digits_value(d) || !all_digits(d),
    decreases d.len() - n,
{
    if n < d.len() && all_digits(d) {
        lemma_digits_value_grows(d, n + 1);
        assert(d.take(n + 1).drop_last() =~= d.take(n));
        assert(is_digit(d.take(n + 1).last()));
    } else if n == d.len() {
        assert(d.take(n) =~= d);
    }
}

/// `splitn(2, '=')` of a piece: the key before the first `=` and, if there is
/// one, the value after it.
pub open spec fn key_value(seg: Seq<char>) -> (Seq<char>, Option<Seq<char>>) {
    let i = index_of_char(seg, '=');
    if i < 0 {
        (seg, None)
    } else {
        (seg.take(i), Some(seg.skip(i + 1)))
    }
}

/// The number a `key=value` piece gives for `key`, if any.
pub open spec fn piece_value(piece: Seq<char>, key: Seq<char>) -> Option<u64> {
    let (k, v) = key_value(trimmed(piece));
    if k == key && v is Some {
        parse_u64(v->0)
    } else {
        None
    }
}

/// The first number that one of `pieces` gives for `key`.
pub open spec fn first_value(pieces: Seq<Seq<char>>, key: Seq<char>) -> Option<u64>
    decreases pieces.len(),
{
    if pieces.len() == 0 {
        None
    } else {
        match piece_value(pieces[0], key) {
            Some(x) => Some(x),
            None => first_value(pieces.drop_first(), key),
        }
    }
}

fn piece_number(piece: &str, key: &str) -> (r: Option<u64>)
    ensures
        r == piece_value(piece@, key@),
{
    let t = trim(piece);
    let parts = chars_of(t.as_str());
    let mut i: usize = 0;
    while i < parts.len() && parts[i] != '='
        invariant
            i <= parts@.len(),
            parts@ == t@,
            forall|j: int| 0 <= j < i ==> #[trigger] parts@[j] != '=',
        decreases parts@.len() - i,
    {
        i = i + 1;
    }
    proof {
        crate::text::lemma_index_of_char_scan(t@, '=', i as int);
    }
    if i == parts.len() {
        return None;
    }
    let (head, tail) = parts.as_slice().split_at(i);
    let k = crate::text::string_from_chars(head);
    assert(head@ =~= t@.take(i as int));
    if !str_eq(k.as_str(), key) {
        return None;
    }
    let (_eq, after) = tail.split_at(1);
    let rest = crate::text::string_from_chars(after);
    assert(after@ =~= t@.skip(i + 1));
    parse_u64_str(rest.as_str())
}

/// The number after `key=` in a `;`-separated list of `key=value` pieces
/// (white space around pieces is ignored): the first piece whose key is
/// `key` and whose value parses. For example `upload=12; total=30` gives 30
/// for `total`.
pub fn parse_str(target: &str, key: &str) -> (r: Option<u64>)
    ensures
        r == first_value(split_on(target@, ';'), key@),
{
    let pieces = split_char(target, ';');
    let ghost ps = pieces@.map_values(|x: String| x@);
    let mut i: usize = 0;
    assert(ps.skip(0) =~= ps);
    while i < pieces.len()
        invariant
            i <= pieces@.len(),
            ps == pieces@.map_values(|x: String| x@),
            ps == split_on(target@, ';'),
            first_value(ps, key@) == first_value(ps.skip(i as int), key@),
        decreases pieces@.len() - i,
    {
        assert(ps.skip(i as int)[0] == pieces@[i as int]@);
        assert(ps[i as int] == pieces@[i as int]@);
        assert(ps.skip(i as int).len() > 0);
        assert(ps.skip(i as int).drop_first() =~= ps.skip(i + 1));
        match piece_number(pieces[i].as_str(), key) {
            Some(x) => {
                return Some(x);
            },
            None => {},
        }
        i = i + 1;
    }
    None
}

/// What `percent_encoding` decodes `s` to, invalid UTF-8 replaced.
pub uninterp spec fn percent_decoded(s: Seq<char>) -> Seq<char>;

/// `percent_decode_str(s).decode_utf8_lossy()`.
#[verifier::external_body]
pub(crate) fn percent_decode(s: &str) -> (r: String)
    ensures
        r@ == percent_decoded(s@),
{
    percent_encoding::percent_decode_str(s).decode_utf8_lossy().to_string()
}

/// The last `/`-separated piece of the part of `url` before the first `?`.
pub open spec fn last_path_part(url: Seq<char>) -> Seq<char> {
    split_on(split_on(url, '?')[0], '/').last()
}

/// The file name at the end of a URL's path, percent-decoded.
pub fn get_last_part_and_decode(url: &str) -> (r: Option<String>)
    ensures
        r matches Some(s) && s@ == percent_decoded(last_path_part(url@)),
{
    let parts = split_char(url, '?');
    proof {
        lemma_split_on_nonempty(url@, '?');
    }
    assert(parts@.map_values(|x: String| x@)[0] == parts@[0]@);
    let path = parts[0].as_str();
    let segments = split_char(path, '/');
    proof {
        lemma_split_on_nonempty(path@, '/');
    }
    let n = segments.len();
    assert(segments@.map_values(|x: String| x@)[n - 1] == segments@[n - 1]@);
    Some(percent_decode(segments[n - 1].as_str()))
}

/// File text with an optional header: the header, a blank line, then the data.
pub fn with_header(data: &str, header: Option<&str>) -> (r: String)
    ensures
        r@ == match header {
            Some(h) => h@ + "\n\n"@ + data@,
            None => data@,
        },
{
    match header {
        Some(h) => {
            let mut s = h.to_owned();
            s.append("\n\n");
            s.append(data);
            s
        },
        None => data.to_owned(),
    }
}

/// The privilege-elevation command chosen from the output of probing
/// `pkexec`: an empty output gives the (empty) trimmed output, any other
/// output or a failed probe gives `sudo`.
pub fn elevator_from_probe(stdout: Option<&[u8]>) -> (r: String)
    ensures
        r@ == match stdout {
            Some(o) if o@.len() == 0 => Seq::<char>::empty(),
            _ => "sudo"@,
        },
{
    match stdout {
        Some(o) => {
            if o.len() == 0 {
                String::new()
            } else {
                "sudo".to_owned()
            }
        },
        None => "sudo".to_owned(),
    }
}

} // verus!
