//! JSON rendering of response bodies, over UTF-8 bytes.
//!
//! Every body the service sends is produced here: a JSON string
//! literal for error messages, an object for one user record, and an
//! array of objects for a row set.  The spec functions define the
//! exact byte sequence of each rendering; the exec functions are
//! proved to produce it.

use vstd::prelude::*;
use crate::user::User;

verus! {

/// ASCII code of the lower-case hex digit for `n` (0 <= n < 16).
pub open spec fn spec_hex_digit(n: int) -> u8 {
    if n < 10 {
        (48 + n) as u8
    } else {
        (87 + n) as u8
    }
}

/// How one byte of text appears inside a JSON string literal: quote
/// and backslash get a backslash escape, control bytes become
/// `\u00XX`, and every other byte (including multi-byte UTF-8 tails)
/// passes through unchanged.
pub open spec fn spec_escape_byte(b: u8) -> Seq<u8> {
    if b == 34 {
        seq![92u8, 34u8]
    } else if b == 92 {
        seq![92u8, 92u8]
    } else if b < 32 {
        seq![92u8, 117u8, 48u8, 48u8, spec_hex_digit(b as int / 16), spec_hex_digit(b as int % 16)]
    } else {
        seq![b]
    }
}

/// The escaped form of a whole string.
pub open spec fn spec_escape(s: Seq<u8>) -> Seq<u8>
    decreases s.len(),
{
    if s.len() == 0 {
        Seq::empty()
    } else {
        spec_escape_byte(s[0]) + spec_escape(s.drop_first())
    }
}

/// The JSON string literal denoting the text `s`: a quote, the
/// escaped text, a quote.
pub open spec fn spec_json_string(s: Seq<u8>) -> Seq<u8> {
    seq![34u8] + spec_escape(s) + seq![34u8]
}

/// Decimal digits of `n`, most significant first, no sign and no
/// leading zero (except for `n == 0` itself).
pub open spec fn spec_dec_nat(n: nat) -> Seq<u8>
    decreases n,
{
    if n < 10 {
        seq![(48 + n) as u8]
    } else {
        spec_dec_nat(n / 10) + seq![(48 + n % 10) as u8]
    }
}

/// Decimal text of a signed value: a minus sign for negatives, then
/// the digits of the magnitude.
pub open spec fn spec_dec_int(n: int) -> Seq<u8> {
    if n < 0 {
        seq![45u8] + spec_dec_nat((-n) as nat)
    } else {
        spec_dec_nat(n as nat)
    }
}

/// The JSON object for one user record, fields in the order the SQL
/// projection lists them: id, username, email, created_at.
pub open spec fn spec_user_json(u: User) -> Seq<u8> {
    lit_obj_id() + spec_json_string(u.id@) + lit_key_username() + spec_json_string(u.username@)
        + lit_key_email() + spec_json_string(u.email@) + lit_key_created_at()
        + spec_dec_int(u.created_at as int) + seq![125u8]
}

/// `{"id":`
pub open spec fn lit_obj_id() -> Seq<u8> {
    seq![123u8, 34u8, 105u8, 100u8, 34u8, 58u8]
}

/// `,"username":`
pub open spec fn lit_key_username() -> Seq<u8> {
    seq![44u8, 34u8, 117u8, 115u8, 101u8, 114u8, 110u8, 97u8, 109u8, 101u8, 34u8, 58u8]
}

/// `,"email":`
pub open spec fn lit_key_email() -> Seq<u8> {
    seq![44u8, 34u8, 101u8, 109u8, 97u8, 105u8, 108u8, 34u8, 58u8]
}

/// `,"created_at":`
pub open spec fn lit_key_created_at() -> Seq<u8> {
    seq![
        44u8, 34u8, 99u8, 114u8, 101u8, 97u8, 116u8, 101u8, 100u8, 95u8, 97u8, 116u8, 34u8, 58u8,
    ]
}

/// The comma-separated renderings of a row set, without the
/// enclosing brackets.
pub open spec fn spec_users_inner(rows: Seq<User>) -> Seq<u8>
    decreases rows.len(),
{
    if rows.len() == 0 {
        Seq::empty()
    } else if rows.len() == 1 {
        spec_user_json(rows[0])
    } else {
        spec_user_json(rows[0]) + seq![44u8] + spec_users_inner(rows.drop_first())
    }
}

/// The JSON array for a row set (possibly empty).
pub open spec fn spec_users_json(rows: Seq<User>) -> Seq<u8> {
    seq![91u8] + spec_users_inner(rows) + seq![93u8]
}

/// Escaping distributes over concatenation.
pub proof fn lemma_escape_concat(a: Seq<u8>, b: Seq<u8>)
    ensures
        spec_escape(a + b) == spec_escape(a) + spec_escape(b),
    decreases a.len(),
{
    if a.len() == 0 {
        assert(a + b =~= b);
        assert(spec_escape(a) + spec_escape(b) =~= spec_escape(b));
    } else {
        assert((a + b).drop_first() =~= a.drop_first() + b);
        lemma_escape_concat(a.drop_first(), b);
        assert(spec_escape(a + b) =~= spec_escape(a) + spec_escape(b));
    }
}

/// ASCII code of the lower-case hex digit for `n`.
fn hex_digit(n: u8) -> (r: u8)
    requires
        n < 16,
    ensures
        r == spec_hex_digit(n as int),
{
    if n < 10 {
        48 + n
    } else {
        87 + n
    }
}

/// Appends the JSON string literal denoting `s`.
pub fn append_json_string(out: &mut Vec<u8>, s: &Vec<u8>)
    ensures
        final(out)@ == old(out)@ + spec_json_string(s@),
{
    out.push(34);
    let mut i: usize = 0;
    while i < s.len()
        invariant
            i <= s.len(),
            out@ == old(out)@ + seq![34u8] + spec_escape(s@.take(i as int)),
        decreases s.len() - i,
    {
        let b = s[i];
        proof {
            assert(s@.take(i + 1) =~= s@.take(i as int) + seq![s@[i as int]]);
            lemma_escape_concat(s@.take(i as int), seq![s@[i as int]]);
            let single = seq![s@[i as int]];
            assert(single.drop_first() =~= Seq::<u8>::empty());
            assert(spec_escape(single.drop_first()) == Seq::<u8>::empty());
            assert(single[0] == s@[i as int]);
            assert(spec_escape(single) =~= spec_escape_byte(s@[i as int]));
        }
        if b == 34 {
            out.push(92);
            out.push(34);
        } else if b == 92 {
            out.push(92);
            out.push(92);
        } else if b < 32 {
            out.push(92);
            out.push(117);
            out.push(48);
            out.push(48);
            let hi = hex_digit(b / 16);
            out.push(hi);
            let lo = hex_digit(b % 16);
            out.push(lo);
        } else {
            out.push(b);
        }
        assert(out@ =~= old(out)@ + seq![34u8] + spec_escape(s@.take(i + 1)));
        i = i + 1;
    }
    assert(s@.take(s.len() as int) =~= s@);
    out.push(34);
    assert(out@ =~= old(out)@ + spec_json_string(s@));
}

/// Appends the decimal digits of `n`.
pub fn append_dec_u64(out: &mut Vec<u8>, n: u64)
    ensures
        final(out)@ == old(out)@ + spec_dec_nat(n as nat),
{
    let mut digits: Vec<u8> = Vec::new();
    let mut m: u64 = n;
    proof {
        assert(digits@.reverse() =~= Seq::<u8>::empty());
        assert(spec_dec_nat(m as nat) + digits@.reverse() =~= spec_dec_nat(n as nat));
    }
    while m >= 10
        invariant
            spec_dec_nat(n as nat) == spec_dec_nat(m as nat) + digits@.reverse(),
        decreases m,
    {
        let d: u8 = (m % 10) as u8 + 48;
        proof {
            assert(digits@.push(d).reverse() =~= seq![d] + digits@.reverse());
            assert(spec_dec_nat(m as nat) =~= spec_dec_nat(m as nat / 10) + seq![d]);
            assert(spec_dec_nat(m as nat / 10) + (seq![d] + digits@.reverse()) =~= spec_dec_nat(
                m as nat,
            ) + digits@.reverse());
        }
        digits.push(d);
        m = m / 10;
    }
    let d: u8 = m as u8 + 48;
    proof {
        assert(digits@.push(d).reverse() =~= seq![d] + digits@.reverse());
        assert(spec_dec_nat(m as nat) =~= seq![d]);
    }
    digits.push(d);
    assert(spec_dec_nat(n as nat) =~= digits@.reverse());
    let mut j: usize = 0;
    while j < digits.len()
        invariant
            j <= digits.len(),
            out@ == old(out)@ + digits@.reverse().take(j as int),
        decreases digits.len() - j,
    {
        let b = digits[digits.len() - 1 - j];
        proof {
            assert(digits@.reverse()[j as int] == digits@[digits.len() - 1 - j]);
            assert(digits@.reverse().take(j + 1) =~= digits@.reverse().take(j as int) + seq![
                digits@.reverse()[j as int],
            ]);
        }
        out.push(b);
        j = j + 1;
    }
    assert(digits@.reverse().take(digits.len() as int) =~= digits@.reverse());
}

/// Appends the decimal text of a signed value.
pub fn append_dec_i64(out: &mut Vec<u8>, n: i64)
    ensures
        final(out)@ == old(out)@ + spec_dec_int(n as int),
{
    if n < 0 {
        out.push(45);
        let m: u64 = (-(n as i128)) as u64;
        assert(m as nat == -(n as int));
        append_dec_u64(out, m);
        assert(out@ =~= old(out)@ + spec_dec_int(n as int));
    } else {
        append_dec_u64(out, n as u64);
    }
}

/// Appends the JSON object for one user record.
pub fn append_user_json(out: &mut Vec<u8>, u: &User)
    ensures
        final(out)@ == old(out)@ + spec_user_json(*u),
{
    let obj_id: [u8; 6] = [123u8, 34u8, 105u8, 100u8, 34u8, 58u8];
    out.extend_from_slice(obj_id.as_slice());
    assert(out@ =~= old(out)@ + lit_obj_id());
    append_json_string(out, &u.id);
    let key_username: [u8; 12] = [
        44u8, 34u8, 117u8, 115u8, 101u8, 114u8, 110u8, 97u8, 109u8, 101u8, 34u8, 58u8,
    ];
    out.extend_from_slice(key_username.as_slice());
    append_json_string(out, &u.username);
    let key_email: [u8; 9] = [44u8, 34u8, 101u8, 109u8, 97u8, 105u8, 108u8, 34u8, 58u8];
    out.extend_from_slice(key_email.as_slice());
    append_json_string(out, &u.email);
    let key_created_at: [u8; 14] = [
        44u8, 34u8, 99u8, 114u8, 101u8, 97u8, 116u8, 101u8, 100u8, 95u8, 97u8, 116u8, 34u8, 58u8,
    ];
    out.extend_from_slice(key_created_at.as_slice());
    append_dec_i64(out, u.created_at);
    out.push(125);
    assert(out@ =~= old(out)@ + spec_user_json(*u));
}

/// Appending one more row to a non-empty set appends a comma and its
/// rendering; to an empty set, just its rendering.
pub proof fn lemma_users_inner_snoc(rows: Seq<User>, u: User)
    ensures
        rows.len() == 0 ==> spec_users_inner(rows.push(u)) == spec_user_json(u),
        rows.len() > 0 ==> spec_users_inner(rows.push(u)) == spec_users_inner(rows) + seq![44u8]
            + spec_user_json(u),
    decreases rows.len(),
{
    if rows.len() == 0 {
        assert(rows.push(u)[0] == u);
        assert(spec_users_inner(rows.push(u)) =~= spec_user_json(u));
    } else {
        lemma_users_inner_snoc(rows.drop_first(), u);
        assert(rows.push(u).drop_first() =~= rows.drop_first().push(u));
        if rows.len() == 1 {
            assert(spec_users_inner(rows.push(u)) =~= spec_users_inner(rows) + seq![44u8]
                + spec_user_json(u));
        } else {
            assert(spec_users_inner(rows.push(u)) =~= spec_users_inner(rows) + seq![44u8]
                + spec_user_json(u));
        }
    }
}

/// `needle` occurs in `hay` as a contiguous slice.
pub open spec fn contains_slice(hay: Seq<u8>, needle: Seq<u8>) -> bool {
    exists|k: int|
        0 <= k && k + needle.len() <= hay.len() && #[trigger] hay.subrange(k, k + needle.len())
            == needle
}

/// A slice of a part still occurs once the part is framed by a
/// prefix and a suffix.
pub proof fn lemma_contains_slice_framed(prefix: Seq<u8>, hay: Seq<u8>, suffix: Seq<u8>, needle: Seq<u8>)
    requires
        contains_slice(hay, needle),
    ensures
        contains_slice(prefix + hay + suffix, needle),
{
    let k = choose|k: int|
        0 <= k && k + needle.len() <= hay.len() && #[trigger] hay.subrange(k, k + needle.len())
            == needle;
    let k2 = prefix.len() + k;
    assert((prefix + hay + suffix).subrange(k2, k2 + needle.len()) =~= needle);
}

/// Each row's rendering occurs contiguously in the rendering of the
/// whole set, brackets left aside.
proof fn lemma_users_inner_contains(rows: Seq<User>, i: int)
    requires
        0 <= i < rows.len(),
    ensures
        contains_slice(spec_users_inner(rows), spec_user_json(rows[i])),
    decreases i,
{
    let needle = spec_user_json(rows[i]);
    if i == 0 {
        assert(spec_users_inner(rows).subrange(0, 0 + needle.len() as int) =~= needle);
        assert(contains_slice(spec_users_inner(rows), needle));
    } else {
        let rest = rows.drop_first();
        lemma_users_inner_contains(rest, i - 1);
        assert(rest[i - 1] == rows[i]);
        lemma_contains_slice_framed(
            spec_user_json(rows[0]) + seq![44u8],
            spec_users_inner(rest),
            Seq::empty(),
            needle,
        );
        assert(spec_user_json(rows[0]) + seq![44u8] + spec_users_inner(rest) + Seq::empty()
            =~= spec_users_inner(rows));
    }
}

/// What a listing or a by-id fetch answers on success carries every
/// returned row: the JSON array rendering of a row set contains the
/// JSON object rendering of each of its rows as a contiguous slice.
pub proof fn lemma_users_json_contains_each(rows: Seq<User>, i: int)
    requires
        0 <= i < rows.len(),
    ensures
        contains_slice(spec_users_json(rows), spec_user_json(rows[i])),
{
    lemma_users_inner_contains(rows, i);
    lemma_contains_slice_framed(
        seq![91u8],
        spec_users_inner(rows),
        seq![93u8],
        spec_user_json(rows[i]),
    );
    assert(seq![91u8] + spec_users_inner(rows) + seq![93u8] == spec_users_json(rows));
}

/// A slice of a slice is a slice of the whole.
pub proof fn lemma_contains_slice_trans(hay: Seq<u8>, mid: Seq<u8>, needle: Seq<u8>)
    requires
        contains_slice(hay, mid),
        contains_slice(mid, needle),
    ensures
        contains_slice(hay, needle),
{
    let k1 = choose|k: int|
        0 <= k && k + mid.len() <= hay.len() && #[trigger] hay.subrange(k, k + mid.len()) == mid;
    let k2 = choose|k: int|
        0 <= k && k + needle.len() <= mid.len() && #[trigger] mid.subrange(k, k + needle.len())
            == needle;
    assert forall|j: int| 0 <= j < needle.len() implies hay[k1 + k2 + j] == needle[j] by {
        assert(mid[k2 + j] == hay.subrange(k1, k1 + mid.len())[k2 + j]);
        assert(needle[j] == mid.subrange(k2, k2 + needle.len())[j]);
    }
    assert(hay.subrange(k1 + k2, k1 + k2 + needle.len()) =~= needle);
}

/// The rendering of a record carries its id, rendered as a JSON
/// string, as a contiguous slice.
pub proof fn lemma_user_json_contains_id(u: User)
    ensures
        contains_slice(spec_user_json(u), spec_json_string(u.id@)),
{
    let needle = spec_json_string(u.id@);
    assert(spec_user_json(u).subrange(6, 6 + needle.len() as int) =~= needle);
}

/// The rendering of a record carries its username and email, each
/// rendered as a JSON string under its key, adjoining, as one
/// contiguous slice.
pub proof fn lemma_user_json_contains_pair(u: User)
    ensures
        contains_slice(
            spec_user_json(u),
            lit_key_username() + spec_json_string(u.username@) + lit_key_email()
                + spec_json_string(u.email@),
        ),
{
    let needle = lit_key_username() + spec_json_string(u.username@) + lit_key_email()
        + spec_json_string(u.email@);
    let k: int = 6 + spec_json_string(u.id@).len() as int;
    assert(spec_user_json(u).subrange(k, k + needle.len() as int) =~= needle);
}

/// What a listing answers after a create carries the created pair:
/// if the row set holds the record, the array rendering contains its
/// username and email renderings, adjoining and under their keys.
pub proof fn lemma_users_json_contains_pair(rows: Seq<User>, i: int)
    requires
        0 <= i < rows.len(),
    ensures
        contains_slice(
            spec_users_json(rows),
            lit_key_username() + spec_json_string(rows[i].username@) + lit_key_email()
                + spec_json_string(rows[i].email@),
        ),
{
    lemma_users_json_contains_each(rows, i);
    lemma_user_json_contains_pair(rows[i]);
    lemma_contains_slice_trans(
        spec_users_json(rows),
        spec_user_json(rows[i]),
        lit_key_username() + spec_json_string(rows[i].username@) + lit_key_email()
            + spec_json_string(rows[i].email@),
    );
}

/// What a by-id fetch answers on success carries each returned
/// row's id, rendered as a JSON string, in the array rendering.
pub proof fn lemma_users_json_contains_id(rows: Seq<User>, i: int)
    requires
        0 <= i < rows.len(),
    ensures
        contains_slice(spec_users_json(rows), spec_json_string(rows[i].id@)),
{
    lemma_users_json_contains_each(rows, i);
    lemma_user_json_contains_id(rows[i]);
    lemma_contains_slice_trans(
        spec_users_json(rows),
        spec_user_json(rows[i]),
        spec_json_string(rows[i].id@),
    );
}

/// Renders a row set as a JSON array.
pub fn users_json(rows: &Vec<User>) -> (r: Vec<u8>)
    ensures
        r@ == spec_users_json(rows@),
{
    let mut out: Vec<u8> = Vec::new();
    out.push(91);
    let mut i: usize = 0;
    while i < rows.len()
        invariant
            i <= rows.len(),
            out@ == seq![91u8] + spec_users_inner(rows@.take(i as int)),
        decreases rows.len() - i,
    {
        if i > 0 {
            out.push(44);
        }
        append_user_json(&mut out, &rows[i]);
        proof {
            assert(rows@.take(i + 1) =~= rows@.take(i as int).push(rows@[i as int]));
            lemma_users_inner_snoc(rows@.take(i as int), rows@[i as int]);
            assert(out@ =~= seq![91u8] + spec_users_inner(rows@.take(i + 1)));
        }
        i = i + 1;
    }
    assert(rows@.take(rows.len() as int) =~= rows@);
    out.push(93);
    assert(out@ =~= spec_users_json(rows@));
    out
}

} // verus!
