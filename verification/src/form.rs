//! Parsing of `application/x-www-form-urlencoded` text: request bodies of
//! the subscription endpoint and query strings of the confirmation endpoint.
//!
//! The accepted syntax is the lenient one common to web form parsers:
//! segments are cut at `&`, empty segments are skipped, each segment is cut
//! once at its first `=` (a segment without `=` is a key with an empty
//! value), and keys and values are percent-decoded, where `+` stands for a
//! space and a `%` not followed by two hex digits passes through unchanged.
//! The first occurrence of a key decides its value.
use vstd::prelude::*;
use vstd::slice::slice_subrange;
use vstd::utf8::{decode_utf8, valid_utf8};

verus! {

/// `%`
pub const B_PERCENT: u8 = 0x25;

/// `&`
pub const B_AMP: u8 = 0x26;

/// `+`
pub const B_PLUS: u8 = 0x2B;

/// `=`
pub const B_EQ: u8 = 0x3D;

/// space
pub const B_SPACE: u8 = 0x20;

/// An ASCII hexadecimal digit.
pub open spec fn is_hex_digit(b: u8) -> bool {
    (0x30 <= b && b <= 0x39) || (0x61 <= b && b <= 0x66) || (0x41 <= b && b <= 0x46)
}

/// The value of an ASCII hexadecimal digit.
pub open spec fn hex_val(b: u8) -> int {
    if 0x30 <= b && b <= 0x39 {
        b - 0x30
    } else if 0x61 <= b && b <= 0x66 {
        b - 0x61 + 10
    } else {
        b - 0x41 + 10
    }
}

/// Percent-decoding of one key or value: `+` becomes a space, `%XX` with two
/// hex digits becomes the byte `XX`, anything else passes through unchanged.
pub open spec fn pct_decode(s: Seq<u8>) -> Seq<u8>
    decreases s.len(),
{
    if s.len() == 0 {
        Seq::empty()
    } else if s[0] == B_PERCENT && s.len() >= 3 && is_hex_digit(s[1]) && is_hex_digit(s[2]) {
        seq![(16 * hex_val(s[1]) + hex_val(s[2])) as u8] + pct_decode(s.skip(3))
    } else if s[0] == B_PLUS {
        seq![B_SPACE] + pct_decode(s.skip(1))
    } else {
        seq![s[0]] + pct_decode(s.skip(1))
    }
}

/// Index of the first occurrence of `x` in `s`, or `s.len()` if there is
/// none.
pub open spec fn idx_of(s: Seq<u8>, x: u8) -> int
    decreases s.len(),
{
    if s.len() == 0 {
        0
    } else if s[0] == x {
        0
    } else {
        1 + idx_of(s.drop_first(), x)
    }
}

/// `idx_of` is the only index that scanning can arrive at.
pub proof fn lemma_idx_of_exact(s: Seq<u8>, x: u8, i: int)
    requires
        0 <= i <= s.len(),
        forall|j: int| 0 <= j < i ==> s[j] != x,
        i < s.len() ==> s[i] == x,
    ensures
        idx_of(s, x) == i,
    decreases s.len(),
{
    if s.len() > 0 && s[0] != x {
        assert forall|j: int| 0 <= j < i - 1 implies s.drop_first()[j] != x by {
            assert(s.drop_first()[j] == s[j + 1]);
        }
        lemma_idx_of_exact(s.drop_first(), x, i - 1);
    }
}

/// Percent-decoding leaves text without `%` and `+` unchanged.
pub proof fn lemma_pct_decode_plain(s: Seq<u8>)
    requires
        forall|i: int| 0 <= i < s.len() ==> s[i] != B_PERCENT && #[trigger] s[i] != B_PLUS,
    ensures
        pct_decode(s) == s,
    decreases s.len(),
{
    if s.len() == 0 {
        assert(pct_decode(s) =~= s);
    } else {
        assert forall|i: int| 0 <= i < s.skip(1).len() implies s.skip(1)[i] != B_PERCENT && (
        #[trigger] s.skip(1)[i]) != B_PLUS by {
            assert(s.skip(1)[i] == s[i + 1]);
        }
        lemma_pct_decode_plain(s.skip(1));
        assert(seq![s[0]] + s.skip(1) =~= s);
    }
}

/// The raw key and value of one segment: the text before the first `=` and
/// the text after it.
pub open spec fn split_pair(seg: Seq<u8>) -> (Seq<u8>, Seq<u8>) {
    let j = idx_of(seg, B_EQ);
    (seg.take(j), if j < seg.len() {
        seg.skip(j + 1)
    } else {
        Seq::empty()
    })
}

/// The raw `key=value` pairs of a urlencoded string.
pub open spec fn form_pairs(s: Seq<u8>) -> Seq<(Seq<u8>, Seq<u8>)>
    decreases s.len(),
{
    if s.len() == 0 {
        Seq::empty()
    } else {
        let i = idx_of(s, B_AMP);
        let head: Seq<(Seq<u8>, Seq<u8>)> = if i == 0 {
            Seq::empty()
        } else {
            seq![split_pair(s.take(i))]
        };
        let rest = if 0 <= i && i < s.len() {
            form_pairs(s.skip(i + 1))
        } else {
            Seq::<(Seq<u8>, Seq<u8>)>::empty()
        };
        head + rest
    }
}

/// The decoded value of the first pair whose decoded key is `key`.
pub open spec fn lookup_field(pairs: Seq<(Seq<u8>, Seq<u8>)>, key: Seq<u8>) -> Option<Seq<u8>>
    decreases pairs.len(),
{
    if pairs.len() == 0 {
        None
    } else if pct_decode(pairs[0].0) == key {
        Some(pct_decode(pairs[0].1))
    } else {
        lookup_field(pairs.drop_first(), key)
    }
}

/// The decoded value of field `key` in the urlencoded string `s`, if any.
pub open spec fn form_field(s: Seq<u8>, key: Seq<u8>) -> Option<Seq<u8>> {
    lookup_field(form_pairs(s), key)
}

/// The `email` key of the subscription form.
pub open spec fn email_key() -> Seq<u8> {
    seq![0x65, 0x6D, 0x61, 0x69, 0x6C]
}

/// The `name` key of the subscription form.
pub open spec fn name_key() -> Seq<u8> {
    seq![0x6E, 0x61, 0x6D, 0x65]
}

/// Why a request body could not be read as a subscription form.
#[derive(Clone, Copy, Debug, PartialEq, Eq, Structural)]
pub enum FormError {
    /// No `email` field.
    MissingEmail,
    /// No `name` field.
    MissingName,
    /// A field was present but its decoded bytes are not UTF-8.
    Encoding,
}

/// What parsing a subscription form body yields: the decoded `email` and
/// `name` fields, checked in that order, both read as UTF-8 text.
pub open spec fn spec_parse_form(s: Seq<u8>) -> Result<(Seq<char>, Seq<char>), FormError> {
    match form_field(s, email_key()) {
        None => Err(FormError::MissingEmail),
        Some(e) => match form_field(s, name_key()) {
            None => Err(FormError::MissingName),
            Some(n) => if valid_utf8(e) && valid_utf8(n) {
                Ok((decode_utf8(e), decode_utf8(n)))
            } else {
                Err(FormError::Encoding)
            },
        },
    }
}

/// The raw fields of the subscription form, as decoded from the request
/// body.
#[derive(Debug)]
pub struct FormData {
    pub email: String,
    pub name: String,
}

/// Relies on `String::from_utf8`: succeeds exactly on valid UTF-8 and then
/// returns the decoded text.
#[verifier::external_body]
pub(crate) fn utf8_to_string(bytes: Vec<u8>) -> (r: Option<String>)
    ensures
        r is Some <==> valid_utf8(bytes@),
        r is Some ==> r.unwrap()@ == decode_utf8(bytes@),
{
    String::from_utf8(bytes).ok()
}

/// Exec percent-decoding; matches `pct_decode`.
fn pct_decode_exec(s: &[u8]) -> (out: Vec<u8>)
    ensures
        out@ == pct_decode(s@),
{
    let n = s.len();
    let mut out: Vec<u8> = Vec::new();
    let mut i: usize = 0;
    proof {
        assert(s@.skip(0) =~= s@);
        assert(out@ + pct_decode(s@) =~= pct_decode(s@));
    }
    while i < n
        invariant
            i <= n,
            n == s@.len(),
            pct_decode(s@) == out@ + pct_decode(s@.skip(i as int)),
        decreases n - i,
    {
        let ghost prev = i as int;
        proof {
            let tail = s@.skip(prev);
            assert(tail[0] == s@[prev]);
            if tail.len() >= 3 {
                assert(tail[1] == s@[prev + 1] && tail[2] == s@[prev + 2]);
                assert(tail.skip(3) =~= s@.skip(prev + 3));
            }
            assert(tail.skip(1) =~= s@.skip(prev + 1));
        }
        let ghost out0 = out@;
        let b = s[i];
        if b == B_PERCENT && n - i >= 3 && is_hex_digit_exec(s[i + 1]) && is_hex_digit_exec(s[i + 2]) {
            let d = 16 * hex_val_exec(s[i + 1]) + hex_val_exec(s[i + 2]);
            out.push(d);
            i = i + 3;
            proof {
                let tail = s@.skip(prev);
                assert(pct_decode(tail) == seq![d] + pct_decode(s@.skip(i as int)));
                assert(out@ =~= out0 + seq![d]);
                assert(out0 + (seq![d] + pct_decode(s@.skip(i as int))) =~= (out0 + seq![d])
                    + pct_decode(s@.skip(i as int)));
            }
        } else if b == B_PLUS {
            out.push(B_SPACE);
            i = i + 1;
            proof {
                let tail = s@.skip(prev);
                assert(pct_decode(tail) == seq![B_SPACE] + pct_decode(s@.skip(i as int)));
                assert(out@ =~= out0 + seq![B_SPACE]);
                assert(out0 + (seq![B_SPACE] + pct_decode(s@.skip(i as int))) =~= (out0
                    + seq![B_SPACE]) + pct_decode(s@.skip(i as int)));
            }
        } else {
            out.push(b);
            i = i + 1;
            proof {
                let tail = s@.skip(prev);
                assert(pct_decode(tail) == seq![b] + pct_decode(s@.skip(i as int)));
                assert(out@ =~= out0 + seq![b]);
                assert(out0 + (seq![b] + pct_decode(s@.skip(i as int))) =~= (out0 + seq![b])
                    + pct_decode(s@.skip(i as int)));
            }
        }
    }
    proof {
        assert(pct_decode(s@.skip(n as int)) =~= Seq::<u8>::empty());
        assert(out@ + pct_decode(s@.skip(n as int)) =~= out@);
    }
    out
}

/// Exec mirror of `is_hex_digit`.
fn is_hex_digit_exec(b: u8) -> (r: bool)
    ensures
        r == is_hex_digit(b),
{
    (0x30 <= b && b <= 0x39) || (0x61 <= b && b <= 0x66) || (0x41 <= b && b <= 0x46)
}

/// Exec mirror of `hex_val`, on hex digits.
fn hex_val_exec(b: u8) -> (r: u8)
    requires
        is_hex_digit(b),
    ensures
        r == hex_val(b),
        r < 16,
{
    if 0x30 <= b && b <= 0x39 {
        b - 0x30
    } else if 0x61 <= b && b <= 0x66 {
        b - 0x61 + 10
    } else {
        b - 0x41 + 10
    }
}

/// First index of `x` in `s[from..to]`, or `to` if there is none; the offset
/// found agrees with `idx_of` on that subrange.
fn find_byte(s: &[u8], from: usize, to: usize, x: u8) -> (r: usize)
    requires
        from <= to <= s@.len(),
    ensures
        from <= r <= to,
        r - from == idx_of(s@.subrange(from as int, to as int), x),
        r < to ==> s@[r as int] == x,
        forall|j: int| from <= j < r ==> s@[j] != x,
{
    let mut i: usize = from;
    while i < to
        invariant
            from <= i <= to <= s@.len(),
            forall|j: int| from <= j < i ==> s@[j] != x,
        decreases to - i,
    {
        if s[i] == x {
            proof {
                let sub = s@.subrange(from as int, to as int);
                assert forall|j: int| 0 <= j < i - from implies sub[j] != x by {
                    assert(sub[j] == s@[from + j]);
                }
                assert(sub[i - from] == x);
                lemma_idx_of_exact(sub, x, i - from);
            }
            return i;
        }
        i = i + 1;
    }
    proof {
        let sub = s@.subrange(from as int, to as int);
        assert forall|j: int| 0 <= j < to - from implies sub[j] != x by {
            assert(sub[j] == s@[from + j]);
        }
        lemma_idx_of_exact(sub, x, to - from);
    }
    to
}

/// Byte-for-byte equality of two slices.
fn eq_bytes(a: &[u8], b: &[u8]) -> (r: bool)
    ensures
        r == (a@ == b@),
{
    if a.len() != b.len() {
        return false;
    }
    let n = a.len();
    let mut i: usize = 0;
    while i < n
        invariant
            i <= n,
            n == a@.len() == b@.len(),
            forall|j: int| 0 <= j < i ==> a@[j] == b@[j],
        decreases n - i,
    {
        if a[i] != b[i] {
            return false;
        }
        i = i + 1;
    }
    proof {
        assert(a@ =~= b@);
    }
    true
}

/// The decoded value of field `key` in the urlencoded text `s`, if any;
/// matches `form_field`.
pub fn form_field_exec(s: &[u8], key: &[u8]) -> (r: Option<Vec<u8>>)
    ensures
        match form_field(s@, key@) {
            None => r is None,
            Some(v) => r is Some && r.unwrap()@ == v,
        },
{
    let n = s.len();
    let mut pos: usize = 0;
    proof {
        assert(s@.skip(0) =~= s@);
    }
    while pos < n
        invariant
            pos <= n,
            n == s@.len(),
            form_field(s@, key@) == lookup_field(form_pairs(s@.skip(pos as int)), key@),
        decreases n - pos,
    {
        let ghost start = pos as int;
        let ghost tail = s@.skip(start);
        let amp = find_byte(s, pos, n, B_AMP);
        proof {
            assert(tail =~= s@.subrange(start, n as int));
            assert(idx_of(tail, B_AMP) == amp - start);
        }
        if amp > pos {
            let eq = find_byte(s, pos, amp, B_EQ);
            let ghost seg = tail.take(amp - start);
            proof {
                assert(seg =~= s@.subrange(start, amp as int));
                assert(idx_of(seg, B_EQ) == eq - start) by {
                    let sub = s@.subrange(start, eq as int);
                    assert forall|j: int| 0 <= j < eq - start implies seg[j] != B_EQ by {
                        assert(seg[j] == s@[start + j]);
                    }
                    if eq < amp {
                        assert(seg[eq - start] == s@[eq as int]);
                    }
                    lemma_idx_of_exact(seg, B_EQ, eq - start);
                }
                assert(split_pair(seg).0 =~= s@.subrange(start, eq as int));
                if eq < amp {
                    assert(split_pair(seg).1 =~= s@.subrange(eq + 1, amp as int));
                } else {
                    assert(split_pair(seg).1 =~= Seq::<u8>::empty());
                }
            }
            let raw_key = slice_subrange(s, pos, eq);
            let dk = pct_decode_exec(raw_key);
            let key_matches = eq_bytes(dk.as_slice(), key);
            proof {
                let pair = split_pair(seg);
                let rest = if amp < n {
                    form_pairs(s@.skip(amp + 1))
                } else {
                    Seq::<(Seq<u8>, Seq<u8>)>::empty()
                };
                if amp < n {
                    assert(tail.skip(amp - start + 1) =~= s@.skip(amp + 1));
                }
                let pairs = form_pairs(tail);
                assert(pairs == seq![pair] + rest);
                assert(pairs.len() >= 1 && pairs[0] == pair);
                assert(pairs.drop_first() =~= rest);
                assert(key_matches == (pct_decode(pair.0) == key@));
                if key_matches {
                    assert(lookup_field(pairs, key@) == Some(pct_decode(pair.1)));
                } else {
                    assert(lookup_field(pairs, key@) == lookup_field(rest, key@));
                }
            }
            if key_matches {
                let raw_val = if eq < amp {
                    slice_subrange(s, eq + 1, amp)
                } else {
                    slice_subrange(s, amp, amp)
                };
                proof {
                    if !(eq < amp) {
                        assert(s@.subrange(amp as int, amp as int) =~= Seq::<u8>::empty());
                    }
                }
                let dv = pct_decode_exec(raw_val);
                return Some(dv);
            }
        } else {
            proof {
                let rest = if amp < n {
                    form_pairs(s@.skip(amp + 1))
                } else {
                    Seq::<(Seq<u8>, Seq<u8>)>::empty()
                };
                if amp < n {
                    assert(tail.skip(amp - start + 1) =~= s@.skip(amp + 1));
                }
                assert(form_pairs(tail) =~= rest);
                assert(lookup_field(form_pairs(tail), key@) == lookup_field(rest, key@));
            }
        }
        if amp == n {
            proof {
                assert(lookup_field(Seq::<(Seq<u8>, Seq<u8>)>::empty(), key@) is None);
            }
            return None;
        }
        pos = amp + 1;
    }
    proof {
        assert(s@.skip(pos as int) =~= Seq::<u8>::empty());
    }
    None
}

/// The `email` key, as bytes.
fn email_key_exec() -> (r: Vec<u8>)
    ensures
        r@ == email_key(),
{
    let mut v: Vec<u8> = Vec::new();
    v.push(0x65);
    v.push(0x6D);
    v.push(0x61);
    v.push(0x69);
    v.push(0x6C);
    proof {
        assert(v@ =~= email_key());
    }
    v
}

/// The `name` key, as bytes.
fn name_key_exec() -> (r: Vec<u8>)
    ensures
        r@ == name_key(),
{
    let mut v: Vec<u8> = Vec::new();
    v.push(0x6E);
    v.push(0x61);
    v.push(0x6D);
    v.push(0x65);
    proof {
        assert(v@ =~= name_key());
    }
    v
}

/// Read a subscription form from a request body: the decoded `email` and
/// `name` fields as text; matches `spec_parse_form`.
pub fn parse_subscription_form(body: &[u8]) -> (r: Result<FormData, FormError>)
    ensures
        match spec_parse_form(body@) {
            Ok((e, n)) => r is Ok && r.unwrap().email@ == e && r.unwrap().name@ == n,
            Err(fe) => r is Err && r.unwrap_err() == fe,
        },
{
    let email_bytes = match form_field_exec(body, email_key_exec().as_slice()) {
        Some(v) => v,
        None => {
            return Err(FormError::MissingEmail);
        },
    };
    let name_bytes = match form_field_exec(body, name_key_exec().as_slice()) {
        Some(v) => v,
        None => {
            return Err(FormError::MissingName);
        },
    };
    let email = match utf8_to_string(email_bytes) {
        Some(t) => t,
        None => {
            return Err(FormError::Encoding);
        },
    };
    let name = match utf8_to_string(name_bytes) {
        Some(t) => t,
        None => {
            return Err(FormError::Encoding);
        },
    };
    Ok(FormData { email, name })
}

} // verus!
