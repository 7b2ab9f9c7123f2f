//! Wire-level request parsing. The endpoint speaks an HTTP-style protocol
//! whose requests are form-encoded `key=value` pairs joined by `&`, with
//! percent-escapes and `+` for space inside keys and values. This module
//! parses a request body into either a discovery-info request, a pairing
//! (add-user) request, or a bad request, with the whole grammar stated as
//! spec functions.

use vstd::prelude::*;

use crate::bytes::copy_range;

verus! {

/// The `&` separator between fields.
pub const AMP: u8 = 38;

/// The `=` separator between a key and its value.
pub const EQUALS: u8 = 61;

/// The `%` that opens a percent-escape.
pub const PERCENT: u8 = 37;

/// The `+` that stands for a space inside a field.
pub const PLUS: u8 = 43;

/// Whether `b` is an ASCII hexadecimal digit.
pub open spec fn is_hex_digit(b: u8) -> bool {
    (48 <= b <= 57) || (65 <= b <= 70) || (97 <= b <= 102)
}

/// The value of an ASCII hexadecimal digit.
pub open spec fn hex_value(b: u8) -> u8 {
    if 48 <= b <= 57 {
        (b - 48) as u8
    } else if 65 <= b <= 70 {
        (b - 55) as u8
    } else {
        (b - 87) as u8
    }
}

fn hex_digit_value(b: u8) -> (r: Option<u8>)
    ensures
        match r {
            Some(v) => is_hex_digit(b) && v == hex_value(b) && v <= 15,
            None => !is_hex_digit(b),
        },
{
    if 48 <= b && b <= 57 {
        Some(b - 48)
    } else if 65 <= b && b <= 70 {
        Some(b - 55)
    } else if 97 <= b && b <= 102 {
        Some(b - 87)
    } else {
        None
    }
}

/// Percent-decoding of one field: `%xy` becomes the byte with hexadecimal
/// value `xy`, `+` becomes a space, every other byte stands for itself; a
/// `%` not followed by two hexadecimal digits makes the field invalid.
pub open spec fn pct_decode(s: Seq<u8>) -> Option<Seq<u8>>
    decreases s.len(),
{
    if s.len() == 0 {
        Some(Seq::empty())
    } else if s[0] == PERCENT {
        if s.len() >= 3 && is_hex_digit(s[1]) && is_hex_digit(s[2]) {
            match pct_decode(s.skip(3)) {
                Some(r) => Some(
                    seq![((hex_value(s[1]) as int) * 16 + hex_value(s[2]) as int) as u8] + r,
                ),
                None => None,
            }
        } else {
            None
        }
    } else {
        let b = if s[0] == PLUS {
            32u8
        } else {
            s[0]
        };
        match pct_decode(s.skip(1)) {
            Some(r) => Some(seq![b] + r),
            None => None,
        }
    }
}

/// Percent-decodes one field.
pub fn pct_decode_bytes(s: &[u8]) -> (r: Option<Vec<u8>>)
    ensures
        match r {
            Some(v) => pct_decode(s@) == Some(v@),
            None => pct_decode(s@) is None,
        },
{
    let mut out: Vec<u8> = Vec::new();
    let mut i: usize = 0;
    proof {
        assert(s@.skip(0) =~= s@);
        match pct_decode(s@) {
            Some(rest) => {
                assert(out@ + rest =~= rest);
            },
            None => {},
        }
    }
    while i < s.len()
        invariant
            0 <= i <= s@.len(),
            match pct_decode(s@.skip(i as int)) {
                Some(rest) => pct_decode(s@) == Some(out@ + rest),
                None => pct_decode(s@) is None,
            },
        decreases s@.len() - i,
    {
        let ghost rem = s@.skip(i as int);
        proof {
            assert(rem.len() == s@.len() - i);
            assert(rem[0] == s@[i as int]);
        }
        if s[i] == PERCENT {
            if s.len() - i < 3 {
                proof {
                    assert(rem.len() < 3);
                    assert(pct_decode(rem) is None);
                }
                return None;
            }
            proof {
                assert(rem[1] == s@[i + 1]);
                assert(rem[2] == s@[i + 2]);
            }
            let h1 = hex_digit_value(s[i + 1]);
            let h2 = hex_digit_value(s[i + 2]);
            match (h1, h2) {
                (Some(v1), Some(v2)) => {
                    let b: u8 = v1 * 16 + v2;
                    let ghost old_out = out@;
                    out.push(b);
                    proof {
                        assert(rem.skip(3) =~= s@.skip(i as int + 3));
                        match pct_decode(s@.skip(i as int + 3)) {
                            Some(rest) => {
                                assert(pct_decode(rem) == Some(seq![b] + rest));
                                assert(old_out + (seq![b] + rest) =~= out@ + rest);
                            },
                            None => {
                                assert(pct_decode(rem) is None);
                            },
                        }
                    }
                    i = i + 3;
                },
                _ => {
                    proof {
                        assert(pct_decode(rem) is None);
                    }
                    return None;
                },
            }
        } else {
            let b: u8 = if s[i] == PLUS {
                32u8
            } else {
                s[i]
            };
            let ghost old_out = out@;
            out.push(b);
            proof {
                assert(rem.skip(1) =~= s@.skip(i as int + 1));
                match pct_decode(s@.skip(i as int + 1)) {
                    Some(rest) => {
                        assert(pct_decode(rem) == Some(seq![b] + rest));
                        assert(old_out + (seq![b] + rest) =~= out@ + rest);
                    },
                    None => {
                        assert(pct_decode(rem) is None);
                    },
                }
            }
            i = i + 1;
        }
    }
    proof {
        assert(s@.skip(s@.len() as int).len() == 0);
        assert(pct_decode(s@.skip(i as int)) == Some(Seq::<u8>::empty()));
        assert(out@ + Seq::<u8>::empty() =~= out@);
    }
    Some(out)
}

/// The index of the first occurrence of `b` in `s`, or `-1` if absent.
pub open spec fn find_byte(s: Seq<u8>, b: u8) -> int
    decreases s.len(),
{
    if s.len() == 0 {
        -1
    } else if s[0] == b {
        0
    } else {
        let r = find_byte(s.skip(1), b);
        if r < 0 {
            -1
        } else {
            r + 1
        }
    }
}

/// `find_byte` returns exactly the first occurrence, or `-1` when there is
/// none.
pub proof fn lemma_find_byte(s: Seq<u8>, b: u8)
    ensures
        find_byte(s, b) == -1 ==> forall|i: int| 0 <= i < s.len() ==> s[i] != b,
        find_byte(s, b) != -1 ==> {
            let r = find_byte(s, b);
            &&& 0 <= r < s.len()
            &&& s[r] == b
            &&& forall|i: int| 0 <= i < r ==> s[i] != b
        },
    decreases s.len(),
{
    if s.len() == 0 {
    } else if s[0] == b {
    } else {
        lemma_find_byte(s.skip(1), b);
        assert forall|i: int| 1 <= i < s.len() implies s[i] == s.skip(1)[i - 1] by {}
    }
}

/// Any index that is a first occurrence of `b` is `find_byte`'s answer.
pub proof fn lemma_find_byte_at(s: Seq<u8>, b: u8, j: int)
    requires
        0 <= j < s.len(),
        s[j] == b,
        forall|k: int| 0 <= k < j ==> s[k] != b,
    ensures
        find_byte(s, b) == j,
{
    lemma_find_byte(s, b);
    let r = find_byte(s, b);
    if r == -1 {
        assert(s[j] != b);
    } else {
        if r < j {
            assert(s[r] != b);
        }
        if r > j {
            assert(s[j] != b);
        }
    }
}

/// When `b` does not occur, `find_byte` answers `-1`.
pub proof fn lemma_find_byte_none(s: Seq<u8>, b: u8)
    requires
        forall|k: int| 0 <= k < s.len() ==> s[k] != b,
    ensures
        find_byte(s, b) == -1,
{
    lemma_find_byte(s, b);
    let r = find_byte(s, b);
    if r != -1 {
        assert(s[r] != b);
    }
}

fn find_byte_in(s: &[u8], from: usize, to: usize, b: u8) -> (r: Option<usize>)
    requires
        from <= to <= s@.len(),
    ensures
        match r {
            Some(j) => from <= j < to && s@[j as int] == b && forall|k: int|
                from <= k < j ==> s@[k] != b,
            None => forall|k: int| from <= k < to ==> s@[k] != b,
        },
{
    let mut i: usize = from;
    while i < to
        invariant
            from <= i <= to <= s@.len(),
            forall|k: int| from <= k < i ==> s@[k] != b,
        decreases to - i,
    {
        if s[i] == b {
            return Some(i);
        }
        i = i + 1;
    }
    None
}

/// One `key=value` field: the bytes before the first `=` are the key, the
/// bytes after it the value, both percent-decoded; a segment without `=` or
/// with an invalid escape is not a field.
pub open spec fn split_field(seg: Seq<u8>) -> Option<(Seq<u8>, Seq<u8>)> {
    let e = find_byte(seg, EQUALS);
    if e < 0 {
        None
    } else {
        match (pct_decode(seg.take(e)), pct_decode(seg.skip(e + 1))) {
            (Some(k), Some(v)) => Some((k, v)),
            _ => None,
        }
    }
}

fn split_field_range(s: &[u8], from: usize, to: usize) -> (r: Option<(Vec<u8>, Vec<u8>)>)
    requires
        from <= to <= s@.len(),
    ensures
        match r {
            Some(kv) => split_field(s@.subrange(from as int, to as int)) == Some(
                (kv.0@, kv.1@),
            ),
            None => split_field(s@.subrange(from as int, to as int)) is None,
        },
{
    let ghost seg = s@.subrange(from as int, to as int);
    match find_byte_in(s, from, to, EQUALS) {
        None => {
            proof {
                assert(forall|k: int| 0 <= k < seg.len() ==> seg[k] == s@[from + k]);
                lemma_find_byte_none(seg, EQUALS);
            }
            None
        },
        Some(j) => {
            proof {
                assert(seg[j - from] == s@[j as int]);
                assert(forall|k: int| 0 <= k < j - from ==> seg[k] == s@[from + k]);
                lemma_find_byte_at(seg, EQUALS, j - from);
                assert(seg.take(j - from) =~= s@.subrange(from as int, j as int));
                assert(seg.skip(j - from + 1) =~= s@.subrange(j as int + 1, to as int));
            }
            let key_raw = copy_range(s, from, j);
            let val_raw = copy_range(s, j + 1, to);
            match (pct_decode_bytes(key_raw.as_slice()), pct_decode_bytes(val_raw.as_slice())) {
                (Some(k), Some(v)) => Some((k, v)),
                _ => None,
            }
        },
    }
}

/// A whole form body: fields separated by `&`. The body is valid only when
/// every segment is a valid field.
pub open spec fn parse_form(s: Seq<u8>) -> Option<Seq<(Seq<u8>, Seq<u8>)>>
    decreases s.len(),
    via parse_form_decreases
{
    let a = find_byte(s, AMP);
    if a < 0 {
        match split_field(s) {
            Some(kv) => Some(seq![kv]),
            None => None,
        }
    } else {
        match (split_field(s.take(a)), parse_form(s.skip(a + 1))) {
            (Some(kv), Some(rest)) => Some(seq![kv] + rest),
            _ => None,
        }
    }
}

#[via_fn]
proof fn parse_form_decreases(s: Seq<u8>) {
    lemma_find_byte(s, AMP);
}

/// The value of `fields` as a sequence of key/value byte-string pairs.
pub open spec fn fields_view(fields: Seq<(Vec<u8>, Vec<u8>)>) -> Seq<(Seq<u8>, Seq<u8>)> {
    Seq::new(fields.len(), |i: int| (fields[i].0@, fields[i].1@))
}

/// Parses a form body into its decoded key/value fields.
pub fn parse_form_fields(body: &[u8]) -> (r: Option<Vec<(Vec<u8>, Vec<u8>)>>)
    ensures
        match r {
            Some(fields) => parse_form(body@) == Some(fields_view(fields@)),
            None => parse_form(body@) is None,
        },
{
    let mut acc: Vec<(Vec<u8>, Vec<u8>)> = Vec::new();
    let mut pos: usize = 0;
    proof {
        assert(body@.skip(0) =~= body@);
        match parse_form(body@) {
            Some(rest) => {
                assert(fields_view(acc@) + rest =~= rest);
            },
            None => {},
        }
    }
    loop
        invariant
            0 <= pos <= body@.len(),
            match parse_form(body@.skip(pos as int)) {
                Some(rest) => parse_form(body@) == Some(fields_view(acc@) + rest),
                None => parse_form(body@) is None,
            },
        decreases body@.len() - pos,
    {
        let ghost rem = body@.skip(pos as int);
        match find_byte_in(body, pos, body.len(), AMP) {
            Some(j) => {
                proof {
                    assert(rem[j - pos] == body@[j as int]);
                    assert(forall|k: int| 0 <= k < j - pos ==> rem[k] == body@[pos + k]);
                    lemma_find_byte_at(rem, AMP, j - pos);
                    assert(rem.take(j - pos) =~= body@.subrange(pos as int, j as int));
                    assert(rem.skip(j - pos + 1) =~= body@.skip(j as int + 1));
                }
                match split_field_range(body, pos, j) {
                    Some(kv) => {
                        let ghost old_acc = acc@;
                        let ghost kv_view = (kv.0@, kv.1@);
                        acc.push(kv);
                        proof {
                            match parse_form(body@.skip(j as int + 1)) {
                                Some(rest) => {
                                    assert(parse_form(rem) == Some(seq![kv_view] + rest));
                                    assert(fields_view(old_acc) + (seq![kv_view] + rest)
                                        =~= fields_view(acc@) + rest);
                                },
                                None => {
                                    assert(parse_form(rem) is None);
                                },
                            }
                        }
                        pos = j + 1;
                    },
                    None => {
                        proof {
                            assert(parse_form(rem) is None);
                        }
                        return None;
                    },
                }
            },
            None => {
                proof {
                    assert(forall|k: int| 0 <= k < rem.len() ==> rem[k] == body@[pos + k]);
                    lemma_find_byte_none(rem, AMP);
                    assert(rem.take(rem.len() as int) =~= rem);
                    assert(rem =~= body@.subrange(pos as int, body@.len() as int));
                }
                match split_field_range(body, pos, body.len()) {
                    Some(kv) => {
                        let ghost old_acc = acc@;
                        let ghost kv_view = (kv.0@, kv.1@);
                        acc.push(kv);
                        proof {
                            assert(parse_form(rem) == Some(seq![kv_view]));
                            assert(fields_view(old_acc) + seq![kv_view]
                                =~= fields_view(acc@));
                            assert(fields_view(acc@) =~= fields_view(acc@) + Seq::empty());
                        }
                        return Some(acc);
                    },
                    None => {
                        proof {
                            assert(parse_form(rem) is None);
                        }
                        return None;
                    },
                }
            },
        }
    }
}

/// The value of the first field named `key`, if any.
pub open spec fn lookup_field(fields: Seq<(Seq<u8>, Seq<u8>)>, key: Seq<u8>) -> Option<Seq<u8>>
    decreases fields.len(),
{
    if fields.len() == 0 {
        None
    } else if fields[0].0 == key {
        Some(fields[0].1)
    } else {
        lookup_field(fields.skip(1), key)
    }
}

/// Equality of two byte slices.
pub fn bytes_eq(a: &[u8], b: &[u8]) -> (r: bool)
    ensures
        r == (a@ == b@),
{
    if a.len() != b.len() {
        return false;
    }
    let mut i: usize = 0;
    while i < a.len()
        invariant
            0 <= i <= a@.len(),
            a@.len() == b@.len(),
            forall|j: int| 0 <= j < i ==> a@[j] == b@[j],
        decreases a@.len() - i,
    {
        if a[i] != b[i] {
            return false;
        }
        i = i + 1;
    }
    proof {
        assert(a@ =~= b@);
    }
    true
}

/// Returns a copy of the value of the first field named `key`, if any.
pub fn get_field(fields: &Vec<(Vec<u8>, Vec<u8>)>, key: &[u8]) -> (r: Option<Vec<u8>>)
    ensures
        match r {
            Some(v) => lookup_field(fields_view(fields@), key@) == Some(v@),
            None => lookup_field(fields_view(fields@), key@) is None,
        },
{
    let ghost full = fields_view(fields@);
    let mut i: usize = 0;
    proof {
        assert(full.skip(0) =~= full);
    }
    while i < fields.len()
        invariant
            0 <= i <= fields@.len(),
            full == fields_view(fields@),
            lookup_field(full, key@) == lookup_field(full.skip(i as int), key@),
        decreases fields@.len() - i,
    {
        if bytes_eq(fields[i].0.as_slice(), key) {
            let v = copy_range(fields[i].1.as_slice(), 0, fields[i].1.len());
            proof {
                assert(full.skip(i as int)[0] == (fields@[i as int].0@, fields@[i as int].1@));
                assert(v@ =~= fields@[i as int].1@);
            }
            return Some(v);
        }
        proof {
            assert(full.skip(i as int)[0] == (fields@[i as int].0@, fields@[i as int].1@));
            assert(full.skip(i as int).skip(1) =~= full.skip(i as int + 1));
        }
        i = i + 1;
    }
    proof {
        assert(full.skip(i as int).len() == 0);
    }
    None
}

} // verus!
