//! The urlencoded wire format of the two endpoints: percent-decoding,
//! `key=value` pair scanning, and the typed form and query payloads.
use crate::text::{chars_to_string, find_char, find_in_range, lemma_find_char, str_to_chars};
use vstd::prelude::*;

verus! {

/// Raw form body of a subscription request, as decoded from the wire.
pub struct FormData {
    pub email: String,
    pub name: String,
}

/// Query payload of a confirmation request.
pub struct Parameters {
    pub subscription_token: String,
}

pub open spec fn is_hex_char(c: char) -> bool {
    ||| '0' as u32 <= c as u32 && c as u32 <= '9' as u32
    ||| 'a' as u32 <= c as u32 && c as u32 <= 'f' as u32
    ||| 'A' as u32 <= c as u32 && c as u32 <= 'F' as u32
}

/// Value of a hexadecimal digit; zero on other characters.
pub open spec fn hex_val(c: char) -> int {
    if '0' as u32 <= c as u32 && c as u32 <= '9' as u32 {
        c as u32 - '0' as u32
    } else if 'a' as u32 <= c as u32 && c as u32 <= 'f' as u32 {
        c as u32 - 'a' as u32 + 10
    } else if 'A' as u32 <= c as u32 && c as u32 <= 'F' as u32 {
        c as u32 - 'A' as u32 + 10
    } else {
        0
    }
}

/// The character a `%hh` escape denotes, one byte taken as one character.
pub open spec fn pct_byte(h: char, l: char) -> char {
    ((hex_val(h) * 16 + hex_val(l)) as u8) as char
}

/// Percent-decoding of one key or value: `+` stands for a space, `%hh` for
/// the byte `hh`, and a malformed escape rejects the whole input.
pub open spec fn pct_decode(s: Seq<char>) -> Option<Seq<char>>
    decreases s.len(),
{
    if s.len() == 0 {
        Some(Seq::<char>::empty())
    } else if s[0] == '%' {
        if s.len() >= 3 && is_hex_char(s[1]) && is_hex_char(s[2]) {
            match pct_decode(s.skip(3)) {
                None => None,
                Some(t) => Some(seq![pct_byte(s[1], s[2])] + t),
            }
        } else {
            None
        }
    } else if s[0] == '+' {
        match pct_decode(s.skip(1)) {
            None => None,
            Some(t) => Some(seq![' '] + t),
        }
    } else {
        match pct_decode(s.skip(1)) {
            None => None,
            Some(t) => Some(seq![s[0]] + t),
        }
    }
}

/// One `key=value` segment, both sides decoded; a segment without `=` binds
/// the whole segment as key with an empty value.
pub open spec fn parse_pair(seg: Seq<char>) -> Option<(Seq<char>, Seq<char>)> {
    let split = match find_char(seg, '=') {
        Some(i) => (seg.take(i), seg.skip(i + 1)),
        None => (seg, Seq::<char>::empty()),
    };
    match pct_decode(split.0) {
        None => None,
        Some(k) => match pct_decode(split.1) {
            None => None,
            Some(v) => Some((k, v)),
        },
    }
}

/// Scans the `&`-separated segments of `s` for the single binding of `key`,
/// skipping empty segments and ignoring other keys. The result is the decoded
/// value; a missing binding, a second binding, or an undecodable segment
/// leaves the scan without one.
pub open spec fn param_scan(s: Seq<char>, key: Seq<char>, acc: Option<Seq<char>>) -> Option<
    Seq<char>,
>
    decreases s.len(),
    via param_scan_decreases
{
    if s.len() == 0 {
        acc
    } else {
        let end = match find_char(s, '&') {
            Some(i) => i,
            None => s.len() as int,
        };
        let seg = s.take(end);
        let rest = if end == s.len() {
            Seq::<char>::empty()
        } else {
            s.skip(end + 1)
        };
        if seg.len() == 0 {
            param_scan(rest, key, acc)
        } else {
            match parse_pair(seg) {
                None => None,
                Some(kv) => {
                    if kv.0 == key {
                        if acc is Some {
                            None
                        } else {
                            param_scan(rest, key, Some(kv.1))
                        }
                    } else {
                        param_scan(rest, key, acc)
                    }
                },
            }
        }
    }
}

#[via_fn]
proof fn param_scan_decreases(s: Seq<char>, key: Seq<char>, acc: Option<Seq<char>>) {
    lemma_find_char(s, '&');
}

pub open spec fn name_key() -> Seq<char> {
    seq!['n', 'a', 'm', 'e']
}

pub open spec fn email_key() -> Seq<char> {
    seq!['e', 'm', 'a', 'i', 'l']
}

pub open spec fn token_key() -> Seq<char> {
    seq!['s', 'u', 'b', 's', 'c', 'r', 'i', 'p', 't', 'i', 'o', 'n', '_', 't', 'o', 'k', 'e', 'n']
}

/// The `(name, email)` pair a subscription body denotes, when it binds each
/// of the two fields exactly once and decodes cleanly.
pub open spec fn form_of(s: Seq<char>) -> Option<(Seq<char>, Seq<char>)> {
    match (param_scan(s, name_key(), None), param_scan(s, email_key(), None)) {
        (Some(n), Some(e)) => Some((n, e)),
        _ => None,
    }
}

/// The confirmation token a query string carries.
pub open spec fn token_param_of(s: Seq<char>) -> Option<Seq<char>> {
    param_scan(s, token_key(), None)
}

pub open spec fn opt_chars_view(o: Option<Vec<char>>) -> Option<Seq<char>> {
    match o {
        None => None,
        Some(v) => Some(v@),
    }
}

pub fn char_is_hex(c: char) -> (r: bool)
    ensures
        r == is_hex_char(c),
{
    let u = c as u32;
    ('0' as u32 <= u && u <= '9' as u32) || ('a' as u32 <= u && u <= 'f' as u32) || ('A' as u32
        <= u && u <= 'F' as u32)
}

pub fn hex_val_exec(c: char) -> (r: u32)
    ensures
        r == hex_val(c),
        r <= 15,
{
    let u = c as u32;
    if '0' as u32 <= u && u <= '9' as u32 {
        u - '0' as u32
    } else if 'a' as u32 <= u && u <= 'f' as u32 {
        u - 'a' as u32 + 10
    } else if 'A' as u32 <= u && u <= 'F' as u32 {
        u - 'A' as u32 + 10
    } else {
        0
    }
}

/// Percent-decodes `v[start..end]`, mirroring `pct_decode` over that range.
pub fn decode_range(v: &Vec<char>, start: usize, end: usize) -> (r: Option<Vec<char>>)
    requires
        start <= end <= v@.len(),
    ensures
        match r {
            Some(out) => pct_decode(v@.subrange(start as int, end as int)) == Some(out@),
            None => pct_decode(v@.subrange(start as int, end as int)) is None,
        },
{
    let ghost whole: Seq<char> = v@.subrange(start as int, end as int);
    let mut out: Vec<char> = Vec::new();
    let mut i: usize = start;
    while i < end
        invariant
            start <= i <= end <= v@.len(),
            whole == v@.subrange(start as int, end as int),
            pct_decode(whole) == (match pct_decode(v@.subrange(i as int, end as int)) {
                None => None::<Seq<char>>,
                Some(t) => Some(out@ + t),
            }),
        decreases end - i,
    {
        let ghost rem = v@.subrange(i as int, end as int);
        proof {
            assert(rem.len() == end - i);
            assert(rem[0] == v@[i as int]);
        }
        let c = v[i];
        let ghost out0 = out@;
        if c == '%' {
            if end - i < 3 {
                return None;
            }
            let h_ok = char_is_hex(v[i + 1]);
            let l_ok = char_is_hex(v[i + 2]);
            proof {
                assert(rem[1] == v@[i + 1]);
                assert(rem[2] == v@[i + 2]);
            }
            if !h_ok || !l_ok {
                return None;
            }
            let h = hex_val_exec(v[i + 1]);
            let l = hex_val_exec(v[i + 2]);
            let b: u8 = (h * 16 + l) as u8;
            let ch = b as char;
            out.push(ch);
            proof {
                assert(ch == pct_byte(rem[1], rem[2]));
                assert(rem.skip(3) =~= v@.subrange(i + 3, end as int));
                match pct_decode(v@.subrange(i + 3, end as int)) {
                    None => {},
                    Some(t) => {
                        assert(out@ + t =~= out0 + (seq![pct_byte(rem[1], rem[2])] + t));
                    },
                }
            }
            i = i + 3;
        } else if c == '+' {
            out.push(' ');
            proof {
                assert(rem.skip(1) =~= v@.subrange(i + 1, end as int));
                match pct_decode(v@.subrange(i + 1, end as int)) {
                    None => {},
                    Some(t) => {
                        assert(out@ + t =~= out0 + (seq![' '] + t));
                    },
                }
            }
            i = i + 1;
        } else {
            out.push(c);
            proof {
                assert(rem.skip(1) =~= v@.subrange(i + 1, end as int));
                match pct_decode(v@.subrange(i + 1, end as int)) {
                    None => {},
                    Some(t) => {
                        assert(out@ + t =~= out0 + (seq![rem[0]] + t));
                    },
                }
            }
            i = i + 1;
        }
    }
    proof {
        assert(v@.subrange(i as int, end as int) =~= Seq::<char>::empty());
        assert(out@ + Seq::<char>::empty() =~= out@);
    }
    Some(out)
}

/// Element-wise equality of two character vectors.
pub fn chars_eq(a: &Vec<char>, b: &Vec<char>) -> (r: bool)
    ensures
        r == (a@ == b@),
{
    if a.len() != b.len() {
        return false;
    }
    let mut i: usize = 0;
    while i < a.len()
        invariant
            i <= a@.len(),
            a@.len() == b@.len(),
            forall|k: int| 0 <= k < i ==> a@[k] == b@[k],
        decreases a@.len() - i,
    {
        if a[i] != b[i] {
            return false;
        }
        i = i + 1;
    }
    proof {
        assert(a@ =~= b@);
    }
    true
}

/// Single-pass search for the unique binding of `key` in an urlencoded
/// string, mirroring `param_scan`.
pub fn extract_param(v: &Vec<char>, key: &Vec<char>) -> (r: Option<Vec<char>>)
    ensures
        match r {
            Some(val) => param_scan(v@, key@, None) == Some(val@),
            None => param_scan(v@, key@, None) is None,
        },
{
    let mut acc: Option<Vec<char>> = None;
    let mut i: usize = 0;
    proof {
        assert(v@.skip(0) =~= v@);
    }
    while i < v.len()
        invariant
            i <= v@.len(),
            param_scan(v@, key@, None) == param_scan(v@.skip(i as int), key@, opt_chars_view(acc)),
        decreases v@.len() - i,
    {
        let ghost tail = v@.skip(i as int);
        let ghost accv = opt_chars_view(acc);
        proof {
            assert(tail =~= v@.subrange(i as int, v@.len() as int));
            assert(tail.len() == v@.len() - i);
        }
        let amp = find_in_range(v, i, v.len(), '&');
        let seg_end: usize = match amp {
            Some(j) => j,
            None => v.len(),
        };
        let ghost end_spec: int = match find_char(tail, '&') {
            Some(k) => k,
            None => tail.len() as int,
        };
        proof {
            assert(end_spec == seg_end - i);
            assert(tail.take(end_spec) =~= v@.subrange(i as int, seg_end as int));
            if seg_end < v.len() {
                assert(tail.skip(end_spec + 1) =~= v@.skip(seg_end + 1));
            }
        }
        if seg_end == i {
            // Empty segment: skip it.
            i = seg_end + 1;
        } else {
            let eqr = find_in_range(v, i, seg_end, '=');
            let k_end: usize = match eqr {
                Some(e) => e,
                None => seg_end,
            };
            let v_start: usize = match eqr {
                Some(e) => e + 1,
                None => seg_end,
            };
            let ghost seg = tail.take(end_spec);
            proof {
                assert(seg == v@.subrange(i as int, seg_end as int));
                match find_char(seg, '=') {
                    Some(e) => {
                        assert(seg.take(e) =~= v@.subrange(i as int, k_end as int));
                        assert(seg.skip(e + 1) =~= v@.subrange(v_start as int, seg_end as int));
                    },
                    None => {
                        assert(seg =~= v@.subrange(i as int, k_end as int));
                        assert(Seq::<char>::empty() =~= v@.subrange(
                            v_start as int,
                            seg_end as int,
                        ));
                    },
                }
            }
            let kd = match decode_range(v, i, k_end) {
                Some(kd) => kd,
                None => {
                    return None;
                },
            };
            let vd = match decode_range(v, v_start, seg_end) {
                Some(vd) => vd,
                None => {
                    return None;
                },
            };
            proof {
                assert(parse_pair(seg) == Some((kd@, vd@)));
            }
            if chars_eq(&kd, key) {
                if acc.is_some() {
                    return None;
                }
                acc = Some(vd);
            }
            i = match amp {
                Some(j) => j + 1,
                None => v.len(),
            };
            proof {
                if seg_end == v.len() {
                    assert(v@.skip(i as int) =~= Seq::<char>::empty());
                }
            }
        }
    }
    proof {
        assert(v@.skip(i as int) =~= Seq::<char>::empty());
    }
    acc
}

/// Decodes a subscription body into its two fields; `None` mirrors every way
/// the wire format can be unusable (missing field, duplicate field, bad
/// escape).
pub fn parse_form(body: &str) -> (r: Option<FormData>)
    ensures
        match r {
            Some(fd) => form_of(body@) == Some((fd.name@, fd.email@)),
            None => form_of(body@) is None,
        },
{
    let chars = str_to_chars(body);
    let name_k: Vec<char> = vec!['n', 'a', 'm', 'e'];
    let email_k: Vec<char> = vec!['e', 'm', 'a', 'i', 'l'];
    proof {
        assert(name_k@ =~= name_key());
        assert(email_k@ =~= email_key());
    }
    let n = extract_param(&chars, &name_k);
    let e = extract_param(&chars, &email_k);
    match (n, e) {
        (Some(nv), Some(ev)) => Some(
            FormData { email: chars_to_string(&ev), name: chars_to_string(&nv) },
        ),
        _ => None,
    }
}

/// Decodes a confirmation query string into its token parameter.
pub fn parse_confirm_query(query: &str) -> (r: Option<Parameters>)
    ensures
        match r {
            Some(p) => token_param_of(query@) == Some(p.subscription_token@),
            None => token_param_of(query@) is None,
        },
{
    let chars = str_to_chars(query);
    let token_k: Vec<char> = vec![
        's',
        'u',
        'b',
        's',
        'c',
        'r',
        'i',
        'p',
        't',
        'i',
        'o',
        'n',
        '_',
        't',
        'o',
        'k',
        'e',
        'n',
    ];
    proof {
        assert(token_k@ =~= token_key());
    }
    match extract_param(&chars, &token_k) {
        Some(tv) => Some(Parameters { subscription_token: chars_to_string(&tv) }),
        None => None,
    }
}

} // verus!
