//! Byte-level extraction of fields from the flat JSON records the protocol
//! exchanges: the metadata envelope and the decrypted metadata.
//!
//! The records are objects whose values are quoted strings without escape
//! sequences, or unsigned integers. A field's value starts after the first
//! occurrence of the quoted key and its colon; insignificant whitespace
//! around the colon is tolerated.

use vstd::prelude::*;

verus! {

/// Index of the first occurrence of byte `c` in `h` at or after `from`,
/// or `h.len()` if there is none.
pub open spec fn byte_index(h: Seq<u8>, from: int, c: u8) -> int
    decreases h.len() - from,
{
    if from < 0 || from >= h.len() {
        h.len() as int
    } else if h[from] == c {
        from
    } else {
        byte_index(h, from + 1, c)
    }
}

/// Whether a byte is insignificant JSON whitespace.
pub open spec fn is_ws(c: u8) -> bool {
    c == 32 || c == 9 || c == 10 || c == 13
}

/// Index of the first byte of `h` at or after `from` that is not
/// insignificant whitespace, or `h.len()` if there is none.
pub open spec fn ws_end(h: Seq<u8>, from: int) -> int
    decreases h.len() - from,
{
    if from < 0 || from >= h.len() {
        h.len() as int
    } else if is_ws(h[from]) {
        ws_end(h, from + 1)
    } else {
        from
    }
}

/// Whether pattern `p` occurs in `h` starting at index `i`.
pub open spec fn match_at(h: Seq<u8>, p: Seq<u8>, i: int) -> bool {
    0 <= i && i + p.len() <= h.len() && h.subrange(i, i + p.len()) == p
}

/// Index of the first occurrence of `p` in `h` at or after `from`, or `-1`.
pub open spec fn find_index(h: Seq<u8>, p: Seq<u8>, from: int) -> int
    decreases h.len() + 1 - from,
{
    if from < 0 || from + p.len() > h.len() {
        -1
    } else if match_at(h, p, from) {
        from
    } else {
        find_index(h, p, from + 1)
    }
}

/// The quoted key `"key"` that introduces a field.
pub open spec fn field_pattern(key: Seq<u8>) -> Seq<u8> {
    seq![34u8] + key + seq![34u8]
}

/// Index of the first byte of field `key`'s value in the record `h`: the
/// byte after the first occurrence of `"key"`, its colon and the whitespace
/// around the colon; `-1` if the key or its colon is not there.
pub open spec fn field_value_start(h: Seq<u8>, key: Seq<u8>) -> int {
    let p = field_pattern(key);
    let i = find_index(h, p, 0);
    if i < 0 {
        -1
    } else {
        let c = ws_end(h, i + p.len());
        if c == h.len() || h[c] != 58 {
            -1
        } else {
            ws_end(h, c + 1)
        }
    }
}

/// The value of string field `key` in the record `h`: the bytes between the
/// value's opening quote and the next quote, if the key, its colon and both
/// quotes are there.
pub open spec fn spec_json_field(h: Seq<u8>, key: Seq<u8>) -> Option<Seq<u8>> {
    let s0 = field_value_start(h, key);
    if s0 < 0 || s0 == h.len() || h[s0] != 34 {
        None
    } else {
        let s = s0 + 1;
        let e = byte_index(h, s, 34u8);
        if e == h.len() {
            None
        } else {
            Some(h.subrange(s, e))
        }
    }
}

/// Whether a byte is an ASCII decimal digit.
pub open spec fn is_digit(c: u8) -> bool {
    48 <= c <= 57
}

/// Index of the first byte of `h` at or after `from` that is not a digit,
/// or `h.len()` if there is none.
pub open spec fn digits_end(h: Seq<u8>, from: int) -> int
    decreases h.len() - from,
{
    if from < 0 || from >= h.len() {
        h.len() as int
    } else if is_digit(h[from]) {
        digits_end(h, from + 1)
    } else {
        from
    }
}

/// The value of the decimal digit run `s`.
pub open spec fn digits_val(s: Seq<u8>) -> nat
    decreases s.len(),
{
    if s.len() == 0 {
        0
    } else {
        digits_val(s.drop_last()) * 10 + (s.last() - 48) as nat
    }
}

/// Ten to the `n`.
pub open spec fn pow10(n: nat) -> nat
    decreases n,
{
    if n == 0 {
        1
    } else {
        10 * pow10((n - 1) as nat)
    }
}

/// A run of `n` digits is worth less than ten to the `n`.
proof fn lemma_digits_val_bound(s: Seq<u8>)
    requires
        forall|k: int| 0 <= k < s.len() ==> is_digit(#[trigger] s[k]),
    ensures
        digits_val(s) < pow10(s.len()),
    decreases s.len(),
{
    if s.len() > 0 {
        lemma_digits_val_bound(s.drop_last());
    }
}

/// Ten to the power is monotone.
proof fn lemma_pow10_mono(a: nat, b: nat)
    requires
        a <= b,
    ensures
        pow10(a) <= pow10(b),
    decreases b,
{
    if a < b {
        lemma_pow10_mono(a, (b - 1) as nat);
        assert(pow10((b - 1) as nat) >= 1) by {
            lemma_pow10_mono(0, (b - 1) as nat);
        }
    }
}

/// The value of unsigned integer field `key` in the record `h`: the decimal
/// digit run after the key and its colon, when that run is one to nineteen
/// digits long (nineteen digits always fit an unsigned 64-bit count).
pub open spec fn spec_json_nat_field(h: Seq<u8>, key: Seq<u8>) -> Option<nat> {
    let s = field_value_start(h, key);
    if s < 0 {
        None
    } else {
        let e = digits_end(h, s);
        if s < e && e - s <= 19 {
            Some(digits_val(h.subrange(s, e)))
        } else {
            None
        }
    }
}

/// Find the first occurrence of byte `c` at or after `from`.
pub fn find_byte(h: &[u8], from: usize, c: u8) -> (r: usize)
    requires
        from <= h@.len(),
    ensures
        r == byte_index(h@, from as int, c),
        from <= r <= h@.len(),
{
    let mut i: usize = from;
    while i < h.len()
        invariant
            from <= i <= h@.len(),
            byte_index(h@, from as int, c) == byte_index(h@, i as int, c),
        decreases h@.len() - i,
    {
        if h[i] == c {
            return i;
        }
        i = i + 1;
    }
    i
}

/// Find the first byte at or after `from` that is not whitespace.
fn skip_ws(h: &[u8], from: usize) -> (r: usize)
    requires
        from <= h@.len(),
    ensures
        r == ws_end(h@, from as int),
        from <= r <= h@.len(),
{
    let mut i: usize = from;
    while i < h.len()
        invariant
            from <= i <= h@.len(),
            ws_end(h@, from as int) == ws_end(h@, i as int),
        decreases h@.len() - i,
    {
        let c = h[i];
        if !(c == 32 || c == 9 || c == 10 || c == 13) {
            return i;
        }
        i = i + 1;
    }
    i
}

/// Whether `p` occurs in `h` at position `i`.
fn matches_at(h: &[u8], p: &[u8], i: usize) -> (r: bool)
    requires
        i + p@.len() <= h@.len(),
    ensures
        r == match_at(h@, p@, i as int),
{
    let hl = h.len();
    let mut j: usize = 0;
    while j < p.len()
        invariant
            0 <= j <= p@.len(),
            i + p@.len() <= h@.len(),
            hl == h@.len(),
            forall|k: int| 0 <= k < j ==> h@[i + k] == p@[k],
        decreases p@.len() - j,
    {
        if h[i + j] != p[j] {
            assert(h@.subrange(i as int, i + p@.len())[j as int] != p@[j as int]);
            return false;
        }
        j = j + 1;
    }
    assert(h@.subrange(i as int, i + p@.len()) =~= p@);
    true
}

/// Find the first occurrence of pattern `p` in `h`, as `find_index` does.
pub fn find_pattern(h: &[u8], p: &[u8]) -> (r: Option<usize>)
    requires
        1 <= p@.len(),
    ensures
        match r {
            Some(i) => i == find_index(h@, p@, 0) && i + p@.len() <= h@.len(),
            None => find_index(h@, p@, 0) == -1,
        },
{
    if p.len() > h.len() {
        return None;
    }
    let n = h.len() - p.len();
    let mut i: usize = 0;
    while i <= n
        invariant
            0 <= i <= n + 1,
            n == h@.len() - p@.len(),
            n <= usize::MAX - 1,
            1 <= p@.len() <= h@.len(),
            find_index(h@, p@, 0) == find_index(h@, p@, i as int),
        decreases n + 1 - i,
    {
        if matches_at(h, p, i) {
            return Some(i);
        }
        i = i + 1;
    }
    None
}

/// Find the start of field `key`'s value, as `field_value_start` does.
fn find_field_value(h: &[u8], key: &[u8]) -> (r: Option<usize>)
    requires
        key@.len() + 2 <= usize::MAX,
    ensures
        match r {
            Some(s) => s == field_value_start(h@, key@) && s <= h@.len(),
            None => field_value_start(h@, key@) < 0,
        },
{
    let mut pat: Vec<u8> = Vec::new();
    pat.push(34u8);
    let mut ki: usize = 0;
    while ki < key.len()
        invariant
            0 <= ki <= key@.len(),
            pat@ =~= seq![34u8] + key@.subrange(0, ki as int),
        decreases key@.len() - ki,
    {
        pat.push(key[ki]);
        ki = ki + 1;
    }
    pat.push(34u8);
    assert(key@.subrange(0, key@.len() as int) =~= key@);
    assert(pat@ =~= field_pattern(key@));

    let hl = h.len();
    match find_pattern(h, pat.as_slice()) {
        None => None,
        Some(i) => {
            assert(i + pat@.len() <= hl);
            let c = skip_ws(h, i + pat.len());
            if c == h.len() {
                return None;
            }
            if h[c] != 58 {
                return None;
            }
            Some(skip_ws(h, c + 1))
        }
    }
}

/// Find the first non-digit byte at or after `from`.
fn scan_digits(h: &[u8], from: usize) -> (r: usize)
    requires
        from <= h@.len(),
    ensures
        r == digits_end(h@, from as int),
        from <= r <= h@.len(),
        forall|k: int| from <= k < r ==> is_digit(#[trigger] h@[k]),
{
    let mut i: usize = from;
    while i < h.len()
        invariant
            from <= i <= h@.len(),
            digits_end(h@, from as int) == digits_end(h@, i as int),
            forall|k: int| from <= k < i ==> is_digit(#[trigger] h@[k]),
        decreases h@.len() - i,
    {
        let c = h[i];
        if !(48 <= c && c <= 57) {
            return i;
        }
        i = i + 1;
    }
    i
}

/// Extract the value of unsigned integer field `key` from the record `h`.
pub fn json_nat_field(h: &[u8], key: &[u8]) -> (r: Option<u64>)
    requires
        key@.len() + 2 <= usize::MAX,
    ensures
        match r {
            Some(v) => spec_json_nat_field(h@, key@) == Some(v as nat),
            None => spec_json_nat_field(h@, key@) is None,
        },
{
    let s0 = match find_field_value(h, key) {
        None => {
            return None;
        }
        Some(s0) => s0,
    };
    let e = scan_digits(h, s0);
    if e == s0 || e - s0 > 19 {
        return None;
    }
    let mut acc: u64 = 0;
    let mut i: usize = s0;
    while i < e
        invariant
            s0 <= i <= e <= h@.len(),
            e - s0 <= 19,
            forall|k: int| s0 <= k < e ==> is_digit(#[trigger] h@[k]),
            acc == digits_val(h@.subrange(s0 as int, i as int)),
        decreases e - i,
    {
        proof {
            lemma_digits_val_bound(h@.subrange(s0 as int, i as int));
            lemma_pow10_mono((i - s0) as nat, 18);
            assert(pow10(18) == 1000000000000000000) by {
                reveal_with_fuel(pow10, 19);
            }
        }
        let d = h[i] - 48;
        acc = acc * 10 + (d as u64);
        proof {
            assert(h@.subrange(s0 as int, i + 1).drop_last() =~= h@.subrange(s0 as int, i as int));
            assert(h@.subrange(s0 as int, i + 1).last() == h@[i as int]);
        }
        i = i + 1;
    }
    Some(acc)
}

/// Extract the value of string field `key` from the record `h`.
pub fn json_field(h: &[u8], key: &[u8]) -> (r: Option<Vec<u8>>)
    requires
        key@.len() + 2 <= usize::MAX,
    ensures
        match r {
            Some(v) => spec_json_field(h@, key@) == Some(v@),
            None => spec_json_field(h@, key@) is None,
        },
{
    let s0 = match find_field_value(h, key) {
        None => {
            return None;
        }
        Some(s0) => s0,
    };
    if s0 == h.len() {
        return None;
    }
    if h[s0] != 34 {
        return None;
    }
    let s = s0 + 1;
    let e = find_byte(h, s, 34u8);
    if e == h.len() {
        None
    } else {
        Some(crate::bytes::copy_range(h, s, e))
    }
}

} // verus!
