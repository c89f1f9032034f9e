//! WireGuard keys, held as their canonical base64 text.
use vstd::prelude::*;

verus! {

/// Whether `c` belongs to the standard base64 alphabet.
pub open spec fn is_base64_char(c: char) -> bool {
    ('A' <= c && c <= 'Z') || ('a' <= c && c <= 'z') || ('0' <= c && c <= '9') || c == '+' || c
        == '/'
}

/// The 6-bit value of a base64 character.
pub open spec fn base64_value(c: char) -> int {
    if 'A' <= c && c <= 'Z' {
        (c as int) - ('A' as int)
    } else if 'a' <= c && c <= 'z' {
        (c as int) - ('a' as int) + 26
    } else if '0' <= c && c <= '9' {
        (c as int) - ('0' as int) + 52
    } else if c == '+' {
        62
    } else {
        63
    }
}

/// Whether `s` is the canonical padded base64 encoding of 32 bytes: 43
/// alphabet characters, the last of which carries no bits beyond the 256th,
/// followed by one `=`.
pub open spec fn is_wg_key_text(s: Seq<char>) -> bool {
    &&& s.len() == 44
    &&& forall|i: int| 0 <= i < 43 ==> is_base64_char(#[trigger] s[i])
    &&& base64_value(s[42]) % 4 == 0
    &&& s[43] == '='
}

/// The weight of bit `k` (0 the most significant) of a base64 character's 6 bits.
pub open spec fn six_bit_weight(k: int) -> int {
    if k == 0 {
        32
    } else if k == 1 {
        16
    } else if k == 2 {
        8
    } else if k == 3 {
        4
    } else if k == 4 {
        2
    } else {
        1
    }
}

/// Bit `j` (0 the most significant) of the 258 bits that the first 43
/// characters of a base64 text carry; 0 past them.
pub open spec fn key_bit(t: Seq<char>, j: int) -> int {
    if 0 <= j < 258 {
        (base64_value(t[j / 6]) / six_bit_weight(j % 6)) % 2
    } else {
        0
    }
}

/// The number made of the first `k` bits of base32 digit `i`.
pub open spec fn digit_prefix(t: Seq<char>, i: int, k: int) -> int
    decreases k,
{
    if k <= 0 {
        0
    } else {
        2 * digit_prefix(t, i, k - 1) + key_bit(t, 5 * i + k - 1)
    }
}

/// The character of a digit of the base32 "extended hex" alphabet, in lower case.
pub open spec fn dnssec_char(d: int) -> char {
    if d < 10 {
        (('0' as int) + d) as char
    } else {
        (('a' as int) + d - 10) as char
    }
}

/// The DNSSEC base32 encoding (RFC 5155: extended hex alphabet, lower case,
/// no padding) of the 32 bytes a key text carries: 52 digits of 5 bits each.
pub open spec fn dnssec_base32(t: Seq<char>) -> Seq<char> {
    Seq::new(52, |i: int| dnssec_char(digit_prefix(t, i, 5)))
}

proof fn lemma_key_bit(t: Seq<char>, j: int)
    ensures
        key_bit(t, j) == 0 || key_bit(t, j) == 1,
{
    if 0 <= j < 258 {
        assert(six_bit_weight(j % 6) > 0);
        assert(base64_value(t[j / 6]) >= 0);
    }
}

/// The value of base32 digit `i` from its five bits.
proof fn lemma_digit(t: Seq<char>, i: int)
    ensures
        digit_prefix(t, i, 5) == 16 * key_bit(t, 5 * i) + 8 * key_bit(t, 5 * i + 1) + 4 * key_bit(
            t,
            5 * i + 2,
        ) + 2 * key_bit(t, 5 * i + 3) + key_bit(t, 5 * i + 4),
        0 <= digit_prefix(t, i, 5) < 32,
{
    lemma_key_bit(t, 5 * i);
    lemma_key_bit(t, 5 * i + 1);
    lemma_key_bit(t, 5 * i + 2);
    lemma_key_bit(t, 5 * i + 3);
    lemma_key_bit(t, 5 * i + 4);
    assert(digit_prefix(t, i, 0) == 0);
    assert(digit_prefix(t, i, 1) == key_bit(t, 5 * i));
    assert(digit_prefix(t, i, 2) == 2 * key_bit(t, 5 * i) + key_bit(t, 5 * i + 1));
    assert(digit_prefix(t, i, 3) == 4 * key_bit(t, 5 * i) + 2 * key_bit(t, 5 * i + 1) + key_bit(
        t,
        5 * i + 2,
    ));
    assert(digit_prefix(t, i, 4) == 8 * key_bit(t, 5 * i) + 4 * key_bit(t, 5 * i + 1) + 2 * key_bit(
        t,
        5 * i + 2,
    ) + key_bit(t, 5 * i + 3));
}

/// The DNSSEC base32 form of a key fits in DNS names: 52 characters, each a
/// digit or a lower-case letter from `a` to `v`.
pub proof fn lemma_dnssec_base32_dns_safe(t: Seq<char>)
    ensures
        dnssec_base32(t).len() == 52,
        forall|i: int|
            0 <= i < 52 ==> ('0' <= #[trigger] dnssec_base32(t)[i] && dnssec_base32(t)[i] <= '9') || (
            'a' <= dnssec_base32(t)[i] && dnssec_base32(t)[i] <= 'v'),
{
    assert forall|i: int| 0 <= i < 52 implies ('0' <= #[trigger] dnssec_base32(t)[i]
        && dnssec_base32(t)[i] <= '9') || ('a' <= dnssec_base32(t)[i] && dnssec_base32(t)[i]
        <= 'v') by {
        lemma_digit(t, i);
    }
}

proof fn lemma_dnssec_char_injective(a: int, b: int)
    requires
        0 <= a < 32,
        0 <= b < 32,
        dnssec_char(a) == dnssec_char(b),
    ensures
        a == b,
{
    assert((dnssec_char(a) as int) == (if a < 10 { 48 + a } else { 87 + a }));
    assert((dnssec_char(b) as int) == (if b < 10 { 48 + b } else { 87 + b }));
}

proof fn lemma_six_bits(v: u8)
    requires
        v < 64,
    ensures
        v == 32 * ((v / 32) % 2) + 16 * ((v / 16) % 2) + 8 * ((v / 8) % 2) + 4 * ((v / 4) % 2) + 2 * ((
        v / 2) % 2) + v % 2,
{
    assert(v == 32 * ((v / 32) % 2) + 16 * ((v / 16) % 2) + 8 * ((v / 8) % 2) + 4 * ((v / 4) % 2)
        + 2 * ((v / 2) % 2) + v % 2) by (bit_vector)
        requires
            v < 64,
    ;
}

proof fn lemma_base64_value_injective(a: char, b: char)
    requires
        is_base64_char(a),
        is_base64_char(b),
        base64_value(a) == base64_value(b),
    ensures
        a == b,
{
}

proof fn lemma_div6(m: int, k: int)
    by (nonlinear_arith)
    requires
        0 <= k < 6,
        0 <= m,
    ensures
        (6 * m + k) / 6 == m,
        (6 * m + k) % 6 == k,
{
}

/// A character of a key text from the bits it carries.
proof fn lemma_char_from_bits(t: Seq<char>, m: int)
    requires
        is_wg_key_text(t),
        0 <= m < 43,
    ensures
        base64_value(t[m]) == 32 * key_bit(t, 6 * m) + 16 * key_bit(t, 6 * m + 1) + 8 * key_bit(
            t,
            6 * m + 2,
        ) + 4 * key_bit(t, 6 * m + 3) + 2 * key_bit(t, 6 * m + 4) + key_bit(t, 6 * m + 5),
{
    let v = base64_value(t[m]);
    assert(is_base64_char(t[m]));
    assert(0 <= v < 64);
    lemma_six_bits(v as u8);
    lemma_div6(m, 0);
    lemma_div6(m, 1);
    lemma_div6(m, 2);
    lemma_div6(m, 3);
    lemma_div6(m, 4);
    lemma_div6(m, 5);
    assert(key_bit(t, 6 * m) == (v / 32) % 2);
    assert(key_bit(t, 6 * m + 1) == (v / 16) % 2);
    assert(key_bit(t, 6 * m + 2) == (v / 8) % 2);
    assert(key_bit(t, 6 * m + 3) == (v / 4) % 2);
    assert(key_bit(t, 6 * m + 4) == (v / 2) % 2);
    assert(key_bit(t, 6 * m + 5) == v % 2);
}

proof fn lemma_digit_bits_equal(t1: Seq<char>, t2: Seq<char>, i: int)
    requires
        0 <= i < 52,
        dnssec_base32(t1) == dnssec_base32(t2),
    ensures
        key_bit(t1, 5 * i) == key_bit(t2, 5 * i),
        key_bit(t1, 5 * i + 1) == key_bit(t2, 5 * i + 1),
        key_bit(t1, 5 * i + 2) == key_bit(t2, 5 * i + 2),
        key_bit(t1, 5 * i + 3) == key_bit(t2, 5 * i + 3),
        key_bit(t1, 5 * i + 4) == key_bit(t2, 5 * i + 4),
{
    assert(dnssec_base32(t1)[i] == dnssec_char(digit_prefix(t1, i, 5)));
    assert(dnssec_base32(t2)[i] == dnssec_char(digit_prefix(t2, i, 5)));
    lemma_digit(t1, i);
    lemma_digit(t2, i);
    lemma_dnssec_char_injective(digit_prefix(t1, i, 5), digit_prefix(t2, i, 5));
    lemma_key_bit(t1, 5 * i);
    lemma_key_bit(t1, 5 * i + 1);
    lemma_key_bit(t1, 5 * i + 2);
    lemma_key_bit(t1, 5 * i + 3);
    lemma_key_bit(t1, 5 * i + 4);
    lemma_key_bit(t2, 5 * i);
    lemma_key_bit(t2, 5 * i + 1);
    lemma_key_bit(t2, 5 * i + 2);
    lemma_key_bit(t2, 5 * i + 3);
    lemma_key_bit(t2, 5 * i + 4);
}

/// Different keys have different DNSSEC base32 forms, so the tunnel
/// resources named after them do not clash.
pub proof fn lemma_dnssec_base32_injective(t1: Seq<char>, t2: Seq<char>)
    requires
        is_wg_key_text(t1),
        is_wg_key_text(t2),
        dnssec_base32(t1) == dnssec_base32(t2),
    ensures
        t1 == t2,
{
    assert forall|j: int| 0 <= j < 260 implies key_bit(t1, j) == key_bit(t2, j) by {
        lemma_digit_bits_equal(t1, t2, j / 5);
        assert(j == 5 * (j / 5) + j % 5);
    }
    assert forall|m: int| 0 <= m < 43 implies t1[m] == t2[m] by {
        lemma_char_from_bits(t1, m);
        lemma_char_from_bits(t2, m);
        assert(key_bit(t1, 6 * m) == key_bit(t2, 6 * m));
        assert(key_bit(t1, 6 * m + 1) == key_bit(t2, 6 * m + 1));
        assert(key_bit(t1, 6 * m + 2) == key_bit(t2, 6 * m + 2));
        assert(key_bit(t1, 6 * m + 3) == key_bit(t2, 6 * m + 3));
        assert(key_bit(t1, 6 * m + 4) == key_bit(t2, 6 * m + 4));
        assert(key_bit(t1, 6 * m + 5) == key_bit(t2, 6 * m + 5));
        lemma_base64_value_injective(t1[m], t2[m]);
    }
    assert(t1 =~= t2);
}

fn base64_value_exec(c: char) -> (v: u32)
    requires
        is_base64_char(c),
    ensures
        v == base64_value(c),
        v < 64,
{
    if 'A' <= c && c <= 'Z' {
        (c as u32) - ('A' as u32)
    } else if 'a' <= c && c <= 'z' {
        (c as u32) - ('a' as u32) + 26
    } else if '0' <= c && c <= '9' {
        (c as u32) - ('0' as u32) + 52
    } else if c == '+' {
        62
    } else {
        63
    }
}

fn six_bit_weight_exec(k: usize) -> (w: u32)
    requires
        k < 6,
    ensures
        w == six_bit_weight(k as int),
        w > 0,
{
    if k == 0 {
        32
    } else if k == 1 {
        16
    } else if k == 2 {
        8
    } else if k == 3 {
        4
    } else if k == 4 {
        2
    } else {
        1
    }
}

fn key_bit_exec(t: &str, j: usize) -> (b: u32)
    requires
        is_wg_key_text(t@),
    ensures
        b == key_bit(t@, j as int),
        b <= 1,
{
    if j < 258 {
        let v = base64_value_exec(t.get_char(j / 6));
        let w = six_bit_weight_exec(j % 6);
        (v / w) % 2
    } else {
        0
    }
}

fn dnssec_char_exec(d: u32) -> (c: char)
    requires
        d < 32,
    ensures
        c == dnssec_char(d as int),
{
    if d < 10 {
        let b: u8 = 48 + (d as u8);
        b as char
    } else {
        let b: u8 = 97 + (d as u8) - 10;
        b as char
    }
}

/// A base64 text that is not a WireGuard key.
#[derive(Debug, Clone, Copy, PartialEq, Eq)]
pub struct InvalidWgKey;

/// A WireGuard key (32 bytes), kept as its base64 text.
pub struct WgKey {
    base64: String,
}

impl View for WgKey {
    type V = Seq<char>;

    closed spec fn view(&self) -> Seq<char> {
        self.base64@
    }
}

fn is_base64_char_exec(c: char) -> (b: bool)
    ensures
        b == is_base64_char(c),
{
    ('A' <= c && c <= 'Z') || ('a' <= c && c <= 'z') || ('0' <= c && c <= '9') || c == '+' || c
        == '/'
}

fn low_bits_clear(c: char) -> (b: bool)
    requires
        is_base64_char(c),
    ensures
        b == (base64_value(c) % 4 == 0),
{
    let v: u32 = if 'A' <= c && c <= 'Z' {
        (c as u32) - ('A' as u32)
    } else if 'a' <= c && c <= 'z' {
        (c as u32) - ('a' as u32) + 26
    } else if '0' <= c && c <= '9' {
        (c as u32) - ('0' as u32) + 52
    } else if c == '+' {
        62
    } else {
        63
    };
    v % 4 == 0
}

impl WgKey {
    /// Every key's text is a canonical base64 encoding of 32 bytes.
    #[verifier::type_invariant]
    closed spec fn well_formed(&self) -> bool {
        is_wg_key_text(self.base64@)
    }

    /// The key encoded by `s`, or an error when `s` is not the canonical
    /// base64 encoding of 32 bytes.
    pub fn from_base64(s: &str) -> (r: Result<WgKey, InvalidWgKey>)
        ensures
            r is Ok <==> is_wg_key_text(s@),
            r matches Ok(k) ==> k@ == s@,
    {
        let n = s.unicode_len();
        if n != 44 {
            return Err(InvalidWgKey);
        }
        let mut i: usize = 0;
        while i < 43
            invariant
                n == s@.len(),
                n == 44,
                i <= 43,
                forall|j: int| 0 <= j < i ==> is_base64_char(#[trigger] s@[j]),
            decreases 43 - i,
        {
            if !is_base64_char_exec(s.get_char(i)) {
                return Err(InvalidWgKey);
            }
            i = i + 1;
        }
        if !low_bits_clear(s.get_char(42)) {
            return Err(InvalidWgKey);
        }
        if s.get_char(43) != '=' {
            return Err(InvalidWgKey);
        }
        Ok(WgKey { base64: crate::text::to_owned_string(s) })
    }

    /// The key's base64 text.
    pub fn to_base64(&self) -> (r: String)
        ensures
            r@ == self@,
    {
        self.base64.clone()
    }

    /// A copy of the key.
    pub fn duplicate(&self) -> (r: WgKey)
        ensures
            r@ == self@,
    {
        proof {
            use_type_invariant(self);
        }
        WgKey { base64: self.base64.clone() }
    }

    /// The key's bytes in the DNSSEC base32 encoding, a form that fits in
    /// resource names.
    pub fn to_dnssec_base32(&self) -> (r: String)
        ensures
            r@ == dnssec_base32(self@),
    {
        proof {
            use_type_invariant(self);
        }
        let t = self.base64.as_str();
        let mut r = String::new();
        let mut i: usize = 0;
        while i < 52
            invariant
                t@ == self@,
                is_wg_key_text(t@),
                i <= 52,
                r@ == dnssec_base32(t@).take(i as int),
            decreases 52 - i,
        {
            let b0 = key_bit_exec(t, 5 * i);
            let b1 = key_bit_exec(t, 5 * i + 1);
            let b2 = key_bit_exec(t, 5 * i + 2);
            let b3 = key_bit_exec(t, 5 * i + 3);
            let b4 = key_bit_exec(t, 5 * i + 4);
            let d: u32 = 16 * b0 + 8 * b1 + 4 * b2 + 2 * b3 + b4;
            assert(digit_prefix(t@, i as int, 0) == 0);
            assert(digit_prefix(t@, i as int, 1) == b0);
            assert(digit_prefix(t@, i as int, 2) == 2 * b0 + b1);
            assert(digit_prefix(t@, i as int, 3) == 4 * b0 + 2 * b1 + b2);
            assert(digit_prefix(t@, i as int, 4) == 8 * b0 + 4 * b1 + 2 * b2 + b3);
            assert(digit_prefix(t@, i as int, 5) == d);
            let c = dnssec_char_exec(d);
            crate::text::push_char(&mut r, c);
            assert(dnssec_base32(t@).take(i + 1) =~= dnssec_base32(t@).take(i as int).push(c));
            i = i + 1;
        }
        assert(dnssec_base32(t@).take(52) =~= dnssec_base32(t@));
        r
    }

    /// Every key's text passes `from_base64`.
    pub fn lemma_text(&self)
        ensures
            is_wg_key_text(self@),
    {
        proof {
            use_type_invariant(self);
        }
    }
}

} // verus!
