//! CRC32/ISO-HDLC checksums rendered as lowercase hexadecimal.
use vstd::prelude::*;
use crate::text::string_of;

verus! {

/// The reflected CRC-32 generator polynomial.
pub open spec fn crc_poly() -> u32 {
    0xEDB8_8320u32
}

/// One bit of the reflected CRC-32 shift register.
pub open spec fn crc_step(c: u32) -> u32 {
    if c & 1 != 0 {
        (c >> 1) ^ crc_poly()
    } else {
        c >> 1
    }
}

/// `n` successive shift-register steps.
pub open spec fn crc_rounds(c: u32, n: nat) -> u32
    decreases n,
{
    if n == 0 {
        c
    } else {
        crc_step(crc_rounds(c, (n - 1) as nat))
    }
}

/// Feeds one byte into the register.
pub open spec fn crc_byte(c: u32, b: u8) -> u32 {
    crc_rounds(c ^ (b as u32), 8)
}

/// The register after all of `data`, starting from all ones.
pub open spec fn crc_register(data: Seq<u8>) -> u32
    decreases data.len(),
{
    if data.len() == 0 {
        0xFFFF_FFFFu32
    } else {
        crc_byte(crc_register(data.drop_last()), data.last())
    }
}

/// CRC32/ISO-HDLC of `data`: the final register, inverted.
pub open spec fn crc32(data: Seq<u8>) -> u32 {
    !crc_register(data)
}

/// The lowercase hexadecimal digit for `n < 16`.
pub open spec fn hex_lower(n: nat) -> char {
    if n < 10 {
        (48 + n) as char
    } else {
        (87 + n) as char
    }
}

/// The last `n` hexadecimal digits of `v`, most significant first.
pub open spec fn hex_digits(v: nat, n: nat) -> Seq<char>
    decreases n,
{
    if n == 0 {
        Seq::empty()
    } else {
        hex_digits(v / 16, (n - 1) as nat).push(hex_lower(v % 16))
    }
}

/// `{:08x}` of a 32-bit value.
pub open spec fn hex8(v: u32) -> Seq<char> {
    hex_digits(v as nat, 8)
}

/// Value of a lowercase hexadecimal digit.
pub open spec fn hex_lower_value(c: char) -> nat {
    if '0' <= c && c <= '9' {
        (c as nat - 48) as nat
    } else {
        (c as nat - 87) as nat
    }
}

/// Value of a string of lowercase hexadecimal digits.
pub open spec fn hex_value(s: Seq<char>) -> nat
    decreases s.len(),
{
    if s.len() == 0 {
        0
    } else {
        hex_value(s.drop_last()) * 16 + hex_lower_value(s.last())
    }
}

pub open spec fn pow16(n: nat) -> nat
    decreases n,
{
    if n == 0 {
        1
    } else {
        16 * pow16((n - 1) as nat)
    }
}

/// `true` iff every character of `s` is one of `0-9a-f`.
pub open spec fn is_lower_hex(s: Seq<char>) -> bool {
    forall|i: int| 0 <= i < s.len() ==> (('0' <= #[trigger] s[i] && s[i] <= '9') || ('a' <= s[i] && s[i] <= 'f'))
}

proof fn lemma_hex_digits_shape(v: nat, n: nat)
    ensures
        hex_digits(v, n).len() == n,
        is_lower_hex(hex_digits(v, n)),
        hex_value(hex_digits(v, n)) == v % pow16(n),
    decreases n,
{
    if n > 0 {
        lemma_hex_digits_shape(v / 16, (n - 1) as nat);
        let s = hex_digits(v, n);
        let p = hex_digits(v / 16, (n - 1) as nat);
        assert(s.drop_last() =~= p);
        let d = v % 16;
        assert(hex_lower_value(hex_lower(d)) == d);
        assert((v / 16) % pow16((n - 1) as nat) * 16 + v % 16 == v % pow16(n)) by {
            lemma_pow16_pos((n - 1) as nat);
            lemma_mod_split(v, pow16((n - 1) as nat));
        }
    }
}

proof fn lemma_pow16_pos(n: nat)
    ensures
        pow16(n) > 0,
    decreases n,
{
    if n > 0 {
        lemma_pow16_pos((n - 1) as nat);
    }
}

proof fn lemma_mod_split(v: nat, p: nat)
    requires
        p > 0,
    ensures
        (v / 16) % p * 16 + v % 16 == v % (16 * p),
{
    vstd::arithmetic::div_mod::lemma_breakdown(v as int, 16, p as int);
    assert(16 * p == (16 * p) as int);
}

/// Formatting a CRC as eight lowercase hexadecimal digits loses nothing: the
/// string is eight characters of `0-9a-f`, and two checksums print alike
/// exactly when they are equal.
pub proof fn lemma_hex8_faithful(a: u32, b: u32)
    ensures
        hex8(a).len() == 8,
        is_lower_hex(hex8(a)),
        hex8(a) == hex8(b) <==> a == b,
{
    lemma_hex_digits_shape(a as nat, 8);
    lemma_hex_digits_shape(b as nat, 8);
    reveal_with_fuel(pow16, 9);
    assert(pow16(8) == 0x1_0000_0000);
    assert((a as nat) % pow16(8) == a);
    assert((b as nat) % pow16(8) == b);
}

/// Feeds one byte into a CRC register.
fn crc_feed(crc: u32, byte: u8) -> (r: u32)
    ensures
        r == crc_byte(crc, byte),
{
    let start = crc ^ (byte as u32);
    let mut c = start;
    let mut i: u32 = 0;
    while i < 8
        invariant
            i <= 8,
            c == crc_rounds(start, i as nat),
        decreases 8 - i,
    {
        if c & 1 != 0 {
            c = (c >> 1) ^ 0xEDB8_8320u32;
        } else {
            c = c >> 1;
        }
        i = i + 1;
    }
    c
}

/// The CRC32/ISO-HDLC checksum of `data`.
pub fn crc32_of(data: &[u8]) -> (r: u32)
    ensures
        r == crc32(data@),
{
    let mut crc: u32 = 0xFFFF_FFFFu32;
    let mut i: usize = 0;
    while i < data.len()
        invariant
            i <= data@.len(),
            crc == crc_register(data@.take(i as int)),
        decreases data@.len() - i,
    {
        assert(data@.take(i + 1).drop_last() =~= data@.take(i as int));
        crc = crc_feed(crc, data[i]);
        i = i + 1;
    }
    assert(data@.take(data@.len() as int) =~= data@);
    !crc
}

fn hex_lower_char(n: u32) -> (c: char)
    requires
        n < 16,
    ensures
        c == hex_lower(n as nat),
{
    if n < 10 {
        ((48 + n) as u8) as char
    } else {
        ((87 + n) as u8) as char
    }
}

/// `v` as eight lowercase hexadecimal digits, zero-padded.
pub fn hex8_string(v: u32) -> (r: String)
    ensures
        r@ == hex8(v),
{
    let mut out: Vec<char> = vec!['0', '0', '0', '0', '0', '0', '0', '0'];
    let mut cur: u32 = v;
    let mut i: usize = 0;
    while i < 8
        invariant
            i <= 8,
            out@.len() == 8,
            hex8(v) == hex_digits(cur as nat, (8 - i) as nat) + out@.subrange(8 - i, 8),
        decreases 8 - i,
    {
        let ghost old_out = out@;
        let ghost old_cur = cur;
        let d = cur % 16;
        out.set(7 - i, hex_lower_char(d));
        cur = cur / 16;
        proof {
            let n = (8 - i) as nat;
            assert(hex_digits(old_cur as nat, n) == hex_digits(cur as nat, (n - 1) as nat).push(hex_lower(d as nat)));
            assert(out@.subrange(7 - i, 8) =~= seq![hex_lower(d as nat)] + old_out.subrange(8 - i, 8));
            assert(hex_digits(cur as nat, (n - 1) as nat).push(hex_lower(d as nat)) + old_out.subrange(8 - i, 8)
                =~= hex_digits(cur as nat, (n - 1) as nat) + out@.subrange(7 - i, 8));
        }
        i = i + 1;
    }
    assert(out@.subrange(0, 8) =~= out@);
    assert(hex_digits(cur as nat, 0) =~= Seq::<char>::empty());
    string_of(out.as_slice())
}

/// Compute a CRC32/ISO-HDLC checksum over `data` and return it as an 8-char
/// lowercase hex string (e.g. `"a1b2c3d4"`).
pub fn crc32_hex(data: &[u8]) -> (r: String)
    ensures
        r@ == hex8(crc32(data@)),
{
    hex8_string(crc32_of(data))
}

} // verus!
