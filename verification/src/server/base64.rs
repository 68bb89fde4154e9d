//! Standard base64 (RFC 4648, with `=` padding), as carried by HTTP Basic
//! authorization headers.
use vstd::prelude::*;

verus! {

/// The 6-bit value of a base64 alphabet character.
pub open spec fn sextet(c: char) -> Option<nat> {
    if 'A' <= c && c <= 'Z' {
        Some((c as nat - 65) as nat)
    } else if 'a' <= c && c <= 'z' {
        Some((c as nat - 71) as nat)
    } else if '0' <= c && c <= '9' {
        Some(c as nat + 4)
    } else if c == '+' {
        Some(62)
    } else if c == '/' {
        Some(63)
    } else {
        None
    }
}

pub open spec fn byte0(a: nat, b: nat) -> u8 {
    (a * 4 + b / 16) as u8
}

pub open spec fn byte1(b: nat, c: nat) -> u8 {
    ((b % 16) * 16 + c / 4) as u8
}

pub open spec fn byte2(c: nat, d: nat) -> u8 {
    ((c % 4) * 64 + d) as u8
}

/// The bytes of one group of four characters.  Only the final group may end
/// in one or two `=` padding characters.
pub open spec fn decode_group(g: Seq<char>, last: bool) -> Option<Seq<u8>> {
    match (sextet(g[0]), sextet(g[1]), sextet(g[2]), sextet(g[3])) {
        (Some(a), Some(b), Some(c), Some(d)) => Some(seq![byte0(a, b), byte1(b, c), byte2(c, d)]),
        (Some(a), Some(b), None, None) => if last && g[2] == '=' && g[3] == '=' {
            Some(seq![byte0(a, b)])
        } else {
            None
        },
        (Some(a), Some(b), Some(c), None) => if last && g[3] == '=' {
            Some(seq![byte0(a, b), byte1(b, c)])
        } else {
            None
        },
        _ => None,
    }
}

/// Decodes padded base64 text; `None` when the text is not valid base64.
pub open spec fn decode(s: Seq<char>) -> Option<Seq<u8>>
    decreases s.len(),
{
    if s.len() == 0 {
        Some(Seq::empty())
    } else if s.len() < 4 {
        None
    } else {
        match decode_group(s.take(4), s.len() == 4) {
            None => None,
            Some(g) => match decode(s.skip(4)) {
                None => None,
                Some(r) => Some(g + r),
            },
        }
    }
}

fn sextet_of(c: char) -> (r: Option<u8>)
    ensures
        r matches Some(v) ==> sextet(c) == Some(v as nat) && v < 64,
        r is None ==> sextet(c) is None,
{
    if 'A' <= c && c <= 'Z' {
        Some((c as u32 - 65) as u8)
    } else if 'a' <= c && c <= 'z' {
        Some((c as u32 - 71) as u8)
    } else if '0' <= c && c <= '9' {
        Some((c as u32 + 4) as u8)
    } else if c == '+' {
        Some(62)
    } else if c == '/' {
        Some(63)
    } else {
        None
    }
}

fn group_bytes(s: &[char], i: usize, last: bool, out: &mut Vec<u8>) -> (ok: bool)
    requires
        i + 4 <= s@.len(),
    ensures
        ok <==> decode_group(s@.subrange(i as int, i + 4), last) is Some,
        ok ==> final(out)@ == old(out)@ + decode_group(s@.subrange(i as int, i + 4), last)->0,
{
    let ghost g = s@.subrange(i as int, i + 4);
    assert(g[0] == s@[i as int] && g[1] == s@[i + 1] && g[2] == s@[i + 2] && g[3] == s@[i + 3]);
    let a = sextet_of(s[i]);
    let b = sextet_of(s[i + 1]);
    let c = sextet_of(s[i + 2]);
    let d = sextet_of(s[i + 3]);
    match (a, b, c, d) {
        (Some(a), Some(b), Some(c), Some(d)) => {
            out.push(a * 4 + b / 16);
            out.push((b % 16) * 16 + c / 4);
            out.push((c % 4) * 64 + d);
            assert(out@ =~= old(out)@ + seq![
                byte0(a as nat, b as nat),
                byte1(b as nat, c as nat),
                byte2(c as nat, d as nat),
            ]);
            true
        },
        (Some(a), Some(b), None, None) => {
            if last && s[i + 2] == '=' && s[i + 3] == '=' {
                out.push(a * 4 + b / 16);
                assert(out@ =~= old(out)@ + seq![byte0(a as nat, b as nat)]);
                true
            } else {
                false
            }
        },
        (Some(a), Some(b), Some(c), None) => {
            if last && s[i + 3] == '=' {
                out.push(a * 4 + b / 16);
                out.push((b % 16) * 16 + c / 4);
                assert(out@ =~= old(out)@ + seq![byte0(a as nat, b as nat), byte1(b as nat, c as nat)]);
                true
            } else {
                false
            }
        },
        _ => false,
    }
}

/// Decodes padded base64 text.
pub fn decode_base64(s: &[char]) -> (r: Option<Vec<u8>>)
    ensures
        r matches Some(v) ==> decode(s@) == Some(v@),
        r is None ==> decode(s@) is None,
{
    let mut out: Vec<u8> = Vec::new();
    let mut i: usize = 0;
    assert(s@.skip(0) =~= s@);
    while i < s.len()
        invariant
            i <= s@.len(),
            decode(s@) == (match decode(s@.skip(i as int)) {
                Some(rest) => Some(out@ + rest),
                None => None,
            }),
        decreases s@.len() - i,
    {
        let ghost rest = s@.skip(i as int);
        if s.len() - i < 4 {
            return None;
        }
        let ghost before = out@;
        let last = s.len() - i == 4;
        assert(rest.take(4) =~= s@.subrange(i as int, i + 4));
        assert(rest.skip(4) =~= s@.skip(i + 4));
        if !group_bytes(s, i, last, &mut out) {
            return None;
        }
        proof {
            let g = decode_group(s@.subrange(i as int, i + 4), last)->0;
            assert(out@ == before + g);
            match decode(s@.skip(i + 4)) {
                Some(r2) => {
                    assert(before + (g + r2) =~= out@ + r2);
                },
                None => {},
            }
        }
        i = i + 4;
    }
    assert(s@.skip(i as int) =~= Seq::<char>::empty());
    assert(out@ + Seq::<u8>::empty() =~= out@);
    Some(out)
}

// ---------------------------------------------------------------------------
// Encoding, and decoding as its inverse
// ---------------------------------------------------------------------------

/// The RFC 4648 base64 alphabet: the character for each 6-bit value.
pub open spec fn alphabet() -> Seq<char> {
    "ABCDEFGHIJKLMNOPQRSTUVWXYZabcdefghijklmnopqrstuvwxyz0123456789+/"@
}

/// Standard base64 encoding with `=` padding: each group of three bytes
/// becomes four characters of the alphabet, and a final group of one or two
/// bytes is padded.
pub open spec fn encode(b: Seq<u8>) -> Seq<char>
    decreases b.len(),
{
    let a = alphabet();
    if b.len() == 0 {
        Seq::empty()
    } else {
        let x = b[0] as int;
        let y = if b.len() > 1 {
            b[1] as int
        } else {
            0
        };
        let z = if b.len() > 2 {
            b[2] as int
        } else {
            0
        };
        if b.len() == 1 {
            seq![a[x / 4], a[(x % 4) * 16], '=', '=']
        } else if b.len() == 2 {
            seq![a[x / 4], a[(x % 4) * 16 + y / 16], a[(y % 16) * 4], '=']
        } else {
            seq![a[x / 4], a[(x % 4) * 16 + y / 16], a[(y % 16) * 4 + z / 64], a[z % 64]]
                + encode(b.skip(3))
        }
    }
}

/// Each character of the alphabet decodes to its own value.
proof fn lemma_alphabet_value(v: int)
    requires
        0 <= v < 64,
    ensures
        sextet(alphabet()[v]) == Some(v as nat),
{
    reveal_strlit("ABCDEFGHIJKLMNOPQRSTUVWXYZabcdefghijklmnopqrstuvwxyz0123456789+/");
    let a = alphabet();
    if v == 0 {
        assert(a[0] == 'A');
    } else if v == 1 {
        assert(a[1] == 'B');
    } else if v == 2 {
        assert(a[2] == 'C');
    } else if v == 3 {
        assert(a[3] == 'D');
    } else if v == 4 {
        assert(a[4] == 'E');
    } else if v == 5 {
        assert(a[5] == 'F');
    } else if v == 6 {
        assert(a[6] == 'G');
    } else if v == 7 {
        assert(a[7] == 'H');
    } else if v == 8 {
        assert(a[8] == 'I');
    } else if v == 9 {
        assert(a[9] == 'J');
    } else if v == 10 {
        assert(a[10] == 'K');
    } else if v == 11 {
        assert(a[11] == 'L');
    } else if v == 12 {
        assert(a[12] == 'M');
    } else if v == 13 {
        assert(a[13] == 'N');
    } else if v == 14 {
        assert(a[14] == 'O');
    } else if v == 15 {
        assert(a[15] == 'P');
    } else if v == 16 {
        assert(a[16] == 'Q');
    } else if v == 17 {
        assert(a[17] == 'R');
    } else if v == 18 {
        assert(a[18] == 'S');
    } else if v == 19 {
        assert(a[19] == 'T');
    } else if v == 20 {
        assert(a[20] == 'U');
    } else if v == 21 {
        assert(a[21] == 'V');
    } else if v == 22 {
        assert(a[22] == 'W');
    } else if v == 23 {
        assert(a[23] == 'X');
    } else if v == 24 {
        assert(a[24] == 'Y');
    } else if v == 25 {
        assert(a[25] == 'Z');
    } else if v == 26 {
        assert(a[26] == 'a');
    } else if v == 27 {
        assert(a[27] == 'b');
    } else if v == 28 {
        assert(a[28] == 'c');
    } else if v == 29 {
        assert(a[29] == 'd');
    } else if v == 30 {
        assert(a[30] == 'e');
    } else if v == 31 {
        assert(a[31] == 'f');
    } else if v == 32 {
        assert(a[32] == 'g');
    } else if v == 33 {
        assert(a[33] == 'h');
    } else if v == 34 {
        assert(a[34] == 'i');
    } else if v == 35 {
        assert(a[35] == 'j');
    } else if v == 36 {
        assert(a[36] == 'k');
    } else if v == 37 {
        assert(a[37] == 'l');
    } else if v == 38 {
        assert(a[38] == 'm');
    } else if v == 39 {
        assert(a[39] == 'n');
    } else if v == 40 {
        assert(a[40] == 'o');
    } else if v == 41 {
        assert(a[41] == 'p');
    } else if v == 42 {
        assert(a[42] == 'q');
    } else if v == 43 {
        assert(a[43] == 'r');
    } else if v == 44 {
        assert(a[44] == 's');
    } else if v == 45 {
        assert(a[45] == 't');
    } else if v == 46 {
        assert(a[46] == 'u');
    } else if v == 47 {
        assert(a[47] == 'v');
    } else if v == 48 {
        assert(a[48] == 'w');
    } else if v == 49 {
        assert(a[49] == 'x');
    } else if v == 50 {
        assert(a[50] == 'y');
    } else if v == 51 {
        assert(a[51] == 'z');
    } else if v == 52 {
        assert(a[52] == '0');
    } else if v == 53 {
        assert(a[53] == '1');
    } else if v == 54 {
        assert(a[54] == '2');
    } else if v == 55 {
        assert(a[55] == '3');
    } else if v == 56 {
        assert(a[56] == '4');
    } else if v == 57 {
        assert(a[57] == '5');
    } else if v == 58 {
        assert(a[58] == '6');
    } else if v == 59 {
        assert(a[59] == '7');
    } else if v == 60 {
        assert(a[60] == '8');
    } else if v == 61 {
        assert(a[61] == '9');
    } else if v == 62 {
        assert(a[62] == '+');
    } else if v == 63 {
        assert(a[63] == '/');
    }
}

/// Decoding inverts standard base64 encoding: every byte sequence is what
/// its encoding decodes to.
pub proof fn lemma_decode_encode(b: Seq<u8>)
    ensures
        decode(encode(b)) == Some(b),
    decreases b.len(),
{
    let a = alphabet();
    let s = encode(b);
    if b.len() == 0 {
    } else {
        let x = b[0] as int;
        lemma_alphabet_value(x / 4);
        if b.len() == 1 {
            lemma_alphabet_value((x % 4) * 16);
            let g = s.take(4);
            assert(g =~= s);
            assert(s.skip(4) =~= Seq::<char>::empty());
            assert(byte0((x / 4) as nat, ((x % 4) * 16) as nat) == b[0]);
            assert(seq![b[0]] + Seq::<u8>::empty() =~= b);
        } else {
            let y = b[1] as int;
            lemma_alphabet_value((x % 4) * 16 + y / 16);
            if b.len() == 2 {
                lemma_alphabet_value((y % 16) * 4);
                assert(s.take(4) =~= s);
                assert(s.skip(4) =~= Seq::<char>::empty());
                assert(byte0((x / 4) as nat, ((x % 4) * 16 + y / 16) as nat) == b[0]);
                assert(byte1(((x % 4) * 16 + y / 16) as nat, ((y % 16) * 4) as nat) == b[1]);
                assert(seq![b[0], b[1]] + Seq::<u8>::empty() =~= b);
            } else {
                let z = b[2] as int;
                lemma_alphabet_value((y % 16) * 4 + z / 64);
                lemma_alphabet_value(z % 64);
                let g = seq![
                    a[x / 4],
                    a[(x % 4) * 16 + y / 16],
                    a[(y % 16) * 4 + z / 64],
                    a[z % 64],
                ];
                assert(s == g + encode(b.skip(3)));
                assert(s.take(4) =~= g);
                assert(s.skip(4) =~= encode(b.skip(3)));
                lemma_decode_encode(b.skip(3));
                assert(byte0((x / 4) as nat, ((x % 4) * 16 + y / 16) as nat) == b[0]);
                assert(byte1(((x % 4) * 16 + y / 16) as nat, ((y % 16) * 4 + z / 64) as nat) == b[1]);
                assert(byte2(((y % 16) * 4 + z / 64) as nat, (z % 64) as nat) == b[2]);
                assert(seq![b[0], b[1], b[2]] + b.skip(3) =~= b);
            }
        }
    }
}

} // verus!
