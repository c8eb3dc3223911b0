//! Byte-level building blocks shared by the request builders: decimal numbers,
//! `host:port` authorities, Base64 and the search for the end of an HTTP head.
use vstd::prelude::*;
use vstd::string::*;

verus! {

/// The ASCII decimal digits of `n`, without leading zeros (`0` is one digit).
pub open spec fn decimal(n: nat) -> Seq<u8>
    decreases n,
{
    if n < 10 {
        seq![(48 + n) as u8]
    } else {
        decimal(n / 10).push((48 + n % 10) as u8)
    }
}

/// `host:port`, as the proxy and TCP layers write an authority.
pub open spec fn authority(host: Seq<u8>, port: u16) -> Seq<u8> {
    host + seq![58u8] + decimal(port as nat)
}

/// Appends all of `src` to `out`.
pub fn push_all(out: &mut Vec<u8>, src: &[u8])
    ensures
        final(out)@ == old(out)@ + src@,
{
    let ghost start = out@;
    let mut i: usize = 0;
    while i < src.len()
        invariant
            i <= src@.len(),
            out@ == start + src@.take(i as int),
        decreases src@.len() - i,
    {
        out.push(src[i]);
        i = i + 1;
        assert(src@.take(i as int) == src@.take((i - 1) as int).push(src@[i - 1]));
    }
    assert(src@.take(i as int) == src@);
}

/// Appends the decimal digits of `n` to `out`.
pub fn push_decimal(out: &mut Vec<u8>, n: u16)
    ensures
        final(out)@ == old(out)@ + decimal(n as nat),
    decreases n,
{
    if n >= 10 {
        push_decimal(out, n / 10);
    }
    out.push(48u8 + (n % 10) as u8);
    assert(n < 10 ==> n % 10 == n);
}

/// The authority `host:port`, as bytes.
pub fn authority_bytes(host: &[u8], port: u16) -> (res: Vec<u8>)
    ensures
        res@ == authority(host@, port),
{
    let mut out: Vec<u8> = Vec::new();
    push_all(&mut out, host);
    out.push(58u8);
    push_decimal(&mut out, port);
    out
}

/// Whether two byte strings are equal.
pub fn bytes_equal(a: &[u8], b: &[u8]) -> (res: bool)
    ensures
        res == (a@ == b@),
{
    if a.len() != b.len() {
        return false;
    }
    let mut i: usize = 0;
    while i < a.len()
        invariant
            a@.len() == b@.len(),
            i <= a@.len(),
            forall|j: int| 0 <= j < i ==> a@[j] == b@[j],
        decreases a@.len() - i,
    {
        if a[i] != b[i] {
            return false;
        }
        i = i + 1;
    }
    assert(a@ =~= b@);
    true
}

/// Whether `prefix` is a prefix of `data`.
pub open spec fn has_prefix(data: Seq<u8>, prefix: Seq<u8>) -> bool {
    prefix.len() <= data.len() && data.take(prefix.len() as int) == prefix
}

/// Whether `data` starts with `prefix`.
pub fn starts_with(data: &[u8], prefix: &[u8]) -> (res: bool)
    ensures
        res == has_prefix(data@, prefix@),
{
    if prefix.len() > data.len() {
        return false;
    }
    let mut i: usize = 0;
    while i < prefix.len()
        invariant
            prefix@.len() <= data@.len(),
            i <= prefix@.len(),
            forall|j: int| 0 <= j < i ==> data@[j] == prefix@[j],
        decreases prefix@.len() - i,
    {
        if data[i] != prefix[i] {
            assert(data@.take(prefix@.len() as int)[i as int] != prefix@[i as int]);
            return false;
        }
        i = i + 1;
    }
    assert(data@.take(prefix@.len() as int) =~= prefix@);
    true
}

/// The blank line `\r\n\r\n` that ends an HTTP head.
pub open spec fn head_terminator() -> Seq<u8> {
    seq![13u8, 10u8, 13u8, 10u8]
}

/// Whether `\r\n\r\n` occurs anywhere in `data`.
pub open spec fn has_head_terminator(data: Seq<u8>) -> bool {
    exists|i: int| 0 <= i && i + 4 <= data.len() && #[trigger] data.subrange(i, i + 4) == head_terminator()
}

/// Whether `\r\n\r\n` occurs anywhere in `data`.
pub fn contains_head_terminator(data: &[u8]) -> (res: bool)
    ensures
        res == has_head_terminator(data@),
{
    let n = data.len();
    if n < 4 {
        return false;
    }
    let mut i: usize = 0;
    while i <= n - 4
        invariant
            n == data@.len(),
            4 <= n,
            i <= n - 3,
            forall|k: int| 0 <= k < i ==> #[trigger] data@.subrange(k, k + 4) != head_terminator(),
        decreases n - i,
    {
        if data[i] == 13u8 && data[i + 1] == 10u8 && data[i + 2] == 13u8 && data[i + 3] == 10u8 {
            assert(data@.subrange(i as int, i + 4) =~= head_terminator());
            return true;
        }
        assert(data@.subrange(i as int, i + 4)[0] == data@[i as int]);
        assert(data@.subrange(i as int, i + 4)[1] == data@[i + 1]);
        assert(data@.subrange(i as int, i + 4)[2] == data@[i + 2]);
        assert(data@.subrange(i as int, i + 4)[3] == data@[i + 3]);
        i = i + 1;
    }
    assert forall|k: int| 0 <= k && k + 4 <= data@.len() implies #[trigger] data@.subrange(k, k + 4) != head_terminator() by {
        assert(k < i);
    }
    false
}

/// The character of the standard Base64 alphabet for the six-bit value `v`.
pub open spec fn base64_char(v: int) -> u8 {
    if v < 26 {
        (65 + v) as u8
    } else if v < 52 {
        (97 + v - 26) as u8
    } else if v < 62 {
        (48 + v - 52) as u8
    } else if v == 62 {
        43u8
    } else {
        47u8
    }
}

/// Standard Base64 (RFC 4648, with `=` padding) of `d`.
pub open spec fn base64(d: Seq<u8>) -> Seq<u8>
    decreases d.len(),
{
    if d.len() == 0 {
        seq![]
    } else {
        let a = d[0] as int;
        if d.len() == 1 {
            seq![base64_char(a / 4), base64_char((a % 4) * 16), 61u8, 61u8]
        } else {
            let b = d[1] as int;
            if d.len() == 2 {
                seq![base64_char(a / 4), base64_char((a % 4) * 16 + b / 16), base64_char((b % 16) * 4), 61u8]
            } else {
                let c = d[2] as int;
                seq![
                    base64_char(a / 4),
                    base64_char((a % 4) * 16 + b / 16),
                    base64_char((b % 16) * 4 + c / 64),
                    base64_char(c % 64),
                ] + base64(d.skip(3))
            }
        }
    }
}

/// The six-bit value that a character of the standard Base64 alphabet stands for
/// (`A`-`Z`, `a`-`z`, `0`-`9`, `+`, `/`), or -1 for any other byte.
pub open spec fn base64_value(c: u8) -> int {
    if 65 <= c <= 90 {
        c - 65
    } else if 97 <= c <= 122 {
        c - 97 + 26
    } else if 48 <= c <= 57 {
        c - 48 + 52
    } else if c == 43 {
        62
    } else if c == 47 {
        63
    } else {
        -1
    }
}

/// Every six-bit value has its own character of the alphabet, and that character
/// stands for it; no value is written as the padding `=`.
pub proof fn lemma_base64_alphabet(v: int)
    requires
        0 <= v < 64,
    ensures
        base64_value(base64_char(v)) == v,
        base64_char(v) != 61u8,
{
}

/// Base64 writes every three bytes as four characters that hold their 24 bits, high
/// bits first; one or two bytes left at the end are written with padding, and their bits
/// are kept the same way. The encoding of a longer input is that of its first three bytes
/// followed by that of the rest, so it is four characters for every started group of three.
pub proof fn lemma_base64_keeps_bits(x: u8, y: u8, z: u8, rest: Seq<u8>)
    ensures
        ({
            let e = base64(seq![x, y, z]);
            &&& e.len() == 4
            &&& base64_value(e[0]) * 262144 + base64_value(e[1]) * 4096 + base64_value(e[2]) * 64 + base64_value(e[3])
                == (x as int) * 65536 + (y as int) * 256 + (z as int)
        }),
        ({
            let e = base64(seq![x, y]);
            &&& e.len() == 4 && e[3] == 61u8
            &&& base64_value(e[0]) * 4096 + base64_value(e[1]) * 64 + base64_value(e[2]) == ((x as int) * 256 + (y as int)) * 4
        }),
        ({
            let e = base64(seq![x]);
            &&& e.len() == 4 && e[2] == 61u8 && e[3] == 61u8
            &&& base64_value(e[0]) * 64 + base64_value(e[1]) == (x as int) * 16
        }),
        base64(seq![x, y, z] + rest) == base64(seq![x, y, z]) + base64(rest),
        base64(rest).len() == 4 * ((rest.len() + 2) / 3),
    decreases rest.len(),
{
    let a = x as int;
    let b = y as int;
    let c = z as int;
    lemma_base64_alphabet(a / 4);
    lemma_base64_alphabet((a % 4) * 16 + b / 16);
    lemma_base64_alphabet((b % 16) * 4 + c / 64);
    lemma_base64_alphabet(c % 64);
    lemma_base64_alphabet((a % 4) * 16);
    lemma_base64_alphabet((b % 16) * 4);
    assert((a / 4) * 262144 + ((a % 4) * 16 + b / 16) * 4096 + ((b % 16) * 4 + c / 64) * 64 + c % 64
        == a * 65536 + b * 256 + c) by (nonlinear_arith)
        requires 0 <= a < 256, 0 <= b < 256, 0 <= c < 256;
    assert((a / 4) * 4096 + ((a % 4) * 16 + b / 16) * 64 + (b % 16) * 4 == (a * 256 + b) * 4) by (nonlinear_arith)
        requires 0 <= a < 256, 0 <= b < 256;
    assert((a / 4) * 64 + (a % 4) * 16 == a * 16) by (nonlinear_arith)
        requires 0 <= a < 256;
    let d = seq![x, y, z] + rest;
    assert(d.skip(3) =~= rest);
    assert(seq![x, y, z].skip(3) =~= Seq::<u8>::empty());
    assert(base64(Seq::<u8>::empty()) == Seq::<u8>::empty());
    assert(d[0] == x && d[1] == y && d[2] == z);
    assert(base64(seq![x, y, z]) =~= seq![
        base64_char(a / 4),
        base64_char((a % 4) * 16 + b / 16),
        base64_char((b % 16) * 4 + c / 64),
        base64_char(c % 64),
    ]);
    if rest.len() >= 3 {
        lemma_base64_keeps_bits(rest[0], rest[1], rest[2], rest.skip(3));
        assert(rest =~= seq![rest[0], rest[1], rest[2]] + rest.skip(3));
    }
}

fn base64_digit(v: u8) -> (c: u8)
    requires
        v < 64,
    ensures
        c == base64_char(v as int),
{
    if v < 26 {
        65 + v
    } else if v < 52 {
        97 + (v - 26)
    } else if v < 62 {
        48 + (v - 52)
    } else if v == 62 {
        43
    } else {
        47
    }
}

/// Appends the standard Base64 encoding of `data` to `out`.
pub fn push_base64(out: &mut Vec<u8>, data: &[u8])
    ensures
        final(out)@ == old(out)@ + base64(data@),
{
    let ghost start = out@;
    let n = data.len();
    let mut i: usize = 0;
    assert(data@.skip(0) =~= data@);
    while i < n
        invariant
            n == data@.len(),
            i <= n,
            start + base64(data@) == out@ + base64(data@.skip(i as int)),
        decreases n - i,
    {
        let ghost rest = data@.skip(i as int);
        let ghost before = out@;
        let b0 = data[i];
        assert(rest[0] == b0);
        if n - i == 1 {
            out.push(base64_digit(b0 / 4));
            out.push(base64_digit((b0 % 4) * 16));
            out.push(61u8);
            out.push(61u8);
            assert(base64(rest) == out@.subrange(before.len() as int, out@.len() as int));
            i = n;
        } else {
            let b1 = data[i + 1];
            assert(rest[1] == b1);
            if n - i == 2 {
                out.push(base64_digit(b0 / 4));
                out.push(base64_digit((b0 % 4) * 16 + b1 / 16));
                out.push(base64_digit((b1 % 16) * 4));
                out.push(61u8);
                assert(base64(rest) == out@.subrange(before.len() as int, out@.len() as int));
                i = n;
            } else {
                let b2 = data[i + 2];
                assert(rest[2] == b2);
                out.push(base64_digit(b0 / 4));
                out.push(base64_digit((b0 % 4) * 16 + b1 / 16));
                out.push(base64_digit((b1 % 16) * 4 + b2 / 64));
                out.push(base64_digit(b2 % 64));
                assert(rest.skip(3) =~= data@.skip(i + 3));
                assert(base64(rest) == out@.subrange(before.len() as int, out@.len() as int) + base64(data@.skip(i + 3)));
                i = i + 3;
            }
        }
        assert(data@.skip(i as int).len() == 0 ==> base64(data@.skip(i as int)) =~= seq![]);
        assert(out@ =~= before + out@.subrange(before.len() as int, out@.len() as int));
    }
    assert(data@.skip(i as int).len() == 0);
    assert(base64(data@.skip(i as int)) =~= seq![]);
    assert(out@ + base64(data@.skip(i as int)) =~= out@);
}

} // verus!
