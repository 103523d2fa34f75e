//! The bytes written on the serial line: the start-up banner and the line
//! that reports the flash identifier.
use vstd::prelude::*;

verus! {

/// The bytes of a text whose characters are all ASCII, one byte each.
pub open spec fn ascii(s: Seq<char>) -> Seq<u8> {
    s.map_values(|c: char| c as u8)
}

/// The ASCII digit of `d`, for `d` below ten.
pub open spec fn digit(d: nat) -> u8 {
    (48 + d) as u8
}

/// The decimal rendering of `n`, without leading zeros.
pub open spec fn decimal(n: nat) -> Seq<u8>
    decreases n,
{
    if n < 10 {
        seq![digit(n)]
    } else {
        decimal(n / 10).push(digit(n % 10))
    }
}

/// The items of `s` in decimal, separated by a comma and a space.
pub open spec fn list_items(s: Seq<u8>) -> Seq<u8>
    decreases s.len(),
{
    if s.len() == 0 {
        Seq::empty()
    } else if s.len() == 1 {
        decimal(s[0] as nat)
    } else {
        list_items(s.drop_last()) + ascii(seq![',', ' ']) + decimal(s.last() as nat)
    }
}

/// `s` written as a bracketed list of decimal numbers, as in `[239, 96, 23]`.
pub open spec fn byte_list(s: Seq<u8>) -> Seq<u8> {
    ascii(seq!['[']) + list_items(s) + ascii(seq![']'])
}

/// The banner sent once at start-up.
pub open spec fn banner_text() -> Seq<u8> {
    ascii("Hello, Pandora!\r\n"@)
}

/// The line that reports the identifier bytes `id`.
pub open spec fn id_report_text(id: Seq<u8>) -> Seq<u8> {
    ascii("SPI ID:"@) + byte_list(id) + ascii("\r\n"@)
}

/// Appends the characters of `s` to `out`, one byte each.
pub fn push_text(out: &mut Vec<u8>, s: &str)
    ensures
        final(out)@ == old(out)@ + ascii(s@),
{
    let ghost start = out@;
    let n = s.unicode_len();
    let mut i: usize = 0;
    while i < n
        invariant
            n == s@.len(),
            i <= n,
            out@ == start + ascii(s@.subrange(0, i as int)),
        decreases n - i,
    {
        let c = s.get_char(i);
        out.push(c as u8);
        proof {
            assert(s@.subrange(0, i + 1) =~= s@.subrange(0, i as int).push(c));
            assert(ascii(s@.subrange(0, i + 1)) =~= ascii(s@.subrange(0, i as int)).push(c as u8));
        }
        i = i + 1;
    }
    assert(s@.subrange(0, i as int) =~= s@);
}

/// Appends the decimal rendering of `n` to `out`.
pub fn push_decimal(out: &mut Vec<u8>, n: u8)
    ensures
        final(out)@ == old(out)@ + decimal(n as nat),
{
    let ghost start = out@;
    let n2 = n / 100;
    let n1 = (n / 10) % 10;
    let n0 = n % 10;
    if n >= 100 {
        out.push(48 + n2);
    }
    if n >= 10 {
        out.push(48 + n1);
    }
    out.push(48 + n0);
    proof {
        let m = n as nat;
        reveal_with_fuel(decimal, 3);
        if m >= 100 {
            assert(m / 10 / 10 == m / 100);
            assert((m / 10) % 10 == n1);
            assert(m / 10 >= 10);
            assert(m / 100 < 10);
            assert(decimal(m) =~= seq![digit(n2 as nat), digit(n1 as nat), digit(n0 as nat)]);
        } else if m >= 10 {
            assert(decimal(m) =~= seq![digit(n1 as nat), digit(n0 as nat)]);
        } else {
            assert(decimal(m) =~= seq![digit(n0 as nat)]);
        }
        assert(out@ =~= start + decimal(m));
    }
}

/// Appends `s` written as a bracketed list of decimal numbers to `out`.
pub fn push_byte_list(out: &mut Vec<u8>, s: &[u8])
    ensures
        final(out)@ == old(out)@ + byte_list(s@),
{
    let ghost start = out@;
    push_text(out, "[");
    let mut i: usize = 0;
    while i < s.len()
        invariant
            i <= s@.len(),
            out@ == start + ascii("["@) + list_items(s@.subrange(0, i as int)),
        decreases s@.len() - i,
    {
        let ghost before = out@;
        if i > 0 {
            push_text(out, ", ");
        }
        push_decimal(out, s[i]);
        proof {
            let p = s@.subrange(0, i + 1);
            assert(p.drop_last() =~= s@.subrange(0, i as int));
            if i > 0 {
                reveal_strlit(", ");
                assert(ascii(", "@) =~= ascii(seq![',', ' ']));
                assert(out@ =~= before + ascii(seq![',', ' ']) + decimal(s@[i as int] as nat));
            } else {
                assert(s@.subrange(0, 0) =~= Seq::<u8>::empty());
                assert(list_items(p) == decimal(s@[0] as nat));
                assert(out@ =~= before + decimal(s@[i as int] as nat));
            }
        }
        i = i + 1;
    }
    push_text(out, "]");
    proof {
        reveal_strlit("[");
        reveal_strlit("]");
        assert(s@.subrange(0, i as int) =~= s@);
        assert(ascii("["@) =~= ascii(seq!['[']));
        assert(ascii("]"@) =~= ascii(seq![']']));
        assert(out@ =~= start + byte_list(s@));
    }
}

/// The start-up banner, `Hello, Pandora!` followed by CR LF.
pub fn banner() -> (r: Vec<u8>)
    ensures
        r@ == banner_text(),
{
    let mut r: Vec<u8> = Vec::new();
    push_text(&mut r, "Hello, Pandora!\r\n");
    assert(r@ =~= banner_text());
    r
}

/// The identifier report: `SPI ID:`, the bytes of `id` as a bracketed decimal
/// list, then CR LF.
pub fn id_report(id: &[u8]) -> (r: Vec<u8>)
    ensures
        r@ == id_report_text(id@),
{
    let mut r: Vec<u8> = Vec::new();
    push_text(&mut r, "SPI ID:");
    push_byte_list(&mut r, id);
    push_text(&mut r, "\r\n");
    assert(r@ =~= id_report_text(id@));
    r
}

} // verus!
