//! The start-up banner: a colour gradient across a line of text, and centring.

use vstd::prelude::*;
use crate::text::{append_str, chars_of, decimal, decimal_chars, string_of};

verus! {

/// The channel value a fraction `i / last` of the way from `a` to `b`, rounded
/// towards zero; `a` where the line has a single character.
pub open spec fn lerp_value(a: u8, b: u8, i: nat, last: nat) -> nat {
    if last == 0 {
        a as nat
    } else {
        ((a as int * last as int + (b as int - a as int) * i as int) / last as int) as nat
    }
}

/// One coloured character: a 24-bit foreground colour escape, then the character.
pub open spec fn colored_char(c: char, i: nat, last: nat) -> Seq<char> {
    "\x1b[38;2;"@ + decimal(lerp_value(36, 255, i, last)) + ";"@ + decimal(lerp_value(144, 120, i, last))
        + ";"@ + decimal(lerp_value(255, 48, i, last)) + "m"@ + seq![c]
}

/// The first `n` characters of `cs`, each coloured.
pub open spec fn colored_prefix(cs: Seq<char>, n: nat, last: nat) -> Seq<char>
    decreases n,
{
    if n == 0 || n > cs.len() {
        Seq::empty()
    } else {
        colored_prefix(cs, (n - 1) as nat, last) + colored_char(cs[n - 1], (n - 1) as nat, last)
    }
}

/// A line with its colour running from blue to orange, followed by a reset.
pub open spec fn gradient(cs: Seq<char>) -> Seq<char> {
    colored_prefix(cs, cs.len(), if cs.len() <= 1 { 0 } else { (cs.len() - 1) as nat })
        + "\x1b[0m"@
}

/// The colour channel at character `i` of a line whose last index is `last`.
pub fn lerp(a: u8, b: u8, i: u64, last: u64) -> (r: u8)
    requires
        i <= last,
        last < 0x1_0000_0000,
    ensures
        r as nat == lerp_value(a, b, i as nat, last as nat),
{
    if last == 0 {
        return a;
    }
    proof {
        let (ai, bi, ii, li) = (a as int, b as int, i as int, last as int);
        assert(0 <= ai * li <= 255 * 0x1_0000_0000) by (nonlinear_arith)
            requires 0 <= ai <= 255, 0 <= li < 0x1_0000_0000;
        assert(-255 * 0x1_0000_0000 <= (bi - ai) * ii <= 255 * 0x1_0000_0000) by (nonlinear_arith)
            requires 0 <= ai <= 255, 0 <= bi <= 255, 0 <= ii < 0x1_0000_0000;
        assert(ai * li + (bi - ai) * ii >= 0 && ai * li + (bi - ai) * ii <= 255 * li) by (nonlinear_arith)
            requires 0 <= ai <= 255, 0 <= bi <= 255, 0 <= ii <= li;
        assert((ai * li + (bi - ai) * ii) / li <= 255) by (nonlinear_arith)
            requires ai * li + (bi - ai) * ii <= 255 * li, li > 0;
        assert((ai * li + (bi - ai) * ii) / li >= 0) by (nonlinear_arith)
            requires ai * li + (bi - ai) * ii >= 0, li > 0;
    }
    let num: i128 = (a as i128) * (last as i128) + ((b as i128) - (a as i128)) * (i as i128);
    (num / (last as i128)) as u8
}

/// `line` with a colour gradient across its characters.
pub fn gradient_line(line: &str) -> (r: String)
    requires
        line@.len() < 0x1_0000_0000,
    ensures
        r@ == gradient(line@),
{
    let cs = chars_of(line);
    let last: u64 = if cs.len() <= 1 { 0 } else { (cs.len() - 1) as u64 };
    let mut out: Vec<char> = Vec::new();
    let mut i: usize = 0;
    while i < cs.len()
        invariant
            cs@ == line@,
            cs@.len() < 0x1_0000_0000,
            last == if cs@.len() <= 1 { 0 } else { (cs@.len() - 1) as nat },
            i <= cs@.len(),
            out@ == colored_prefix(cs@, i as nat, last as nat),
        decreases cs@.len() - i,
    {
        let ghost before = out@;
        append_str(&mut out, "\x1b[38;2;");
        let mut d = decimal_chars(lerp(36, 255, i as u64, last) as u64);
        out.append(&mut d);
        append_str(&mut out, ";");
        let mut d = decimal_chars(lerp(144, 120, i as u64, last) as u64);
        out.append(&mut d);
        append_str(&mut out, ";");
        let mut d = decimal_chars(lerp(255, 48, i as u64, last) as u64);
        out.append(&mut d);
        append_str(&mut out, "m");
        out.push(cs[i]);
        assert(out@ =~= before + colored_char(cs@[i as int], i as nat, last as nat));
        i += 1;
    }
    append_str(&mut out, "\x1b[0m");
    string_of(out.as_slice())
}

/// `text` centred in a field of `width` characters; as it is where it does not fit.
pub open spec fn centered(text: Seq<char>, width: nat) -> Seq<char> {
    if text.len() < width {
        let pad = ((width - text.len()) / 2) as nat;
        Seq::new(pad, |i: int| ' ') + text + Seq::new((width - text.len() - pad) as nat, |i: int| ' ')
    } else {
        text
    }
}

fn spaces(out: &mut Vec<char>, n: usize)
    ensures
        final(out)@ == old(out)@ + Seq::new(n as nat, |i: int| ' '),
{
    let mut k: usize = 0;
    while k < n
        invariant
            k <= n,
            out@ == old(out)@ + Seq::new(k as nat, |i: int| ' '),
        decreases n - k,
    {
        out.push(' ');
        assert(out@ =~= old(out)@ + Seq::new((k + 1) as nat, |i: int| ' '));
        k += 1;
    }
}

/// `text` centred in a field of `width` characters.
pub fn center_text(text: &str, width: usize) -> (r: String)
    ensures
        r@ == centered(text@, width as nat),
{
    let cs = chars_of(text);
    if cs.len() >= width {
        return string_of(cs.as_slice());
    }
    let len = cs.len();
    let pad = (width - len) / 2;
    let mut out: Vec<char> = Vec::new();
    spaces(&mut out, pad);
    let mut body = cs;
    out.append(&mut body);
    spaces(&mut out, width - len - pad);
    string_of(out.as_slice())
}

} // verus!
