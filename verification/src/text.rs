//! Verified text utilities: substring search (exact and ASCII
//! case-insensitive), string equality, and the fixed-width hexadecimal and
//! decimal renderings used by the device records.

use vstd::prelude::*;
use vstd::string::*;

verus! {

// ---------------------------------------------------------------------------
// ASCII case folding and substring containment
// ---------------------------------------------------------------------------

/// The code of a character after ASCII case folding: uppercase ASCII letters
/// fold onto their lowercase counterparts, all other characters are unchanged.
pub open spec fn lower_code(c: char) -> int {
    if 65 <= c as u32 && c as u32 <= 90 {
        c as u32 + 32
    } else {
        c as u32 as int
    }
}

/// Two characters are equal up to ASCII case.
pub open spec fn chars_ieq(a: char, b: char) -> bool {
    lower_code(a) == lower_code(b)
}

/// `w` occurs in `s` at position `i`, ignoring ASCII case.
pub open spec fn matches_at_nocase(s: Seq<char>, w: Seq<char>, i: int) -> bool {
    forall|j: int| 0 <= j < w.len() ==> chars_ieq(s[i + j], w[j])
}

/// `w` occurs somewhere in `s`, ignoring ASCII case.
pub open spec fn contains_nocase(s: Seq<char>, w: Seq<char>) -> bool {
    exists|i: int| 0 <= i && i + w.len() <= s.len() && matches_at_nocase(s, w, i)
}

/// `w` occurs in `s` at position `i`.
pub open spec fn matches_at(s: Seq<char>, w: Seq<char>, i: int) -> bool {
    forall|j: int| 0 <= j < w.len() ==> s[i + j] == w[j]
}

/// `w` occurs somewhere in `s`.
pub open spec fn contains_sub(s: Seq<char>, w: Seq<char>) -> bool {
    exists|i: int| 0 <= i && i + w.len() <= s.len() && matches_at(s, w, i)
}

/// Computes the ASCII-case-folded code of a character.
pub fn lower_code_of(c: char) -> (r: u32)
    ensures
        r == lower_code(c),
{
    let v = c as u32;
    if 65 <= v && v <= 90 {
        v + 32
    } else {
        v
    }
}

/// Whether `w` occurs in `s` as a substring, ignoring ASCII case.
pub fn str_contains_nocase(s: &str, w: &str) -> (r: bool)
    ensures
        r == contains_nocase(s@, w@),
{
    let n = s.unicode_len();
    let m = w.unicode_len();
    if m > n {
        return false;
    }
    let mut i: usize = 0;
    while i <= n - m
        invariant
            m <= n,
            i <= n + 1 - m,
            n == s@.len(),
            m == w@.len(),
            forall|k: int| 0 <= k < i ==> !matches_at_nocase(s@, w@, k),
        decreases n - i,
    {
        let mut j: usize = 0;
        let mut ok = true;
        while j < m
            invariant
                i + m <= n,
                j <= m,
                n == s@.len(),
                m == w@.len(),
                ok ==> forall|t: int| 0 <= t < j ==> chars_ieq(s@[i + t], w@[t]),
                !ok ==> !matches_at_nocase(s@, w@, i as int),
            decreases m - j,
        {
            if ok {
                let a = lower_code_of(s.get_char(i + j));
                let b = lower_code_of(w.get_char(j));
                if a != b {
                    assert(!chars_ieq(s@[i + j], w@[j as int]));
                    ok = false;
                }
            }
            j += 1;
        }
        if ok {
            assert(matches_at_nocase(s@, w@, i as int));
            return true;
        }
        i += 1;
    }
    proof {
        assert forall|k: int| 0 <= k && k + m <= n implies !matches_at_nocase(s@, w@, k) by {
            assert(k < i);
        }
    }
    false
}

/// Whether `w` occurs in `s` as a substring.
pub fn str_contains(s: &str, w: &str) -> (r: bool)
    ensures
        r == contains_sub(s@, w@),
{
    let n = s.unicode_len();
    let m = w.unicode_len();
    if m > n {
        return false;
    }
    let mut i: usize = 0;
    while i <= n - m
        invariant
            m <= n,
            i <= n + 1 - m,
            n == s@.len(),
            m == w@.len(),
            forall|k: int| 0 <= k < i ==> !matches_at(s@, w@, k),
        decreases n - i,
    {
        let mut j: usize = 0;
        let mut ok = true;
        while j < m
            invariant
                i + m <= n,
                j <= m,
                n == s@.len(),
                m == w@.len(),
                ok ==> forall|t: int| 0 <= t < j ==> s@[i + t] == w@[t],
                !ok ==> !matches_at(s@, w@, i as int),
            decreases m - j,
        {
            if ok {
                let a = s.get_char(i + j);
                let b = w.get_char(j);
                if a != b {
                    assert(s@[i + j] != w@[j as int]);
                    ok = false;
                }
            }
            j += 1;
        }
        if ok {
            assert(matches_at(s@, w@, i as int));
            return true;
        }
        i += 1;
    }
    proof {
        assert forall|k: int| 0 <= k && k + m <= n implies !matches_at(s@, w@, k) by {
            assert(k < i);
        }
    }
    false
}

/// Whether two string slices hold the same characters.
pub fn str_eq(a: &str, b: &str) -> (r: bool)
    ensures
        r == (a@ == b@),
{
    let n = a.unicode_len();
    let m = b.unicode_len();
    if n != m {
        return false;
    }
    let mut i: usize = 0;
    while i < n
        invariant
            i <= n,
            n == a@.len(),
            n == b@.len(),
            forall|k: int| 0 <= k < i ==> a@[k] == b@[k],
        decreases n - i,
    {
        if a.get_char(i) != b.get_char(i) {
            return false;
        }
        i += 1;
    }
    proof {
        assert(a@ =~= b@);
    }
    true
}

/// Law: containment up to ASCII case is itself insensitive to ASCII case —
/// two strings equal up to case yield the same verdict for every word.
pub proof fn lemma_contains_nocase_insensitive(s1: Seq<char>, s2: Seq<char>, w: Seq<char>)
    requires
        s1.len() == s2.len(),
        forall|i: int| 0 <= i < s1.len() ==> chars_ieq(s1[i], s2[i]),
    ensures
        contains_nocase(s1, w) == contains_nocase(s2, w),
{
    if contains_nocase(s1, w) {
        let i = choose|i: int| 0 <= i && i + w.len() <= s1.len() && matches_at_nocase(s1, w, i);
        assert forall|j: int| 0 <= j < w.len() implies chars_ieq(s2[i + j], w[j]) by {
            assert(chars_ieq(s1[i + j], w[j]));
            assert(chars_ieq(s1[i + j], s2[i + j]));
        }
        assert(matches_at_nocase(s2, w, i));
    }
    if contains_nocase(s2, w) {
        let i = choose|i: int| 0 <= i && i + w.len() <= s2.len() && matches_at_nocase(s2, w, i);
        assert forall|j: int| 0 <= j < w.len() implies chars_ieq(s1[i + j], w[j]) by {
            assert(chars_ieq(s2[i + j], w[j]));
            assert(chars_ieq(s1[i + j], s2[i + j]));
        }
        assert(matches_at_nocase(s1, w, i));
    }
}

// ---------------------------------------------------------------------------
// Fixed-width hexadecimal and decimal renderings
// ---------------------------------------------------------------------------

/// The uppercase hexadecimal digit for a value below 16.
pub open spec fn hex_digit_upper(d: int) -> char {
    if d == 0 { '0' } else if d == 1 { '1' } else if d == 2 { '2' } else if d == 3 { '3' }
    else if d == 4 { '4' } else if d == 5 { '5' } else if d == 6 { '6' } else if d == 7 { '7' }
    else if d == 8 { '8' } else if d == 9 { '9' } else if d == 10 { 'A' } else if d == 11 { 'B' }
    else if d == 12 { 'C' } else if d == 13 { 'D' } else if d == 14 { 'E' } else { 'F' }
}

/// The lowercase hexadecimal digit for a value below 16.
pub open spec fn hex_digit_lower(d: int) -> char {
    if d == 0 { '0' } else if d == 1 { '1' } else if d == 2 { '2' } else if d == 3 { '3' }
    else if d == 4 { '4' } else if d == 5 { '5' } else if d == 6 { '6' } else if d == 7 { '7' }
    else if d == 8 { '8' } else if d == 9 { '9' } else if d == 10 { 'a' } else if d == 11 { 'b' }
    else if d == 12 { 'c' } else if d == 13 { 'd' } else if d == 14 { 'e' } else { 'f' }
}

/// The four uppercase hexadecimal digits of a 16-bit value, zero-padded.
pub open spec fn hex4_upper(v: u16) -> Seq<char> {
    seq![
        hex_digit_upper(v as int / 4096),
        hex_digit_upper(v as int / 256 % 16),
        hex_digit_upper(v as int / 16 % 16),
        hex_digit_upper(v as int % 16),
    ]
}

/// The four lowercase hexadecimal digits of a 16-bit value, zero-padded.
pub open spec fn hex4_lower(v: u16) -> Seq<char> {
    seq![
        hex_digit_lower(v as int / 4096),
        hex_digit_lower(v as int / 256 % 16),
        hex_digit_lower(v as int / 16 % 16),
        hex_digit_lower(v as int % 16),
    ]
}

/// The `0x`-prefixed uppercase rendering of a 16-bit identifier,
/// e.g. `0x1d50` renders as `0x1D50`.
pub open spec fn hex_display(v: u16) -> Seq<char> {
    seq!['0', 'x'] + hex4_upper(v)
}

/// The decimal digit characters of a natural number, most significant first.
pub open spec fn dec_seq(n: nat) -> Seq<char>
    decreases n,
{
    if n < 10 {
        seq![hex_digit_lower(n as int)]
    } else {
        dec_seq(n / 10) + seq![hex_digit_lower(n as int % 10)]
    }
}

/// The synthesized record identifier: lowercase vendor and product digits
/// joined by `:`, then `_` and the 0-based position in the result list,
/// e.g. `1d50:615e_0`.
pub open spec fn id_seq(vid: u16, pid: u16, idx: nat) -> Seq<char> {
    hex4_lower(vid) + seq![':'] + hex4_lower(pid) + seq!['_'] + dec_seq(idx)
}

/// The one-character string slice holding the uppercase hexadecimal digit of
/// a value below 16.
fn hex_digit_str_upper(d: u16) -> (s: &'static str)
    requires
        d < 16,
    ensures
        s@ =~= seq![hex_digit_upper(d as int)],
{
    proof {
        reveal_strlit("0"); reveal_strlit("1"); reveal_strlit("2"); reveal_strlit("3");
        reveal_strlit("4"); reveal_strlit("5"); reveal_strlit("6"); reveal_strlit("7");
        reveal_strlit("8"); reveal_strlit("9"); reveal_strlit("A"); reveal_strlit("B");
        reveal_strlit("C"); reveal_strlit("D"); reveal_strlit("E"); reveal_strlit("F");
    }
    if d == 0 { "0" } else if d == 1 { "1" } else if d == 2 { "2" } else if d == 3 { "3" }
    else if d == 4 { "4" } else if d == 5 { "5" } else if d == 6 { "6" } else if d == 7 { "7" }
    else if d == 8 { "8" } else if d == 9 { "9" } else if d == 10 { "A" } else if d == 11 { "B" }
    else if d == 12 { "C" } else if d == 13 { "D" } else if d == 14 { "E" } else { "F" }
}

/// The one-character string slice holding the lowercase hexadecimal digit of
/// a value below 16.
fn hex_digit_str_lower(d: u16) -> (s: &'static str)
    requires
        d < 16,
    ensures
        s@ =~= seq![hex_digit_lower(d as int)],
{
    proof {
        reveal_strlit("0"); reveal_strlit("1"); reveal_strlit("2"); reveal_strlit("3");
        reveal_strlit("4"); reveal_strlit("5"); reveal_strlit("6"); reveal_strlit("7");
        reveal_strlit("8"); reveal_strlit("9"); reveal_strlit("a"); reveal_strlit("b");
        reveal_strlit("c"); reveal_strlit("d"); reveal_strlit("e"); reveal_strlit("f");
    }
    if d == 0 { "0" } else if d == 1 { "1" } else if d == 2 { "2" } else if d == 3 { "3" }
    else if d == 4 { "4" } else if d == 5 { "5" } else if d == 6 { "6" } else if d == 7 { "7" }
    else if d == 8 { "8" } else if d == 9 { "9" } else if d == 10 { "a" } else if d == 11 { "b" }
    else if d == 12 { "c" } else if d == 13 { "d" } else if d == 14 { "e" } else { "f" }
}

/// Renders a 16-bit identifier as its `0x`-prefixed uppercase form.
pub fn format_hex_display(v: u16) -> (s: String)
    ensures
        s@ == hex_display(v),
{
    proof {
        reveal_strlit("0x");
    }
    let mut s = String::from_str("0x");
    s.append(hex_digit_str_upper(v / 4096));
    s.append(hex_digit_str_upper(v / 256 % 16));
    s.append(hex_digit_str_upper(v / 16 % 16));
    s.append(hex_digit_str_upper(v % 16));
    proof {
        assert(s@ =~= hex_display(v));
    }
    s
}

/// Renders a 16-bit identifier as four lowercase hexadecimal digits.
fn format_hex4_lower(v: u16) -> (s: String)
    ensures
        s@ == hex4_lower(v),
{
    let mut s = String::new();
    s.append(hex_digit_str_lower(v / 4096));
    s.append(hex_digit_str_lower(v / 256 % 16));
    s.append(hex_digit_str_lower(v / 16 % 16));
    s.append(hex_digit_str_lower(v % 16));
    proof {
        assert(s@ =~= hex4_lower(v));
    }
    s
}

/// Renders a natural number in decimal.
pub fn format_decimal(n: usize) -> (s: String)
    ensures
        s@ == dec_seq(n as nat),
    decreases n,
{
    if n < 10 {
        let s = String::from_str(hex_digit_str_lower(n as u16));
        proof {
            assert(s@ =~= dec_seq(n as nat));
        }
        s
    } else {
        let mut s = format_decimal(n / 10);
        s.append(hex_digit_str_lower((n % 10) as u16));
        proof {
            assert(s@ =~= dec_seq(n as nat));
        }
        s
    }
}

/// Renders the synthesized record identifier for a device at a given
/// position of the result list.
pub fn format_device_id(vid: u16, pid: u16, idx: usize) -> (s: String)
    ensures
        s@ == id_seq(vid, pid, idx as nat),
{
    proof {
        reveal_strlit(":");
        reveal_strlit("_");
    }
    let mut s = format_hex4_lower(vid);
    s.append(":");
    let p = format_hex4_lower(pid);
    s.append(p.as_str());
    s.append("_");
    let d = format_decimal(idx);
    s.append(d.as_str());
    proof {
        assert(s@ =~= id_seq(vid, pid, idx as nat));
    }
    s
}

// ---------------------------------------------------------------------------
// Injectivity of the rendered identifiers
// ---------------------------------------------------------------------------

/// Law: the display rendering of a 16-bit identifier has the exact same
/// shape for every input, `0x0000` and `0xFFFF` included — six characters,
/// a `0x` prefix, then the four zero-padded uppercase hexadecimal digits,
/// most significant first.
pub proof fn lemma_hex_display_shape(v: u16)
    ensures
        hex_display(v).len() == 6,
        hex_display(v)[0] == '0',
        hex_display(v)[1] == 'x',
        hex_display(v)[2] == hex_digit_upper(v as int / 4096),
        hex_display(v)[3] == hex_digit_upper(v as int / 256 % 16),
        hex_display(v)[4] == hex_digit_upper(v as int / 16 % 16),
        hex_display(v)[5] == hex_digit_upper(v as int % 16),
{
}

/// A decimal rendering is never empty, and has at least two digits for
/// numbers of ten and above.
proof fn lemma_dec_seq_len(n: nat)
    ensures
        dec_seq(n).len() >= 1,
        n >= 10 ==> dec_seq(n).len() >= 2,
    decreases n,
{
    if n >= 10 {
        lemma_dec_seq_len(n / 10);
    }
}

/// Distinct naturals have distinct decimal renderings.
proof fn lemma_dec_seq_injective(a: nat, b: nat)
    requires
        dec_seq(a) == dec_seq(b),
    ensures
        a == b,
    decreases a,
{
    lemma_dec_seq_len(a);
    lemma_dec_seq_len(b);
    if a < 10 && b < 10 {
        assert(dec_seq(a)[0] == hex_digit_lower(a as int));
        assert(dec_seq(b)[0] == hex_digit_lower(b as int));
    } else if a < 10 {
        assert(dec_seq(a).len() == 1);
    } else if b < 10 {
        assert(dec_seq(b).len() == 1);
    } else {
        // The last digits agree, so the residues do; the prefixes agree, so
        // by induction the quotients do; the fundamental identity of
        // division then closes the gap.
        assert(dec_seq(a).last() == hex_digit_lower(a as int % 10));
        assert(dec_seq(b).last() == hex_digit_lower(b as int % 10));
        assert(a % 10 == b % 10);
        assert(dec_seq(a / 10) =~= dec_seq(a).drop_last());
        assert(dec_seq(b / 10) =~= dec_seq(b).drop_last());
        lemma_dec_seq_injective(a / 10, b / 10);
        vstd::arithmetic::div_mod::lemma_fundamental_div_mod(a as int, 10);
        vstd::arithmetic::div_mod::lemma_fundamental_div_mod(b as int, 10);
        assert(a as int == 10 * (a as int / 10) + a as int % 10);
    }
}

/// Record identifiers synthesized at distinct list positions differ, whatever
/// the vendor and product identifiers are: the digits after the `_` separator
/// at the fixed position 9 render distinct positions distinctly.
pub proof fn lemma_id_seq_distinct(v1: u16, p1: u16, i: nat, v2: u16, p2: u16, j: nat)
    requires
        i != j,
    ensures
        id_seq(v1, p1, i) != id_seq(v2, p2, j),
{
    if id_seq(v1, p1, i) == id_seq(v2, p2, j) {
        let s1 = id_seq(v1, p1, i);
        let s2 = id_seq(v2, p2, j);
        assert(s1.len() == 10 + dec_seq(i).len());
        assert(s2.len() == 10 + dec_seq(j).len());
        assert forall|k: int| 0 <= k < dec_seq(i).len() implies dec_seq(i)[k] == dec_seq(j)[k] by {
            assert(s1[10 + k] == dec_seq(i)[k]);
            assert(s2[10 + k] == dec_seq(j)[k]);
        }
        assert(dec_seq(i) =~= dec_seq(j));
        lemma_dec_seq_injective(i, j);
    }
}

} // verus!
