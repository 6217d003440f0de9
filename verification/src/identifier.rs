//! Identifier syntax: validation of caller-supplied UUID strings and
//! generation of fresh, provably distinct identifiers for new rows.

use vstd::prelude::*;
use vstd::string::StringExecFns;

verus! {

/// Whether the `uuid` crate's parser accepts the string. The exact
/// grammar (simple, hyphenated, braced and urn forms) is the parser's
/// own; it depends on the characters alone.
pub uninterp spec fn uuid_syntax_ok(s: Seq<char>) -> bool;

/// Relies on `uuid::Uuid::parse_str`: acceptance depends only on the
/// characters of the input, and every 36-character hyphenated UUID
/// string is accepted.
#[verifier::external_body]
pub fn validate_uuid(s: &str) -> (r: bool)
    ensures
        r == uuid_syntax_ok(s@),
        is_hyphenated_uuid(s@) ==> r,
{
    uuid::Uuid::parse_str(s).is_ok()
}

/// The lower-case hexadecimal digit for a value below sixteen.
pub open spec fn hex_char(d: int) -> char {
    if d == 0 { '0' }
    else if d == 1 { '1' }
    else if d == 2 { '2' }
    else if d == 3 { '3' }
    else if d == 4 { '4' }
    else if d == 5 { '5' }
    else if d == 6 { '6' }
    else if d == 7 { '7' }
    else if d == 8 { '8' }
    else if d == 9 { '9' }
    else if d == 10 { 'a' }
    else if d == 11 { 'b' }
    else if d == 12 { 'c' }
    else if d == 13 { 'd' }
    else if d == 14 { 'e' }
    else { 'f' }
}

pub open spec fn is_hex_digit(c: char) -> bool {
    exists|d: int| 0 <= d < 16 && c == hex_char(d)
}

/// The `j`-th nibble of `n`, most significant first, of thirty-two.
pub open spec fn nibble_of(n: u128, j: int) -> u128 {
    (n >> ((4 * (31 - j)) as u128)) & 0xf
}

/// Character positions occupied by hyphens in a hyphenated UUID.
pub open spec fn is_hyphen_pos(i: int) -> bool {
    i == 8 || i == 13 || i == 18 || i == 23
}

/// How many hyphens precede character position `i`.
pub open spec fn nibble_index(i: int) -> int {
    if i < 8 { i }
    else if i < 13 { i - 1 }
    else if i < 18 { i - 2 }
    else if i < 23 { i - 3 }
    else { i - 4 }
}

pub open spec fn uuid_char(n: u128, i: int) -> char {
    if is_hyphen_pos(i) { '-' } else { hex_char(nibble_of(n, nibble_index(i)) as int) }
}

/// The hyphenated UUID string that encodes `n`.
pub open spec fn uuid_str(n: u128) -> Seq<char> {
    Seq::new(36, |i: int| uuid_char(n, i))
}

/// The 36-character hyphenated UUID form: hyphens at the four fixed
/// positions, hexadecimal digits everywhere else.
pub open spec fn is_hyphenated_uuid(s: Seq<char>) -> bool {
    &&& s.len() == 36
    &&& forall|i: int| 0 <= i < 36 && is_hyphen_pos(i) ==> s[i] == '-'
    &&& forall|i: int| 0 <= i < 36 && !is_hyphen_pos(i) ==> is_hex_digit(s[i])
}

pub proof fn lemma_nibble_bound(n: u128, j: int)
    ensures
        0 <= nibble_of(n, j) < 16,
{
    let sh = (4 * (31 - j)) as u128;
    assert((n >> sh) & 0xf < 16) by (bit_vector);
}

pub proof fn lemma_uuid_str_is_hyphenated(n: u128)
    ensures
        is_hyphenated_uuid(uuid_str(n)),
{
    assert forall|i: int| 0 <= i < 36 && !is_hyphen_pos(i) implies is_hex_digit(uuid_str(n)[i]) by {
        lemma_nibble_bound(n, nibble_index(i));
        let d = nibble_of(n, nibble_index(i)) as int;
        assert(uuid_str(n)[i] == hex_char(d));
    }
}

/// The character position that carries the `j`-th nibble.
pub open spec fn pos_of_nibble(j: int) -> int {
    if j < 8 { j }
    else if j < 12 { j + 1 }
    else if j < 16 { j + 2 }
    else if j < 20 { j + 3 }
    else { j + 4 }
}

pub proof fn lemma_hex_char_injective(a: int, b: int)
    requires
        0 <= a < 16,
        0 <= b < 16,
        hex_char(a) == hex_char(b),
    ensures
        a == b,
{
}

/// Distinct counters encode to distinct identifier strings.
pub proof fn lemma_uuid_str_injective(a: u128, b: u128)
    requires
        uuid_str(a) == uuid_str(b),
    ensures
        a == b,
{
    assert forall|j: int| 0 <= j < 32 implies nibble_of(a, j) == nibble_of(b, j) by {
        let i = pos_of_nibble(j);
        assert(0 <= i < 36 && !is_hyphen_pos(i) && nibble_index(i) == j);
        assert(uuid_str(a)[i] == uuid_char(a, i));
        assert(uuid_str(b)[i] == uuid_char(b, i));
        assert(uuid_char(a, i) == hex_char(nibble_of(a, j) as int));
        assert(uuid_char(b, i) == hex_char(nibble_of(b, j) as int));
        assert(uuid_str(a)[i] == uuid_str(b)[i]);
        lemma_nibble_bound(a, j);
        lemma_nibble_bound(b, j);
        lemma_hex_char_injective(nibble_of(a, j) as int, nibble_of(b, j) as int);
    }
    assert(nibble_of(a, 0) == (a >> 124) & 0xf && nibble_of(b, 0) == (b >> 124) & 0xf);
    assert(nibble_of(a, 1) == (a >> 120) & 0xf && nibble_of(b, 1) == (b >> 120) & 0xf);
    assert(nibble_of(a, 2) == (a >> 116) & 0xf && nibble_of(b, 2) == (b >> 116) & 0xf);
    assert(nibble_of(a, 3) == (a >> 112) & 0xf && nibble_of(b, 3) == (b >> 112) & 0xf);
    assert(nibble_of(a, 4) == (a >> 108) & 0xf && nibble_of(b, 4) == (b >> 108) & 0xf);
    assert(nibble_of(a, 5) == (a >> 104) & 0xf && nibble_of(b, 5) == (b >> 104) & 0xf);
    assert(nibble_of(a, 6) == (a >> 100) & 0xf && nibble_of(b, 6) == (b >> 100) & 0xf);
    assert(nibble_of(a, 7) == (a >> 96) & 0xf && nibble_of(b, 7) == (b >> 96) & 0xf);
    assert(nibble_of(a, 8) == (a >> 92) & 0xf && nibble_of(b, 8) == (b >> 92) & 0xf);
    assert(nibble_of(a, 9) == (a >> 88) & 0xf && nibble_of(b, 9) == (b >> 88) & 0xf);
    assert(nibble_of(a, 10) == (a >> 84) & 0xf && nibble_of(b, 10) == (b >> 84) & 0xf);
    assert(nibble_of(a, 11) == (a >> 80) & 0xf && nibble_of(b, 11) == (b >> 80) & 0xf);
    assert(nibble_of(a, 12) == (a >> 76) & 0xf && nibble_of(b, 12) == (b >> 76) & 0xf);
    assert(nibble_of(a, 13) == (a >> 72) & 0xf && nibble_of(b, 13) == (b >> 72) & 0xf);
    assert(nibble_of(a, 14) == (a >> 68) & 0xf && nibble_of(b, 14) == (b >> 68) & 0xf);
    assert(nibble_of(a, 15) == (a >> 64) & 0xf && nibble_of(b, 15) == (b >> 64) & 0xf);
    assert(nibble_of(a, 16) == (a >> 60) & 0xf && nibble_of(b, 16) == (b >> 60) & 0xf);
    assert(nibble_of(a, 17) == (a >> 56) & 0xf && nibble_of(b, 17) == (b >> 56) & 0xf);
    assert(nibble_of(a, 18) == (a >> 52) & 0xf && nibble_of(b, 18) == (b >> 52) & 0xf);
    assert(nibble_of(a, 19) == (a >> 48) & 0xf && nibble_of(b, 19) == (b >> 48) & 0xf);
    assert(nibble_of(a, 20) == (a >> 44) & 0xf && nibble_of(b, 20) == (b >> 44) & 0xf);
    assert(nibble_of(a, 21) == (a >> 40) & 0xf && nibble_of(b, 21) == (b >> 40) & 0xf);
    assert(nibble_of(a, 22) == (a >> 36) & 0xf && nibble_of(b, 22) == (b >> 36) & 0xf);
    assert(nibble_of(a, 23) == (a >> 32) & 0xf && nibble_of(b, 23) == (b >> 32) & 0xf);
    assert(nibble_of(a, 24) == (a >> 28) & 0xf && nibble_of(b, 24) == (b >> 28) & 0xf);
    assert(nibble_of(a, 25) == (a >> 24) & 0xf && nibble_of(b, 25) == (b >> 24) & 0xf);
    assert(nibble_of(a, 26) == (a >> 20) & 0xf && nibble_of(b, 26) == (b >> 20) & 0xf);
    assert(nibble_of(a, 27) == (a >> 16) & 0xf && nibble_of(b, 27) == (b >> 16) & 0xf);
    assert(nibble_of(a, 28) == (a >> 12) & 0xf && nibble_of(b, 28) == (b >> 12) & 0xf);
    assert(nibble_of(a, 29) == (a >> 8) & 0xf && nibble_of(b, 29) == (b >> 8) & 0xf);
    assert(nibble_of(a, 30) == (a >> 4) & 0xf && nibble_of(b, 30) == (b >> 4) & 0xf);
    assert(nibble_of(a, 31) == (a >> 0) & 0xf && nibble_of(b, 31) == (b >> 0) & 0xf);
    assert(a == b) by (bit_vector)
        requires
            (a >> 124) & 0xf == (b >> 124) & 0xf,
            (a >> 120) & 0xf == (b >> 120) & 0xf,
            (a >> 116) & 0xf == (b >> 116) & 0xf,
            (a >> 112) & 0xf == (b >> 112) & 0xf,
            (a >> 108) & 0xf == (b >> 108) & 0xf,
            (a >> 104) & 0xf == (b >> 104) & 0xf,
            (a >> 100) & 0xf == (b >> 100) & 0xf,
            (a >> 96) & 0xf == (b >> 96) & 0xf,
            (a >> 92) & 0xf == (b >> 92) & 0xf,
            (a >> 88) & 0xf == (b >> 88) & 0xf,
            (a >> 84) & 0xf == (b >> 84) & 0xf,
            (a >> 80) & 0xf == (b >> 80) & 0xf,
            (a >> 76) & 0xf == (b >> 76) & 0xf,
            (a >> 72) & 0xf == (b >> 72) & 0xf,
            (a >> 68) & 0xf == (b >> 68) & 0xf,
            (a >> 64) & 0xf == (b >> 64) & 0xf,
            (a >> 60) & 0xf == (b >> 60) & 0xf,
            (a >> 56) & 0xf == (b >> 56) & 0xf,
            (a >> 52) & 0xf == (b >> 52) & 0xf,
            (a >> 48) & 0xf == (b >> 48) & 0xf,
            (a >> 44) & 0xf == (b >> 44) & 0xf,
            (a >> 40) & 0xf == (b >> 40) & 0xf,
            (a >> 36) & 0xf == (b >> 36) & 0xf,
            (a >> 32) & 0xf == (b >> 32) & 0xf,
            (a >> 28) & 0xf == (b >> 28) & 0xf,
            (a >> 24) & 0xf == (b >> 24) & 0xf,
            (a >> 20) & 0xf == (b >> 20) & 0xf,
            (a >> 16) & 0xf == (b >> 16) & 0xf,
            (a >> 12) & 0xf == (b >> 12) & 0xf,
            (a >> 8) & 0xf == (b >> 8) & 0xf,
            (a >> 4) & 0xf == (b >> 4) & 0xf,
            (a >> 0) & 0xf == (b >> 0) & 0xf,
    ;
}

/// Appends the hexadecimal digit for `d` to `s`.
fn push_hex_digit(s: &mut String, d: u8)
    requires
        d < 16,
    ensures
        final(s)@ == old(s)@.push(hex_char(d as int)),
{
    proof {
        reveal_strlit("0");
        reveal_strlit("1");
        reveal_strlit("2");
        reveal_strlit("3");
        reveal_strlit("4");
        reveal_strlit("5");
        reveal_strlit("6");
        reveal_strlit("7");
        reveal_strlit("8");
        reveal_strlit("9");
        reveal_strlit("a");
        reveal_strlit("b");
        reveal_strlit("c");
        reveal_strlit("d");
        reveal_strlit("e");
        reveal_strlit("f");
    }
    let ghost pre = s@;
    if d == 0 { s.append("0"); }
    else if d == 1 { s.append("1"); }
    else if d == 2 { s.append("2"); }
    else if d == 3 { s.append("3"); }
    else if d == 4 { s.append("4"); }
    else if d == 5 { s.append("5"); }
    else if d == 6 { s.append("6"); }
    else if d == 7 { s.append("7"); }
    else if d == 8 { s.append("8"); }
    else if d == 9 { s.append("9"); }
    else if d == 10 { s.append("a"); }
    else if d == 11 { s.append("b"); }
    else if d == 12 { s.append("c"); }
    else if d == 13 { s.append("d"); }
    else if d == 14 { s.append("e"); }
    else { s.append("f"); }
    assert(s@ =~= pre.push(hex_char(d as int)));
}

/// Builds the hyphenated UUID string that encodes `n`. The result is
/// checked against the identifier parser, so callers know it passes
/// validation.
pub fn format_uuid(n: u128) -> (s: String)
    ensures
        s@ == uuid_str(n),
        is_hyphenated_uuid(s@),
        uuid_syntax_ok(s@),
{
    proof {
        reveal_strlit("-");
    }
    let mut s = String::new();
    let mut i: usize = 0;
    while i < 36
        invariant
            0 <= i <= 36,
            s@ =~= uuid_str(n).take(i as int),
        decreases 36 - i,
    {
        if i == 8 || i == 13 || i == 18 || i == 23 {
            proof {
                reveal_strlit("-");
            }
            let ghost pre = s@;
            s.append("-");
            assert(s@ =~= pre.push('-'));
        } else {
            let j: u128 = if i < 8 { i as u128 }
                else if i < 13 { (i - 1) as u128 }
                else if i < 18 { (i - 2) as u128 }
                else { if i < 23 { (i - 3) as u128 } else { (i - 4) as u128 } };
            let sh: u128 = 4 * (31 - j);
            let nib: u128 = (n >> sh) & 0xf;
            proof {
                lemma_nibble_bound(n, j as int);
                assert(nib == nibble_of(n, j as int));
            }
            push_hex_digit(&mut s, nib as u8);
            assert(s@.last() == uuid_char(n, i as int));
        }
        assert(s@ =~= uuid_str(n).take(i as int).push(uuid_char(n, i as int)));
        assert(s@ =~= uuid_str(n).take(i as int + 1));
        i = i + 1;
    }
    assert(s@ =~= uuid_str(n));
    proof {
        lemma_uuid_str_is_hyphenated(n);
    }
    let ok = validate_uuid(s.as_str());
    assert(ok);
    s
}

/// The 32-character hexadecimal string that encodes `n`: the store's
/// logical creation timestamp.
pub open spec fn tick_str(n: u128) -> Seq<char> {
    Seq::new(32, |j: int| hex_char(nibble_of(n, j) as int))
}

/// Builds the logical timestamp string for `n`.
pub fn format_tick(n: u128) -> (s: String)
    ensures
        s@ == tick_str(n),
        s@.len() == 32,
{
    let mut s = String::new();
    let mut j: usize = 0;
    while j < 32
        invariant
            0 <= j <= 32,
            s@ =~= tick_str(n).take(j as int),
        decreases 32 - j,
    {
        let sh: u128 = 4 * (31 - (j as u128));
        let nib: u128 = (n >> sh) & 0xf;
        proof {
            lemma_nibble_bound(n, j as int);
            assert(nib == nibble_of(n, j as int));
        }
        push_hex_digit(&mut s, nib as u8);
        assert(s@ =~= tick_str(n).take(j as int + 1));
        j = j + 1;
    }
    assert(s@ =~= tick_str(n));
    s
}

} // verus!
