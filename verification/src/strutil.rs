//! Small verified string helpers: decimal rendering of tag numbers, boolean
//! spelling, string equality and the group-leader name test.

use vstd::prelude::*;
use vstd::string::StringExecFns;
use vstd::string::StrSliceExecFns;

verus! {

/// The decimal digit character for one digit value.
pub open spec fn dec_digit_char(d: nat) -> char {
    if d == 0 {
        '0'
    } else if d == 1 {
        '1'
    } else if d == 2 {
        '2'
    } else if d == 3 {
        '3'
    } else if d == 4 {
        '4'
    } else if d == 5 {
        '5'
    } else if d == 6 {
        '6'
    } else if d == 7 {
        '7'
    } else if d == 8 {
        '8'
    } else {
        '9'
    }
}

/// The decimal representation of a natural number, most significant digit
/// first, with no leading zeros (except for zero itself).
pub open spec fn dec_rep(n: nat) -> Seq<char>
    decreases n,
{
    if n < 10 {
        seq![dec_digit_char(n)]
    } else {
        dec_rep(n / 10) + seq![dec_digit_char(n % 10)]
    }
}

/// The one-character string for a single decimal digit.
pub fn digit_str(d: u16) -> (r: &'static str)
    requires
        d < 10,
    ensures
        r@ == seq![dec_digit_char(d as nat)],
{
    let r: &'static str = if d == 0 {
        "0"
    } else if d == 1 {
        "1"
    } else if d == 2 {
        "2"
    } else if d == 3 {
        "3"
    } else if d == 4 {
        "4"
    } else if d == 5 {
        "5"
    } else if d == 6 {
        "6"
    } else if d == 7 {
        "7"
    } else if d == 8 {
        "8"
    } else {
        "9"
    };
    proof {
        reveal_strlit("0");
        reveal_strlit("1");
        reveal_strlit("2");
        reveal_strlit("3");
        reveal_strlit("4");
        reveal_strlit("5");
        reveal_strlit("6");
        reveal_strlit("7");
        reveal_strlit("8");
        reveal_strlit("9");
        assert(r@ =~= seq![dec_digit_char(d as nat)]);
    }
    r
}

/// Renders a tag number in decimal.
pub fn u16_to_dec(n: u16) -> (r: String)
    ensures
        r@ == dec_rep(n as nat),
    decreases n,
{
    if n < 10 {
        String::from_str(digit_str(n))
    } else {
        let mut s = u16_to_dec(n / 10);
        s.append(digit_str(n % 10));
        s
    }
}

/// The spelling of a boolean in generated code.
pub open spec fn bool_text(b: bool) -> Seq<char> {
    if b {
        "true"@
    } else {
        "false"@
    }
}

/// Renders a boolean as generated code spells it.
pub fn bool_str(b: bool) -> (r: &'static str)
    ensures
        r@ == bool_text(b),
{
    if b {
        "true"
    } else {
        "false"
    }
}

/// Character-wise string equality.
pub fn str_eq(a: &str, b: &str) -> (r: bool)
    ensures
        r == (a@ == b@),
{
    let alen = a.unicode_len();
    let blen = b.unicode_len();
    if alen != blen {
        return false;
    }
    let mut i: usize = 0;
    while i < alen
        invariant
            0 <= i <= alen,
            alen == a@.len(),
            blen == b@.len(),
            alen == blen,
            forall|j: int| 0 <= j < i ==> a@[j] == b@[j],
        decreases alen - i,
    {
        if a.get_char(i) != b.get_char(i) {
            return false;
        }
        i = i + 1;
    }
    proof {
        assert(a@ =~= b@);
    }
    true
}

/// Text fragments joined by a newline between each adjacent pair.
pub open spec fn join_nl(parts: Seq<Seq<char>>) -> Seq<char>
    decreases parts.len(),
{
    if parts.len() == 0 {
        Seq::empty()
    } else if parts.len() == 1 {
        parts[0]
    } else {
        join_nl(parts.drop_last()) + "\n"@ + parts.last()
    }
}

/// Appending one more fragment appends a newline and the fragment, unless
/// nothing was joined yet.
pub proof fn lemma_join_nl_push(parts: Seq<Seq<char>>, m: Seq<char>)
    ensures
        join_nl(parts.push(m)) == if parts.len() == 0 {
            m
        } else {
            join_nl(parts) + "\n"@ + m
        },
{
    assert(parts.push(m).drop_last() =~~= parts);
    assert(parts.push(m).last() == m);
    if parts.len() == 0 {
        assert(parts.push(m)[0] == m);
    }
}

/// True exactly when a string holds no newline, so that embedding it in a
/// comment line cannot break the line apart.
pub open spec fn has_no_newline(s: Seq<char>) -> bool {
    forall|i: int| 0 <= i < s.len() ==> s[i] != '\n'
}

/// A field name marks its field as a group-length leader exactly when it
/// ends in the literal suffix `Len`.
pub open spec fn is_group_leader_name(s: Seq<char>) -> bool {
    &&& s.len() >= 3
    &&& s[s.len() - 3] == 'L'
    &&& s[s.len() - 2] == 'e'
    &&& s[s.len() - 1] == 'n'
}

/// Tests whether a field name ends in the group-leader suffix `Len`.
pub fn name_ends_with_len(s: &str) -> (r: bool)
    ensures
        r == is_group_leader_name(s@),
{
    let n = s.unicode_len();
    if n < 3 {
        false
    } else {
        s.get_char(n - 3) == 'L' && s.get_char(n - 2) == 'e' && s.get_char(n - 1) == 'n'
    }
}

} // verus!
