//! Decimal formatting and parsing, and the derived key and tag names used
//! on the key-value store and the broker.

use vstd::prelude::*;
use vstd::string::*;

verus! {

/// The character for one decimal digit.
pub open spec fn dec_digit_char(d: nat) -> char {
    if d == 0 {
        '0'
    } else if d == 1 {
        '1'
    } else if d == 2 {
        '2'
    } else if d == 3 {
        '3'
    } else if d == 4 {
        '4'
    } else if d == 5 {
        '5'
    } else if d == 6 {
        '6'
    } else if d == 7 {
        '7'
    } else if d == 8 {
        '8'
    } else {
        '9'
    }
}

/// The canonical decimal rendering of `n`, most significant digit first.
pub open spec fn dec_str(n: nat) -> Seq<char>
    decreases n,
{
    if n < 10 {
        seq![dec_digit_char(n)]
    } else {
        dec_str(n / 10).push(dec_digit_char(n % 10))
    }
}

pub open spec fn is_dec_digit(c: char) -> bool {
    c == '0' || c == '1' || c == '2' || c == '3' || c == '4' || c == '5' || c == '6' || c == '7'
        || c == '8' || c == '9'
}

pub open spec fn dec_digit_val(c: char) -> nat {
    if c == '0' {
        0
    } else if c == '1' {
        1
    } else if c == '2' {
        2
    } else if c == '3' {
        3
    } else if c == '4' {
        4
    } else if c == '5' {
        5
    } else if c == '6' {
        6
    } else if c == '7' {
        7
    } else if c == '8' {
        8
    } else {
        9
    }
}

pub open spec fn all_dec_digits(s: Seq<char>) -> bool {
    forall|i: int| 0 <= i < s.len() ==> is_dec_digit(#[trigger] s[i])
}

/// The number denoted by a digit string, leading zeros allowed.
pub open spec fn dec_val(s: Seq<char>) -> nat
    decreases s.len(),
{
    if s.len() == 0 {
        0
    } else {
        dec_val(s.drop_last()) * 10 + dec_digit_val(s.last())
    }
}

/// One digit as a string slice.
fn digit_str(d: u8) -> (r: &'static str)
    requires
        d < 10,
    ensures
        r@ == seq![dec_digit_char(d as nat)],
{
    if d == 0 {
        proof {
            reveal_strlit("0");
        }
        let s = "0";
        assert(s@ =~= seq![dec_digit_char(0)]);
        s
    } else if d == 1 {
        proof {
            reveal_strlit("1");
        }
        let s = "1";
        assert(s@ =~= seq![dec_digit_char(1)]);
        s
    } else if d == 2 {
        proof {
            reveal_strlit("2");
        }
        let s = "2";
        assert(s@ =~= seq![dec_digit_char(2)]);
        s
    } else if d == 3 {
        proof {
            reveal_strlit("3");
        }
        let s = "3";
        assert(s@ =~= seq![dec_digit_char(3)]);
        s
    } else if d == 4 {
        proof {
            reveal_strlit("4");
        }
        let s = "4";
        assert(s@ =~= seq![dec_digit_char(4)]);
        s
    } else if d == 5 {
        proof {
            reveal_strlit("5");
        }
        let s = "5";
        assert(s@ =~= seq![dec_digit_char(5)]);
        s
    } else if d == 6 {
        proof {
            reveal_strlit("6");
        }
        let s = "6";
        assert(s@ =~= seq![dec_digit_char(6)]);
        s
    } else if d == 7 {
        proof {
            reveal_strlit("7");
        }
        let s = "7";
        assert(s@ =~= seq![dec_digit_char(7)]);
        s
    } else if d == 8 {
        proof {
            reveal_strlit("8");
        }
        let s = "8";
        assert(s@ =~= seq![dec_digit_char(8)]);
        s
    } else {
        proof {
            reveal_strlit("9");
        }
        let s = "9";
        assert(s@ =~= seq![dec_digit_char(9)]);
        s
    }
}

/// Render `n` in decimal.
pub fn u64_to_dec(n: u64) -> (r: String)
    ensures
        r@ == dec_str(n as nat),
    decreases n,
{
    if n < 10 {
        let r = String::from_str(digit_str(n as u8));
        assert(r@ =~= dec_str(n as nat));
        r
    } else {
        let mut r = u64_to_dec(n / 10);
        r.append(digit_str((n % 10) as u8));
        assert(r@ =~= dec_str(n as nat));
        r
    }
}

/// A digit's value, or `None` for any other character.
fn digit_of(c: char) -> (r: Option<u8>)
    ensures
        is_dec_digit(c) <==> (r matches Some(v) && v < 10 && v as nat == dec_digit_val(c)),
        !is_dec_digit(c) <==> r is None,
{
    if c == '0' {
        Some(0)
    } else if c == '1' {
        Some(1)
    } else if c == '2' {
        Some(2)
    } else if c == '3' {
        Some(3)
    } else if c == '4' {
        Some(4)
    } else if c == '5' {
        Some(5)
    } else if c == '6' {
        Some(6)
    } else if c == '7' {
        Some(7)
    } else if c == '8' {
        Some(8)
    } else if c == '9' {
        Some(9)
    } else {
        None
    }
}

proof fn lemma_dec_val_prefix_grows(s: Seq<char>, i: int, j: int)
    requires
        0 <= i <= j <= s.len(),
    ensures
        dec_val(s.take(i)) <= dec_val(s.take(j)),
    decreases j - i,
{
    if i < j {
        lemma_dec_val_prefix_grows(s, i, j - 1);
        assert(s.take(j).drop_last() =~= s.take(j - 1));
        assert(dec_val(s.take(j - 1)) * 10 >= dec_val(s.take(j - 1)));
    }
}

/// Parse a decimal byte.  Accepts exactly the non-empty all-digit strings
/// whose value fits in a byte.
pub fn parse_u8_dec(s: &str) -> (r: Option<u8>)
    ensures
        (s@.len() > 0 && all_dec_digits(s@) && dec_val(s@) <= 255) ==> (r matches Some(v)
            && v as nat == dec_val(s@)),
        !(s@.len() > 0 && all_dec_digits(s@) && dec_val(s@) <= 255) ==> r is None,
{
    let len = s.unicode_len();
    if len == 0 {
        return None;
    }
    let mut acc: u32 = 0;
    let mut i: usize = 0;
    while i < len
        invariant
            0 <= i <= len,
            len == s@.len(),
            acc as nat == dec_val(s@.take(i as int)),
            acc <= 255,
            forall|k: int| 0 <= k < i ==> is_dec_digit(#[trigger] s@[k]),
        decreases len - i,
    {
        let c = s.get_char(i);
        match digit_of(c) {
            None => {
                assert(!is_dec_digit(s@[i as int]));
                return None;
            },
            Some(d) => {
                let next: u32 = acc * 10 + d as u32;
                assert(s@.take(i + 1).drop_last() =~= s@.take(i as int));
                assert(next as nat == dec_val(s@.take(i + 1)));
                if next > 255 {
                    proof {
                        lemma_dec_val_prefix_grows(s@, i + 1, len as int);
                        assert(s@.take(len as int) =~= s@);
                    }
                    return None;
                }
                acc = next;
            },
        }
        i = i + 1;
    }
    assert(s@.take(len as int) =~= s@);
    Some(acc as u8)
}

/// Case-insensitive comparison with the format name of the binary codec.
pub open spec fn spells_msgpack(s: Seq<char>) -> bool {
    s.len() == 7 && (s[0] == 'm' || s[0] == 'M') && (s[1] == 's' || s[1] == 'S') && (s[2] == 'g'
        || s[2] == 'G') && (s[3] == 'p' || s[3] == 'P') && (s[4] == 'a' || s[4] == 'A') && (s[5]
        == 'c' || s[5] == 'C') && (s[6] == 'k' || s[6] == 'K')
}

/// Does `s` spell the binary format's name, ignoring ASCII case?
pub fn is_msgpack_name(s: &str) -> (r: bool)
    ensures
        r == spells_msgpack(s@),
{
    let len = s.unicode_len();
    if len != 7 {
        return false;
    }
    let c0 = s.get_char(0);
    let c1 = s.get_char(1);
    let c2 = s.get_char(2);
    let c3 = s.get_char(3);
    let c4 = s.get_char(4);
    let c5 = s.get_char(5);
    let c6 = s.get_char(6);
    (c0 == 'm' || c0 == 'M') && (c1 == 's' || c1 == 'S') && (c2 == 'g' || c2 == 'G') && (c3 == 'p'
        || c3 == 'P') && (c4 == 'a' || c4 == 'A') && (c5 == 'c' || c5 == 'C') && (c6 == 'k' || c6
        == 'K')
}

/// The key under which a user's session list is stored.
pub open spec fn session_key_chars(user_id: nat) -> Seq<char> {
    seq!['s', 'e', 's', 's', 'i', 'o', 'n', '-'] + dec_str(user_id)
}

/// The key under which a user's status is stored.
pub open spec fn presence_key_chars(user_id: nat) -> Seq<char> {
    seq!['p', 'r', 'e', 's', 'e', 'n', 'c', 'e', '-'] + dec_str(user_id)
}

/// The consumer tag of a session's broker subscription.
pub open spec fn consumer_tag_chars(user_id: nat, session_id: Seq<char>, ip: Seq<char>) -> Seq<
    char,
> {
    seq!['c', 'o', 'n', 's', 'u', 'm', 'e', 'r', '-'] + dec_str(user_id) + seq!['-'] + session_id
        + seq!['-'] + ip
}

pub fn session_key(user_id: u64) -> (r: String)
    ensures
        r@ == session_key_chars(user_id as nat),
{
    proof {
        reveal_strlit("session-");
    }
    let mut r = String::from_str("session-");
    let num = u64_to_dec(user_id);
    r.append(num.as_str());
    assert(r@ =~= session_key_chars(user_id as nat));
    r
}

pub fn presence_key(user_id: u64) -> (r: String)
    ensures
        r@ == presence_key_chars(user_id as nat),
{
    proof {
        reveal_strlit("presence-");
    }
    let mut r = String::from_str("presence-");
    let num = u64_to_dec(user_id);
    r.append(num.as_str());
    assert(r@ =~= presence_key_chars(user_id as nat));
    r
}

pub fn consumer_tag(user_id: u64, session_id: &str, ip: &str) -> (r: String)
    ensures
        r@ == consumer_tag_chars(user_id as nat, session_id@, ip@),
{
    proof {
        reveal_strlit("consumer-");
        reveal_strlit("-");
    }
    let mut r = String::from_str("consumer-");
    let num = u64_to_dec(user_id);
    r.append(num.as_str());
    r.append("-");
    r.append(session_id);
    r.append("-");
    r.append(ip);
    assert(r@ =~= consumer_tag_chars(user_id as nat, session_id@, ip@));
    r
}

} // verus!
