//! The pid file: the daemon's process id as decimal text, nothing else.
use vstd::prelude::*;
use vstd::string::StrSliceExecFns;
use vstd::string::StringExecFns;

verus! {

pub open spec fn is_digit(c: char) -> bool {
    '0' <= c && c <= '9'
}

pub open spec fn digit_value(c: char) -> int {
    c as int - '0' as int
}

/// The digit for `d`, which is below ten.
pub open spec fn digit_char(d: nat) -> char {
    if d == 0 {
        '0'
    } else if d == 1 {
        '1'
    } else if d == 2 {
        '2'
    } else if d == 3 {
        '3'
    } else if d == 4 {
        '4'
    } else if d == 5 {
        '5'
    } else if d == 6 {
        '6'
    } else if d == 7 {
        '7'
    } else if d == 8 {
        '8'
    } else {
        '9'
    }
}

/// `s` is a non-empty run of decimal digits.
pub open spec fn is_decimal(s: Seq<char>) -> bool {
    s.len() > 0 && forall|i: int| 0 <= i < s.len() ==> is_digit(#[trigger] s[i])
}

/// The number that the digits `s` spell.
pub open spec fn decimal_value(s: Seq<char>) -> nat
    decreases s.len(),
{
    if s.len() == 0 {
        0
    } else {
        (decimal_value(s.drop_last()) * 10 + digit_value(s.last())) as nat
    }
}

/// The decimal digits of `n`, without leading zeros.
pub open spec fn decimal(n: nat) -> Seq<char>
    decreases n,
{
    if n < 10 {
        seq![digit_char(n)]
    } else {
        decimal(n / 10).push(digit_char(n % 10))
    }
}

/// What a pid file holding `text` records: the pid when the text is a decimal
/// number that fits a pid, nothing otherwise.
pub open spec fn recorded_pid(text: Seq<char>) -> Option<u32> {
    if is_decimal(text) && decimal_value(text) <= u32::MAX {
        Some(decimal_value(text) as u32)
    } else {
        None
    }
}

/// The one-character text of the digit `d`.
fn digit_text(d: u32) -> (r: &'static str)
    requires
        d < 10,
    ensures
        r@ == seq![digit_char(d as nat)],
{
    proof {
        reveal_strlit("0");
        reveal_strlit("1");
        reveal_strlit("2");
        reveal_strlit("3");
        reveal_strlit("4");
        reveal_strlit("5");
        reveal_strlit("6");
        reveal_strlit("7");
        reveal_strlit("8");
        reveal_strlit("9");
    }
    let r = if d == 0 {
        "0"
    } else if d == 1 {
        "1"
    } else if d == 2 {
        "2"
    } else if d == 3 {
        "3"
    } else if d == 4 {
        "4"
    } else if d == 5 {
        "5"
    } else if d == 6 {
        "6"
    } else if d == 7 {
        "7"
    } else if d == 8 {
        "8"
    } else {
        "9"
    };
    assert(r@ =~= seq![digit_char(d as nat)]);
    r
}

/// The decimal digits of `n`.
fn u32_to_decimal(n: u32) -> (r: String)
    ensures
        r@ == decimal(n as nat),
    decreases n,
{
    if n < 10 {
        String::from_str(digit_text(n))
    } else {
        let head = u32_to_decimal(n / 10);
        let r = head.concat(digit_text(n % 10));
        assert(r@ =~= decimal(n as nat));
        r
    }
}

/// The text written to the pid file for `pid`.
pub fn pid_file_text(pid: u32) -> (r: String)
    ensures
        r@ == decimal(pid as nat),
        recorded_pid(r@) == Some(pid),
{
    proof {
        lemma_decimal_round_trip(pid as nat);
    }
    u32_to_decimal(pid)
}

proof fn lemma_value_grows(s: Seq<char>, j: int)
    requires
        is_decimal(s),
        0 <= j <= s.len(),
    ensures
        decimal_value(s.subrange(0, j)) <= decimal_value(s),
    decreases s.len() - j,
{
    if j < s.len() {
        let t = s.subrange(0, j + 1);
        assert(t.drop_last() =~= s.subrange(0, j));
        assert(is_digit(s[j]));
        lemma_value_grows(s, j + 1);
    } else {
        assert(s.subrange(0, j) =~= s);
    }
}

/// The pid recorded by a pid file holding `text`.
pub fn parse_pid(text: &str) -> (r: Option<u32>)
    ensures
        r == recorded_pid(text@),
{
    let n = text.unicode_len();
    if n == 0 {
        return None;
    }
    let mut acc: u64 = 0;
    let mut i: usize = 0;
    while i < n
        invariant
            n == text@.len(),
            i <= n,
            acc <= u32::MAX,
            acc == decimal_value(text@.subrange(0, i as int)),
            forall|k: int| 0 <= k < i ==> is_digit(#[trigger] text@[k]),
        decreases n - i,
    {
        let c = text.get_char(i);
        if c < '0' || c > '9' {
            assert(!is_digit(text@[i as int]));
            return None;
        }
        let d = (c as u32 - '0' as u32) as u64;
        let next = acc * 10 + d;
        assert(text@.subrange(0, i + 1).drop_last() =~= text@.subrange(0, i as int));
        if next > u32::MAX as u64 {
            proof {
                if is_decimal(text@) {
                    lemma_value_grows(text@, i + 1);
                }
            }
            return None;
        }
        acc = next;
        i = i + 1;
    }
    assert(text@.subrange(0, n as int) =~= text@);
    Some(acc as u32)
}

proof fn lemma_decimal_round_trip(n: nat)
    ensures
        is_decimal(decimal(n)),
        decimal_value(decimal(n)) == n,
    decreases n,
{
    let s = decimal(n);
    let d = (n % 10) as nat;
    assert(digit_value(digit_char(d)) == d);
    assert(s.last() == digit_char(d));
    assert(decimal_value(s) == decimal_value(s.drop_last()) * 10 + digit_value(s.last()));
    if n >= 10 {
        lemma_decimal_round_trip(n / 10);
        assert(s.drop_last() =~= decimal(n / 10));
        assert(n == (n / 10) * 10 + n % 10) by (nonlinear_arith);
    } else {
        assert(s.drop_last() =~= Seq::<char>::empty());
        assert(d == n);
    }
}

} // verus!
