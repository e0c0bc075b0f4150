//! The extension that tells one write attempt's staging file from every
//! other: the process, the thread, and a tick of the clock or of a counter,
//! each in decimal.

use vstd::prelude::*;
use crate::location::separator_free;

verus! {

/// The character of one decimal digit.
pub open spec fn digit(value: nat) -> char
    recommends
        value < 10,
{
    if value == 0 {
        '0'
    } else if value == 1 {
        '1'
    } else if value == 2 {
        '2'
    } else if value == 3 {
        '3'
    } else if value == 4 {
        '4'
    } else if value == 5 {
        '5'
    } else if value == 6 {
        '6'
    } else if value == 7 {
        '7'
    } else if value == 8 {
        '8'
    } else {
        '9'
    }
}

/// A number in decimal, without sign or leading zeros.
pub open spec fn decimal(value: nat) -> Seq<char>
    decreases value,
{
    if value < 10 {
        seq![digit(value)]
    } else {
        decimal(value / 10).push(digit(value % 10))
    }
}

/// The extension of a staging file: process, thread and tick, joined by
/// underscores, the thread written as the platform prints a thread's
/// identifier.
pub open spec fn stamp(process: nat, thread: nat, tick: nat) -> Seq<char> {
    decimal(process) + "_ThreadId("@ + decimal(thread) + ")_"@ + decimal(tick)
}

/// The tick of an attempt: the clock's reading, or the attempt's number
/// where the clock gave none.
pub open spec fn tick_of(clock: Option<u128>, attempt: u128) -> nat {
    match clock {
        Some(reading) => reading as nat,
        None => attempt as nat,
    }
}

/// A decimal number holds digits only.
pub proof fn lemma_decimal_is_digits(value: nat)
    ensures
        decimal(value).len() >= 1,
        forall|i: int|
            0 <= i < decimal(value).len() ==> '0' <= #[trigger] decimal(value)[i] <= '9',
    decreases value,
{
    if value >= 10 {
        lemma_decimal_is_digits(value / 10);
    }
}

/// A stamp never holds a character that separates the components of a path,
/// so a path keeps its directory when a stamp becomes its extension.
pub proof fn lemma_stamp_is_separator_free(process: nat, thread: nat, tick: nat)
    ensures
        separator_free(stamp(process, thread, tick)),
{
    reveal_strlit("_ThreadId(");
    reveal_strlit(")_");
    lemma_decimal_is_digits(process);
    lemma_decimal_is_digits(thread);
    lemma_decimal_is_digits(tick);
    let a = decimal(process);
    let b = "_ThreadId("@;
    let c = decimal(thread);
    let d = ")_"@;
    let e = decimal(tick);
    let whole = stamp(process, thread, tick);
    assert forall|i: int| 0 <= i < whole.len() implies #[trigger] whole[i] != '/' && whole[i]
        != '\\' by {
        if i < a.len() {
            assert(whole[i] == a[i]);
        } else if i < a.len() + b.len() {
            assert(whole[i] == b[i - a.len()]);
        } else if i < a.len() + b.len() + c.len() {
            assert(whole[i] == c[i - a.len() - b.len()]);
        } else if i < a.len() + b.len() + c.len() + d.len() {
            assert(whole[i] == d[i - a.len() - b.len() - c.len()]);
        } else {
            assert(whole[i] == e[i - a.len() - b.len() - c.len() - d.len()]);
        }
    }
}

/// Two numbers with the same decimal text are the same number.
pub proof fn lemma_decimal_is_injective(a: nat, b: nat)
    requires
        decimal(a) == decimal(b),
    ensures
        a == b,
    decreases a,
{
    lemma_decimal_is_digits(a / 10);
    lemma_decimal_is_digits(b / 10);
    if a < 10 && b < 10 {
        assert(decimal(a)[0] == digit(a));
        assert(decimal(b)[0] == digit(b));
    } else if a < 10 {
        assert(decimal(b).len() >= 2);
    } else if b < 10 {
        assert(decimal(a).len() >= 2);
    } else {
        let front_a = decimal(a / 10);
        let front_b = decimal(b / 10);
        let last_a = digit(a % 10);
        let last_b = digit(b % 10);
        assert(front_a.push(last_a) == front_b.push(last_b));
        assert(front_a =~= front_a.push(last_a).drop_last());
        assert(front_b =~= front_b.push(last_b).drop_last());
        assert(last_a == front_a.push(last_a).last());
        assert(last_b == front_b.push(last_b).last());
        lemma_decimal_is_injective(a / 10, b / 10);
        assert(a % 10 == b % 10);
    }
}

/// True where a text holds decimal digits only.
pub open spec fn all_digits(text: Seq<char>) -> bool {
    forall|i: int| 0 <= i < text.len() ==> '0' <= #[trigger] text[i] <= '9'
}

/// True where a text starts with a character that is no decimal digit.
pub open spec fn starts_off_digits(text: Seq<char>) -> bool {
    text.len() > 0 && !('0' <= text[0] <= '9')
}

/// A run of digits that is followed by something else can be read off a
/// text in one way only.
proof fn lemma_digits_end_once(
    digits_a: Seq<char>,
    rest_a: Seq<char>,
    digits_b: Seq<char>,
    rest_b: Seq<char>,
)
    requires
        all_digits(digits_a),
        all_digits(digits_b),
        starts_off_digits(rest_a),
        starts_off_digits(rest_b),
        digits_a + rest_a == digits_b + rest_b,
    ensures
        digits_a == digits_b,
        rest_a == rest_b,
{
    let whole = digits_a + rest_a;
    let other = digits_b + rest_b;
    if digits_a.len() < digits_b.len() {
        assert(whole[digits_a.len() as int] == rest_a[0]);
        assert(other[digits_a.len() as int] == digits_b[digits_a.len() as int]);
    } else if digits_b.len() < digits_a.len() {
        assert(other[digits_b.len() as int] == rest_b[0]);
        assert(whole[digits_b.len() as int] == digits_a[digits_b.len() as int]);
    }
    assert(digits_a.len() == digits_b.len());
    assert(digits_a =~= whole.subrange(0, digits_a.len() as int));
    assert(digits_b =~= other.subrange(0, digits_b.len() as int));
    assert(rest_a =~= whole.subrange(digits_a.len() as int, whole.len() as int));
    assert(rest_b =~= other.subrange(digits_b.len() as int, other.len() as int));
}

/// Two attempts have the same stamp only if they agree in process, thread
/// and tick: attempts that differ in one of them never share a staging
/// extension.
pub proof fn lemma_stamp_is_injective(
    process_a: nat,
    thread_a: nat,
    tick_a: nat,
    process_b: nat,
    thread_b: nat,
    tick_b: nat,
)
    requires
        stamp(process_a, thread_a, tick_a) == stamp(process_b, thread_b, tick_b),
    ensures
        process_a == process_b,
        thread_a == thread_b,
        tick_a == tick_b,
{
    reveal_strlit("_ThreadId(");
    reveal_strlit(")_");
    lemma_decimal_is_digits(process_a);
    lemma_decimal_is_digits(process_b);
    lemma_decimal_is_digits(thread_a);
    lemma_decimal_is_digits(thread_b);
    let opener = "_ThreadId("@;
    let closer = ")_"@;
    let back_a = closer + decimal(tick_a);
    let back_b = closer + decimal(tick_b);
    let middle_a = decimal(thread_a) + back_a;
    let middle_b = decimal(thread_b) + back_b;
    let rest_a = opener + middle_a;
    let rest_b = opener + middle_b;
    assert(stamp(process_a, thread_a, tick_a) =~= decimal(process_a) + rest_a);
    assert(stamp(process_b, thread_b, tick_b) =~= decimal(process_b) + rest_b);
    assert(rest_a[0] == opener[0]);
    assert(rest_b[0] == opener[0]);
    lemma_digits_end_once(decimal(process_a), rest_a, decimal(process_b), rest_b);
    assert(middle_a =~= rest_a.subrange(opener.len() as int, rest_a.len() as int));
    assert(middle_b =~= rest_b.subrange(opener.len() as int, rest_b.len() as int));
    assert(back_a[0] == closer[0]);
    assert(back_b[0] == closer[0]);
    lemma_digits_end_once(decimal(thread_a), back_a, decimal(thread_b), back_b);
    assert(decimal(tick_a) =~= back_a.subrange(closer.len() as int, back_a.len() as int));
    assert(decimal(tick_b) =~= back_b.subrange(closer.len() as int, back_b.len() as int));
    lemma_decimal_is_injective(process_a, process_b);
    lemma_decimal_is_injective(thread_a, thread_b);
    lemma_decimal_is_injective(tick_a, tick_b);
}

/// One decimal digit as text.
fn digit_text(value: u8) -> (text: &'static str)
    requires
        value < 10,
    ensures
        text@ == seq![digit(value as nat)],
{
    proof {
        reveal_strlit("0");
        reveal_strlit("1");
        reveal_strlit("2");
        reveal_strlit("3");
        reveal_strlit("4");
        reveal_strlit("5");
        reveal_strlit("6");
        reveal_strlit("7");
        reveal_strlit("8");
        reveal_strlit("9");
    }
    let text = if value == 0 {
        "0"
    } else if value == 1 {
        "1"
    } else if value == 2 {
        "2"
    } else if value == 3 {
        "3"
    } else if value == 4 {
        "4"
    } else if value == 5 {
        "5"
    } else if value == 6 {
        "6"
    } else if value == 7 {
        "7"
    } else if value == 8 {
        "8"
    } else {
        "9"
    };
    assert(text@ =~= seq![digit(value as nat)]);
    text
}

/// Writes a number in decimal.
pub fn decimal_text(value: u128) -> (text: String)
    ensures
        text@ == decimal(value as nat),
    decreases value,
{
    let last = digit_text((value % 10) as u8);
    if value < 10 {
        String::from_str(last)
    } else {
        let text = decimal_text(value / 10).concat(last);
        assert(text@ =~= decimal(value as nat));
        text
    }
}

/// Writes the extension of a staging file for one attempt.
pub fn stamp_text(process: u32, thread: u64, clock: Option<u128>, attempt: u128) -> (text: String)
    ensures
        text@ == stamp(process as nat, thread as nat, tick_of(clock, attempt)),
        separator_free(text@),
{
    let tick = match clock {
        Some(reading) => reading,
        None => attempt,
    };
    proof {
        lemma_stamp_is_separator_free(process as nat, thread as nat, tick as nat);
    }
    decimal_text(process as u128).concat("_ThreadId(").concat(
        decimal_text(thread as u128).as_str(),
    ).concat(")_").concat(decimal_text(tick).as_str())
}

} // verus!
