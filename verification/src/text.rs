//! Small text operations on tensor names and messages.

use vstd::prelude::*;

verus! {

/// The character of the decimal digit `d`.
pub open spec fn digit_char(d: int) -> char
    recommends
        0 <= d < 10,
{
    (48 + d) as char
}

/// The decimal digits of `n`, most significant first and without leading zeros.
pub open spec fn decimal(n: nat) -> Seq<char>
    decreases n,
{
    if n < 10 {
        seq![digit_char(n as int)]
    } else {
        decimal(n / 10).push(digit_char((n % 10) as int))
    }
}

/// The part of `name` before its last `.`, if there is one.
pub open spec fn stem(name: Seq<char>) -> Option<Seq<char>>
    decreases name.len(),
{
    if name.len() == 0 {
        None
    } else if name.last() == '.' {
        Some(name.drop_last())
    } else {
        stem(name.drop_last())
    }
}

/// The digit `d` as a string.
fn digit_str(d: u64) -> (s: &'static str)
    requires
        d < 10,
    ensures
        s@ == seq![digit_char(d as int)],
{
    proof {
        reveal_strlit("0");
        reveal_strlit("1");
        reveal_strlit("2");
        reveal_strlit("3");
        reveal_strlit("4");
        reveal_strlit("5");
        reveal_strlit("6");
        reveal_strlit("7");
        reveal_strlit("8");
        reveal_strlit("9");
    }
    match d {
        0 => "0",
        1 => "1",
        2 => "2",
        3 => "3",
        4 => "4",
        5 => "5",
        6 => "6",
        7 => "7",
        8 => "8",
        _ => "9",
    }
}

/// Writes `n` in decimal at the end of `out`.
pub fn append_decimal(out: &mut String, n: u64)
    ensures
        final(out)@ == old(out)@ + decimal(n as nat),
    decreases n,
{
    if n >= 10 {
        append_decimal(out, n / 10);
    }
    out.append(digit_str(n % 10));
}

/// The part of `name` before its last `.`, or nothing if `name` holds no `.`.
pub fn name_stem(name: &str) -> (prefix: Option<String>)
    ensures
        prefix is Some <==> stem(name@) is Some,
        prefix matches Some(text) ==> stem(name@) == Some(text@),
{
    let mut end: usize = name.unicode_len();
    assert(name@.take(end as int) =~= name@);
    while end > 0
        invariant
            end <= name@.len(),
            stem(name@) == stem(name@.take(end as int)),
        decreases end,
    {
        let last: usize = end - 1;
        assert(name@.take(end as int).drop_last() =~= name@.take(last as int));
        if name.get_char(last) == '.' {
            let text: String = name.substring_char(0, last).to_owned();
            assert(text@ =~= name@.take(last as int));
            return Some(text);
        }
        end = last;
    }
    None
}

/// A name has a stem exactly where it has a `.`; the stem is then followed by a
/// `.`, and no further `.` comes after that one.
pub proof fn stem_splits_at_the_last_dot(name: Seq<char>)
    ensures
        stem(name) is Some <==> name.contains('.'),
        stem(name) matches Some(prefix) ==> {
            &&& prefix.len() < name.len()
            &&& prefix == name.take(prefix.len() as int)
            &&& name[prefix.len() as int] == '.'
            &&& forall|i: int| prefix.len() < i < name.len() ==> name[i] != '.'
        },
    decreases name.len(),
{
    if name.len() > 0 {
        let init = name.drop_last();
        if name.last() == '.' {
            assert(name[name.len() - 1] == '.');
            assert(init =~= name.take(init.len() as int));
        } else {
            stem_splits_at_the_last_dot(init);
            assert forall|i: int| 0 <= i < init.len() implies init[i] == name[i] by {}
            if name.contains('.') {
                let i = choose|i: int| 0 <= i < name.len() && name[i] == '.';
                assert(init[i] == '.');
            }
            if let Some(prefix) = stem(name) {
                assert(init[prefix.len() as int] == name[prefix.len() as int]);
                assert(prefix =~= name.take(prefix.len() as int));
            }
        }
    }
}

/// Different numbers are written differently.
pub proof fn decimal_is_injective(a: nat, b: nat)
    requires
        decimal(a) == decimal(b),
    ensures
        a == b,
    decreases a,
{
    decimal_is_not_empty(a);
    decimal_is_not_empty(b);
    if a >= 10 {
        decimal_is_not_empty(a / 10);
        assert(decimal(a).drop_last() =~= decimal(a / 10));
    }
    if b >= 10 {
        decimal_is_not_empty(b / 10);
        assert(decimal(b).drop_last() =~= decimal(b / 10));
    }
    assert(decimal(a).last() as int == 48 + a % 10);
    assert(decimal(b).last() as int == 48 + b % 10);
    if a >= 10 && b >= 10 {
        decimal_is_injective(a / 10, b / 10);
    } else {
        assert(a < 10) by {
            if a >= 10 {
                assert(decimal(a).len() > 1);
            }
        }
        assert(b < 10) by {
            if b >= 10 {
                assert(decimal(b).len() > 1);
            }
        }
    }
}

/// A number is written with at least one digit, and with digits only.
pub proof fn decimal_is_not_empty(n: nat)
    ensures
        decimal(n).len() > 0,
        forall|i: int| 0 <= i < decimal(n).len() ==> '0' <= #[trigger] decimal(n)[i] <= '9',
    decreases n,
{
    if n >= 10 {
        decimal_is_not_empty(n / 10);
    }
}

/// The number that a text of decimal digits stands for.
pub open spec fn number(digits: Seq<char>) -> int {
    digits.fold_left(0int, |n: int, digit: char| 10 * n + (digit as int - '0' as int))
}

/// What is written for a number stands for that number, and has no zero in front unless it is
/// zero itself.
pub proof fn decimal_stands_for_its_number(n: nat)
    ensures
        number(decimal(n)) == n,
        decimal(n)[0] == '0' ==> n == 0 && decimal(n).len() == 1,
    decreases n,
{
    let f = |n: int, digit: char| 10 * n + (digit as int - '0' as int);
    decimal_is_not_empty(n);
    if n >= 10 {
        decimal_stands_for_its_number(n / 10);
        decimal_is_not_empty(n / 10);
        assert(decimal(n).drop_last() =~= decimal(n / 10));
        assert(decimal(n)[0] == decimal(n / 10)[0]);
    } else {
        assert(decimal(n).drop_last() =~= Seq::<char>::empty());
        assert(decimal(n).drop_last().fold_left(0int, f) == 0);
    }
}

/// A name without a `.` has no stem. Any other name is its stem, a `.`, and an ending without
/// a `.`.
pub proof fn names_are_stem_and_ending(name: &str, prefix: Option<String>)
    requires
        call_ensures(name_stem, (name,), prefix),
    ensures
        prefix is None <==> !name@.contains('.'),
        prefix matches Some(text) ==> exists|ending: Seq<char>|
            name@ == #[trigger] (text@ + seq!['.'] + ending) && !ending.contains('.'),
{
    stem_splits_at_the_last_dot(name@);
    if let Some(text) = prefix {
        let ending = name@.skip(text@.len() as int + 1);
        assert forall|i: int| 0 <= i < ending.len() implies ending[i] != '.' by {
            assert(ending[i] == name@[text@.len() + 1 + i]);
        }
        assert(name@ =~= text@ + seq!['.'] + ending);
    }
}

/// A number is written behind what is there: digits that stand for it.
pub proof fn numbers_are_written_behind(out: &mut String, n: u64)
    requires
        call_ensures(append_decimal, (out, n), ()),
    ensures
        final(out)@.len() > old(out)@.len(),
        final(out)@.take(old(out)@.len() as int) == old(out)@,
        number(final(out)@.skip(old(out)@.len() as int)) == n,
        forall|i: int|
            old(out)@.len() <= i < final(out)@.len() ==> '0' <= #[trigger] final(out)@[i] <= '9',
{
    let before = old(out)@;
    let digits = decimal(n as nat);
    decimal_is_not_empty(n as nat);
    decimal_stands_for_its_number(n as nat);
    assert((before + digits).take(before.len() as int) =~= before);
    assert((before + digits).skip(before.len() as int) =~= digits);
    assert forall|i: int| before.len() <= i < (before + digits).len() implies '0' <= #[trigger] (
    before + digits)[i] <= '9' by {
        assert((before + digits)[i] == digits[i - before.len()]);
    }
}

} // verus!
