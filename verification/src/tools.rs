use vstd::prelude::*;

use rand::Rng;
use vstd::string::StringExecFns;

verus! {

/// Draws a number from `low..=high` with `rand::Rng::gen_range` on the
/// thread's generator (`rand::thread_rng()`).  The claim: the number lies
/// in the range (`rand` asserts `low <= high`, which `requires` ensures);
/// nothing else is known of it.  Seeding the generator can also panic when
/// the operating system gives no randomness, which no condition here can
/// rule out.
#[verifier::external_body]
pub(crate) fn random_in_range(low: u32, high: u32) -> (r: u32)
    requires
        low <= high,
    ensures
        low <= r <= high,
{
    rand::thread_rng().gen_range(low..=high)
}

/// The character of a decimal digit.
pub open spec fn digit_char(d: int) -> char {
    if d == 0 {
        '0'
    } else if d == 1 {
        '1'
    } else if d == 2 {
        '2'
    } else if d == 3 {
        '3'
    } else if d == 4 {
        '4'
    } else if d == 5 {
        '5'
    } else if d == 6 {
        '6'
    } else if d == 7 {
        '7'
    } else if d == 8 {
        '8'
    } else {
        '9'
    }
}

/// The decimal writing of `n`, without leading zeros.
pub open spec fn decimal(n: nat) -> Seq<char>
    decreases n,
{
    if n < 10 {
        seq![digit_char(n as int)]
    } else {
        decimal(n / 10).push(digit_char((n % 10) as int))
    }
}

/// Appends the decimal digit `d`.
fn push_digit(s: &mut String, d: u32)
    requires
        d < 10,
    ensures
        final(s)@ == old(s)@.push(digit_char(d as int)),
{
    let digit: &str = match d {
        0 => "0",
        1 => "1",
        2 => "2",
        3 => "3",
        4 => "4",
        5 => "5",
        6 => "6",
        7 => "7",
        8 => "8",
        _ => "9",
    };
    proof {
        reveal_strlit("0");
        reveal_strlit("1");
        reveal_strlit("2");
        reveal_strlit("3");
        reveal_strlit("4");
        reveal_strlit("5");
        reveal_strlit("6");
        reveal_strlit("7");
        reveal_strlit("8");
        reveal_strlit("9");
    }
    s.append(digit);
    assert(s@ =~= old(s)@.push(digit_char(d as int)));
}

/// Appends the decimal writing of `n`.
fn push_decimal(s: &mut String, n: u32)
    ensures
        final(s)@ == old(s)@ + decimal(n as nat),
    decreases n,
{
    if n >= 10 {
        push_decimal(s, n / 10);
    }
    push_digit(s, n % 10);
    assert(s@ =~= old(s)@ + decimal(n as nat));
}

/// Rewrites `texture_path` as `front_part`, the decimal writing of `i`,
/// then `end_part`: the path of frame `i` of an animation.
pub fn update_texture_path(texture_path: &mut String, front_part: &str, i: u32, end_part: &str)
    ensures
        final(texture_path)@ == front_part@ + decimal(i as nat) + end_part@,
{
    *texture_path = String::new();
    texture_path.append(front_part);
    push_decimal(texture_path, i);
    texture_path.append(end_part);
    assert(texture_path@ =~= front_part@ + decimal(i as nat) + end_part@);
}

/// A decimal writing has one digit exactly for numbers below ten.
proof fn lemma_decimal_len(n: nat)
    ensures
        decimal(n).len() >= 1,
        decimal(n).len() == 1 <==> n < 10,
    decreases n,
{
    if n >= 10 {
        lemma_decimal_len(n / 10);
    }
}

/// Different numbers are written differently, so the frames of an
/// animation get different paths.
pub proof fn lemma_decimal_injective(n: nat, m: nat)
    requires
        decimal(n) == decimal(m),
    ensures
        n == m,
    decreases n,
{
    lemma_decimal_len(n);
    lemma_decimal_len(m);
    if n < 10 {
        assert(m < 10);
        assert(decimal(n) == seq![digit_char(n as int)]);
        assert(decimal(m) == seq![digit_char(m as int)]);
        assert(seq![digit_char(n as int)][0] == digit_char(n as int));
        assert(seq![digit_char(m as int)][0] == digit_char(m as int));
        assert(digit_char(n as int) == digit_char(m as int));
    } else {
        let dn = decimal(n);
        let dm = decimal(m);
        assert(dn.last() == dm.last());
        assert(dn.drop_last() =~= decimal(n / 10));
        assert(dm.drop_last() =~= decimal(m / 10));
        lemma_decimal_injective(n / 10, m / 10);
    }
}

/// Paths written for two frames with the same front and end parts are equal
/// only for the same frame.
pub proof fn lemma_frame_paths_differ(front: Seq<char>, end: Seq<char>, i: u32, j: u32)
    requires
        front + decimal(i as nat) + end == front + decimal(j as nat) + end,
    ensures
        i == j,
{
    let a = front + decimal(i as nat) + end;
    let b = front + decimal(j as nat) + end;
    lemma_decimal_len(i as nat);
    lemma_decimal_len(j as nat);
    assert(a.len() == b.len());
    assert(decimal(i as nat) =~= a.subrange(front.len() as int, a.len() - end.len()));
    assert(decimal(j as nat) =~= b.subrange(front.len() as int, b.len() - end.len()));
    lemma_decimal_injective(i as nat, j as nat);
}

} // verus!
