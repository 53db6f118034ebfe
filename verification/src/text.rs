//! Rendering numbers and combat messages as text, so the display
//! collaborator receives finished strings.

use vstd::prelude::*;
use vstd::string::StrSliceExecFns;
use vstd::string::StringExecFns;

verus! {

/// The decimal digit character for one digit value.
pub open spec fn spec_digit(d: int) -> char {
    if d == 0 {
        '0'
    } else if d == 1 {
        '1'
    } else if d == 2 {
        '2'
    } else if d == 3 {
        '3'
    } else if d == 4 {
        '4'
    } else if d == 5 {
        '5'
    } else if d == 6 {
        '6'
    } else if d == 7 {
        '7'
    } else if d == 8 {
        '8'
    } else {
        '9'
    }
}

/// The decimal rendering of a number, most significant digit first.
pub open spec fn spec_decimal(n: nat) -> Seq<char>
    decreases n,
{
    if n < 10 {
        seq![spec_digit(n as int)]
    } else {
        spec_decimal(n / 10).push(spec_digit((n % 10) as int))
    }
}

/// The decimal rendering of `n`, without sign or padding.
pub fn decimal_string(n: u64) -> (r: String)
    ensures
        r@ == spec_decimal(n as nat),
    decreases n,
{
    proof {
        reveal_strlit("0");
        reveal_strlit("1");
        reveal_strlit("2");
        reveal_strlit("3");
        reveal_strlit("4");
        reveal_strlit("5");
        reveal_strlit("6");
        reveal_strlit("7");
        reveal_strlit("8");
        reveal_strlit("9");
    }
    let digit: &str = match n % 10 {
        0 => "0",
        1 => "1",
        2 => "2",
        3 => "3",
        4 => "4",
        5 => "5",
        6 => "6",
        7 => "7",
        8 => "8",
        _ => "9",
    };
    proof {
        assert(digit@ =~= seq![spec_digit((n % 10) as int)]);
    }
    if n < 10 {
        let mut rendered: String = String::new();
        rendered.append(digit);
        proof {
            assert(rendered@ =~= spec_decimal(n as nat));
        }
        rendered
    } else {
        let mut rendered: String = decimal_string(n / 10);
        rendered.append(digit);
        proof {
            assert(rendered@ =~= spec_decimal(n as nat));
        }
        rendered
    }
}

/// The health counter text displayed beside a combatant.
pub fn health_line(health: u64) -> (r: String)
    ensures
        r@ == "Health: "@ + spec_decimal(health as nat),
{
    let mut line: String = String::from_str("Health: ");
    let number: String = decimal_string(health);
    line.append(number.as_str());
    line
}

/// The banner announcing the experience earned for a victory.
pub fn reward_line(exp: u64) -> (r: String)
    ensures
        r@ == "Earned: "@ + spec_decimal(exp as nat) + " exp"@,
{
    let mut line: String = String::from_str("Earned: ");
    let number: String = decimal_string(exp);
    line.append(number.as_str());
    line.append(" exp");
    line
}

/// The banner announcing a level-up.
pub fn level_up_line() -> (r: String)
    ensures
        r@ == "Level up!"@,
{
    String::from_str("Level up!")
}

} // verus!
