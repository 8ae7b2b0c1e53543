//! The command line: index tokens and the top-level command.

use vstd::prelude::*;

verus! {

/// An ASCII decimal digit.
pub open spec fn is_digit(c: char) -> bool {
    48 <= c as u32 <= 57
}

/// The number that a digit stands for.
pub open spec fn digit_value(c: char) -> nat {
    (c as u32 - 48) as nat
}

pub open spec fn all_digits(text: Seq<char>) -> bool {
    forall|i: int| 0 <= i < text.len() ==> is_digit(#[trigger] text[i])
}

/// The number that a sequence of digits writes in base ten.
pub open spec fn decimal_value(digits: Seq<char>) -> nat
    decreases digits.len(),
{
    if digits.len() == 0 {
        0
    } else {
        decimal_value(digits.drop_last()) * 10 + digit_value(digits.last())
    }
}

/// The token without one leading plus sign.
pub open spec fn unsigned_part(token: Seq<char>) -> Seq<char> {
    if token.len() > 0 && token[0] as u32 == 43 {
        token.skip(1)
    } else {
        token
    }
}

/// The index that a token names: an optional plus sign, then one or more
/// decimal digits whose value fits a `usize`. Any other token names none.
pub open spec fn index_value(token: Seq<char>) -> Option<nat> {
    let digits = unsigned_part(token);
    if digits.len() > 0 && all_digits(digits) && decimal_value(digits) <= usize::MAX {
        Some(decimal_value(digits))
    } else {
        None
    }
}

/// A longer run of digits does not write a smaller number than its prefix.
proof fn lemma_decimal_value_prefix(digits: Seq<char>, len: int)
    requires
        0 <= len <= digits.len(),
    ensures
        decimal_value(digits.take(len)) <= decimal_value(digits),
    decreases digits.len() - len,
{
    if len == digits.len() {
        assert(digits.take(len) =~= digits);
    } else {
        lemma_decimal_value_prefix(digits.drop_last(), len);
        assert(digits.drop_last().take(len) =~= digits.take(len));
    }
}

/// Reads a token as an index.
pub fn parse_index(token: &str) -> (index: Option<usize>)
    ensures
        match index {
            Some(n) => index_value(token@) == Some(n as nat),
            None => index_value(token@) is None,
        },
{
    let ghost digits = unsigned_part(token@);
    let ghost start: int = token@.len() - digits.len();
    let mut value: usize = 0;
    let mut any_digit = false;
    let mut at_start = true;
    assert(digits.take(0) =~= Seq::<char>::empty());
    for c in it: token.chars()
        invariant
            it.seq() == token@,
            digits == unsigned_part(token@),
            start == token@.len() - digits.len(),
            at_start == (it.index() == 0),
            at_start ==> value == 0 && !any_digit,
            !at_start ==> it.index() >= start && any_digit == (it.index() > start) && all_digits(
                digits.take(it.index() - start),
            ) && value == decimal_value(digits.take(it.index() - start)),
    {
        let code = c as u32;
        if at_start && code == 43 {
            assert(digits.take(0) =~= Seq::<char>::empty());
        } else {
            let ghost at: int = it.index() - start;
            let ghost seen = digits.take(at);
            let ghost next = digits.take(at + 1);
            proof {
                assert(digits[at] == c);
                assert(next.drop_last() =~= seen);
                assert(next.last() == c);
                lemma_decimal_value_prefix(digits, at + 1);
            }
            if code < 48 || code > 57 {
                assert(!is_digit(digits[at]));
                return None;
            }
            let digit = (code - 48) as usize;
            let shifted = match value.checked_mul(10) {
                Some(shifted) => shifted,
                None => {
                    return None;
                },
            };
            value = match shifted.checked_add(digit) {
                Some(sum) => sum,
                None => {
                    return None;
                },
            };
            any_digit = true;
            proof {
                assert forall|k: int| 0 <= k < next.len() implies is_digit(#[trigger] next[k]) by {
                    if k < seen.len() {
                        assert(next[k] == seen[k]);
                    }
                }
            }
        }
        at_start = false;
    }
    assert(digits.take(digits.len() as int) =~= digits);
    if any_digit {
        Some(value)
    } else {
        None
    }
}

/// Whether two texts are the same, character for character.
pub fn text_eq(a: &str, b: &str) -> (same: bool)
    ensures
        same == (a@ == b@),
{
    let x = a.as_bytes();
    let y = b.as_bytes();
    proof {
        vstd::utf8::encode_utf8_decode_utf8(a@);
        vstd::utf8::encode_utf8_decode_utf8(b@);
    }
    if x.len() != y.len() {
        return false;
    }
    let mut i: usize = 0;
    while i < x.len()
        invariant
            i <= x.len(),
            x.len() == y.len(),
            x@ == vstd::utf8::encode_utf8(a@),
            y@ == vstd::utf8::encode_utf8(b@),
            forall|k: int| 0 <= k < i ==> x@[k] == y@[k],
        decreases x.len() - i,
    {
        if x[i] != y[i] {
            return false;
        }
        i += 1;
    }
    assert(x@ =~= y@);
    true
}

/// The top-level commands.
#[derive(Clone, Copy, Debug, PartialEq, Eq, Structural)]
pub enum Command {
    /// List monitors.
    Ls,
    /// Set a wallpaper.
    SetWallpaper,
    /// Show or advance the slideshow.
    Slideshow,
    /// No command, or none that is known: show the usage text.
    Usage,
}

/// The rule that picks the command. `args` starts with the program's name;
/// the token after it names the command.
pub open spec fn dispatch_spec(args: Seq<String>) -> Command {
    if args.len() < 2 {
        Command::Usage
    } else if args[1]@ == "ls"@ {
        Command::Ls
    } else if args[1]@ == "set"@ {
        Command::SetWallpaper
    } else if args[1]@ == "slideshow"@ {
        Command::Slideshow
    } else {
        Command::Usage
    }
}

/// Picks the command that the program's arguments name.
pub fn dispatch(args: &[String]) -> (command: Command)
    ensures
        command == dispatch_spec(args@),
{
    if args.len() < 2 {
        return Command::Usage;
    }
    let name = args[1].as_str();
    if text_eq(name, "ls") {
        Command::Ls
    } else if text_eq(name, "set") {
        Command::SetWallpaper
    } else if text_eq(name, "slideshow") {
        Command::Slideshow
    } else {
        Command::Usage
    }
}

} // verus!
