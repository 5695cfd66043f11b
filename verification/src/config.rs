//! What the command line asks for.

use vstd::prelude::*;
use vstd::string::StringExecFns;

verus! {

/// The number of double pendulums where the command line names none.
pub const DEFAULT_SIZE: usize = 1;

/// Whether `c` is one of the ten decimal digits.
pub open spec fn is_digit(c: char) -> bool {
    '0' <= c <= '9'
}

/// The digit that `c` stands for.
pub open spec fn digit_value(c: char) -> nat {
    if is_digit(c) {
        (c as nat - '0' as nat) as nat
    } else {
        0
    }
}

/// The number that `digits` spell in decimal.
pub open spec fn decimal(digits: Seq<char>) -> nat
    decreases digits.len(),
{
    if digits.len() == 0 {
        0
    } else {
        decimal(digits.drop_last()) * 10 + digit_value(digits.last())
    }
}

/// `text` without the one plus sign that may stand in front of it.
pub open spec fn unsigned_part(text: Seq<char>) -> Seq<char> {
    if text.len() > 0 && text[0] == '+' {
        text.drop_first()
    } else {
        text
    }
}

/// The count that `text` spells: at least one decimal digit and nothing
/// else, but for one plus sign that may stand in front; the number must fit
/// the machine word. Any other text spells no count.
pub open spec fn parsed_count(text: Seq<char>) -> Option<usize> {
    let digits = unsigned_part(text);
    if digits.len() > 0 && (forall|i: int| 0 <= i < digits.len() ==> is_digit(#[trigger] digits[i]))
        && decimal(digits) <= usize::MAX {
        Some(decimal(digits) as usize)
    } else {
        None
    }
}

/// The number that the first `k` digits spell is not above the number that all of them spell.
proof fn decimal_of_prefix(digits: Seq<char>, k: int)
    requires
        0 <= k <= digits.len(),
    ensures
        decimal(digits.take(k)) <= decimal(digits),
    decreases digits.len(),
{
    if k == digits.len() {
        assert(digits.take(k) =~= digits);
    } else {
        decimal_of_prefix(digits.drop_last(), k);
        assert(digits.drop_last().take(k) =~= digits.take(k));
    }
}

/// The count that `text` spells, if it spells one.
pub fn parse_count(text: &str) -> (count: Option<usize>)
    ensures
        count == parsed_count(text@),
{
    broadcast use vstd::string::is_ascii_spec_bytes;

    let ghost digits = unsigned_part(text@);
    if !text.is_ascii() {
        proof {
            let i = choose|i: int|
                0 <= i < text@.len() && !('\0' <= #[trigger] text@[i] <= '\u{7f}');
            if text@[0] == '+' {
                assert(digits[i - 1] == text@[i]);
            } else {
                assert(digits[i] == text@[i]);
            }
        }
        return None;
    }
    let bytes = text.as_bytes();
    let n = bytes.len();
    proof {
        vstd::string::is_ascii_spec_bytes(text);
    }
    assert(n == text@.len());
    assert(forall|j: int| 0 <= j < text@.len() ==> '\0' <= #[trigger] text@[j] <= '\u{7f}');
    assert(forall|j: int| 0 <= j < n ==> #[trigger] bytes@[j] == text@[j] as u8);
    let start: usize = if n > 0 && bytes[0] == 0x2b {
        assert(text@[0] == '+');
        1
    } else {
        assert(n > 0 ==> text@[0] != '+');
        0
    };
    assert(digits =~= text@.subrange(start as int, n as int));
    if start == n {
        return None;
    }
    let mut value: usize = 0;
    let mut i: usize = start;
    while i < n
        invariant
            start <= i <= n,
            n == text@.len(),
            n == bytes@.len(),
            forall|j: int| 0 <= j < n ==> '\0' <= #[trigger] text@[j] <= '\u{7f}',
            forall|j: int| 0 <= j < n ==> #[trigger] bytes@[j] == text@[j] as u8,
            digits == unsigned_part(text@),
            digits == text@.subrange(start as int, n as int),
            forall|j: int| 0 <= j < i - start ==> is_digit(#[trigger] digits[j]),
            value == decimal(digits.take(i - start)),
        decreases n - i,
    {
        let b = bytes[i];
        let ghost c = text@[i as int];
        assert(c == digits[i - start]);
        assert('\0' <= c <= '\u{7f}' && b == c as u8);
        if b < 0x30 || b > 0x39 {
            assert(!is_digit(c));
            return None;
        }
        let ghost longer = digits.take(i + 1 - start);
        proof {
            assert(is_digit(c) && digit_value(c) == b - 0x30);
            assert(longer.drop_last() =~= digits.take(i - start));
            assert(longer.last() == c);
            assert(decimal(longer) == value * 10 + digit_value(c));
            decimal_of_prefix(digits, i + 1 - start);
        }
        let tenfold = match value.checked_mul(10) {
            Some(v) => v,
            None => {
                return None;
            },
        };
        value = match tenfold.checked_add((b - 0x30) as usize) {
            Some(v) => v,
            None => {
                return None;
            },
        };
        i += 1;
    }
    assert(digits.take(n - start) =~= digits);
    Some(value)
}

/// What the command line asks for.
#[derive(Clone, Copy, Debug, PartialEq, Eq, Structural)]
pub struct Config {
    /// The number of double pendulums at the start.
    pub size: usize,
    /// Whether trails are shown at the start.
    pub show_trail: bool,
}

impl Config {
    /// What the arguments `args` ask for, the program's name being the first
    /// of them: the second is the number of double pendulums,
    /// [`DEFAULT_SIZE`] where it is missing or spells no count; trails are
    /// shown only where the third is the word `true`.
    pub open spec fn spec_new(args: Seq<String>) -> Config {
        Config {
            size: if args.len() > 1 {
                match parsed_count(args[1]@) {
                    Some(n) => n,
                    None => DEFAULT_SIZE,
                }
            } else {
                DEFAULT_SIZE
            },
            show_trail: args.len() > 2 && args[2]@ == "true"@,
        }
    }

    /// Reads the arguments of the command line, the program's name being the first.
    pub fn new(args: Vec<String>) -> (config: Config)
        ensures
            config == Config::spec_new(args@),
    {
        let size = if args.len() > 1 {
            match parse_count(args[1].as_str()) {
                Some(n) => n,
                None => DEFAULT_SIZE,
            }
        } else {
            DEFAULT_SIZE
        };
        let show_trail = args.len() > 2 && args[2] == String::from_str("true");
        Config { size, show_trail }
    }
}

} // verus!
