use vstd::prelude::*;

use crate::error::ApiError;
use vstd::string::StrSliceExecFns;

verus! {

/// One of the three seats at the table.
#[derive(Debug, Clone, Copy, PartialEq, Eq, Structural)]
pub enum Player {
    One,
    Two,
    Three,
}

/// The player with the stable number `n` (1, 2 or 3).
pub open spec fn player_of_code(n: i32) -> Result<Player, ApiError> {
    if n == 1 {
        Ok(Player::One)
    } else if n == 2 {
        Ok(Player::Two)
    } else if n == 3 {
        Ok(Player::Three)
    } else {
        Err(ApiError::NotAValidPlayer { n })
    }
}

/// Whether `s` is a non-empty run of ASCII digits.
pub open spec fn is_decimal_digits(s: Seq<char>) -> bool {
    s.len() > 0 && forall|i: int| 0 <= i < s.len() ==> '0' <= #[trigger] s[i] <= '9'
}

/// The value of a run of ASCII digits, most significant first.
pub open spec fn digits_value(s: Seq<char>) -> int
    decreases s.len(),
{
    if s.len() == 0 {
        0
    } else {
        digits_value(s.drop_last()) * 10 + (s.last() as int - '0' as int)
    }
}

/// The integer `text` writes in decimal: an optional `+` or `-` sign, then at least one
/// ASCII digit, and nothing else.
pub open spec fn decimal_value(text: Seq<char>) -> Option<int> {
    if text.len() > 0 && text[0] == '-' && is_decimal_digits(text.drop_first()) {
        Some(-digits_value(text.drop_first()))
    } else if text.len() > 0 && text[0] == '+' && is_decimal_digits(text.drop_first()) {
        Some(digits_value(text.drop_first()))
    } else if is_decimal_digits(text) {
        Some(digits_value(text))
    } else {
        None
    }
}

/// The `i32` that `text` writes in decimal, if it writes one in range.
pub open spec fn parsed_i32(text: Seq<char>) -> Option<i32> {
    match decimal_value(text) {
        Some(v) => if i32::MIN <= v <= i32::MAX {
            Some(v as i32)
        } else {
            None
        },
        None => None,
    }
}

/// Relies on `str::parse::<i32>`: it accepts an optional sign followed by ASCII digits,
/// and fails on anything else and on values out of range.
#[verifier::external_body]
fn parse_i32(text: &str) -> (r: Option<i32>)
    ensures
        r == parsed_i32(text@),
{
    text.parse::<i32>().ok()
}

/// The number of a player written out by name, or -1 for any other text.
pub open spec fn player_name_code(text: Seq<char>) -> i32 {
    if text == "One"@ {
        1
    } else if text == "Two"@ {
        2
    } else if text == "Three"@ {
        3
    } else {
        -1i32
    }
}

/// The player a form field names, given what the field reads as in decimal.
pub open spec fn player_of_text(parsed: Option<i32>, text: Seq<char>) -> Result<Player, ApiError> {
    match parsed {
        Some(n) => player_of_code(n),
        None => player_of_code(player_name_code(text)),
    }
}

/// Whether two strings hold the same characters.
pub fn text_equals(text: &str, word: &str) -> (r: bool)
    ensures
        r == (text@ == word@),
{
    let n = text.unicode_len();
    if n != word.unicode_len() {
        return false;
    }
    let mut i: usize = 0;
    while i < n
        invariant
            n == text@.len(),
            n == word@.len(),
            0 <= i <= n,
            forall|j: int| 0 <= j < i ==> text@[j] == word@[j],
        decreases n - i,
    {
        if text.get_char(i) != word.get_char(i) {
            return false;
        }
        i = i + 1;
    }
    proof {
        assert(text@ =~= word@);
    }
    true
}

impl Player {
    /// The player a form field names, by number or by name, given what the field reads as
    /// in decimal.
    pub fn from_parsed(parsed: Option<i32>, text: &str) -> (r: Result<Player, ApiError>)
        ensures
            r == player_of_text(parsed, text@),
    {
        let code = match parsed {
            Some(n) => n,
            None => {
                if text_equals(text, "One") {
                    1
                } else if text_equals(text, "Two") {
                    2
                } else if text_equals(text, "Three") {
                    3
                } else {
                    -1
                }
            },
        };
        Player::try_from(code)
    }

    /// The player a form field names: a number 1 to 3, or `One`, `Two` or `Three`.
    pub fn from_field_text(text: &str) -> (r: Result<Player, ApiError>)
        ensures
            r == player_of_text(parsed_i32(text@), text@),
    {
        let parsed = parse_i32(text);
        Player::from_parsed(parsed, text)
    }

    pub open spec fn spec_code(self) -> i32 {
        match self {
            Player::One => 1,
            Player::Two => 2,
            Player::Three => 3,
        }
    }

    /// The stable number of the player, as stored and sent.
    pub fn code(self) -> (r: i32)
        ensures
            r == self.spec_code(),
            player_of_code(r) == Ok::<Player, ApiError>(self),
    {
        match self {
            Player::One => 1,
            Player::Two => 2,
            Player::Three => 3,
        }
    }
}

impl TryFrom<i32> for Player {
    type Error = ApiError;

    fn try_from(num: i32) -> (r: Result<Self, Self::Error>)
        ensures
            r == player_of_code(num),
    {
        match num {
            1 => Ok(Player::One),
            2 => Ok(Player::Two),
            3 => Ok(Player::Three),
            n => Err(ApiError::NotAValidPlayer { n }),
        }
    }
}

impl vstd::std_specs::convert::TryFromSpecImpl<i32> for Player {
    open spec fn obeys_try_from_spec() -> bool {
        true
    }

    open spec fn try_from_spec(num: i32) -> Result<Player, ApiError> {
        player_of_code(num)
    }
}

} // verus!
