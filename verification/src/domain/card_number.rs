//! Card numbers: the stable external handle of an account.

use vstd::prelude::*;
use vstd::string::*;

use crate::random::sample_uniform;
use crate::text::push_char;

verus! {

/// Number of digits in a card number.
pub const CARD_NUMBER_LEN: usize = 16;

/// Is `c` one of the ASCII digits `0` to `9`?
pub open spec fn is_digit(c: char) -> bool {
    '0' <= c && c <= '9'
}

/// Does every character of `s` satisfy `is_digit`?
pub open spec fn all_digits(s: Seq<char>) -> bool {
    forall|i: int| 0 <= i < s.len() ==> is_digit(#[trigger] s[i])
}

/// The shape of a card number: exactly sixteen ASCII digits.
pub open spec fn is_card_number(s: Seq<char>) -> bool {
    s.len() == CARD_NUMBER_LEN && all_digits(s)
}

/// Why a string is not a card number.
#[derive(Debug, Clone, Copy, PartialEq, Eq, Structural)]
pub enum CardNumberError {
    /// Some character is not an ASCII digit.
    NotNumeric,
    /// Every character is a digit, but there are not sixteen of them.
    BadLength,
}

/// What `CardNumber::parse` owes for the input `s`.
pub open spec fn parse_spec(s: Seq<char>) -> Result<Seq<char>, CardNumberError> {
    if !all_digits(s) {
        Err(CardNumberError::NotNumeric)
    } else if s.len() != CARD_NUMBER_LEN {
        Err(CardNumberError::BadLength)
    } else {
        Ok(s)
    }
}

/// A card number. Every value of this type holds exactly sixteen ASCII digits.
#[derive(Debug)]
pub struct CardNumber(String);

impl View for CardNumber {
    type V = Seq<char>;

    closed spec fn view(&self) -> Seq<char> {
        self.0@
    }
}

impl CardNumber {
    #[verifier::type_invariant]
    spec fn well_formed(self) -> bool {
        is_card_number(self.0@)
    }

    /// Returns a card number if `card` consists of exactly sixteen ASCII digits.
    pub fn parse(card: &str) -> (r: Result<CardNumber, CardNumberError>)
        ensures
            match r {
                Ok(c) => parse_spec(card@) == Ok::<Seq<char>, CardNumberError>(c@),
                Err(e) => parse_spec(card@) == Err::<Seq<char>, CardNumberError>(e),
            },
    {
        if !card.is_ascii() {
            proof {
                let i = choose|i: int|
                    0 <= i < card@.len() && !('\0' <= #[trigger] card@[i] && card@[i] <= '\u{7f}');
                assert(!is_digit(card@[i]));
            }
            return Err(CardNumberError::NotNumeric);
        }
        proof {
            vstd::utf8::is_ascii_chars_encode_utf8(card@);
        }
        let bytes = card.as_bytes();
        let n = bytes.len();
        let mut i: usize = 0;
        while i < n
            invariant
                is_ascii(card),
                bytes@ == card.spec_bytes(),
                n == bytes@.len(),
                n == card@.len(),
                forall|j: int| 0 <= j < n ==> card@[j] as u8 == #[trigger] bytes@[j],
                i <= n,
                forall|j: int| 0 <= j < i ==> is_digit(#[trigger] card@[j]),
            decreases n - i,
        {
            let b = bytes[i];
            if b < 48u8 || b > 57u8 {
                assert(card@[i as int] as u8 == bytes@[i as int]);
                assert(!is_digit(card@[i as int]));
                return Err(CardNumberError::NotNumeric);
            }
            assert(card@[i as int] as u8 == bytes@[i as int]);
            assert('\0' <= card@[i as int] && card@[i as int] <= '\u{7f}');
            i += 1;
        }
        if n != CARD_NUMBER_LEN {
            return Err(CardNumberError::BadLength);
        }
        Ok(CardNumber(String::from_str(card)))
    }

    /// Draws sixteen digits at random, each between `0` and `8`.
    pub fn generate() -> (c: CardNumber)
        ensures
            is_card_number(c@),
            forall|i: int| 0 <= i < c@.len() ==> #[trigger] c@[i] <= '8',
    {
        let mut digits = String::new();
        let mut i: usize = 0;
        while i < CARD_NUMBER_LEN
            invariant
                i <= CARD_NUMBER_LEN,
                digits@.len() == i,
                forall|j: int| 0 <= j < i ==> '0' <= #[trigger] digits@[j] && digits@[j] <= '8',
            decreases CARD_NUMBER_LEN - i,
        {
            // ASCII holds the digit symbols 0 to 9 in cells 48 to 57.
            let code = sample_uniform(48, 57);
            push_char(&mut digits, code as char);
            i += 1;
        }
        CardNumber(digits)
    }

    /// The sixteen digits as a string slice.
    pub fn as_str(&self) -> (s: &str)
        ensures
            s@ == self@,
            is_card_number(s@),
    {
        proof {
            use_type_invariant(self);
        }
        self.0.as_str()
    }
}

impl Clone for CardNumber {
    fn clone(&self) -> (c: Self)
        ensures
            c == *self,
    {
        proof {
            use_type_invariant(self);
        }
        CardNumber(self.0.clone())
    }
}

impl PartialEq for CardNumber {
    fn eq(&self, other: &Self) -> (r: bool) {
        self.0 == other.0
    }
}

impl vstd::std_specs::cmp::PartialEqSpecImpl for CardNumber {
    open spec fn obeys_eq_spec() -> bool {
        true
    }

    open spec fn eq_spec(&self, other: &Self) -> bool {
        self@ == other@
    }
}

} // verus!
