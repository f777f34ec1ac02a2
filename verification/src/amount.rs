//! Monetary amounts. The currency library reads and writes them; this module
//! holds what the rest of the library reads of one: its sign and its text.

use crate::util::{blank, get_optional_string, replaced};
use currency::Currency;
use num::bigint::Sign;
use vstd::prelude::*;

verus! {

/// An amount of money as the currency library holds it.
#[derive(Debug)]
pub struct Amount {
    /// Whether the amount is below zero.
    pub negative: bool,
    /// The amount as the currency library writes it, with its symbol, its sign,
    /// a comma between groups of three digits and two decimal places.
    pub text: String,
}

/// What the contracts say of an amount.
pub struct AmountView {
    pub negative: bool,
    pub text: Seq<char>,
}

impl View for Amount {
    type V = AmountView;

    open spec fn view(&self) -> AmountView {
        AmountView { negative: self.negative, text: self.text@ }
    }
}

/// Why a text could not be taken as an amount.
#[derive(Debug)]
pub enum AmountError {
    /// The text is longer, or has more decimal places, than the currency library
    /// can take.
    TooPrecise,
    /// The amount was still negative after its sign was turned.
    StillNegative,
    /// The currency library refused the text, with this message.
    Unreadable { cause: String },
}

/// What the contracts say of an `AmountError`.
pub enum AmountErrorView {
    TooPrecise,
    StillNegative,
    Unreadable { cause: Seq<char> },
}

impl View for AmountError {
    type V = AmountErrorView;

    open spec fn view(&self) -> AmountErrorView {
        match self {
            AmountError::TooPrecise => AmountErrorView::TooPrecise,
            AmountError::StillNegative => AmountErrorView::StillNegative,
            AmountError::Unreadable { cause } => AmountErrorView::Unreadable { cause: cause@ },
        }
    }
}

impl AmountErrorView {
    /// The error in words.
    pub open spec fn text(self) -> Seq<char> {
        match self {
            AmountErrorView::TooPrecise => "more digits or decimal places than can be taken"@,
            AmountErrorView::StillNegative => "the amount stays negative when its sign is turned"@,
            AmountErrorView::Unreadable { cause } => cause,
        }
    }
}

impl AmountError {
    /// The error in words.
    pub fn message(&self) -> (r: String)
        ensures
            r@ == self@.text(),
    {
        match self {
            AmountError::TooPrecise => "more digits or decimal places than can be taken".to_owned(),
            AmountError::StillNegative => "the amount stays negative when its sign is turned".to_owned(),
            AmountError::Unreadable { cause } => cause.clone(),
        }
    }
}

/// What `Currency::from_str` makes of a text: the sign and the written form of
/// the amount, or the message of its refusal.
pub uninterp spec fn currency_parse(s: Seq<char>) -> Result<(bool, Seq<char>), Seq<char>>;

/// The amount written as `text` with its sign turned, as `Currency::from_str`,
/// negation and `to_string` give it: the new sign and the new written form.
pub uninterp spec fn currency_negate(text: Seq<char>) -> Result<(bool, Seq<char>), Seq<char>>;

/// The characters that separate groups of digits and decimal places.
pub open spec fn is_delimiter(c: char) -> bool {
    c == '.' || c == ','
}

/// The number of characters that follow the last delimiter of `s`; its whole
/// length where it has none.
pub open spec fn tail_len(s: Seq<char>) -> nat
    decreases s.len(),
{
    if s.len() == 0 || is_delimiter(s.last()) {
        0
    } else {
        1 + tail_len(s.drop_last())
    }
}

/// Whether `s` has a delimiter.
pub open spec fn has_delimiter(s: Seq<char>) -> bool {
    exists|i: int| 0 <= i < s.len() && is_delimiter(#[trigger] s[i])
}

/// The most decimal places that the currency library can scale down.
pub const MAX_DECIMAL_PLACES: usize = 11;

/// The longest text that the currency library can count the digits of.
pub const MAX_TEXT_LEN: usize = 4294967295;

/// Whether the currency library can take `s`: it counts the digits in 32 bits,
/// and scales those after the last delimiter by a power of ten that has to fit
/// in 32 bits.
pub open spec fn readable(s: Seq<char>) -> bool {
    s.len() <= MAX_TEXT_LEN && (!has_delimiter(s) || tail_len(s) <= MAX_DECIMAL_PLACES)
}

/// What reading `s` as an amount gives.
pub open spec fn amount_of(s: Seq<char>) -> Result<AmountView, AmountErrorView> {
    if !readable(s) {
        Err(AmountErrorView::TooPrecise)
    } else {
        match currency_parse(s) {
            Ok((negative, text)) => Ok(AmountView { negative, text }),
            Err(cause) => Err(AmountErrorView::Unreadable { cause }),
        }
    }
}

/// What turning the sign of the amount written as `text` gives.
pub open spec fn negated(text: Seq<char>) -> Result<AmountView, AmountErrorView> {
    if !readable(text) {
        Err(AmountErrorView::TooPrecise)
    } else {
        match currency_negate(text) {
            Ok((negative, text)) => Ok(AmountView { negative, text }),
            Err(cause) => Err(AmountErrorView::Unreadable { cause }),
        }
    }
}

/// What taking the magnitude of an amount gives: the amount itself where it is
/// not negative, else the amount with its sign turned, which must then not be
/// negative.
pub open spec fn magnitude_of(a: AmountView) -> Result<AmountView, AmountErrorView> {
    if !a.negative {
        Ok(a)
    } else {
        match negated(a.text) {
            Ok(m) => if m.negative {
                Err(AmountErrorView::StillNegative)
            } else {
                Ok(m)
            },
            Err(e) => Err(e),
        }
    }
}

/// The written form of an amount without the commas between its digits.
pub open spec fn plain_text(text: Seq<char>) -> Seq<char> {
    replaced(text, ',', Seq::<char>::empty())
}

/// Whether `r` is the outcome `expected`.
pub open spec fn is_outcome(
    r: Result<Amount, AmountError>,
    expected: Result<AmountView, AmountErrorView>,
) -> bool {
    match r {
        Ok(a) => expected == Ok::<AmountView, AmountErrorView>(a@),
        Err(e) => expected == Err::<AmountView, AmountErrorView>(e@),
    }
}

/// Calls `Currency::from_str`, then reads the sign of the value and writes it
/// with `to_string`. Trusted: the outcome depends on the text alone and is named
/// `currency_parse`. The text must be `readable`: on others the call overflows.
#[verifier::external_body]
fn parse_currency(s: &str) -> (r: Result<Amount, String>)
    requires
        readable(s@),
    ensures
        match r {
            Ok(a) => currency_parse(s@) == Ok::<(bool, Seq<char>), Seq<char>>(
                (a.negative, a.text@),
            ),
            Err(cause) => currency_parse(s@) == Err::<(bool, Seq<char>), Seq<char>>(cause@),
        },
{
    match Currency::from_str(s) {
        Ok(c) => {
            let negative = match c.value().sign() {
                Sign::Minus => true,
                Sign::NoSign => false,
                Sign::Plus => false,
            };
            Ok(Amount { negative, text: c.to_string() })
        },
        Err(e) => Err(e.to_string()),
    }
}

/// Calls `Currency::from_str` on a written amount, negates the value, then reads
/// its sign and writes it with `to_string`. Trusted: the outcome depends on the
/// text alone and is named `currency_negate`. The text must be `readable`.
#[verifier::external_body]
fn negate_currency(text: &str) -> (r: Result<Amount, String>)
    requires
        readable(text@),
    ensures
        match r {
            Ok(a) => currency_negate(text@) == Ok::<(bool, Seq<char>), Seq<char>>(
                (a.negative, a.text@),
            ),
            Err(cause) => currency_negate(text@) == Err::<(bool, Seq<char>), Seq<char>>(cause@),
        },
{
    match Currency::from_str(text) {
        Ok(c) => {
            let n = -c;
            let negative = match n.value().sign() {
                Sign::Minus => true,
                Sign::NoSign => false,
                Sign::Plus => false,
            };
            Ok(Amount { negative, text: n.to_string() })
        },
        Err(e) => Err(e.to_string()),
    }
}

/// One more character resets the count at a delimiter and else adds one to it.
proof fn lemma_tail_len_push(s: Seq<char>, c: char)
    ensures
        tail_len(s.push(c)) == if is_delimiter(c) {
            0
        } else {
            1 + tail_len(s)
        },
{
    assert(s.push(c).drop_last() =~= s);
    assert(s.push(c).last() == c);
}

/// Whether the currency library can take `s`.
pub fn is_readable(s: &str) -> (r: bool)
    ensures
        r == readable(s@),
{
    let n: usize = s.unicode_len();
    let mut seen: bool = false;
    let mut run: usize = 0;
    let mut i: usize = 0;
    while i < n
        invariant
            n == s@.len(),
            i <= n,
            run <= i,
            run == tail_len(s@.take(i as int)),
            seen == has_delimiter(s@.take(i as int)),
        decreases n - i,
    {
        let c = s.get_char(i);
        proof {
            assert(s@.take(i as int + 1) =~= s@.take(i as int).push(c));
            lemma_tail_len_push(s@.take(i as int), c);
            if is_delimiter(c) {
                assert(is_delimiter(s@.take(i as int + 1)[i as int]));
            } else if has_delimiter(s@.take(i as int + 1)) {
                let k = choose|k: int|
                    0 <= k < s@.take(i as int + 1).len() && is_delimiter(
                        #[trigger] s@.take(i as int + 1)[k],
                    );
                assert(is_delimiter(s@.take(i as int)[k]));
            } else if has_delimiter(s@.take(i as int)) {
                let k = choose|k: int|
                    0 <= k < s@.take(i as int).len() && is_delimiter(
                        #[trigger] s@.take(i as int)[k],
                    );
                assert(is_delimiter(s@.take(i as int + 1)[k]));
            }
        }
        if c == '.' || c == ',' {
            seen = true;
            run = 0;
        } else {
            run += 1;
        }
        i += 1;
    }
    proof {
        assert(s@.take(n as int) =~= s@);
    }
    n <= MAX_TEXT_LEN && (!seen || run <= MAX_DECIMAL_PLACES)
}

impl Amount {
    /// Reads a text as an amount.
    pub fn parse(s: &str) -> (r: Result<Amount, AmountError>)
        ensures
            is_outcome(r, amount_of(s@)),
    {
        if !is_readable(s) {
            return Err(AmountError::TooPrecise);
        }
        match parse_currency(s) {
            Ok(a) => Ok(a),
            Err(cause) => Err(AmountError::Unreadable { cause }),
        }
    }

    /// The amount with its sign turned.
    pub fn negate(&self) -> (r: Result<Amount, AmountError>)
        ensures
            is_outcome(r, negated(self.text@)),
    {
        if !is_readable(self.text.as_str()) {
            return Err(AmountError::TooPrecise);
        }
        match negate_currency(self.text.as_str()) {
            Ok(a) => Ok(a),
            Err(cause) => Err(AmountError::Unreadable { cause }),
        }
    }

    /// The magnitude of the amount, which is never negative.
    pub fn magnitude(self) -> (r: Result<Amount, AmountError>)
        ensures
            is_outcome(r, magnitude_of(self@)),
            r matches Ok(m) ==> !m.negative,
    {
        if !self.negative {
            return Ok(self);
        }
        match self.negate() {
            Ok(m) => {
                if m.negative {
                    Err(AmountError::StillNegative)
                } else {
                    Ok(m)
                }
            },
            Err(e) => Err(e),
        }
    }

    /// Whether the amount is below zero.
    pub fn is_negative(&self) -> (r: bool)
        ensures
            r == self.negative,
    {
        self.negative
    }
}

/// Reads the text of a column as an amount, unless the text is blank.
pub fn get_currency_from_str(s: &str) -> (r: Option<Result<Amount, AmountError>>)
    ensures
        blank(s@) <==> r is None,
        r matches Some(a) ==> is_outcome(a, amount_of(s@)),
{
    match get_optional_string(s) {
        Some(text) => Some(Amount::parse(text.as_str())),
        None => None,
    }
}

} // verus!
