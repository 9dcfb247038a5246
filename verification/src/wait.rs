//! How long a caller may wait for a batch to commit.
//!
//! A caller asks for a wait as text: a number of seconds, or the word `false`
//! for no wait at all. A number is cut down to 95% of the service's own timeout,
//! so that the gateway answers before the layer around it gives up.

use crate::error::GatewayError;
use crate::hex::{digit_text, hex_digits};
use crate::status::same_text;
use vstd::prelude::*;
use vstd::string::*;
use vstd::utf8::*;

verus! {

/// The service timeout, in seconds, where none is configured.
pub const DEFAULT_TIME_OUT: u32 = 300;

/// The longest wait granted under a service timeout of `max_timeout` seconds:
/// 95% of it, rounded down to whole seconds.
pub open spec fn wait_ceiling(max_timeout: u32) -> u32 {
    ((max_timeout as int * 95) / 100) as u32
}

/// The wait granted to a caller who asks for `requested` seconds, however
/// many: the request itself up to the ceiling, the ceiling above it.
pub open spec fn effective_wait(requested: nat, max_timeout: u32) -> u32 {
    if requested > wait_ceiling(max_timeout) {
        wait_ceiling(max_timeout)
    } else {
        requested as u32
    }
}

/// The number `n` where it fits in 32 bits, the largest such number where it
/// does not.
pub open spec fn saturated(n: nat) -> u32 {
    if n > u32::MAX {
        u32::MAX
    } else {
        n as u32
    }
}

/// True when `text` is made of decimal digits only.
pub open spec fn is_digits(text: Seq<char>) -> bool {
    forall|i: int| 0 <= i < text.len() ==> '0' <= #[trigger] text[i] <= '9'
}

/// The number that the decimal digits of `text` stand for.
pub open spec fn decimal_value(text: Seq<char>) -> nat
    decreases text.len(),
{
    if text.len() == 0 {
        0
    } else {
        (decimal_value(text.drop_last()) * 10 + (text.last() as u8 - 48)) as nat
    }
}

/// The digits of `text`: `text` itself, without a plus sign in front of it.
pub open spec fn digits_of(text: Seq<char>) -> Seq<char> {
    if text.len() > 0 && text[0] == '+' {
        text.drop_first()
    } else {
        text
    }
}

/// The number of seconds that `text` stands for: one decimal digit or more,
/// with or without a plus sign in front. The number may be of any size.
pub open spec fn parse_seconds(text: Seq<char>) -> Option<nat> {
    let digits = digits_of(text);
    if digits.len() > 0 && is_digits(digits) {
        Some(decimal_value(digits))
    } else {
        None
    }
}

/// The decimal digits of `n`, without leading zeros.
pub open spec fn decimal_digits(n: nat) -> Seq<char>
    decreases n,
{
    if n < 10 {
        seq![hex_digits()[n as int]]
    } else {
        decimal_digits(n / 10).push(hex_digits()[(n % 10) as int])
    }
}

/// The word by which a caller declines to wait.
pub open spec fn no_wait_word() -> Seq<char> {
    "false"@
}

/// What the answer to an unreadable wait says, for the value `text`.
pub open spec fn bad_wait_message(text: Seq<char>) -> Seq<char> {
    "Query wait has invalid value "@ + text
        + ". It should set to false or a time in seconds to wait for the commit"@
}

/// The wait that a request resolves to. `Ok(None)` is no wait at all,
/// `Ok(Some(n))` a wait of `n` seconds; `Err` holds the text that could not be
/// read.
pub open spec fn resolved_wait(wait: Option<Seq<char>>, max_timeout: u32) -> Result<
    Option<u32>,
    Seq<char>,
> {
    match wait {
        None => Ok(Some(wait_ceiling(max_timeout))),
        Some(text) => if text == no_wait_word() {
            Ok(None)
        } else {
            match parse_seconds(text) {
                Some(requested) => Ok(Some(effective_wait(requested, max_timeout))),
                None => Err(text),
            }
        },
    }
}

/// The digits of a number are decimal digits that stand for that number.
pub proof fn lemma_decimal_digits(n: nat)
    ensures
        decimal_digits(n).len() > 0,
        is_digits(decimal_digits(n)),
        decimal_value(decimal_digits(n)) == n,
    decreases n,
{
    let d = hex_digits();
    assert(d[0] == '0' && d[1] == '1' && d[2] == '2' && d[3] == '3' && d[4] == '4');
    assert(d[5] == '5' && d[6] == '6' && d[7] == '7' && d[8] == '8' && d[9] == '9');
    let text = decimal_digits(n);
    if n < 10 {
        assert(text.drop_last() =~= Seq::<char>::empty());
        assert(decimal_value(text.drop_last()) == 0);
    } else {
        lemma_decimal_digits(n / 10);
        let head = decimal_digits(n / 10);
        assert(text.drop_last() =~= head);
        assert(text.last() == d[(n % 10) as int]);
        assert forall|i: int| 0 <= i < text.len() implies '0' <= #[trigger] text[i] <= '9' by {
            if i < head.len() {
                assert(text[i] == head[i]);
            }
        }
    }
}

/// Reading the digits of a number of seconds gives the number back.
pub proof fn lemma_parse_seconds_of_digits(n: nat)
    ensures
        parse_seconds(decimal_digits(n)) == Some(n),
{
    lemma_decimal_digits(n);
    assert(decimal_digits(n)[0] != '+');
}

/// A wait that was cut down is exactly the ceiling; one within the ceiling is
/// kept as it is; and no granted wait is above the ceiling or the timeout. A
/// wait is above the ceiling exactly when it is more than 95% of the timeout.
pub proof fn lemma_effective_wait(requested: nat, max_timeout: u32)
    ensures
        requested > wait_ceiling(max_timeout) <==> 100 * requested > 95 * max_timeout,
        100 * requested > 95 * max_timeout ==> effective_wait(requested, max_timeout)
            == wait_ceiling(max_timeout),
        100 * requested <= 95 * max_timeout ==> effective_wait(requested, max_timeout)
            == requested,
        effective_wait(requested, max_timeout) <= wait_ceiling(max_timeout),
        effective_wait(requested, max_timeout) == effective_wait(
            saturated(requested) as nat,
            max_timeout,
        ),
        wait_ceiling(max_timeout) <= max_timeout,
        100 * wait_ceiling(max_timeout) <= 95 * max_timeout < 100 * wait_ceiling(max_timeout)
            + 100,
{
}

/// Every wait that is written as a number, of whatever size, is granted: cut
/// to the ceiling where it is more than 95% of the timeout, as it is where it is
/// not. It is never a bad request.
pub proof fn lemma_numeric_wait_is_granted(text: Seq<char>, max_timeout: u32)
    requires
        parse_seconds(text) is Some,
    ensures
        100 * parse_seconds(text)->0 > 95 * max_timeout ==> resolved_wait(
            Some(text),
            max_timeout,
        ) == Ok::<Option<u32>, Seq<char>>(Some(wait_ceiling(max_timeout))),
        100 * parse_seconds(text)->0 <= 95 * max_timeout ==> resolved_wait(
            Some(text),
            max_timeout,
        ) == Ok::<Option<u32>, Seq<char>>(Some(parse_seconds(text)->0 as u32)),
{
    reveal_strlit("false");
    lemma_effective_wait(parse_seconds(text)->0, max_timeout);
    if text == no_wait_word() {
        assert(digits_of(text) == text);
        assert(!('0' <= digits_of(text)[0] <= '9'));
    }
}

/// A wait that is neither missing, nor the word that declines to wait, nor a
/// number is refused, and the refusal names it.
pub proof fn lemma_unreadable_wait_is_refused(text: Seq<char>, max_timeout: u32)
    requires
        text != no_wait_word(),
        parse_seconds(text) is None,
    ensures
        resolved_wait(Some(text), max_timeout) == Err::<Option<u32>, Seq<char>>(text),
{
}

/// Computes the longest wait granted under `max_timeout`.
pub fn max_wait_time(max_timeout: u32) -> (ceiling: u32)
    ensures
        ceiling == wait_ceiling(max_timeout),
        ceiling <= max_timeout,
{
    let wide: u64 = (max_timeout as u64 * 95) / 100;
    wide as u32
}

/// Cuts a requested wait down to the ceiling.
pub fn clamp_wait(requested: u32, max_timeout: u32) -> (granted: u32)
    ensures
        granted == effective_wait(requested as nat, max_timeout),
        granted <= requested,
        granted <= wait_ceiling(max_timeout),
{
    let ceiling = max_wait_time(max_timeout);
    if requested > ceiling {
        ceiling
    } else {
        requested
    }
}

/// Writes a number of seconds in decimal digits.
pub fn seconds_text(n: u32) -> (text: String)
    ensures
        text@ == decimal_digits(n as nat),
        parse_seconds(text@) == Some(n as nat),
    decreases n,
{
    proof {
        lemma_parse_seconds_of_digits(n as nat);
    }
    if n < 10 {
        digit_text(n as u8).to_owned()
    } else {
        seconds_text(n / 10).concat(digit_text((n % 10) as u8))
    }
}

/// The number `n` where it fits in 32 bits, the number one above the largest
/// such where it does not.
pub open spec fn capped(n: nat) -> nat {
    if n > u32::MAX {
        (u32::MAX + 1) as nat
    } else {
        n
    }
}

/// Reads a number of seconds. A number too large for 32 bits is read as the
/// largest number of 32 bits: it is still a number.
pub fn read_seconds(text: &str) -> (res: Option<u32>)
    ensures
        match parse_seconds(text@) {
            Some(n) => res == Some(saturated(n)),
            None => res is None,
        },
{
    let ghost digits = digits_of(text@);
    if !text.is_ascii() {
        proof {
            if is_digits(digits) {
                assert forall|i: int| 0 <= i < text@.len() implies '\0' <= #[trigger] text@[i]
                    <= '\u{7f}' by {
                    if digits.len() == text@.len() {
                    } else if i > 0 {
                        assert('0' <= digits[i - 1] <= '9');
                    }
                }
            }
        }
        return None;
    }
    let codes = text.as_bytes();
    let start: usize = if codes.len() > 0 && codes[0] == 43 {
        1
    } else {
        0
    };
    if start == codes.len() {
        return None;
    }
    let mut value: u64 = 0;
    let mut i: usize = start;
    while i < codes.len()
        invariant
            start <= i <= codes.len(),
            codes@.len() == text@.len(),
            is_ascii_chars(text@),
            forall|k: int| 0 <= k < text@.len() ==> #[trigger] text@[k] as u8 == codes@[k],
            digits == text@.skip(start as int),
            digits == digits_of(text@),
            is_digits(digits.take(i - start)),
            value == capped(decimal_value(digits.take(i - start))),
        decreases codes.len() - i,
    {
        let code: u8 = codes[i];
        let ghost before = digits.take(i - start);
        let ghost after = digits.take(i - start + 1);
        proof {
            assert(after.drop_last() =~= before);
            assert(after.last() == digits[i - start]);
            assert(digits[i - start] == text@[i as int]);
        }
        if code < 48 || code > 57 {
            assert(!('0' <= digits[i - start] <= '9'));
            return None;
        }
        value = value * 10 + (code - 48) as u64;
        if value > u32::MAX as u64 {
            value = u32::MAX as u64 + 1;
        }
        proof {
            assert forall|k: int| 0 <= k < after.len() implies '0' <= #[trigger] after[k]
                <= '9' by {
                if k < before.len() {
                    assert(before[k] == after[k]);
                } else {
                    assert(after[k] == digits[i - start]);
                }
            }
            assert(decimal_value(after) == decimal_value(before) * 10 + (code - 48));
        }
        i += 1;
    }
    assert(digits.take(i - start) =~= digits);
    if value > u32::MAX as u64 {
        Some(u32::MAX)
    } else {
        Some(value as u32)
    }
}

/// Tells whether `text` is the word by which a caller declines to wait.
pub fn is_no_wait(text: &str) -> (res: bool)
    ensures
        res == (text@ == no_wait_word()),
{
    same_text(text, "false")
}

/// Writes the answer to an unreadable wait.
pub fn bad_wait(text: &str) -> (error: GatewayError)
    ensures
        error matches GatewayError::BadRequestError(message) && message@ == bad_wait_message(
            text@,
        ),
{
    let message = "Query wait has invalid value ".to_owned().concat(text).concat(
        ". It should set to false or a time in seconds to wait for the commit",
    );
    GatewayError::BadRequestError(message)
}

/// Resolves the wait that a caller asked for under a service timeout of
/// `max_timeout` seconds. No request at all is a request for the longest wait;
/// the word `false` is no wait; a number, however large, is cut down to the
/// ceiling; any other text is refused with `BadRequestError`.
pub fn resolve_wait(wait: Option<&str>, max_timeout: u32) -> (res: Result<
    Option<u32>,
    GatewayError,
>)
    ensures
        match resolved_wait(
            match wait {
                Some(text) => Some(text@),
                None => None,
            },
            max_timeout,
        ) {
            Ok(granted) => res == Ok::<Option<u32>, GatewayError>(granted),
            Err(text) => res matches Err(GatewayError::BadRequestError(message)) && message@
                == bad_wait_message(text),
        },
{
    match wait {
        None => Ok(Some(max_wait_time(max_timeout))),
        Some(text) => {
            if is_no_wait(text) {
                Ok(None)
            } else {
                proof {
                    if let Some(n) = parse_seconds(text@) {
                        lemma_effective_wait(n, max_timeout);
                    }
                }
                match read_seconds(text) {
                    Some(requested) => Ok(Some(clamp_wait(requested, max_timeout))),
                    None => Err(bad_wait(text)),
                }
            }
        },
    }
}

} // verus!
