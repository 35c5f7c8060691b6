//! The byte range to monitor as the command line gives it: two numbers with
//! one colon between them.

use vstd::prelude::*;

verus! {

/// Why a text names no byte range.
#[derive(Clone, Copy, Debug, PartialEq, Eq, Structural)]
pub enum MonitorError {
    /// The text does not hold exactly one colon.
    Separator,
    /// What stands before or after the colon is no number.
    NotNumeric,
}

impl MonitorError {
    /// The message shown to the operator.
    pub open spec fn message_spec(self) -> Seq<char> {
        match self {
            MonitorError::Separator => "-m argument must contain exactly one ':'"@,
            MonitorError::NotNumeric => "-m arguments must be numeric"@,
        }
    }

    /// The message shown to the operator.
    pub fn message(&self) -> (s: &'static str)
        ensures
            s@ == self.message_spec(),
    {
        match self {
            MonitorError::Separator => "-m argument must contain exactly one ':'",
            MonitorError::NotNumeric => "-m arguments must be numeric",
        }
    }
}

/// The byte of the colon.
pub const COLON: u8 = 58;

/// The byte of the plus sign.
pub const PLUS: u8 = 43;

/// The byte of the digit zero.
pub const ZERO: u8 = 48;

/// Whether a byte is a decimal digit.
pub open spec fn is_digit(b: u8) -> bool {
    ZERO <= b <= ZERO + 9
}

/// The number that a sequence of digits writes in decimal; zero for none.
pub open spec fn digits_value(s: Seq<u8>) -> nat
    decreases s.len(),
{
    if s.len() == 0 {
        0
    } else {
        digits_value(s.drop_last()) * 10 + (s.last() - ZERO) as nat
    }
}

/// Whether a sequence holds digits only, and at least one.
pub open spec fn all_digits(s: Seq<u8>) -> bool {
    s.len() > 0 && forall|i: int| 0 <= i < s.len() ==> is_digit(#[trigger] s[i])
}

/// A sequence without the plus sign that it may start with.
pub open spec fn unsigned(s: Seq<u8>) -> Seq<u8> {
    if s.len() > 0 && s[0] == PLUS {
        s.skip(1)
    } else {
        s
    }
}

/// The number that a text writes: decimal digits, at least one, after at
/// most one plus sign, whose value is a 64-bit number.
pub open spec fn number(s: Seq<u8>) -> Option<u64> {
    let body = unsigned(s);
    if all_digits(body) && digits_value(body) <= u64::MAX {
        Some(digits_value(body) as u64)
    } else {
        None
    }
}

/// How many of the first `n` bytes are colons.
pub open spec fn colons(s: Seq<u8>, n: nat) -> nat
    decreases n,
{
    if n == 0 {
        0
    } else if s[n - 1] == COLON {
        colons(s, (n - 1) as nat) + 1
    } else {
        colons(s, (n - 1) as nat)
    }
}

/// Where the first colon among the first `n` bytes is; `n` where there is
/// none.
pub open spec fn first_colon(s: Seq<u8>, n: nat) -> nat
    decreases n,
{
    if n == 0 {
        0
    } else {
        let before = first_colon(s, (n - 1) as nat);
        if before < n - 1 {
            before
        } else if s[n - 1] == COLON {
            (n - 1) as nat
        } else {
            n
        }
    }
}

/// The byte range that a text names: the text holds exactly one colon, and
/// a number before it and one after it.
pub open spec fn monitor(s: Seq<u8>) -> Result<(u64, u64), MonitorError> {
    if colons(s, s.len()) != 1 {
        Err(MonitorError::Separator)
    } else {
        let at = first_colon(s, s.len()) as int;
        match (number(s.subrange(0, at)), number(s.subrange(at + 1, s.len() as int))) {
            (Some(from), Some(to)) => Ok((from, to)),
            _ => Err(MonitorError::NotNumeric),
        }
    }
}

/// The first colon lies within the bytes looked at, and there is one
/// wherever a colon was counted.
pub proof fn lemma_first_colon(s: Seq<u8>, n: nat)
    ensures
        first_colon(s, n) <= n,
        colons(s, n) > 0 ==> first_colon(s, n) < n,
    decreases n,
{
    if n > 0 {
        lemma_first_colon(s, (n - 1) as nat);
    }
}

/// Digits write no smaller a number than the first `k` of them do.
pub proof fn lemma_digits_grow(s: Seq<u8>, k: int)
    requires
        0 <= k <= s.len(),
        forall|i: int| 0 <= i < s.len() ==> is_digit(#[trigger] s[i]),
    ensures
        digits_value(s.subrange(0, k)) <= digits_value(s),
    decreases s.len(),
{
    if k == s.len() {
        assert(s.subrange(0, k) =~= s);
    } else {
        lemma_digits_grow(s.drop_last(), k);
        assert(s.drop_last().subrange(0, k) =~= s.subrange(0, k));
    }
}

/// The number that the bytes from `from` up to `to` write.
fn parse_number(text: &[u8], from: usize, to: usize) -> (r: Option<u64>)
    requires
        from <= to <= text@.len(),
    ensures
        r == number(text@.subrange(from as int, to as int)),
{
    let ghost whole = text@.subrange(from as int, to as int);
    let start = if from < to && text[from] == PLUS {
        from + 1
    } else {
        from
    };
    let ghost body = text@.subrange(start as int, to as int);
    assert(body =~= unsigned(whole));
    if start == to {
        return None;
    }
    let mut value: u64 = 0;
    let mut i: usize = start;
    while i < to
        invariant
            from <= start <= i <= to <= text@.len(),
            body == text@.subrange(start as int, to as int),
            body == unsigned(text@.subrange(from as int, to as int)),
            value == digits_value(body.subrange(0, i - start)),
            forall|j: int| 0 <= j < i - start ==> is_digit(#[trigger] body[j]),
        decreases to - i,
    {
        let b = text[i];
        if b < ZERO || b > ZERO + 9 {
            assert(!is_digit(body[i - start]));
            return None;
        }
        let d = (b - ZERO) as u64;
        assert(body.subrange(0, i - start + 1).drop_last() =~= body.subrange(0, i - start));
        if value > (u64::MAX - d) / 10 {
            proof {
                assert(digits_value(body.subrange(0, i - start + 1)) == value * 10 + d);
                if all_digits(body) {
                    lemma_digits_grow(body, i - start + 1);
                }
            }
            return None;
        }
        value = value * 10 + d;
        i = i + 1;
    }
    assert(body.subrange(0, to - start) =~= body);
    Some(value)
}

/// The byte range that the text of the command line names.
pub fn parse_monitor(text: &[u8]) -> (r: Result<(u64, u64), MonitorError>)
    ensures
        r == monitor(text@),
{
    let n = text.len();
    let mut count: usize = 0;
    let mut at: usize = n;
    let mut i: usize = 0;
    while i < n
        invariant
            i <= n,
            n == text@.len(),
            count == colons(text@, i as nat),
            count <= i,
            first_colon(text@, i as nat) == if at < i {
                at
            } else {
                i
            },
            at < i || at == n,
        decreases n - i,
    {
        if text[i] == COLON {
            if at == n {
                at = i;
            }
            count = count + 1;
        }
        i = i + 1;
    }
    if count != 1 {
        return Err(MonitorError::Separator);
    }
    proof {
        lemma_first_colon(text@, n as nat);
    }
    let from = parse_number(text, 0, at);
    let to = parse_number(text, at + 1, n);
    match (from, to) {
        (Some(from), Some(to)) => Ok((from, to)),
        _ => Err(MonitorError::NotNumeric),
    }
}

} // verus!
