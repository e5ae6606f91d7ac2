//! What the pool, proxy or wallet answers.

use vstd::prelude::*;
use vstd::utf8::encode_utf8;

verus! {

/// A number in an answer of the pool, which sends it as a number or as a
/// string of decimal digits.
#[derive(Clone, Debug)]
pub enum NumberField {
    Plain(u64),
    Quoted(String),
}

/// `text` is one decimal digit or more, and nothing else.
pub open spec fn is_decimal(text: Seq<u8>) -> bool {
    text.len() > 0 && forall|i: int| 0 <= i < text.len() ==> 0x30 <= #[trigger] text[i] <= 0x39
}

/// The number that the decimal digits `text` spell.
pub open spec fn decimal_value(text: Seq<u8>) -> int
    decreases text.len(),
{
    if text.len() == 0 {
        0
    } else {
        10 * decimal_value(text.drop_last()) + (text.last() - 0x30)
    }
}

/// The number that `text` spells, where it spells one that fits 64 bits.
pub open spec fn number_of(text: Seq<u8>) -> Option<u64> {
    if is_decimal(text) && decimal_value(text) <= u64::MAX {
        Some(decimal_value(text) as u64)
    } else {
        None
    }
}

/// More digits do not spell a smaller number.
proof fn lemma_decimal_value_grows(text: Seq<u8>, n: int)
    requires
        is_decimal(text),
        0 <= n <= text.len(),
    ensures
        0 <= decimal_value(text.subrange(0, n)) <= decimal_value(text),
    decreases text.len() - n,
{
    if n < text.len() {
        let longer = text.subrange(0, n + 1);
        assert(longer.drop_last() =~= text.subrange(0, n));
        lemma_decimal_value_grows(text, n + 1);
        lemma_decimal_value_is_not_negative(text.subrange(0, n));
    } else {
        assert(text.subrange(0, n) =~= text);
        lemma_decimal_value_is_not_negative(text);
    }
}

proof fn lemma_decimal_value_is_not_negative(text: Seq<u8>)
    requires
        forall|i: int| 0 <= i < text.len() ==> 0x30 <= #[trigger] text[i] <= 0x39,
    ensures
        0 <= decimal_value(text),
    decreases text.len(),
{
    if text.len() > 0 {
        lemma_decimal_value_is_not_negative(text.drop_last());
    }
}

/// Reads a number from its decimal digits. There is none where `text` holds
/// anything but digits, or spells a number beyond `u64::MAX`.
pub fn parse_number(text: &str) -> (n: Option<u64>)
    ensures
        n == number_of(encode_utf8(text@)),
{
    let bytes = text.as_bytes();
    let len = bytes.len();
    if len == 0 {
        return None;
    }
    let mut value: u64 = 0;
    let mut i: usize = 0;
    while i < len
        invariant
            i <= len == bytes@.len(),
            bytes@ == encode_utf8(text@),
            forall|j: int| 0 <= j < i ==> 0x30 <= #[trigger] bytes@[j] <= 0x39,
            value == decimal_value(bytes@.subrange(0, i as int)),
        decreases len - i,
    {
        let b = bytes[i];
        if b < 0x30 || b > 0x39 {
            return None;
        }
        let d = (b - 0x30) as u64;
        proof {
            let longer = bytes@.subrange(0, i + 1);
            assert(longer.drop_last() =~= bytes@.subrange(0, i as int));
        }
        if value > (u64::MAX - d) / 10 {
            proof {
                if is_decimal(bytes@) {
                    lemma_decimal_value_grows(bytes@, i + 1);
                }
            }
            return None;
        }
        value = value * 10 + d;
        i += 1;
    }
    assert(bytes@.subrange(0, len as int) =~= bytes@);
    Some(value)
}

impl NumberField {
    /// The number of the field, where it holds one.
    pub open spec fn number(&self) -> Option<u64> {
        match self {
            NumberField::Plain(n) => Some(*n),
            NumberField::Quoted(text) => number_of(encode_utf8(text@)),
        }
    }

    /// Reads the number of the field.
    pub fn value(&self) -> (n: Option<u64>)
        ensures
            n == self.number(),
    {
        match self {
            NumberField::Plain(n) => Some(*n),
            NumberField::Quoted(text) => parse_number(text.as_str()),
        }
    }
}

/// The answer to a request for mining info.
#[derive(Clone, Debug)]
pub struct MiningInfoResponse {
    /// The generation signature in hexadecimal digits.
    pub generation_signature: String,
    pub base_target: u64,
    pub height: u64,
    /// The longest deadline that the pool takes; `u64::MAX` where it names
    /// none.
    pub target_deadline: u64,
}

/// The answer to a nonce that was taken: the deadline as the pool
/// computed it.
#[derive(Clone, Copy, Debug)]
pub struct SubmitNonceResponse {
    pub deadline: u64,
}

/// An error that the pool reports.
#[derive(Clone, Debug)]
pub struct PoolError {
    pub code: i32,
    pub message: String,
}

/// Why a request got no answer of the expected kind.
#[derive(Clone, Debug)]
pub enum FetchError {
    /// The request did not get through; the text says why.
    Http(String),
    /// The pool answered with an error.
    Pool(PoolError),
}

impl MiningInfoResponse {
    /// Puts together the mining info from the fields of an answer. The
    /// target deadline may be missing, and then is `u64::MAX`. There is no
    /// mining info where a field holds no number.
    pub fn from_fields(
        generation_signature: String,
        base_target: &NumberField,
        height: &NumberField,
        target_deadline: &Option<NumberField>,
    ) -> (info: Option<MiningInfoResponse>)
        ensures
            info is Some <==> base_target.number() is Some && height.number() is Some && (
            target_deadline matches Some(field) ==> field.number() is Some),
            info matches Some(i) ==> i.generation_signature == generation_signature
                && Some(i.base_target) == base_target.number() && Some(i.height)
                == height.number() && i.target_deadline == (match target_deadline {
                Some(field) => field.number().unwrap(),
                None => u64::MAX,
            }),
    {
        let target_deadline = match target_deadline {
            Some(field) => field.value(),
            None => Some(u64::MAX),
        };
        match (base_target.value(), height.value(), target_deadline) {
            (Some(base_target), Some(height), Some(target_deadline)) => Some(
                MiningInfoResponse { generation_signature, base_target, height, target_deadline },
            ),
            _ => None,
        }
    }
}

impl SubmitNonceResponse {
    /// Puts together the answer to a nonce that was taken, where the field
    /// holds a number.
    pub fn from_field(deadline: &NumberField) -> (answer: Option<SubmitNonceResponse>)
        ensures
            answer == (match deadline.number() {
                Some(deadline) => Some(SubmitNonceResponse { deadline }),
                None => None,
            }),
    {
        match deadline.value() {
            Some(deadline) => Some(SubmitNonceResponse { deadline }),
            None => None,
        }
    }
}

impl PoolError {
    /// The pool is busy and expects the submission again later: it says
    /// nothing, or that a limit is exceeded.
    pub open spec fn soft(&self) -> bool {
        self.message@.len() == 0 || self.message@ == "limit exceeded"@
    }

    /// Tells whether the pool expects the submission again later.
    pub fn is_soft(&self) -> (soft: bool)
        ensures
            soft == self.soft(),
    {
        self.message.as_str().is_empty() || self.message == String::from_str("limit exceeded")
    }
}

} // verus!
