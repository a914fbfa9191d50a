//! The OpenAI-compatible backend: lenient construction from a loosely-typed
//! configuration value, message construction, and the shaping of streamed
//! response units.
//!
//! Configuration arrives as free-form JSON-like data from a settings file
//! that a human may hand-edit, so construction is deliberately lenient and
//! never fails: a number is accepted as it is, a string is parsed, and
//! anything unusable falls back to the field's default.  Each coercion also
//! reports whether the default was substituted, so the fallback is
//! observable and testable.
//!
//! The network client itself, and the floating-point reading of
//! `temperature`, live with the caller; this module owns every decision
//! that can be stated over plain values.

use vstd::prelude::*;

use crate::chat_types::{
    ChatCompletionChoice, ChatCompletionChunk, ChatCompletionDelta, ChatCompletionRequestMessage,
    ChoiceView, ChunkView, DeltaView, ModelUsage, Role, TurnView,
};

verus! {

/// Default for `max_tokens` when the configured value is missing or unusable.
pub const DEFAULT_MAX_TOKENS: u16 = 1000;

/// Default for the sample count `n` when the configured value is missing or
/// unusable.
pub const DEFAULT_SAMPLE_COUNT: u8 = 1;

/// Default model identifier.
pub const DEFAULT_MODEL: &'static str = "gpt-3.5-turbo";

/// One loosely-typed configuration value, as a hand-edited settings file
/// may hold it: absent, a non-negative integer, a non-integer number
/// carried as its decimal text, a string, or something else entirely.
#[derive(Debug)]
pub enum ConfigValue {
    Missing,
    UInt(u64),
    Decimal(String),
    Text(String),
    Other,
}

impl Clone for ConfigValue {
    fn clone(&self) -> (r: Self)
        ensures
            r == *self,
    {
        match self {
            ConfigValue::Missing => ConfigValue::Missing,
            ConfigValue::UInt(x) => ConfigValue::UInt(*x),
            ConfigValue::Decimal(s) => ConfigValue::Decimal(s.clone()),
            ConfigValue::Text(s) => ConfigValue::Text(s.clone()),
            ConfigValue::Other => ConfigValue::Other,
        }
    }
}

/// The configured options for the backend, each still in its raw
/// loosely-typed form.
#[derive(Debug)]
pub struct GptConfigInput {
    pub max_tokens: ConfigValue,
    pub n: ConfigValue,
    pub temperature: ConfigValue,
    pub model: ConfigValue,
}

impl Clone for GptConfigInput {
    fn clone(&self) -> (r: Self)
        ensures
            r == *self,
    {
        GptConfigInput {
            max_tokens: self.max_tokens.clone(),
            n: self.n.clone(),
            temperature: self.temperature.clone(),
            model: self.model.clone(),
        }
    }
}

/// Whether a character is an ASCII decimal digit.
pub open spec fn is_digit_char(c: char) -> bool {
    0x30 <= c as u32 && c as u32 <= 0x39
}

/// The numeric value of an ASCII decimal digit.
pub open spec fn digit_val(c: char) -> int {
    c as u32 - 0x30
}

/// Whether every character of a text is an ASCII decimal digit.
pub open spec fn all_digits(s: Seq<char>) -> bool {
    forall|i: int| 0 <= i < s.len() ==> is_digit_char(s[i])
}

/// The number a digit string denotes, most significant digit first.
pub open spec fn digits_val(s: Seq<char>) -> int
    decreases s.len(),
{
    if s.len() == 0 {
        0
    } else {
        digits_val(s.drop_last()) * 10 + digit_val(s.last())
    }
}

/// A digit string denotes a non-negative number.
pub proof fn lemma_digits_val_nonneg(s: Seq<char>)
    requires
        all_digits(s),
    ensures
        digits_val(s) >= 0,
    decreases s.len(),
{
    if s.len() > 0 {
        assert(all_digits(s.drop_last())) by {
            assert(forall|i: int|
                0 <= i < s.drop_last().len() ==> s.drop_last()[i] == s[i]);
        }
        lemma_digits_val_nonneg(s.drop_last());
    }
}

/// What parsing an unsigned number accepts, exactly as `str::parse` does
/// for an unsigned integer type with the given maximum: an optional
/// leading `+`, then one or more ASCII digits, whose value must not exceed
/// the maximum.  Anything else is rejected.
pub open spec fn spec_parse_uint(s: Seq<char>, bound: u64) -> Option<u64> {
    let digits = if s.len() > 0 && s[0] == '+' {
        s.drop_first()
    } else {
        s
    };
    if digits.len() > 0 && all_digits(digits) && digits_val(digits) <= bound {
        Some(digits_val(digits) as u64)
    } else {
        None
    }
}

/// Parse an unsigned decimal number of at most `bound`, as `str::parse`
/// would for an unsigned integer type whose maximum is `bound`.
pub fn parse_uint_bounded(s: &str, bound: u64) -> (r: Option<u64>)
    requires
        bound <= 0xFFFF_FFFF,
    ensures
        r == spec_parse_uint(s@, bound),
        r matches Some(v) ==> v <= bound,
{
    let n = s.unicode_len();
    let mut start: usize = 0;
    if n > 0 && s.get_char(0) == '+' {
        start = 1;
    }
    if start == n {
        return None;
    }
    let ghost digits = if s@.len() > 0 && s@[0] == '+' {
        s@.drop_first()
    } else {
        s@
    };
    proof {
        assert(digits =~= s@.subrange(start as int, n as int));
    }
    let mut acc: u64 = 0;
    let mut over: bool = false;
    let mut i: usize = start;
    while i < n
        invariant
            start <= i <= n,
            n == s@.len(),
            bound <= 0xFFFF_FFFF,
            digits == (if s@.len() > 0 && s@[0] == '+' { s@.drop_first() } else { s@ }),
            digits =~= s@.subrange(start as int, n as int),
            all_digits(s@.subrange(start as int, i as int)),
            !over ==> acc == digits_val(s@.subrange(start as int, i as int)) && acc <= bound,
            over ==> digits_val(s@.subrange(start as int, i as int)) > bound,
        decreases n - i,
    {
        let c = s.get_char(i);
        let u = c as u32;
        if u < 0x30 || u > 0x39 {
            proof {
                assert(digits.len() == n - start);
                assert(digits[i - start] == s@[i as int]);
                assert(!is_digit_char(digits[i - start]));
                assert(!all_digits(digits));
            }
            return None;
        }
        let ghost prefix = s@.subrange(start as int, i as int);
        let ghost prefix1 = s@.subrange(start as int, i + 1);
        proof {
            assert(prefix1.drop_last() =~= prefix);
            assert(prefix1.last() == s@[i as int]);
            assert(digits_val(prefix1) == digits_val(prefix) * 10 + digit_val(s@[i as int]));
            assert(all_digits(prefix1)) by {
                assert(forall|k: int|
                    0 <= k < prefix.len() ==> prefix1[k] == prefix[k]);
            }
            if over {
                lemma_digits_val_nonneg(prefix);
            }
        }
        let d = (u - 0x30) as u64;
        if !over {
            let next = acc * 10 + d;
            if next > bound {
                over = true;
            } else {
                acc = next;
            }
        }
        i = i + 1;
    }
    proof {
        assert(digits =~= s@.subrange(start as int, n as int));
    }
    if over {
        None
    } else {
        Some(acc)
    }
}

/// The lenient coercion of one configured value into an unsigned number no
/// larger than `bound`: a native number is truncated into range as an
/// `as` cast would; a string is parsed and falls back to the default when
/// the parse fails; a missing key silently takes the default; anything
/// else takes the default as a type mismatch.  The second component says
/// whether the default was substituted.
pub open spec fn spec_coerce_uint(v: ConfigValue, default: u64, bound: u64) -> (u64, bool) {
    match v {
        ConfigValue::UInt(x) => ((((x as int) % (bound as int + 1)) as u64), false),
        ConfigValue::Text(s) => match spec_parse_uint(s@, bound) {
            Some(x) => (x, false),
            None => (default, true),
        },
        ConfigValue::Missing => (default, false),
        _ => (default, true),
    }
}

/// Coerce one configured value to a `u16`, as `max_tokens` is.
pub fn coerce_u16(value: &ConfigValue, default: u16) -> (r: (u16, bool))
    ensures
        r.0 == spec_coerce_uint(*value, default as u64, 0xFFFF).0,
        r.1 == spec_coerce_uint(*value, default as u64, 0xFFFF).1,
{
    match value {
        ConfigValue::UInt(x) => {
            let m = *x % 0x10000;
            assert(m < 0x10000);
            (m as u16, false)
        },
        ConfigValue::Text(s) => match parse_uint_bounded(s.as_str(), 0xFFFF) {
            Some(x) => (x as u16, false),
            None => (default, true),
        },
        ConfigValue::Missing => (default, false),
        ConfigValue::Decimal(_) => (default, true),
        ConfigValue::Other => (default, true),
    }
}

/// Coerce one configured value to a `u8`, as the sample count `n` is.
pub fn coerce_u8(value: &ConfigValue, default: u8) -> (r: (u8, bool))
    ensures
        r.0 == spec_coerce_uint(*value, default as u64, 0xFF).0,
        r.1 == spec_coerce_uint(*value, default as u64, 0xFF).1,
{
    match value {
        ConfigValue::UInt(x) => {
            let m = *x % 0x100;
            assert(m < 0x100);
            (m as u8, false)
        },
        ConfigValue::Text(s) => match parse_uint_bounded(s.as_str(), 0xFF) {
            Some(x) => (x as u8, false),
            None => (default, true),
        },
        ConfigValue::Missing => (default, false),
        ConfigValue::Decimal(_) => (default, true),
        ConfigValue::Other => (default, true),
    }
}

/// The lenient coercion of the model identifier: a configured string is
/// used as it is, anything else takes the default.
pub open spec fn spec_coerce_text(v: ConfigValue, default: Seq<char>) -> (Seq<char>, bool) {
    match v {
        ConfigValue::Text(s) => (s@, false),
        ConfigValue::Missing => (default, false),
        _ => (default, true),
    }
}

/// Coerce the configured model identifier.
pub fn coerce_model(value: &ConfigValue, default: &str) -> (r: (String, bool))
    ensures
        r.0@ == spec_coerce_text(*value, default@).0,
        r.1 == spec_coerce_text(*value, default@).1,
{
    match value {
        ConfigValue::Text(s) => (s.clone(), false),
        ConfigValue::Missing => (default.to_owned(), false),
        ConfigValue::UInt(_) => (default.to_owned(), true),
        ConfigValue::Decimal(_) => (default.to_owned(), true),
        ConfigValue::Other => (default.to_owned(), true),
    }
}

/// The resolved backend configuration.  `temperature` stays in its raw
/// form: reading it is floating-point work that the unverified caller
/// performs.
#[derive(Debug)]
pub struct GptConfig {
    pub max_tokens: u16,
    pub n: u8,
    pub temperature: ConfigValue,
    pub model: String,
}

/// The OpenAI-compatible chat backend, as far as its behaviour is a
/// function of plain values: the resolved configuration and the shaping of
/// messages and stream units.  The caller owns the network client built
/// from this configuration.
#[derive(Debug)]
pub struct GptClient {
    pub config: GptConfig,
}

impl GptClient {
    /// Build a backend from a loosely-typed configuration.  Construction
    /// never fails: every unusable field falls back to its default.
    pub fn new(config: GptConfigInput) -> (r: GptClient)
        ensures
            r.config.max_tokens == spec_coerce_uint(
                config.max_tokens,
                DEFAULT_MAX_TOKENS as u64,
                0xFFFF,
            ).0,
            r.config.n == spec_coerce_uint(config.n, DEFAULT_SAMPLE_COUNT as u64, 0xFF).0,
            r.config.model@ == spec_coerce_text(config.model, DEFAULT_MODEL@).0,
            r.config.temperature == config.temperature,
    {
        let (max_tokens, _) = coerce_u16(&config.max_tokens, DEFAULT_MAX_TOKENS);
        let (n, _) = coerce_u8(&config.n, DEFAULT_SAMPLE_COUNT);
        let (model, _) = coerce_model(&config.model, DEFAULT_MODEL);
        GptClient {
            config: GptConfig { max_tokens, n, temperature: config.temperature, model },
        }
    }

    /// A user turn carrying the given text.
    pub fn create_user_message(&self, prompt: String) -> (r: ChatCompletionRequestMessage)
        ensures
            r@ == (TurnView { role: Role::User, content: prompt@, name: None }),
    {
        ChatCompletionRequestMessage::new(Role::User, prompt)
    }

    /// An assistant turn carrying the given text.
    pub fn create_assistant_message(&self, prompt: String) -> (r: ChatCompletionRequestMessage)
        ensures
            r@ == (TurnView { role: Role::Assistant, content: prompt@, name: None }),
    {
        ChatCompletionRequestMessage::new(Role::Assistant, prompt)
    }

    /// Shape one received stream choice into the session's form: the text
    /// delta is kept as it is, and the role is fixed to assistant by
    /// convention.
    pub fn convert_stream_choice(
        index: u32,
        content: Option<String>,
        finish_reason: Option<String>,
    ) -> (r: ChatCompletionChoice)
        ensures
            r@ == (ChoiceView {
                index,
                delta: DeltaView {
                    content: match content {
                        Some(c) => Some(c@),
                        None => None,
                    },
                    role: Some(Role::Assistant),
                },
                finish_reason: match finish_reason {
                    Some(f) => Some(f@),
                    None => None,
                },
            }),
    {
        ChatCompletionChoice {
            index,
            delta: ChatCompletionDelta { content, role: Some(Role::Assistant) },
            finish_reason,
        }
    }

    /// Shape one received stream unit into the session's form, choice for
    /// choice in order.  The transport reports no usage mid-stream, so the
    /// usage fields are zero.
    pub fn convert_stream_chunk(
        id: Option<String>,
        object: String,
        created: u32,
        model: String,
        choices: Vec<ChatCompletionChoice>,
    ) -> (r: ChatCompletionChunk)
        ensures
            r@ == (ChunkView {
                id: match id {
                    Some(s) => Some(s@),
                    None => None,
                },
                object: object@,
                created,
                model: model@,
                choices: Seq::new(choices@.len(), |i: int| choices@[i]@),
                usage: Some(ModelUsage { prompt_tokens: 0, completion_tokens: 0, total_tokens: 0 }),
            }),
    {
        ChatCompletionChunk {
            id,
            object,
            created,
            model,
            choices,
            usage: Some(ModelUsage { prompt_tokens: 0, completion_tokens: 0, total_tokens: 0 }),
        }
    }
}

} // verus!
