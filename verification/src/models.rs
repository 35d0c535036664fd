//! The values that flow between the components: token counts, the usage
//! estimate, the compaction state, the decoded transcript records and the
//! model that a display name stands for.

use crate::text::{
    ascii_lowered, capped, char_is_digit, contains_text, decimal, digits_end, digits_number,
    find_digit, find_digits_end, find_text, is_digit, next_digit, push_decimal, read_number,
    to_chars, to_lowered_chars,
};
use vstd::prelude::*;
use vstd::string::*;

verus! {

/// Where the transcript stands with respect to automatic compaction.
#[derive(Debug, Clone, Copy, PartialEq, Eq, Structural)]
pub enum CompactionState {
    /// No sign of compaction.
    Normal,
    /// The transcript is being compacted right now.
    InProgress,
    /// A compaction finished a short while ago.
    RecentlyCompleted,
}

/// The token counts of one assistant message, by kind.
#[derive(Debug, Clone, Copy, PartialEq, Eq, Structural)]
pub struct TokenBreakdown {
    pub input_tokens: u32,
    pub output_tokens: u32,
    pub cache_read_tokens: u32,
    pub cache_creation_tokens: u32,
}

impl TokenBreakdown {
    /// The sum of the four counts.
    pub open spec fn spec_total(self) -> nat {
        (self.input_tokens + self.output_tokens + self.cache_read_tokens
            + self.cache_creation_tokens) as nat
    }

    /// The sum of the four counts.
    pub fn total(&self) -> (t: u64)
        ensures
            t == self.spec_total(),
    {
        self.input_tokens as u64 + self.output_tokens as u64 + self.cache_read_tokens as u64
            + self.cache_creation_tokens as u64
    }
}

impl Default for TokenBreakdown {
    fn default() -> (b: TokenBreakdown)
        ensures
            b == (TokenBreakdown {
                input_tokens: 0,
                output_tokens: 0,
                cache_read_tokens: 0,
                cache_creation_tokens: 0,
            }),
    {
        TokenBreakdown {
            input_tokens: 0,
            output_tokens: 0,
            cache_read_tokens: 0,
            cache_creation_tokens: 0,
        }
    }
}

/// One thousandth of a percent is the unit of every percentage in this
/// crate: 62.5 % is written 62_500.
pub const PERCENT_UNIT: u32 = 1000;

/// 100 %, in thousandths of a percent.
pub const FULL_PERCENT: u32 = 100_000;

/// The usage estimate of one invocation.
#[derive(Debug, Clone, Copy, PartialEq, Eq, Structural)]
pub struct ContextUsage {
    /// The share of the window in use, in thousandths of a percent, at most
    /// `FULL_PERCENT` where the estimator computed it.
    pub percentage: u32,
    /// Whether the share has reached the warning threshold.
    pub approaching_limit: bool,
    /// The tokens left in the working window.
    pub tokens_remaining: usize,
    pub compaction_state: CompactionState,
}

/// The cost figures that the caller reports for the session. Money is counted
/// in millionths of a dollar.
#[derive(Debug, Clone, Copy, PartialEq, Eq, Structural)]
pub struct Cost {
    pub total_cost_micros: Option<u64>,
    pub total_lines_added: Option<u64>,
    pub total_lines_removed: Option<u64>,
}

/// The usage counts of one transcript record; a count that the record leaves
/// out is `None`.
#[derive(Debug, Clone, Copy, PartialEq, Eq, Structural)]
pub struct Usage {
    pub input_tokens: Option<u32>,
    pub output_tokens: Option<u32>,
    pub cache_read_input_tokens: Option<u32>,
    pub cache_creation_input_tokens: Option<u32>,
}

/// The message of one transcript record.
#[derive(Debug, Clone)]
pub struct Message {
    pub role: String,
    pub usage: Option<Usage>,
}

/// One decoded line of the transcript.
#[derive(Debug, Clone)]
pub struct TranscriptEntry {
    pub message: Message,
    pub timestamp: String,
}

/// A count that a record left out counts as zero.
pub open spec fn count_or_zero(count: Option<u32>) -> u32 {
    match count {
        Some(n) => n,
        None => 0,
    }
}

impl Usage {
    /// The counts as a breakdown, each missing count taken as zero.
    pub open spec fn spec_breakdown(self) -> TokenBreakdown {
        TokenBreakdown {
            input_tokens: count_or_zero(self.input_tokens),
            output_tokens: count_or_zero(self.output_tokens),
            cache_read_tokens: count_or_zero(self.cache_read_input_tokens),
            cache_creation_tokens: count_or_zero(self.cache_creation_input_tokens),
        }
    }

    /// The counts as a breakdown, each missing count taken as zero.
    pub fn breakdown(&self) -> (b: TokenBreakdown)
        ensures
            b == self.spec_breakdown(),
    {
        TokenBreakdown {
            input_tokens: match self.input_tokens {
                Some(n) => n,
                None => 0,
            },
            output_tokens: match self.output_tokens {
                Some(n) => n,
                None => 0,
            },
            cache_read_tokens: match self.cache_read_input_tokens {
                Some(n) => n,
                None => 0,
            },
            cache_creation_tokens: match self.cache_creation_input_tokens {
                Some(n) => n,
                None => 0,
            },
        }
    }
}

/// The model families that the window heuristics know.
#[derive(Debug, Clone, Copy, PartialEq, Eq, Structural)]
pub enum ModelFamily {
    Opus,
    Sonnet,
    Haiku,
}

/// The version number in a display name: `4.5` is major 4, minor 5; a bare
/// `4` has no minor part.
#[derive(Debug, Clone, Copy, PartialEq, Eq, Structural)]
pub struct ModelVersion {
    pub major: u32,
    pub minor: Option<u32>,
}

/// What a model display name stands for.
#[derive(Debug, Clone, Copy, PartialEq, Eq, Structural)]
pub enum ModelType {
    /// A model of a known family; `version` is `None` where the name holds no
    /// number.
    Model { family: ModelFamily, version: Option<ModelVersion> },
    /// A name that mentions no known family.
    Unknown,
}

/// The family that a name mentions, whatever the case of its letters. Where
/// it mentions several, Opus wins over Sonnet and Sonnet over Haiku.
pub open spec fn family_of(name: Seq<char>) -> Option<ModelFamily> {
    let lower = ascii_lowered(name);
    if contains_text(lower, "opus"@) {
        Some(ModelFamily::Opus)
    } else if contains_text(lower, "sonnet"@) {
        Some(ModelFamily::Sonnet)
    } else if contains_text(lower, "haiku"@) {
        Some(ModelFamily::Haiku)
    } else {
        None
    }
}

/// The version in a name: its first run of digits is the major part; where a
/// dot and a digit follow at once, the run behind the dot is the minor part.
/// A part too large for `u32` counts as `u32::MAX`.
pub open spec fn version_of(name: Seq<char>) -> Option<ModelVersion> {
    let start = next_digit(name, 0);
    if start >= name.len() {
        None
    } else {
        let end = digits_end(name, start);
        let major = capped(digits_number(name, start, end), u32::MAX as nat) as u32;
        if end + 1 < name.len() && name[end] == '.' && is_digit(name[end + 1]) {
            let minor_end = digits_end(name, end + 1);
            Some(
                ModelVersion {
                    major,
                    minor: Some(
                        capped(digits_number(name, end + 1, minor_end), u32::MAX as nat) as u32,
                    ),
                },
            )
        } else {
            Some(ModelVersion { major, minor: None })
        }
    }
}

/// The model that a display name stands for.
pub open spec fn model_of(name: Seq<char>) -> ModelType {
    match family_of(name) {
        Some(family) => ModelType::Model { family, version: version_of(name) },
        None => ModelType::Unknown,
    }
}

impl ModelFamily {
    /// The family's name as it is displayed.
    pub open spec fn spec_name(self) -> Seq<char> {
        match self {
            ModelFamily::Opus => "Opus"@,
            ModelFamily::Sonnet => "Sonnet"@,
            ModelFamily::Haiku => "Haiku"@,
        }
    }

    /// The family's name as it is displayed.
    pub fn name(&self) -> (s: &'static str)
        ensures
            s@ == self.spec_name(),
    {
        match self {
            ModelFamily::Opus => "Opus",
            ModelFamily::Sonnet => "Sonnet",
            ModelFamily::Haiku => "Haiku",
        }
    }
}

impl ModelVersion {
    /// The major part, a dot and the minor part; the major part alone where
    /// there is no minor part.
    pub open spec fn spec_text(self) -> Seq<char> {
        match self.minor {
            Some(minor) => decimal(self.major as nat) + seq!['.'] + decimal(minor as nat),
            None => decimal(self.major as nat),
        }
    }
}

impl ModelType {
    /// The short label of the model: the family and its version, or `Model`
    /// for an unknown one.
    pub open spec fn spec_abbreviation(self) -> Seq<char> {
        match self {
            ModelType::Model { family, version: Some(v) } => family.spec_name() + seq![' ']
                + v.spec_text(),
            ModelType::Model { family, version: None } => family.spec_name(),
            ModelType::Unknown => "Model"@,
        }
    }

    /// Reads the family and the version out of a display name.
    pub fn from_name(name: &str) -> (m: ModelType)
        ensures
            m == model_of(name@),
    {
        let lower = to_lowered_chars(name);
        let family = if find_text(&lower, &to_chars("opus")) {
            ModelFamily::Opus
        } else if find_text(&lower, &to_chars("sonnet")) {
            ModelFamily::Sonnet
        } else if find_text(&lower, &to_chars("haiku")) {
            ModelFamily::Haiku
        } else {
            return ModelType::Unknown;
        };
        let chars = to_chars(name);
        let start = find_digit(&chars, 0);
        if start >= chars.len() {
            return ModelType::Model { family, version: None };
        }
        let end = find_digits_end(&chars, start);
        let major = read_number(&chars, start, end);
        if end < chars.len() - 1 && chars[end] == '.' && char_is_digit(chars[end + 1]) {
            let minor_end = find_digits_end(&chars, end + 1);
            let minor = read_number(&chars, end + 1, minor_end);
            ModelType::Model { family, version: Some(ModelVersion { major, minor: Some(minor) }) }
        } else {
            ModelType::Model { family, version: Some(ModelVersion { major, minor: None }) }
        }
    }

    /// The short label of the model.
    pub fn abbreviation(&self) -> (s: String)
        ensures
            s@ == self.spec_abbreviation(),
    {
        match self {
            ModelType::Model { family, version } => {
                let mut s = String::from_str(family.name());
                match version {
                    Some(v) => {
                        s.push(' ');
                        push_decimal(&mut s, v.major as u128);
                        match v.minor {
                            Some(minor) => {
                                s.push('.');
                                push_decimal(&mut s, minor as u128);
                            },
                            None => {},
                        }
                        assert(s@ =~= self.spec_abbreviation());
                    },
                    None => {},
                }
                s
            },
            ModelType::Unknown => String::from_str("Model"),
        }
    }
}

} // verus!
