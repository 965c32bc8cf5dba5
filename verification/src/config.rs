//! The configuration record, its defaults, and the rules by which raw
//! answers become its fields.

use crate::text::{parse_u32, parsed_u32, same_text, trim, trimmed};
use vstd::prelude::*;
use vstd::string::*;

verus! {

/// Token budget used when none is given or the given one cannot be read.
pub const DEFAULT_MAX_TOKENS: u32 = 50;

/// How much of a reply is echoed besides the answer.
#[derive(Debug, Clone, Copy, PartialEq, Eq, Structural)]
pub enum Verbosity {
    /// The answer only.
    Default,
    /// The raw reply and the configuration as well.
    Full,
    /// The configuration as well.
    Extended,
}

/// The settings that every query is sent with.
#[derive(Debug, Clone)]
pub struct Config {
    /// Text put in front of every query.
    pub context: String,
    /// Upper bound on the length of a reply, in tokens.
    pub max_tokens: u32,
    /// Identifier of the remote model.
    pub model: String,
    /// How much of a reply is echoed.
    pub verbosity: Verbosity,
}

/// What a [`Config`] stands for.
pub struct ConfigView {
    pub context: Seq<char>,
    pub max_tokens: u32,
    pub model: Seq<char>,
    pub verbosity: Verbosity,
}

impl View for Config {
    type V = ConfigView;

    open spec fn view(&self) -> ConfigView {
        ConfigView {
            context: self.context@,
            max_tokens: self.max_tokens,
            model: self.model@,
            verbosity: self.verbosity,
        }
    }
}

/// The default model: that of a configuration for which none has been
/// chosen, and the one that stands in for a model that is not known.
pub open spec fn fallback_model() -> Seq<char> {
    "text-davinci-003"@
}

/// The configuration before anything has been asked.
pub open spec fn initial_config() -> ConfigView {
    ConfigView {
        context: Seq::empty(),
        max_tokens: DEFAULT_MAX_TOKENS,
        model: fallback_model(),
        verbosity: Verbosity::Default,
    }
}

impl Default for Config {
    fn default() -> (config: Config)
        ensures
            config@ == initial_config(),
            is_known_model(config@.model),
    {
        Config {
            verbosity: Verbosity::Default,
            context: String::new(),
            max_tokens: DEFAULT_MAX_TOKENS,
            model: String::from_str("text-davinci-003"),
        }
    }
}

/// The verbosity that a label names: `"default"`, `"full"` or `"extended"`,
/// in lower case. Any other label stands for [`Verbosity::Default`].
pub open spec fn verbosity_of(label: Seq<char>) -> Verbosity {
    if label == "full"@ {
        Verbosity::Full
    } else if label == "extended"@ {
        Verbosity::Extended
    } else {
        Verbosity::Default
    }
}

/// The verbosity that the selected label names.
pub fn select_verbosity(selected: &str) -> (verbosity: Verbosity)
    ensures
        verbosity == verbosity_of(selected@),
{
    proof {
        reveal_strlit("default");
        reveal_strlit("full");
        reveal_strlit("extended");
        assert("default"@.len() == 7 && "full"@.len() == 4 && "extended"@.len() == 8);
    }
    if same_text(selected, "default") {
        Verbosity::Default
    } else if same_text(selected, "full") {
        Verbosity::Full
    } else if same_text(selected, "extended") {
        Verbosity::Extended
    } else {
        Verbosity::Default
    }
}

impl Verbosity {
    /// Whether the raw reply is echoed before the answer.
    pub fn echoes_reply(&self) -> (echo: bool)
        ensures
            echo == (*self == Verbosity::Full),
    {
        match self {
            Verbosity::Full => true,
            _ => false,
        }
    }

    /// Whether the configuration is echoed before the answer.
    pub fn echoes_config(&self) -> (echo: bool)
        ensures
            echo == (*self == Verbosity::Full || *self == Verbosity::Extended),
    {
        match self {
            Verbosity::Default => false,
            _ => true,
        }
    }
}

/// The token budget that `input` asks for: the number it writes once the
/// white space around it is gone, and the default where it writes none.
pub open spec fn max_tokens_of(input: Seq<char>) -> u32 {
    match parsed_u32(trimmed(input)) {
        Some(n) => n,
        None => DEFAULT_MAX_TOKENS,
    }
}

/// Reads a token budget, falling back to the default on anything that is
/// not a number.
pub fn parse_max_tokens(input: &str) -> (max_tokens: u32)
    ensures
        max_tokens == max_tokens_of(input@),
{
    match parse_u32(trim(input)) {
        Some(n) => n,
        None => DEFAULT_MAX_TOKENS,
    }
}

/// Whether `model` is one of the sixteen model identifiers on offer.
pub open spec fn is_known_model(model: Seq<char>) -> bool {
    ||| model == "text-davinci-002"@
    ||| model == "text-curie-002"@
    ||| model == "text-babbage-002"@
    ||| model == "text-ada-002"@
    ||| model == "text-davinci-003"@
    ||| model == "text-curie-003"@
    ||| model == "text-babbage-003"@
    ||| model == "text-ada-003"@
    ||| model == "text-davinci-004"@
    ||| model == "text-curie-004"@
    ||| model == "text-babbage-004"@
    ||| model == "text-ada-004"@
    ||| model == "code-davinci-002"@
    ||| model == "code-curie-002"@
    ||| model == "code-babbage-002"@
    ||| model == "code-ada-002"@
}

/// Executable form of [`is_known_model`].
pub fn is_model_known(model: &str) -> (known: bool)
    ensures
        known == is_known_model(model@),
{
    same_text(model, "text-davinci-002") || same_text(model, "text-curie-002") || same_text(
        model,
        "text-babbage-002",
    ) || same_text(model, "text-ada-002") || same_text(model, "text-davinci-003") || same_text(
        model,
        "text-curie-003",
    ) || same_text(model, "text-babbage-003") || same_text(model, "text-ada-003") || same_text(
        model,
        "text-davinci-004",
    ) || same_text(model, "text-curie-004") || same_text(model, "text-babbage-004") || same_text(
        model,
        "text-ada-004",
    ) || same_text(model, "code-davinci-002") || same_text(model, "code-curie-002") || same_text(
        model,
        "code-babbage-002",
    ) || same_text(model, "code-ada-002")
}

/// The model to use for `model`: itself where it is known, the fallback
/// model where it is not.
pub open spec fn selected_model(model: Seq<char>) -> Seq<char> {
    if is_known_model(model) {
        model
    } else {
        fallback_model()
    }
}

/// Keeps a known model identifier and replaces any other by the fallback.
pub fn select_model(model: &str) -> (selected: String)
    ensures
        selected@ == selected_model(model@),
        is_known_model(selected@),
{
    if is_model_known(model) {
        String::from_str(model)
    } else {
        String::from_str("text-davinci-003")
    }
}

} // verus!
