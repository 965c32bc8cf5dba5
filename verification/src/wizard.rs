//! The configuration wizard as a sequence of questions: each answer fills
//! one field of the configuration and decides which question comes next.

use crate::config::{
    fallback_model, initial_config, is_known_model, max_tokens_of, parse_max_tokens,
    select_verbosity, verbosity_of, Config, ConfigView,
};
use crate::select::{chosen_index, select_from_list, Key};
use crate::text::{contains_text, same_text, texts, trim, trimmed};
use vstd::prelude::*;
use vstd::string::*;

verus! {

/// The question that the wizard is at.
#[derive(Debug, Clone, Copy, PartialEq, Eq, Structural)]
pub enum Stage {
    /// Choosing the verbosity from its labels.
    Verbosity,
    /// Typing the context.
    Context,
    /// Typing the token budget.
    MaxTokens,
    /// Choosing the model family.
    Family,
    /// Choosing a model of the chosen family.
    ModelOption,
    /// Nothing is left to ask.
    Done,
}

/// The labels among which the verbosity is chosen.
pub open spec fn verbosity_labels() -> Seq<Seq<char>> {
    seq!["default"@, "full"@, "extended"@]
}

/// The model families among which one is chosen.
pub open spec fn model_families() -> Seq<Seq<char>> {
    seq!["GPT-3.5"@, "GPT-3"@, "GPT-4"@, "Codex"@]
}

/// The models of a family, in the order in which they are offered. `None`
/// for a family that is not one of [`model_families`].
pub open spec fn family_models(family: Seq<char>) -> Option<Seq<Seq<char>>> {
    if family == "GPT-3"@ {
        Some(seq!["text-davinci-002"@, "text-curie-002"@, "text-babbage-002"@, "text-ada-002"@])
    } else if family == "GPT-4"@ {
        Some(seq!["text-davinci-004"@, "text-curie-004"@, "text-babbage-004"@, "text-ada-004"@])
    } else if family == "GPT-3.5"@ {
        Some(seq!["text-davinci-003"@, "text-curie-003"@, "text-babbage-003"@, "text-ada-003"@])
    } else if family == "Codex"@ {
        Some(seq!["code-davinci-002"@, "code-curie-002"@, "code-babbage-002"@, "code-ada-002"@])
    } else {
        None
    }
}

/// The line that introduces the question of a stage.
pub open spec fn stage_prompt(stage: Stage) -> Seq<char> {
    match stage {
        Stage::Verbosity => "Output verbosity [default, full, extended]: "@,
        Stage::Context => "Context: "@,
        Stage::MaxTokens => "Maximum number of tokens (default: 50): "@,
        Stage::Family => "Choose a model:"@,
        Stage::ModelOption => "Choose an option:"@,
        Stage::Done => Seq::empty(),
    }
}

/// Whether the question of a stage is answered by choosing from a list.
pub open spec fn is_choice(stage: Stage) -> bool {
    stage == Stage::Verbosity || stage == Stage::Family || stage == Stage::ModelOption
}

/// The options that a stage offers: none where the answer is typed.
pub open spec fn stage_options(stage: Stage, family: Seq<char>) -> Seq<Seq<char>> {
    match stage {
        Stage::Verbosity => verbosity_labels(),
        Stage::Family => model_families(),
        Stage::ModelOption => match family_models(family) {
            Some(models) => models,
            None => Seq::empty(),
        },
        _ => Seq::empty(),
    }
}

/// What a [`Wizard`] stands for.
pub struct WizardView {
    /// The question to ask next.
    pub stage: Stage,
    /// The configuration as far as it is filled in.
    pub config: ConfigView,
    /// The family that was chosen, empty before that.
    pub family: Seq<char>,
}

/// The model that `reply` chooses where the models of `family` are on
/// offer: the reply itself where it is one of them, the fallback model for
/// any other reply.
pub open spec fn model_chosen(family: Seq<char>, reply: Seq<char>) -> Seq<char> {
    match family_models(family) {
        Some(models) => if models.contains(reply) {
            reply
        } else {
            fallback_model()
        },
        None => fallback_model(),
    }
}

/// The wizard before the first question.
pub open spec fn wizard_start() -> WizardView {
    WizardView { stage: Stage::Verbosity, config: initial_config(), family: Seq::empty() }
}

/// The wizard after `reply` has answered the question it was at.
///
/// No reply is refused: a label that names no verbosity gives the default
/// one, a budget that is no number gives the default budget, a family that
/// is not on offer ends the questions with the fallback model, and a model
/// that the family does not offer gives the fallback model.
pub open spec fn advance(w: WizardView, reply: Seq<char>) -> WizardView {
    match w.stage {
        Stage::Verbosity => WizardView {
            stage: Stage::Context,
            config: ConfigView { verbosity: verbosity_of(reply), ..w.config },
            ..w
        },
        Stage::Context => WizardView {
            stage: Stage::MaxTokens,
            config: ConfigView { context: trimmed(reply), ..w.config },
            ..w
        },
        Stage::MaxTokens => WizardView {
            stage: Stage::Family,
            config: ConfigView { max_tokens: max_tokens_of(reply), ..w.config },
            ..w
        },
        Stage::Family => if family_models(reply) is Some {
            WizardView { stage: Stage::ModelOption, family: reply, ..w }
        } else {
            WizardView {
                stage: Stage::Done,
                config: ConfigView { model: fallback_model(), ..w.config },
                family: reply,
            }
        },
        Stage::ModelOption => WizardView {
            stage: Stage::Done,
            config: ConfigView { model: model_chosen(w.family, reply), ..w.config },
            ..w
        },
        Stage::Done => w,
    }
}

/// The wizard after each of `replies` has answered one question, in order.
pub open spec fn advance_all(w: WizardView, replies: Seq<Seq<char>>) -> WizardView
    decreases replies.len(),
{
    if replies.len() == 0 {
        w
    } else {
        advance(advance_all(w, replies.drop_last()), replies.last())
    }
}

/// Appends a copy of `item` to `list`.
fn push_text(list: &mut Vec<String>, item: &str)
    ensures
        texts(final(list)@) == texts(old(list)@).push(item@),
        final(list).len() == old(list).len() + 1,
{
    list.push(String::from_str(item));
    assert(texts(list@) =~= texts(old(list)@).push(item@));
}

/// A list of the four given texts.
fn list_of_four(a: &str, b: &str, c: &str, d: &str) -> (list: Vec<String>)
    ensures
        texts(list@) == seq![a@, b@, c@, d@],
        list.len() == 4,
{
    let mut list: Vec<String> = Vec::new();
    assert(texts(list@) =~= Seq::<Seq<char>>::empty());
    push_text(&mut list, a);
    push_text(&mut list, b);
    push_text(&mut list, c);
    push_text(&mut list, d);
    assert(texts(list@) =~= seq![a@, b@, c@, d@]);
    list
}

/// The labels among which the verbosity is chosen.
pub fn verbosity_options() -> (list: Vec<String>)
    ensures
        texts(list@) == verbosity_labels(),
        list.len() == 3,
{
    let mut list: Vec<String> = Vec::new();
    assert(texts(list@) =~= Seq::<Seq<char>>::empty());
    push_text(&mut list, "default");
    push_text(&mut list, "full");
    push_text(&mut list, "extended");
    assert(texts(list@) =~= verbosity_labels());
    list
}

/// The model families among which one is chosen.
pub fn family_options() -> (list: Vec<String>)
    ensures
        texts(list@) == model_families(),
        list.len() == 4,
{
    list_of_four("GPT-3.5", "GPT-3", "GPT-4", "Codex")
}

/// The models of `family`, or `None` where the family is not on offer.
pub fn model_options(family: &str) -> (models: Option<Vec<String>>)
    ensures
        match family_models(family@) {
            Some(offered) => models is Some && texts(models->0@) == offered && models->0.len()
                == 4,
            None => models is None,
        },
{
    if same_text(family, "GPT-3") {
        Some(list_of_four("text-davinci-002", "text-curie-002", "text-babbage-002", "text-ada-002"))
    } else if same_text(family, "GPT-4") {
        Some(list_of_four("text-davinci-004", "text-curie-004", "text-babbage-004", "text-ada-004"))
    } else if same_text(family, "GPT-3.5") {
        Some(list_of_four("text-davinci-003", "text-curie-003", "text-babbage-003", "text-ada-003"))
    } else if same_text(family, "Codex") {
        Some(list_of_four("code-davinci-002", "code-curie-002", "code-babbage-002", "code-ada-002"))
    } else {
        None
    }
}

/// The wizard: the stage it is at and what the answers so far have given.
pub struct Wizard {
    stage: Stage,
    config: Config,
    family: String,
}

impl View for Wizard {
    type V = WizardView;

    closed spec fn view(&self) -> WizardView {
        WizardView { stage: self.stage, config: self.config@, family: self.family@ }
    }
}

impl Wizard {
    #[verifier::type_invariant]
    spec fn well_formed(&self) -> bool {
        &&& self.stage == Stage::ModelOption ==> family_models(self.family@) is Some
        &&& is_known_model(self.config.model@)
    }

    /// A wizard that has asked nothing yet.
    pub fn new() -> (wizard: Wizard)
        ensures
            wizard@ == wizard_start(),
    {
        Wizard { stage: Stage::Verbosity, config: Config::default(), family: String::new() }
    }

    /// The stage that the wizard is at.
    pub fn stage(&self) -> (stage: Stage)
        ensures
            stage == self@.stage,
    {
        self.stage
    }

    /// Whether every question has been answered.
    pub fn is_done(&self) -> (done: bool)
        ensures
            done == (self@.stage == Stage::Done),
    {
        self.stage == Stage::Done
    }

    /// The line that introduces the next question.
    pub fn prompt(&self) -> (prompt: String)
        ensures
            prompt@ == stage_prompt(self@.stage),
    {
        match self.stage {
            Stage::Verbosity => String::from_str("Output verbosity [default, full, extended]: "),
            Stage::Context => String::from_str("Context: "),
            Stage::MaxTokens => String::from_str("Maximum number of tokens (default: 50): "),
            Stage::Family => String::from_str("Choose a model:"),
            Stage::ModelOption => String::from_str("Choose an option:"),
            Stage::Done => String::new(),
        }
    }

    /// The options among which the next answer is chosen. The list is empty
    /// exactly where the answer is typed, or nothing is left to ask.
    pub fn options(&self) -> (list: Vec<String>)
        ensures
            texts(list@) == stage_options(self@.stage, self@.family),
            list.len() > 0 <==> is_choice(self@.stage),
            list.len() <= 4,
    {
        proof {
            use_type_invariant(self);
        }
        match self.stage {
            Stage::Verbosity => verbosity_options(),
            Stage::Family => family_options(),
            Stage::ModelOption => match model_options(self.family.as_str()) {
                Some(models) => models,
                None => Vec::new(),
            },
            _ => {
                let list: Vec<String> = Vec::new();
                assert(texts(list@) =~= Seq::<Seq<char>>::empty());
                list
            },
        }
    }

    /// Takes the answer to the question that the wizard is at and moves on
    /// to the next one. Returns whether the answer named a family that is
    /// not on offer, in which case the fallback model was taken.
    pub fn answer(&mut self, reply: &str) -> (fell_back: bool)
        ensures
            final(self)@ == advance(old(self)@, reply@),
            fell_back == (old(self)@.stage == Stage::Family && family_models(reply@) is None),
    {
        proof {
            use_type_invariant(&*self);
        }
        match self.stage {
            Stage::Verbosity => {
                self.config.verbosity = select_verbosity(reply);
                self.stage = Stage::Context;
                false
            },
            Stage::Context => {
                self.config.context = String::from_str(trim(reply));
                self.stage = Stage::MaxTokens;
                false
            },
            Stage::MaxTokens => {
                self.config.max_tokens = parse_max_tokens(reply);
                self.stage = Stage::Family;
                false
            },
            Stage::Family => {
                self.family = String::from_str(reply);
                match model_options(reply) {
                    Some(_) => {
                        self.stage = Stage::ModelOption;
                        false
                    },
                    None => {
                        self.config.model = String::from_str("text-davinci-003");
                        self.stage = Stage::Done;
                        true
                    },
                }
            },
            Stage::ModelOption => {
                let offered = match model_options(self.family.as_str()) {
                    Some(models) => contains_text(&models, reply),
                    None => false,
                };
                proof {
                    lemma_offered_models_are_known(self.family@, reply@);
                }
                self.config.model = if offered {
                    String::from_str(reply)
                } else {
                    String::from_str("text-davinci-003")
                };
                self.stage = Stage::Done;
                false
            },
            Stage::Done => false,
        }
    }

    /// The configuration, once every question has been answered. Its model
    /// is always a known one.
    pub fn finish(self) -> (config: Option<Config>)
        ensures
            match config {
                Some(c) => self@.stage == Stage::Done && c@ == self@.config,
                None => self@.stage != Stage::Done,
            },
            config is Some ==> is_known_model(config->0@.model),
    {
        proof {
            use_type_invariant(&self);
        }
        if self.stage == Stage::Done {
            Some(self.config)
        } else {
            None
        }
    }
}

/// The message for an answer that named a family which is not on offer.
pub fn fallback_notice() -> (notice: String)
    ensures
        notice@ == "Invalid model selected. Using default model."@,
{
    String::from_str("Invalid model selected. Using default model.")
}

/// Runs the wizard on recorded answers, one for each question in turn, and
/// returns the configuration they give, whose model is always a known one.
/// `None` where the answers run out before the last question; answers past
/// the last question are not read.
pub fn prompt_for_config(replies: &Vec<String>) -> (config: Option<Config>)
    ensures
        match config {
            Some(c) => {
                &&& advance_all(wizard_start(), texts(replies@)).stage == Stage::Done
                &&& c@ == advance_all(wizard_start(), texts(replies@)).config
            },
            None => advance_all(wizard_start(), texts(replies@)).stage != Stage::Done,
        },
        config is Some ==> is_known_model(config->0@.model),
{
    let mut wizard = Wizard::new();
    let ghost given = texts(replies@);
    let mut i: usize = 0;
    assert(given.take(0) =~= Seq::<Seq<char>>::empty());
    while i < replies.len()
        invariant
            i <= replies.len(),
            given == texts(replies@),
            wizard@ == advance_all(wizard_start(), given.take(i as int)),
        decreases replies.len() - i,
    {
        assert(given.take(i + 1).drop_last() =~= given.take(i as int));
        assert(given.take(i + 1).last() == replies[i as int]@);
        wizard.answer(replies[i].as_str());
        i += 1;
    }
    assert(given.take(i as int) =~= given);
    wizard.finish()
}

/// The model that two runs of the list choose: the family that the first
/// enter among `family_keys` confirms, then, among the models of that
/// family, the one that the first enter among `model_keys` confirms.
/// `None` where either run sees no enter.
pub open spec fn chosen_model(family_keys: Seq<Key>, model_keys: Seq<Key>) -> Option<Seq<char>> {
    match chosen_index(4, family_keys) {
        Some(family) => match chosen_index(4, model_keys) {
            Some(model) => match family_models(model_families()[family as int]) {
                Some(models) => Some(models[model as int]),
                None => None,
            },
            None => None,
        },
        None => None,
    }
}

/// Chooses a model on recorded keys: a family from the list of families
/// with `family_keys`, then one of its models with `model_keys`. The model
/// is always one of the known ones.
pub fn select_model_and_option(family_keys: &Vec<Key>, model_keys: &Vec<Key>) -> (model: Option<
    String,
>)
    ensures
        match chosen_model(family_keys@, model_keys@) {
            Some(chosen) => model is Some && model->0@ == chosen,
            None => model is None,
        },
        model is Some ==> is_known_model(model->0@),
{
    proof {
        crate::select::lemma_chosen_in_list(4, family_keys@);
        crate::select::lemma_chosen_in_list(4, model_keys@);
    }
    let families = family_options();
    match select_from_list("Choose a model:", families, family_keys).choice {
        Some(family) => {
            proof {
                let at = chosen_index(4, family_keys@)->0 as int;
                assert(family@ == model_families()[at]);
                lemma_offered_models_are_known(family@, family@);
            }
            match model_options(family.as_str()) {
                Some(models) => {
                    let choice = select_from_list("Choose an option:", models, model_keys).choice;
                    proof {
                        if choice is Some {
                            lemma_offered_models_are_known(family@, choice->0@);
                        }
                    }
                    choice
                },
                None => None,
            }
        },
        None => None,
    }
}

/// How many questions lie behind a stage.
pub open spec fn questions_behind(stage: Stage) -> nat {
    match stage {
        Stage::Verbosity => 0,
        Stage::Context => 1,
        Stage::MaxTokens => 2,
        Stage::Family => 3,
        Stage::ModelOption => 4,
        Stage::Done => 5,
    }
}

/// Every answer is taken: each one moves the wizard on by at least one
/// question until none is left, and then changes nothing.
pub proof fn lemma_answer_moves_on(w: WizardView, reply: Seq<char>)
    ensures
        w.stage != Stage::Done ==> questions_behind(advance(w, reply).stage) > questions_behind(
            w.stage,
        ),
        w.stage == Stage::Done ==> advance(w, reply) == w,
{
}

/// Five answers always finish the wizard, whatever they hold.
pub proof fn lemma_five_answers_finish(replies: Seq<Seq<char>>)
    requires
        replies.len() >= 5,
    ensures
        advance_all(wizard_start(), replies).stage == Stage::Done,
{
    lemma_progress(wizard_start(), replies);
}

proof fn lemma_progress(w: WizardView, replies: Seq<Seq<char>>)
    ensures
        questions_behind(advance_all(w, replies).stage) >= questions_behind(w.stage)
            + replies.len() || advance_all(w, replies).stage == Stage::Done,
    decreases replies.len(),
{
    if replies.len() > 0 {
        lemma_progress(w, replies.drop_last());
        lemma_answer_moves_on(advance_all(w, replies.drop_last()), replies.last());
    }
}

/// With a family that is on offer, the five answers give the configuration
/// field by field: the verbosity that the first names, the second without
/// the white space around it, the budget that the third writes or the
/// default, and as the model the fifth where the family offers it and the
/// fallback model where it does not.
pub proof fn lemma_wizard_fills_config(
    verbosity: Seq<char>,
    context: Seq<char>,
    max_tokens: Seq<char>,
    family: Seq<char>,
    model: Seq<char>,
)
    requires
        family_models(family) is Some,
    ensures
        advance_all(wizard_start(), seq![verbosity, context, max_tokens, family, model])
            == (WizardView {
            stage: Stage::Done,
            config: ConfigView {
                context: trimmed(context),
                max_tokens: max_tokens_of(max_tokens),
                model: model_chosen(family, model),
                verbosity: verbosity_of(verbosity),
            },
            family: family,
        }),
{
    let r5 = seq![verbosity, context, max_tokens, family, model];
    let r4 = seq![verbosity, context, max_tokens, family];
    let r3 = seq![verbosity, context, max_tokens];
    let r2 = seq![verbosity, context];
    let r1 = seq![verbosity];
    assert(r5.drop_last() =~= r4);
    assert(r4.drop_last() =~= r3);
    assert(r3.drop_last() =~= r2);
    assert(r2.drop_last() =~= r1);
    assert(r1.drop_last() =~= Seq::<Seq<char>>::empty());
    reveal_with_fuel(advance_all, 6);
}

/// With a family that is not on offer, four answers finish the wizard and
/// the model is the fallback model.
pub proof fn lemma_wizard_falls_back(
    verbosity: Seq<char>,
    context: Seq<char>,
    max_tokens: Seq<char>,
    family: Seq<char>,
)
    requires
        family_models(family) is None,
    ensures
        advance_all(wizard_start(), seq![verbosity, context, max_tokens, family]) == (WizardView {
            stage: Stage::Done,
            config: ConfigView {
                context: trimmed(context),
                max_tokens: max_tokens_of(max_tokens),
                model: fallback_model(),
                verbosity: verbosity_of(verbosity),
            },
            family: family,
        }),
{
    let r4 = seq![verbosity, context, max_tokens, family];
    let r3 = seq![verbosity, context, max_tokens];
    let r2 = seq![verbosity, context];
    let r1 = seq![verbosity];
    assert(r4.drop_last() =~= r3);
    assert(r3.drop_last() =~= r2);
    assert(r2.drop_last() =~= r1);
    assert(r1.drop_last() =~= Seq::<Seq<char>>::empty());
    reveal_with_fuel(advance_all, 5);
}

/// Whatever the answers hold, the model of the configuration is a known
/// one at every stage.
pub proof fn lemma_wizard_model_is_known(replies: Seq<Seq<char>>)
    ensures
        is_known_model(advance_all(wizard_start(), replies).config.model),
    decreases replies.len(),
{
    if replies.len() > 0 {
        lemma_wizard_model_is_known(replies.drop_last());
        let before = advance_all(wizard_start(), replies.drop_last());
        lemma_offered_models_are_known(before.family, replies.last());
    }
}

/// The families with models are the four on offer, each with four models,
/// and every model that a family offers is a known model; so is the
/// fallback model.
pub proof fn lemma_offered_models_are_known(family: Seq<char>, model: Seq<char>)
    ensures
        family_models(family) is Some <==> model_families().contains(family),
        family_models(family) matches Some(models) ==> models.len() == 4 && (models.contains(model)
            ==> is_known_model(model)),
        is_known_model(fallback_model()),
{
    let families = model_families();
    assert(families[0] == "GPT-3.5"@ && families[1] == "GPT-3"@ && families[2] == "GPT-4"@
        && families[3] == "Codex"@);
}

} // verus!
