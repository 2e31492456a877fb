//! The bridge to the language model: how many requests may run at once, how a
//! page is stripped until it fits the token budget, what is asked, and what
//! becomes of the answer.
//!
//! The request itself is made by the caller; this module decides around it.

use vstd::prelude::*;
use vstd::utf8::encode_utf8;
use crate::html::{
    clean_html_full, clean_html_slim_with, clean_html_with, cleaned, cleaned_under, full_table,
    slimmed, Cleaning,
};
use crate::page::{AIResults, OpenAIUsage, PageResponse};
use crate::strings::{
    ascii_lowercase, joined, str_contains, texts, trim_start, without_leading_space,
};
use crate::text::{is_prefix, occurs_in};

verus! {

// ---------------------------------------------------------------------------
// Concurrency
// ---------------------------------------------------------------------------

/// `num_cpus::get`: the number of logical CPUs of the machine; at least 1.
#[verifier::external_body]
fn logical_cpus() -> (n: usize)
    ensures
        n >= 1,
{
    num_cpus::get()
}

/// `num_cpus::get_physical`: the number of physical cores of the machine; at
/// least 1.
#[verifier::external_body]
fn physical_cpus() -> (n: usize)
    ensures
        n >= 1,
{
    num_cpus::get_physical()
}

/// The number of requests to the language model that may run at once on a
/// machine with `logical` CPUs on `physical` cores.
pub open spec fn permits(logical: int, physical: int) -> int {
    let share = if logical > physical {
        logical / physical
    } else {
        logical
    };
    let (wide, floor) = if logical == physical {
        (share * physical, 20int)
    } else {
        (share * 4, 10int)
    };
    if wide / 3 > floor {
        wide / 3
    } else {
        floor
    }
}

/// The number of requests to the language model that may run at once.
pub fn semaphore_permits(logical: usize, physical: usize) -> (n: usize)
    requires
        physical > 0,
        logical * 4 <= usize::MAX,
        logical == physical ==> logical * physical <= usize::MAX,
    ensures
        n == permits(logical as int, physical as int),
        n >= 10,
{
    let share = if logical > physical {
        logical / physical
    } else {
        logical
    };
    let wide: usize;
    let floor: usize;
    if logical == physical {
        wide = share * physical;
        floor = 20;
    } else {
        assert(share <= logical) by (nonlinear_arith)
            requires
                physical > 0,
                share == (if logical > physical {
                    logical / physical
                } else {
                    logical
                }),
        ;
        wide = share * 4;
        floor = 10;
    }
    let third = wide / 3;
    if third > floor {
        third
    } else {
        floor
    }
}

/// The least number of requests that may run at once, whatever the machine.
pub const LEAST_PERMITS: usize = 10;

/// The number of requests that may run at once for a pair of counts: none
/// where there is no physical core, or where the numbers on the way no longer
/// fit the machine.
pub open spec fn permits_for(logical: usize, physical: usize) -> Option<usize> {
    if physical == 0 || logical * 4 > usize::MAX || (logical == physical && logical * physical
        > usize::MAX) {
        None
    } else {
        Some(permits(logical as int, physical as int) as usize)
    }
}

/// The number of requests that may run at once for the counts of a machine,
/// or `None` where the counts cannot be worked with.
pub fn checked_permits(logical: usize, physical: usize) -> (n: Option<usize>)
    ensures
        n == permits_for(logical, physical),
        n matches Some(p) ==> p >= LEAST_PERMITS,
{
    if physical == 0 || logical > usize::MAX / 4 {
        return None;
    }
    if logical == physical {
        match logical.checked_mul(physical) {
            Some(_) => {},
            None => {
                return None;
            },
        }
    }
    Some(semaphore_permits(logical, physical))
}

/// The number of requests that may run at once on this machine, or `None`
/// where the machine's counts cannot be worked with: what `permits_for` gives
/// for the machine's count of logical CPUs and of physical cores, each of
/// which is at least 1.
pub fn machine_permits() -> (n: Option<usize>)
    ensures
        exists|logical: usize, physical: usize|
            logical >= 1 && physical >= 1 && n == #[trigger] permits_for(logical, physical),
        n matches Some(p) ==> p >= LEAST_PERMITS,
{
    let logical = logical_cpus();
    let physical = physical_cpus();
    let n = checked_permits(logical, physical);
    assert(logical >= 1 && physical >= 1 && n == permits_for(logical, physical));
    n
}

// ---------------------------------------------------------------------------
// Counting tokens
// ---------------------------------------------------------------------------

/// The most bytes of a text that is handed to a tokenizer. The tokenizer's
/// pattern matcher keeps an entry for each character of a run of white space
/// and gives up at a million of them; a text of this length stays well below.
pub const TOKEN_TEXT_LIMIT: usize = 400_000;

/// A text is short enough to be handed to a tokenizer.
pub open spec fn countable(text: Seq<char>) -> bool {
    encode_utf8(text).len() <= TOKEN_TEXT_LIMIT
}

/// The number of tokens that the tokenizer of `model` makes of `text`, special
/// tokens allowed; `None` where `tiktoken_rs` knows no tokenizer for the model.
pub uninterp spec fn model_token_count(model: Seq<char>, text: Seq<char>) -> Option<nat>;

/// The number of tokens that the `cl100k_base` tokenizer makes of `text`,
/// special tokens allowed; `None` where the tokenizer cannot be built.
pub uninterp spec fn base_token_count(text: Seq<char>) -> Option<nat>;

/// `tiktoken_rs::get_bpe_from_model` and `CoreBPE::encode_with_special_tokens`:
/// the length of the encoding of `text` for `model`. The encoder panics where
/// its pattern matcher gives up, which a long run of white space brings
/// about: the text is held to `TOKEN_TEXT_LIMIT` bytes.
#[verifier::external_body]
fn count_for_model(model: &str, text: &str) -> (n: Option<usize>)
    requires
        countable(text@),
    ensures
        match n {
            Some(c) => model_token_count(model@, text@) == Some(c as nat),
            None => model_token_count(model@, text@) is None,
        },
{
    let bpe = tiktoken_rs::get_bpe_from_model(model).ok()?;
    Some(bpe.encode_with_special_tokens(text).len())
}

/// `tiktoken_rs::cl100k_base` and `CoreBPE::encode_with_special_tokens`: the
/// length of the encoding of `text`. The encoder panics where its pattern
/// matcher gives up, which a long run of white space brings about: the text
/// is held to `TOKEN_TEXT_LIMIT` bytes.
#[verifier::external_body]
fn count_for_base(text: &str) -> (n: Option<usize>)
    requires
        countable(text@),
    ensures
        match n {
            Some(c) => base_token_count(text@) == Some(c as nat),
            None => base_token_count(text@) is None,
        },
{
    let bpe = tiktoken_rs::cl100k_base().ok()?;
    Some(bpe.encode_with_special_tokens(text).len())
}

/// The number of tokens of `text` for `model`: by the model's tokenizer, by
/// the base tokenizer where the model has none, and 0 where neither counts. A
/// text that is too long to be handed to a tokenizer is counted by its bytes:
/// a token holds a byte at least, so such a text is never counted short, and
/// it is over every budget.
pub open spec fn token_count(model: Seq<char>, text: Seq<char>) -> nat {
    if !countable(text) {
        encode_utf8(text).len()
    } else {
        match model_token_count(model, text) {
            Some(n) => n,
            None => match base_token_count(text) {
                Some(n) => n,
                None => 0,
            },
        }
    }
}

/// What `tokens` makes of the two counts.
pub open spec fn tokens_from(for_model: Option<usize>, for_base: Option<usize>) -> usize {
    match for_model {
        Some(n) => n,
        None => match for_base {
            Some(n) => n,
            None => 0,
        },
    }
}

/// Pick the count of tokens: the model's own where it has a tokenizer, else
/// the base tokenizer's.
pub fn pick_count(for_model: Option<usize>, for_base: Option<usize>) -> (n: usize)
    ensures
        n == tokens_from(for_model, for_base),
{
    match for_model {
        Some(n) => n,
        None => match for_base {
            Some(n) => n,
            None => 0,
        },
    }
}

/// Count the tokens of `text` for `model`. A text of more than
/// `TOKEN_TEXT_LIMIT` bytes is not handed to a tokenizer: it counts as many
/// tokens as it has bytes.
pub fn tokens(model: &str, text: &str) -> (n: usize)
    ensures
        n == token_count(model@, text@),
        !countable(text@) ==> n > TOKEN_TEXT_LIMIT,
{
    let bytes = text.as_bytes().len();
    if bytes > TOKEN_TEXT_LIMIT {
        return bytes;
    }
    match count_for_model(model, text) {
        Some(n) => n,
        None => pick_count(None, count_for_base(text)),
    }
}

// ---------------------------------------------------------------------------
// Fitting the page to the budget
// ---------------------------------------------------------------------------

/// The size of a page and its prompt in tokens, and the budget they are held
/// to.
#[derive(Debug, Clone, Copy, PartialEq, Eq, Structural)]
pub struct Measure {
    /// The tokens of the page.
    pub resource_tokens: usize,
    /// The tokens of the prompt.
    pub prompt_tokens: usize,
    /// The most tokens that may be sent.
    pub budget: usize,
}

impl Measure {
    /// The page and the prompt together pass the budget.
    pub open spec fn over(self) -> bool {
        self.resource_tokens + self.prompt_tokens > self.budget
    }

    /// Whether the page and the prompt together pass the budget.
    pub fn is_over(&self) -> (r: bool)
        ensures
            r == self.over(),
    {
        self.resource_tokens > self.budget || self.prompt_tokens > self.budget
            - self.resource_tokens
    }
}

/// Measure a page and a prompt against a budget.
pub fn measure(model: &str, resource: &str, prompt: &str, budget: usize) -> (m: Measure)
    ensures
        m.resource_tokens == token_count(model@, resource@),
        m.prompt_tokens == token_count(model@, prompt@),
        m.budget == budget,
{
    Measure { resource_tokens: tokens(model, resource), prompt_tokens: tokens(model, prompt), budget }
}

/// How far the stripping of a page has come.
#[derive(Debug, Clone, Copy, PartialEq, Eq, Structural)]
pub enum FitStage {
    /// The page as it was fetched.
    Raw,
    /// Scripts and styles are gone.
    Cleaned,
    /// Media and tracking elements are gone too.
    Slimmed,
    /// The page is what will be sent.
    Done,
}

/// What the stripping of a page holds.
pub struct FitView {
    pub stage: FitStage,
    pub text: Seq<char>,
    pub cleaning: Cleaning,
}

impl FitView {
    /// The state after the text at hand was measured and found over the
    /// budget, or not.
    pub open spec fn after(self, over: bool) -> FitView {
        match self.stage {
            FitStage::Raw => FitView {
                stage: if over {
                    FitStage::Cleaned
                } else {
                    FitStage::Done
                },
                text: cleaned(self.cleaning, self.text),
                ..self
            },
            FitStage::Cleaned => if over {
                FitView { stage: FitStage::Slimmed, text: slimmed(self.cleaning, self.text), ..self }
            } else {
                FitView { stage: FitStage::Done, ..self }
            },
            FitStage::Slimmed => if over {
                FitView {
                    stage: FitStage::Done,
                    text: cleaned_under(self.text, full_table()),
                    ..self
                }
            } else {
                FitView { stage: FitStage::Done, ..self }
            },
            FitStage::Done => self,
        }
    }
}

/// What is sent for a page under three measurements: the page is always
/// cleaned; it is slimmed where the raw and the cleaned page are over the
/// budget; and stripped of all but the essential where the slimmed page still
/// is, whatever that leaves.
pub open spec fn fitted(
    cleaning: Cleaning,
    raw: Seq<char>,
    raw_over: bool,
    cleaned_over: bool,
    slimmed_over: bool,
) -> Seq<char> {
    let first = cleaned(cleaning, raw);
    if !raw_over || !cleaned_over {
        first
    } else {
        let second = slimmed(cleaning, first);
        if !slimmed_over {
            second
        } else {
            cleaned_under(second, full_table())
        }
    }
}

/// The stripping of one page, stage by stage.
pub struct PromptFit {
    stage: FitStage,
    text: String,
    cleaning: Cleaning,
}

impl View for PromptFit {
    type V = FitView;

    closed spec fn view(&self) -> FitView {
        FitView { stage: self.stage, text: self.text@, cleaning: self.cleaning }
    }
}

impl PromptFit {
    /// Start with the page as it was fetched.
    pub fn new(resource: String, cleaning: Cleaning) -> (fit: PromptFit)
        ensures
            fit@ == (FitView { stage: FitStage::Raw, text: resource@, cleaning }),
    {
        PromptFit { stage: FitStage::Raw, text: resource, cleaning }
    }

    /// The text to measure next, or to send when the stripping is done.
    pub fn text(&self) -> (t: &str)
        ensures
            t@ == self@.text,
    {
        self.text.as_str()
    }

    /// The stage that the stripping has come to.
    pub fn stage(&self) -> (s: FitStage)
        ensures
            s == self@.stage,
    {
        self.stage
    }

    /// Whether the text is what will be sent.
    pub fn is_done(&self) -> (b: bool)
        ensures
            b == (self@.stage == FitStage::Done),
    {
        match self.stage {
            FitStage::Done => true,
            _ => false,
        }
    }

    /// Take the next stage, given whether the text at hand is over the budget.
    pub fn advance(&mut self, over: bool)
        ensures
            final(self)@ == old(self)@.after(over),
    {
        match self.stage {
            FitStage::Raw => {
                self.text = clean_html_with(self.cleaning, self.text.as_str());
                self.stage = if over {
                    FitStage::Cleaned
                } else {
                    FitStage::Done
                };
            },
            FitStage::Cleaned => {
                if over {
                    self.text = clean_html_slim_with(self.cleaning, self.text.as_str());
                    self.stage = FitStage::Slimmed;
                } else {
                    self.stage = FitStage::Done;
                }
            },
            FitStage::Slimmed => {
                if over {
                    self.text = clean_html_full(self.text.as_str());
                }
                self.stage = FitStage::Done;
            },
            FitStage::Done => {},
        }
    }

    /// The text to send.
    pub fn into_text(self) -> (t: String)
        ensures
            t@ == self@.text,
    {
        self.text
    }
}

/// The number of tokens that the context of `model` holds: a table by the
/// start of the model's name, read from the top, and 4096 for a name that is
/// not in it.
pub open spec fn context_size(model: Seq<char>) -> nat {
    if is_prefix("gpt-4o-2024-05-13"@, model) {
        128_000
    } else if is_prefix("gpt-4o"@, model) {
        128_000
    } else if is_prefix("gpt-4-0125"@, model) {
        128_000
    } else if is_prefix("gpt-4-1106"@, model) {
        128_000
    } else if is_prefix("gpt-4-32k"@, model) {
        32_768
    } else if is_prefix("gpt-4"@, model) {
        8192
    } else if is_prefix("gpt-3.5-turbo-0125"@, model) {
        16_385
    } else if is_prefix("gpt-3.5-turbo-1106"@, model) {
        16_385
    } else if is_prefix("gpt-3.5-turbo-16k"@, model) {
        16_385
    } else if is_prefix("gpt-3.5-turbo"@, model) {
        16_385
    } else if is_prefix("text-davinci-002"@, model) || is_prefix("text-davinci-003"@, model) {
        4097
    } else if is_prefix("ada"@, model) || is_prefix("babbage"@, model) || is_prefix(
        "curie"@,
        model,
    ) {
        2049
    } else if is_prefix("code-cushman-001"@, model) {
        2048
    } else if is_prefix("code-davinci-002"@, model) {
        8001
    } else if is_prefix("davinci"@, model) {
        2049
    } else if is_prefix("text-ada-001"@, model) || is_prefix("text-babbage-001"@, model)
        || is_prefix("text-curie-001"@, model) {
        2049
    } else if is_prefix("text-embedding-ada-002"@, model) {
        8192
    } else {
        4096
    }
}

/// `tiktoken_rs::model::get_context_size`: the number of tokens that the
/// context of the model holds, by the table of `context_size`.
#[verifier::external_body]
fn model_context(model: &str) -> (n: usize)
    ensures
        n == context_size(model@),
{
    tiktoken_rs::model::get_context_size(model)
}

/// The most tokens that may be sent for a page: what the model's context
/// leaves beside the standing instruction, the page and the prompt, and no
/// more than the configuration allows.
pub open spec fn budget_of(
    model: Seq<char>,
    max_tokens: u16,
    system: Seq<char>,
    resource: Seq<char>,
    prompt: Seq<char>,
) -> nat {
    budget_from(
        context_size(model),
        token_count(model, system),
        token_count(model, resource),
        token_count(model, prompt),
        max_tokens,
    )
}

/// The budget for given counts: what a context of `context` tokens leaves
/// beside the three counts, nothing where they fill it, and no more than
/// `max_tokens`.
pub open spec fn budget_from(
    context: nat,
    system_tokens: nat,
    resource_tokens: nat,
    prompt_tokens: nat,
    max_tokens: u16,
) -> nat {
    let used = system_tokens + resource_tokens + prompt_tokens;
    let left = if context > used {
        (context - used) as nat
    } else {
        0
    };
    if left < max_tokens {
        left
    } else {
        max_tokens as nat
    }
}

/// Compute the budget from the size of the context and the three counts.
pub fn budget(
    context: usize,
    system_tokens: usize,
    resource_tokens: usize,
    prompt_tokens: usize,
    max_tokens: u16,
) -> (n: usize)
    ensures
        n == budget_from(
            context as nat,
            system_tokens as nat,
            resource_tokens as nat,
            prompt_tokens as nat,
            max_tokens,
        ),
{
    let left = context.saturating_sub(system_tokens).saturating_sub(resource_tokens).saturating_sub(
        prompt_tokens,
    );
    let most: usize = max_tokens as usize;
    if left < most {
        left
    } else {
        most
    }
}

/// Compute the budget of tokens for a page and its prompt.
pub fn calculate_max_tokens(
    model: &str,
    max_tokens: u16,
    system: &str,
    resource: &str,
    prompt: &str,
) -> (n: usize)
    ensures
        n == budget_of(model@, max_tokens, system@, resource@, prompt@),
{
    budget(
        model_context(model),
        tokens(model, system),
        tokens(model, resource),
        tokens(model, prompt),
        max_tokens,
    )
}

/// Whether a text and its prompt are over the budget that is computed for
/// them.
pub open spec fn over_budget(
    model: Seq<char>,
    max_tokens: u16,
    system: Seq<char>,
    text: Seq<char>,
    prompt: Seq<char>,
) -> bool {
    token_count(model, text) + token_count(model, prompt) > budget_of(
        model,
        max_tokens,
        system,
        text,
        prompt,
    )
}

/// What `fit_resource` sends.
pub open spec fn fit_of(
    cleaning: Cleaning,
    model: Seq<char>,
    max_tokens: u16,
    system: Seq<char>,
    resource: Seq<char>,
    prompt: Seq<char>,
) -> Seq<char> {
    let first = cleaned(cleaning, resource);
    let second = slimmed(cleaning, first);
    fitted(
        cleaning,
        resource,
        over_budget(model, max_tokens, system, resource, prompt),
        over_budget(model, max_tokens, system, first, prompt),
        over_budget(model, max_tokens, system, second, prompt),
    )
}

/// Strip a page until it fits its budget of tokens together with its prompt,
/// computing the budget and measuring anew at each stage; the severest
/// stripping is sent whatever its size.
pub fn fit_resource(
    cleaning: Cleaning,
    model: &str,
    max_tokens: u16,
    system: &str,
    resource: String,
    prompt: &str,
) -> (r: String)
    ensures
        r@ == fit_of(cleaning, model@, max_tokens, system@, resource@, prompt@),
{
    let ghost raw = resource@;
    let mut fit = PromptFit::new(resource, cleaning);
    let mut rounds: usize = 0;
    while !fit.is_done()
        invariant
            rounds <= 3,
            fit@.cleaning == cleaning,
            ({
                let first = cleaned(cleaning, raw);
                let second = slimmed(cleaning, first);
                let o0 = over_budget(model@, max_tokens, system@, raw, prompt@);
                let o1 = over_budget(model@, max_tokens, system@, first, prompt@);
                match fit@.stage {
                    FitStage::Raw => rounds == 0 && fit@.text == raw,
                    FitStage::Cleaned => rounds == 1 && fit@.text == first && o0,
                    FitStage::Slimmed => rounds == 2 && fit@.text == second && o0 && o1,
                    FitStage::Done => fit@.text == fit_of(
                        cleaning,
                        model@,
                        max_tokens,
                        system@,
                        raw,
                        prompt@,
                    ),
                }
            }),
        decreases 3 - rounds,
    {
        let budget = calculate_max_tokens(model, max_tokens, system, fit.text(), prompt);
        let m = measure(model, fit.text(), prompt, budget);
        fit.advance(m.is_over());
        rounds = rounds + 1;
    }
    fit.into_text()
}

/// The budget never passes what the configuration allows.
pub proof fn lemma_budget_is_bounded(
    model: Seq<char>,
    max_tokens: u16,
    system: Seq<char>,
    resource: Seq<char>,
    prompt: Seq<char>,
)
    ensures
        budget_of(model, max_tokens, system, resource, prompt) <= max_tokens,
{
}

/// After three measurements the stripping is done, and what it holds is what
/// `fitted` says.
pub proof fn lemma_fit_ends(start: FitView, o0: bool, o1: bool, o2: bool)
    requires
        start.stage == FitStage::Raw,
    ensures
        start.after(o0).after(o1).after(o2).stage == FitStage::Done,
        start.after(o0).after(o1).after(o2).text == fitted(start.cleaning, start.text, o0, o1, o2),
{
}

/// Nothing that was not cleaned is ever sent: whatever the measurements, the
/// text to send went through the first cleaning at least.
pub proof fn lemma_never_raw(cleaning: Cleaning, raw: Seq<char>, o0: bool, o1: bool, o2: bool)
    ensures
        ({
            let first = cleaned(cleaning, raw);
            let sent = fitted(cleaning, raw, o0, o1, o2);
            sent == first || sent == slimmed(cleaning, first) || sent == cleaned_under(
                slimmed(cleaning, first),
                full_table(),
            )
        }),
{
}

// ---------------------------------------------------------------------------
// Which configuration a page gets
// ---------------------------------------------------------------------------

/// The configuration of the bridge for a crawl, or for the pages of one URL.
#[derive(Debug)]
pub struct GPTConfigs {
    /// The prompts to use for the request, in order.
    pub prompt: Vec<String>,
    /// The model to use. Example: gpt-4-1106-preview or gpt-3.5-turbo-16k
    pub model: String,
    /// The max tokens to use for the request.
    pub max_tokens: u16,
    /// The user for the request
    pub user: Option<String>,
    /// Prompts to use for certain urls. If this is set only the urls that match
    /// exactly are run. Keys are compared without regard to ASCII case. A map
    /// holds each key once (`distinct_keys`); where a list holds one key twice
    /// all the same, the first entry is the one that counts.
    pub prompt_url_map: Option<Vec<(String, GPTConfigs)>>,
    /// Extra data, this will merge the prompts and try to get the content for you. Example: extracting data from the page.
    pub extra_ai_data: bool,
    /// Map to paths. If the prompt_url_map has a key called /blog and all blog pages are found like /blog/something the same prompt will perform unless an exact match is found.
    pub paths_map: bool,
    /// Take a screenshot of the page after each JS script execution. The screenshot is stored as a base64.
    pub screenshot: bool,
    /// The API key to use for the request.
    pub api_key: Option<String>,
}

/// `CaseInsensitiveString::from` and its `==`: two texts are the same key when
/// they are equal after their ASCII capital letters are made small.
#[verifier::external_body]
fn same_key(a: &str, b: &str) -> (r: bool)
    ensures
        r == (ascii_lowercase(a@) == ascii_lowercase(b@)),
{
    case_insensitive_string::CaseInsensitiveString::from(a)
        == case_insensitive_string::CaseInsensitiveString::from(b)
}

/// The path of the URL that `url::Url::parse` makes of a text; `None` where
/// the text is no URL.
pub uninterp spec fn url_path(source: Seq<char>) -> Option<Seq<char>>;

/// `url::Url::parse` and `Url::path`: the path of a URL.
#[verifier::external_body]
fn path_of(source: &str) -> (p: Option<String>)
    ensures
        match p {
            Some(t) => url_path(source@) == Some(t@),
            None => url_path(source@) is None,
        },
{
    Some(url::Url::parse(source).ok()?.path().to_string())
}

/// The index of the first entry of `map` whose key is `key`, ASCII case aside.
pub open spec fn position_of(map: Seq<(String, GPTConfigs)>, key: Seq<char>) -> Option<int> {
    if exists|i: int| 0 <= i < map.len() && is_key(map, key, i) {
        Some(first_key(map, key))
    } else {
        None
    }
}

/// Entry `i` of `map` has the key `key`, ASCII case aside.
pub open spec fn is_key(map: Seq<(String, GPTConfigs)>, key: Seq<char>, i: int) -> bool {
    ascii_lowercase(map[i].0@) == ascii_lowercase(key)
}

/// No key occurs twice in the list, ASCII case aside: what a map holds.
pub open spec fn distinct_keys(map: Seq<(String, GPTConfigs)>) -> bool {
    forall|i: int, j: int|
        0 <= i < j < map.len() ==> ascii_lowercase(map[i].0@) != ascii_lowercase(map[j].0@)
}

/// Of two entries with one key the first wins: the entry that is found is the
/// first with the key.
pub proof fn lemma_first_entry_wins(map: Seq<(String, GPTConfigs)>, key: Seq<char>, i: int)
    requires
        0 <= i < map.len(),
        is_key(map, key, i),
        forall|j: int| 0 <= j < i ==> !is_key(map, key, j),
    ensures
        position_of(map, key) == Some(i),
{
    let w = first_key(map, key);
    assert(0 <= w < map.len() && is_key(map, key, w) && forall|j: int|
        0 <= j < w ==> !is_key(map, key, j));
}

/// Where no key occurs twice, an entry with the key is the entry that is
/// found.
pub proof fn lemma_distinct_keys_found(map: Seq<(String, GPTConfigs)>, key: Seq<char>, i: int)
    requires
        distinct_keys(map),
        0 <= i < map.len(),
        is_key(map, key, i),
    ensures
        position_of(map, key) == Some(i),
{
    lemma_first_entry_wins(map, key, i);
}

/// The least index of an entry with the key `key`.
pub open spec fn first_key(map: Seq<(String, GPTConfigs)>, key: Seq<char>) -> int {
    choose|i: int|
        0 <= i < map.len() && is_key(map, key, i) && forall|j: int|
            0 <= j < i ==> !is_key(map, key, j)
}

/// Find the entry of a list for a key: the index of the first entry whose
/// key is `key`, ASCII case aside.
pub fn find_key(map: &Vec<(String, GPTConfigs)>, key: &str) -> (r: Option<usize>)
    ensures
        match r {
            Some(i) => position_of(map@, key@) == Some(i as int) && i < map@.len(),
            None => position_of(map@, key@) is None,
        },
{
    let mut i: usize = 0;
    while i < map.len()
        invariant
            i <= map@.len(),
            forall|j: int| 0 <= j < i ==> !is_key(map@, key@, j),
        decreases map@.len() - i,
    {
        if same_key(map[i].0.as_str(), key) {
            proof {
                let w = first_key(map@, key@);
                assert(is_key(map@, key@, i as int));
                assert(0 <= w < map@.len() && is_key(map@, key@, w) && forall|j: int|
                    0 <= j < w ==> !is_key(map@, key@, j));
                assert(w == i);
            }
            return Some(i);
        }
        i = i + 1;
    }
    None
}

/// Which entry of the map a page gets: the one for its URL, else, where paths
/// count, the one for the path of its URL.
pub open spec fn mapped_position(
    map: Seq<(String, GPTConfigs)>,
    paths_map: bool,
    source: Seq<char>,
) -> Option<int> {
    position_with_path(map, paths_map, source, url_path(source))
}

/// Which entry of the map a page gets, given the path of its URL: the one for
/// the URL, else, where paths count and the URL has a path, the one for the
/// path.
pub open spec fn position_with_path(
    map: Seq<(String, GPTConfigs)>,
    paths_map: bool,
    source: Seq<char>,
    path: Option<Seq<char>>,
) -> Option<int> {
    match position_of(map, source) {
        Some(i) => Some(i),
        None => if paths_map {
            match path {
                Some(p) => position_of(map, p),
                None => None,
            }
        } else {
            None
        },
    }
}

/// The configuration that a page is handled with, given the path of its URL.
pub open spec fn selected_with(
    configs: GPTConfigs,
    source: Seq<char>,
    path: Option<Seq<char>>,
) -> Option<GPTConfigs> {
    match configs.prompt_url_map {
        None => Some(configs),
        Some(map) => match position_with_path(map@, configs.paths_map, source, path) {
            Some(i) => Some(map@[i].1),
            None => None,
        },
    }
}

/// The text of an optional string slice.
pub open spec fn path_text(path: Option<&str>) -> Option<Seq<char>> {
    match path {
        Some(p) => Some(p@),
        None => None,
    }
}

/// Pick the configuration for a page, given the path of its URL, or `None`
/// for a source that is no URL.
pub fn select_with_path<'a>(configs: &'a GPTConfigs, source: &str, path: Option<&str>) -> (r:
    Option<&'a GPTConfigs>)
    ensures
        match r {
            Some(c) => selected_with(*configs, source@, path_text(path)) == Some(*c),
            None => selected_with(*configs, source@, path_text(path)) is None,
        },
{
    match &configs.prompt_url_map {
        None => Some(configs),
        Some(map) => {
            let found = match find_key(map, source) {
                Some(i) => Some(i),
                None => {
                    if configs.paths_map {
                        match path {
                            Some(p) => find_key(map, p),
                            None => None,
                        }
                    } else {
                        None
                    }
                },
            };
            match found {
                Some(i) => Some(&map[i].1),
                None => None,
            }
        },
    }
}

/// The configuration that the page at `source` is handled with: the crawl's
/// own where no map is set, else the map's entry for the page, if it has one.
pub open spec fn selected(configs: GPTConfigs, source: Seq<char>) -> Option<GPTConfigs> {
    match configs.prompt_url_map {
        None => Some(configs),
        Some(map) => match mapped_position(map@, configs.paths_map, source) {
            Some(i) => Some(map@[i].1),
            None => None,
        },
    }
}

/// Pick the configuration for the page at `source`. `None` means that the
/// page is not handed to the language model.
pub fn select_configs<'a>(configs: &'a GPTConfigs, source: &str) -> (r: Option<&'a GPTConfigs>)
    ensures
        match r {
            Some(c) => selected(*configs, source@) == Some(*c),
            None => selected(*configs, source@) is None,
        },
{
    let path = if configs.paths_map {
        path_of(source)
    } else {
        None
    };
    match &path {
        Some(p) => select_with_path(configs, source, Some(p.as_str())),
        None => select_with_path(configs, source, None),
    }
}

// ---------------------------------------------------------------------------
// What is asked
// ---------------------------------------------------------------------------

/// One message of the conversation that is sent.
#[derive(Debug)]
pub enum ChatMessage {
    /// The standing instruction to answer with a browser script.
    SystemActions,
    /// The standing instruction to answer with extracted data as well.
    SystemExtra,
    /// The page.
    Page(String),
    /// The caller's prompt.
    User(String),
}

/// What a message holds.
pub enum MessageView {
    SystemActions,
    SystemExtra,
    Page(Seq<char>),
    User(Seq<char>),
}

impl View for ChatMessage {
    type V = MessageView;

    open spec fn view(&self) -> MessageView {
        match self {
            ChatMessage::SystemActions => MessageView::SystemActions,
            ChatMessage::SystemExtra => MessageView::SystemExtra,
            ChatMessage::Page(t) => MessageView::Page(t@),
            ChatMessage::User(t) => MessageView::User(t@),
        }
    }
}

/// The views of a conversation.
pub open spec fn message_views(messages: Seq<ChatMessage>) -> Seq<MessageView> {
    messages.map_values(|m: ChatMessage| m@)
}

/// The text that presents a page to the model.
pub open spec fn page_text(url: Seq<char>, resource: Seq<char>) -> Seq<char> {
    "URL: "@ + url + "\n"@ + "HTML: "@ + resource
}

/// The conversation for a page: the standing instruction, the one for
/// extracted data where it is asked for, the page, and the prompt unless it
/// is empty.
pub open spec fn conversation(
    json_mode: bool,
    url: Seq<char>,
    resource: Seq<char>,
    prompt: Seq<char>,
) -> Seq<MessageView> {
    seq![MessageView::SystemActions] + (if json_mode {
        seq![MessageView::SystemExtra]
    } else {
        Seq::empty()
    }) + seq![MessageView::Page(page_text(url, resource))] + (if prompt.len() > 0 {
        seq![MessageView::User(prompt)]
    } else {
        Seq::empty()
    })
}

/// Build the conversation for a page.
pub fn chat_messages(json_mode: bool, url: &str, resource: &str, prompt: &str) -> (messages: Vec<
    ChatMessage,
>)
    ensures
        message_views(messages@) == conversation(json_mode, url@, resource@, prompt@),
{
    let mut messages: Vec<ChatMessage> = Vec::new();
    messages.push(ChatMessage::SystemActions);
    if json_mode {
        messages.push(ChatMessage::SystemExtra);
    }
    let mut text = joined("URL: ", url);
    text.append("\n");
    text.append("HTML: ");
    text.append(resource);
    messages.push(ChatMessage::Page(text));
    if !prompt.is_empty() {
        messages.push(ChatMessage::User(prompt.to_owned()));
    }
    assert(message_views(messages@) =~= conversation(json_mode, url@, resource@, prompt@));
    messages
}

/// The number of tokens to ask the model for: the budget, but 1 at least, and
/// no more than sixteen bits hold.
pub open spec fn completion_limit(budget: usize) -> u16 {
    let least = if budget < 1 {
        1usize
    } else {
        budget
    };
    (least % 0x1_0000) as u16
}

/// The number of tokens to ask the model for.
pub fn completion_tokens(budget: usize) -> (n: u16)
    ensures
        n == completion_limit(budget),
{
    let least = if budget < 1 {
        1
    } else {
        budget
    };
    (least % 0x1_0000) as u16
}

/// The key to send with a request: the configured one unless it is empty.
pub open spec fn key_of(api_key: Option<String>) -> Option<Seq<char>> {
    match api_key {
        Some(k) => if k@.len() > 0 {
            Some(k@)
        } else {
            None
        },
        None => None,
    }
}

/// The key to send with a request, or `None` for the process's own.
pub fn request_key(api_key: &Option<String>) -> (k: Option<&str>)
    ensures
        match k {
            Some(t) => key_of(*api_key) == Some(t@),
            None => key_of(*api_key) is None,
        },
{
    match api_key {
        Some(k) => {
            if !k.as_str().is_empty() {
                Some(k.as_str())
            } else {
                None
            }
        },
        None => None,
    }
}

// ---------------------------------------------------------------------------
// What comes back
// ---------------------------------------------------------------------------

/// What a request to the language model came to.
#[derive(Debug)]
pub struct OpenAIReturn {
    /// The response of the AI.
    pub response: String,
    /// The usage of the request.
    pub usage: OpenAIUsage,
    /// The error of the request if any.
    pub error: Option<String>,
}

impl Default for OpenAIReturn {
    fn default() -> (r: Self)
        ensures
            r.response@ == Seq::<char>::empty(),
            r.usage == OpenAIUsage::unused(),
            r.error is None,
    {
        OpenAIReturn { response: String::new(), usage: OpenAIUsage::default(), error: None }
    }
}

/// How the request went.
#[derive(Debug)]
pub enum ChatOutcome {
    /// The request could not be put together to begin with, or no permit to
    /// send it was had: the reason.
    Refused(String),
    /// The request was not sent, or the service gave no answer.
    NoAnswer,
    /// The service answered: the usage it reported, and the content of its
    /// first choice, if it made one with content.
    Answer { usage: Option<OpenAIUsage>, content: Option<String> },
}

/// What is sent to the language model for a page.
#[derive(Debug)]
pub struct ChatRequest {
    /// The model that is asked.
    pub model: String,
    /// The user that asks, where one is set.
    pub user: Option<String>,
    /// The most tokens that the answer may have.
    pub max_tokens: u16,
    /// The conversation.
    pub messages: Vec<ChatMessage>,
    /// Whether a JSON object is asked for, not text.
    pub json_mode: bool,
    /// The key to send, or `None` for the process's own.
    pub api_key: Option<String>,
}

/// The text of an optional string.
pub open spec fn opt_text(s: Option<String>) -> Option<Seq<char>> {
    match s {
        Some(t) => Some(t@),
        None => None,
    }
}

/// Perform a request to OpenAI Chat: put together what is sent. The page is
/// cleaned, and stripped further as long as it is over its budget of tokens;
/// markup that was not cleaned is never sent. The answer may have as many
/// tokens as the budget of the page as it came, but one at least.
pub fn openai_request_base(
    cleaning: Cleaning,
    gpt_configs: &GPTConfigs,
    system: &str,
    resource: String,
    url: &str,
    prompt: &str,
) -> (request: ChatRequest)
    ensures
        message_views(request.messages@) == conversation(
            gpt_configs.extra_ai_data,
            url@,
            fit_of(
                cleaning,
                gpt_configs.model@,
                gpt_configs.max_tokens,
                system@,
                resource@,
                prompt@,
            ),
            prompt@,
        ),
        request.max_tokens == completion_limit(
            budget_of(
                gpt_configs.model@,
                gpt_configs.max_tokens,
                system@,
                resource@,
                prompt@,
            ) as usize,
        ),
        request.model@ == gpt_configs.model@,
        request.json_mode == gpt_configs.extra_ai_data,
        opt_text(request.user) == opt_text(gpt_configs.user),
        opt_text(request.api_key) == key_of(gpt_configs.api_key),
{
    let model = gpt_configs.model.as_str();
    let budget = calculate_max_tokens(
        model,
        gpt_configs.max_tokens,
        system,
        resource.as_str(),
        prompt,
    );
    let sent = fit_resource(cleaning, model, gpt_configs.max_tokens, system, resource, prompt);
    let messages = chat_messages(gpt_configs.extra_ai_data, url, sent.as_str(), prompt);
    ChatRequest {
        model: gpt_configs.model.clone(),
        user: match &gpt_configs.user {
            Some(u) => Some(u.clone()),
            None => None,
        },
        max_tokens: completion_tokens(budget),
        messages,
        json_mode: gpt_configs.extra_ai_data,
        api_key: match request_key(&gpt_configs.api_key) {
            Some(k) => Some(k.to_owned()),
            None => None,
        },
    }
}

/// Whatever the budget, what is sent went through the first cleaning at
/// least: the page of the conversation is the cleaned page, the slimmed page
/// or the stripped page, never the page as it came.
pub proof fn lemma_raw_page_is_never_sent(
    cleaning: Cleaning,
    model: Seq<char>,
    max_tokens: u16,
    system: Seq<char>,
    resource: Seq<char>,
    prompt: Seq<char>,
)
    ensures
        ({
            let first = cleaned(cleaning, resource);
            let second = slimmed(cleaning, first);
            let third = cleaned_under(second, full_table());
            let sent = fit_of(cleaning, model, max_tokens, system, resource, prompt);
            &&& sent == first || sent == second || sent == third
            &&& sent == (if !over_budget(model, max_tokens, system, resource, prompt)
                || !over_budget(model, max_tokens, system, first, prompt) {
                first
            } else if !over_budget(model, max_tokens, system, second, prompt) {
                second
            } else {
                third
            })
        }),
{
}

/// What is recorded for a request: a refusal is an error without usage; no
/// answer is an empty response; an answer is its first choice's content and
/// the usage that was reported.
pub fn record_answer(outcome: ChatOutcome) -> (r: OpenAIReturn)
    ensures
        match outcome {
            ChatOutcome::Refused(reason) => r.response@.len() == 0 && r.usage
                == OpenAIUsage::unused() && r.error == Some(reason),
            ChatOutcome::NoAnswer => r.response@.len() == 0 && r.usage == OpenAIUsage::unused()
                && r.error is None,
            ChatOutcome::Answer { usage, content } => {
                &&& r.error is None
                &&& r.usage == (match usage {
                    Some(u) => OpenAIUsage { cached: false, ..u },
                    None => OpenAIUsage::unused(),
                })
                &&& r.response@ == (match content {
                    Some(c) => c@,
                    None => Seq::<char>::empty(),
                })
            },
        },
{
    match outcome {
        ChatOutcome::Refused(reason) => OpenAIReturn {
            response: String::new(),
            usage: OpenAIUsage::default(),
            error: Some(reason),
        },
        ChatOutcome::NoAnswer => OpenAIReturn::default(),
        ChatOutcome::Answer { usage, content } => {
            let used = match usage {
                Some(u) => OpenAIUsage {
                    prompt_tokens: u.prompt_tokens,
                    completion_tokens: u.completion_tokens,
                    total_tokens: u.total_tokens,
                    cached: false,
                },
                None => OpenAIUsage::default(),
            };
            let response = match content {
                Some(c) => c,
                None => String::new(),
            };
            OpenAIReturn { response, usage: used, error: None }
        },
    }
}

/// What is recorded for a request that was answered from the cache: the
/// stored result, marked as cached; else the fresh result.
pub fn openai_request(cached: Option<OpenAIReturn>, fresh: OpenAIReturn) -> (r: OpenAIReturn)
    ensures
        match cached {
            Some(c) => r.response == c.response && r.error == c.error && r.usage == (OpenAIUsage {
                cached: true,
                ..c.usage
            }),
            None => r == fresh,
        },
{
    match cached {
        Some(c) => OpenAIReturn {
            response: c.response,
            usage: OpenAIUsage {
                prompt_tokens: c.usage.prompt_tokens,
                completion_tokens: c.usage.completion_tokens,
                total_tokens: c.usage.total_tokens,
                cached: true,
            },
            error: c.error,
        },
        None => fresh,
    }
}

/// The json response from OpenAI.
#[derive(Debug)]
pub struct JsonResponse {
    /// The content returned.
    pub content: Vec<String>,
    /// The js script for the browser.
    pub js: String,
    /// The AI failed to parse the data.
    pub error: Option<String>,
}

impl Default for JsonResponse {
    fn default() -> (r: Self)
        ensures
            r.content@.len() == 0,
            r.js@.len() == 0,
            r.error is None,
    {
        JsonResponse { content: Vec::new(), js: String::new(), error: None }
    }
}

/// Whether a page is handed to the model at all: a model is named and the
/// page has content.
pub fn should_request(model: &str, ok: bool) -> (r: bool)
    ensures
        r == (model@.len() > 0 && ok),
{
    !model.is_empty() && ok
}

/// Extract to JsonResponse struct: the model's answer as a structured
/// response. Where data was asked for, `parsed` is the answer read as JSON,
/// and an answer that cannot be read gives a response that says so; else the
/// whole answer is the script.
pub fn handle_ai_data(extra_ai_data: bool, answer: String, parsed: Option<JsonResponse>) -> (r:
    JsonResponse)
    ensures
        match (extra_ai_data, parsed) {
            (true, Some(p)) => r == p,
            (true, None) => r.content@.len() == 0 && r.js@.len() == 0 && (r.error matches Some(e)
                && e@ == "An issue occured with serialization."@),
            (false, _) => r.content@.len() == 0 && r.js == answer && r.error is None,
        },
{
    if extra_ai_data {
        match parsed {
            Some(p) => p,
            None => JsonResponse {
                content: Vec::new(),
                js: String::new(),
                error: Some("An issue occured with serialization.".to_owned()),
            },
        }
    } else {
        JsonResponse { content: Vec::new(), js: answer, error: None }
    }
}

/// The function that runs a script in the page and hands back the markup.
pub open spec fn wrapped(js: Seq<char>) -> Seq<char> {
    "async function() { "@ + js + "; return document.documentElement.outerHTML; }"@
}

/// Wrap a script for the page, or `None` where there is no script to run.
pub fn wrap_script(js: &str) -> (r: Option<String>)
    ensures
        match r {
            Some(f) => js@.len() > 0 && f@ == wrapped(js@),
            None => js@.len() == 0,
        },
{
    if js.is_empty() {
        None
    } else {
        let mut f = joined("async function() { ", js);
        f.append("; return document.documentElement.outerHTML; }");
        Some(f)
    }
}

/// A script of at most 400 bytes that touches `window.location` moves the
/// page: its content is captured anew.
pub open spec fn moves_page(js: &str) -> bool {
    js.len() <= 400 && occurs_in("window.location"@, js@)
}

/// Whether the content is captured anew after a script.
pub fn needs_recapture(js: &str) -> (r: bool)
    ensures
        r == moves_page(js),
{
    js.len() <= 400 && str_contains(js, "window.location")
}

/// The content of the page after a script ran: unchanged where the script
/// gave no markup; the new capture where the script moved the page and the
/// capture worked; else the markup that the script gave.
pub fn content_after_script(
    current: Option<Vec<u8>>,
    js: &str,
    evaluated: Option<Vec<u8>>,
    recaptured: Option<Vec<u8>>,
) -> (r: Option<Vec<u8>>)
    ensures
        r == (match evaluated {
            None => current,
            Some(html) => if moves_page(js) {
                match recaptured {
                    Some(b) => Some(b),
                    None => current,
                }
            } else {
                Some(html)
            },
        }),
{
    match evaluated {
        None => current,
        Some(html) => {
            if needs_recapture(js) {
                match recaptured {
                    Some(b) => Some(b),
                    None => current,
                }
            } else {
                Some(html)
            }
        },
    }
}

/// Whether a screenshot is taken for the model's result: data was asked for,
/// screenshots are on, and a script ran.
pub fn wants_screenshot(configs: &GPTConfigs, js: &str) -> (r: bool)
    ensures
        r == (configs.extra_ai_data && configs.screenshot && js@.len() > 0),
{
    configs.extra_ai_data && configs.screenshot && !js.is_empty()
}

/// The quality of the screenshot that goes with the model's result.
pub const AI_SCREENSHOT_QUALITY: i64 = 45;

/// Handle the OpenAI credits used: the usage is added to the page's record.
pub fn handle_openai_credits(page_response: &mut PageResponse, tokens_used: OpenAIUsage)
    ensures
        final(page_response).openai_credits_used matches Some(v) && v@ == (match old(
            page_response,
        ).openai_credits_used {
            Some(before) => before@.push(tokens_used),
            None => seq![tokens_used],
        }),
        final(page_response).content == old(page_response).content,
        final(page_response).headers == old(page_response).headers,
        final(page_response).status_code == old(page_response).status_code,
        final(page_response).final_url == old(page_response).final_url,
        final(page_response).error_for_status == old(page_response).error_for_status,
        final(page_response).screenshot_bytes == old(page_response).screenshot_bytes,
        final(page_response).extra_ai_data == old(page_response).extra_ai_data,
{
    let mut used = match page_response.openai_credits_used.take() {
        Some(v) => v,
        None => Vec::new(),
    };
    used.push(tokens_used);
    page_response.openai_credits_used = Some(used);
}

/// The items of a response's content, each without its leading white space.
pub open spec fn trimmed(content: Seq<String>) -> Seq<Seq<char>> {
    content.map_values(|c: String| without_leading_space(c@))
}

fn trim_all(content: &Vec<String>) -> (r: Vec<String>)
    ensures
        texts(r@) == trimmed(content@),
{
    let mut out: Vec<String> = Vec::new();
    let mut i: usize = 0;
    while i < content.len()
        invariant
            i <= content@.len(),
            out@.len() == i,
            forall|k: int| 0 <= k < i ==> out@[k]@ == without_leading_space(content@[k]@),
        decreases content@.len() - i,
    {
        out.push(trim_start(content[i].as_str()).to_owned());
        i = i + 1;
    }
    assert(texts(out@) =~= trimmed(content@));
    out
}

/// What is kept of the model's answer to a prompt.
pub fn ai_result(
    prompt: &str,
    x: JsonResponse,
    screenshot_output: Option<Vec<u8>>,
    error: Option<String>,
) -> (r: AIResults)
    ensures
        r.input@ == prompt@,
        r.js_output == x.js,
        texts(r.content_output@) == trimmed(x.content@),
        r.screenshot_output == screenshot_output,
        r.error == error,
{
    let content_output = trim_all(&x.content);
    AIResults { input: prompt.to_owned(), js_output: x.js, content_output, screenshot_output, error }
}

/// Handle extra OpenAI data used: the model's result for a prompt is added to
/// the page's record.
pub fn handle_extra_ai_data(
    page_response: &mut PageResponse,
    prompt: &str,
    x: JsonResponse,
    screenshot_output: Option<Vec<u8>>,
    error: Option<String>,
)
    ensures
        final(page_response).extra_ai_data matches Some(v) && v@.len() == (match old(
            page_response,
        ).extra_ai_data {
            Some(before) => before@.len() + 1,
            None => 1,
        }) && ({
            let added = v@.last();
            &&& added.input@ == prompt@
            &&& added.js_output == x.js
            &&& texts(added.content_output@) == trimmed(x.content@)
            &&& added.screenshot_output == screenshot_output
            &&& added.error == error
        }) && (match old(page_response).extra_ai_data {
            Some(before) => v@.drop_last() == before@,
            None => true,
        }),
        final(page_response).content == old(page_response).content,
        final(page_response).headers == old(page_response).headers,
        final(page_response).status_code == old(page_response).status_code,
        final(page_response).final_url == old(page_response).final_url,
        final(page_response).error_for_status == old(page_response).error_for_status,
        final(page_response).screenshot_bytes == old(page_response).screenshot_bytes,
        final(page_response).openai_credits_used == old(page_response).openai_credits_used,
{
    let result = ai_result(prompt, x, screenshot_output, error);
    let mut results = match page_response.extra_ai_data.take() {
        Some(v) => v,
        None => Vec::new(),
    };
    let ghost before = results@;
    results.push(result);
    assert(results@.drop_last() =~= before);
    page_response.extra_ai_data = Some(results);
}

/// What is done for one prompt, before the model is asked.
pub struct PromptPlan {
    /// Whether the model is asked; where it is not, its answer is empty.
    pub ask: bool,
    /// Whether the answer is read as structured data.
    pub json_mode: bool,
}

/// Use OpenAI to extend the crawl: the plan for each prompt of the page's
/// configuration, in order; none where the page has no configuration.
pub fn run_openai_request(source: &str, openai_config: &Option<GPTConfigs>, ok: bool) -> (plans:
    Vec<PromptPlan>)
    ensures
        match *openai_config {
            None => plans@.len() == 0,
            Some(c) => match selected(c, source@) {
                None => plans@.len() == 0,
                Some(s) => plans@.len() == s.prompt@.len() && forall|i: int|
                    0 <= i < plans@.len() ==> (#[trigger] plans@[i]).ask == (s.model@.len() > 0
                        && ok) && plans@[i].json_mode == s.extra_ai_data,
            },
        },
{
    let mut plans: Vec<PromptPlan> = Vec::new();
    match openai_config {
        None => {},
        Some(c) => {
            match select_configs(c, source) {
                None => {},
                Some(s) => {
                    let ask = should_request(s.model.as_str(), ok);
                    let mut i: usize = 0;
                    while i < s.prompt.len()
                        invariant
                            i <= s.prompt@.len(),
                            plans@.len() == i,
                            ask == (s.model@.len() > 0 && ok),
                            forall|k: int|
                                0 <= k < i ==> (#[trigger] plans@[k]).ask == ask
                                    && plans@[k].json_mode == s.extra_ai_data,
                        decreases s.prompt@.len() - i,
                    {
                        plans.push(PromptPlan { ask, json_mode: s.extra_ai_data });
                        i = i + 1;
                    }
                },
            }
        },
    }
    plans
}

} // verus!
