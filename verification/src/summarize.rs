//! Summaries of what happens in terminal sessions.
use vstd::prelude::*;
use vstd::string::*;

use crate::codec;
use crate::codec::parse_json;
use crate::compose;
use crate::compose::{cat2, cat3, cat4, cat5, join};
use crate::config::{ProvidersConfig, ProvidersSettingsView};
use crate::events::{EventView, IncomingEvent};
use crate::json;
use crate::json::{Json, Node};
use crate::monitor;
use crate::monitor::trim_endings;
use crate::registry::{RegisteredTmuxSession, RegistrationView};
use crate::scan;
use crate::scan::same_ignoring_case;
use crate::text;
use crate::text::{copy_opt, is_blank, strip_prefix, trim};

verus! {

broadcast use {crate::json::group_trees, crate::text::views_push};

/// The model of Gemini where none is named.
pub const DEFAULT_GEMINI_MODEL: &'static str = "gemini-2.5-flash";

/// The model of OpenRouter where none is named.
pub const DEFAULT_OPENROUTER_MODEL: &'static str = "openai/gpt-4o-mini";

/// The model of OpenAI where none is named.
pub const DEFAULT_OPENAI_MODEL: &'static str = "gpt-4o-mini";

/// Where OpenAI is asked where nothing else is said.
pub const DEFAULT_OPENAI_BASE_URL: &'static str = "https://api.openai.com/v1";

/// Where OpenRouter is asked.
pub const OPENROUTER_BASE_URL: &'static str = "https://openrouter.ai/api/v1";

/// The seconds after which a service has not answered.
pub const HTTP_TIMEOUT_SECS: u64 = 30;

/// The bytes of an output that are summarized.
pub const MAX_INPUT_BYTES: usize = 4000;

/// Whether a content is a summary or stands as it is.
#[derive(Debug, Clone, Copy, PartialEq, Eq, Structural)]
pub enum ContentMode {
    Summary,
    Raw,
}

/// The label of a mode.
pub open spec fn mode_label(mode: ContentMode) -> Seq<char> {
    match mode {
        ContentMode::Summary => "summary"@,
        ContentMode::Raw => "raw"@,
    }
}

impl ContentMode {
    /// The label of this mode.
    pub fn as_str(&self) -> (r: &'static str)
        ensures
            r@ == mode_label(*self),
    {
        match self {
            ContentMode::Summary => "summary",
            ContentMode::Raw => "raw",
        }
    }
}

/// A content that was summarized.
#[derive(Debug, PartialEq, Eq)]
pub struct SummarizedContent {
    pub summary: String,
    pub raw_truncated: String,
    pub backend: String,
    pub content_mode: ContentMode,
}

/// A content that was summarized.
pub struct SummaryView {
    pub summary: Seq<char>,
    pub raw_truncated: Seq<char>,
    pub backend: Seq<char>,
    pub content_mode: ContentMode,
}

impl View for SummarizedContent {
    type V = SummaryView;

    open spec fn view(&self) -> SummaryView {
        SummaryView {
            summary: self.summary@,
            raw_truncated: self.raw_truncated@,
            backend: self.backend@,
            content_mode: self.content_mode,
        }
    }
}

// ---------------------------------------------------------------------------
// Names of summarizers
// ---------------------------------------------------------------------------

/// A summarizer, by its name.
#[derive(Debug, PartialEq, Eq)]
pub enum SummarizerSpec {
    Gemini { model: String },
    OpenRouter { model: String },
    OpenAiCompatible { model: String },
    Raw,
}

/// A summarizer, by its name.
pub enum SpecView {
    Gemini { model: Seq<char> },
    OpenRouter { model: Seq<char> },
    OpenAiCompatible { model: Seq<char> },
    Raw,
}

impl View for SummarizerSpec {
    type V = SpecView;

    open spec fn view(&self) -> SpecView {
        match self {
            SummarizerSpec::Gemini { model } => SpecView::Gemini { model: model@ },
            SummarizerSpec::OpenRouter { model } => SpecView::OpenRouter { model: model@ },
            SummarizerSpec::OpenAiCompatible { model } => SpecView::OpenAiCompatible {
                model: model@,
            },
            SummarizerSpec::Raw => SpecView::Raw,
        }
    }
}

/// Two texts are equal but for the case of letters.
pub open spec fn alike(a: Seq<char>, b: Seq<char>) -> bool {
    scan::lowered(a) == scan::lowered(b)
}

/// A text without the blanks around it, or another where it is blank.
pub open spec fn or_default(value: Seq<char>, default: Seq<char>) -> Seq<char> {
    match text::meaningful(value) {
        Some(s) => s,
        None => default,
    }
}

fn default_if_empty(value: &str, default: &str) -> (r: String)
    ensures
        r@ == or_default(value@, default@),
{
    let trimmed = trim(value);
    if trimmed.is_empty() {
        default.to_owned()
    } else {
        trimmed.to_owned()
    }
}

/// The summarizer that a name stands for.
pub open spec fn spec_of(summarizer: Seq<char>) -> Result<SpecView, Seq<char>> {
    let name = text::trimmed(summarizer);
    if alike(name, "raw"@) {
        Ok(SpecView::Raw)
    } else if alike(name, "openrouter"@) {
        Ok(SpecView::OpenRouter { model: DEFAULT_OPENROUTER_MODEL@ })
    } else if text::after_prefix(name, "openrouter:"@) is Some {
        Ok(
            SpecView::OpenRouter {
                model: or_default(
                    text::after_prefix(name, "openrouter:"@)->0,
                    DEFAULT_OPENROUTER_MODEL@,
                ),
            },
        )
    } else if alike(name, "openai"@) || alike(name, "openai-compatible"@) {
        Ok(SpecView::OpenAiCompatible { model: DEFAULT_OPENAI_MODEL@ })
    } else if name.len() == 0 || alike(name, "gemini"@) {
        Ok(SpecView::Gemini { model: DEFAULT_GEMINI_MODEL@ })
    } else {
        match text::or_else(
            text::after_prefix(name, "openai:"@),
            text::after_prefix(name, "openai-compatible:"@),
        ) {
            Some(model) => Ok(
                SpecView::OpenAiCompatible { model: or_default(model, DEFAULT_OPENAI_MODEL@) },
            ),
            None => match text::after_prefix(name, "gemini:"@) {
                Some(model) => Ok(
                    SpecView::Gemini { model: or_default(model, DEFAULT_GEMINI_MODEL@) },
                ),
                None => Err("unsupported summarizer backend '"@ + name + "'"@),
            },
        }
    }
}

/// A summarizer or an error, as they are.
pub open spec fn spec_result(r: Result<SummarizerSpec, String>) -> Result<SpecView, Seq<char>> {
    match r {
        Ok(spec_value) => Ok(spec_value@),
        Err(e) => Err(e@),
    }
}

/// The summarizer that a name stands for.
pub fn parse_summarizer_spec(summarizer: &str) -> (r: Result<SummarizerSpec, String>)
    ensures
        spec_result(r) == spec_of(summarizer@),
{
    let trimmed = trim(summarizer);
    if same_ignoring_case(trimmed, "raw") {
        return Ok(SummarizerSpec::Raw);
    }
    if same_ignoring_case(trimmed, "openrouter") {
        return Ok(SummarizerSpec::OpenRouter { model: DEFAULT_OPENROUTER_MODEL.to_owned() });
    }
    match strip_prefix(trimmed, "openrouter:") {
        Some(model) => {
            return Ok(
                SummarizerSpec::OpenRouter {
                    model: default_if_empty(model, DEFAULT_OPENROUTER_MODEL),
                },
            );
        },
        None => {},
    }
    if same_ignoring_case(trimmed, "openai") || same_ignoring_case(trimmed, "openai-compatible") {
        return Ok(SummarizerSpec::OpenAiCompatible { model: DEFAULT_OPENAI_MODEL.to_owned() });
    }
    if trimmed.is_empty() || same_ignoring_case(trimmed, "gemini") {
        return Ok(SummarizerSpec::Gemini { model: DEFAULT_GEMINI_MODEL.to_owned() });
    }
    let named = match strip_prefix(trimmed, "openai:") {
        Some(model) => Some(model),
        None => strip_prefix(trimmed, "openai-compatible:"),
    };
    match named {
        Some(model) => {
            return Ok(
                SummarizerSpec::OpenAiCompatible {
                    model: default_if_empty(model, DEFAULT_OPENAI_MODEL),
                },
            );
        },
        None => {},
    }
    match strip_prefix(trimmed, "gemini:") {
        Some(model) => Ok(
            SummarizerSpec::Gemini { model: default_if_empty(model, DEFAULT_GEMINI_MODEL) },
        ),
        None => Err(cat3("unsupported summarizer backend '", trimmed, "'")),
    }
}

// ---------------------------------------------------------------------------
// What is summarized
// ---------------------------------------------------------------------------

/// The bytes that a text takes.
pub open spec fn size(s: Seq<char>) -> nat {
    vstd::utf8::encode_utf8(s).len()
}

/// The end of a text: as many characters as take a number of bytes at most.
pub open spec fn end_within(s: Seq<char>, limit: nat) -> Seq<char>
    decreases s.len(),
{
    if size(s) <= limit || s.len() == 0 {
        s
    } else {
        end_within(s.skip(1), limit)
    }
}

proof fn lemma_size_of_first(s: Seq<char>)
    requires
        s.len() > 0,
    ensures
        size(s.skip(1)) < size(s) <= size(s.skip(1)) + 4,
{
    assert(s.skip(1) =~= s.drop_first());
}

proof fn lemma_drop_some(s: Seq<char>, limit: nat, k: nat)
    requires
        k <= s.len(),
        size(s) > limit,
        4 * k <= size(s) - limit,
    ensures
        end_within(s, limit) == end_within(s.skip(k as int), limit),
    decreases k,
{
    if k == 0 {
        assert(s.skip(0) =~= s);
    } else {
        lemma_size_of_first(s);
        let rest = s.skip(1);
        assert(rest.skip(k - 1) =~= s.skip(k as int));
        if k > 1 {
            lemma_drop_some(rest, limit, (k - 1) as nat);
        } else {
            assert(rest.skip(0) =~= rest);
        }
    }
}

/// The end of an output that is summarized.
pub fn truncate_for_summarizer(content: &str) -> (r: &str)
    ensures
        r@ == end_within(content@, MAX_INPUT_BYTES as nat),
{
    let mut rest = content;
    let mut bytes: usize = rest.as_bytes().len();
    while bytes > MAX_INPUT_BYTES
        invariant
            bytes == size(rest@),
            end_within(content@, MAX_INPUT_BYTES as nat) == end_within(
                rest@,
                MAX_INPUT_BYTES as nat,
            ),
        decreases bytes,
    {
        let chars = rest.unicode_len();
        proof {
            lemma_size_bounds(rest@);
        }
        let quarter: usize = (bytes - MAX_INPUT_BYTES) / 4;
        if quarter == 0 {
            proof {
                lemma_size_of_first(rest@);
            }
            assert(rest@.subrange(1, chars as int) =~= rest@.skip(1));
            rest = rest.substring_char(1, chars);
        } else {
            proof {
                lemma_drop_some(rest@, MAX_INPUT_BYTES as nat, quarter as nat);
                lemma_size_falls(rest@, quarter as nat);
            }
            assert(rest@.subrange(quarter as int, chars as int) =~= rest@.skip(quarter as int));
            rest = rest.substring_char(quarter, chars);
        }
        bytes = rest.as_bytes().len();
    }
    rest
}

proof fn lemma_size_bounds(s: Seq<char>)
    ensures
        s.len() <= size(s) <= 4 * s.len(),
    decreases s.len(),
{
    if s.len() > 0 {
        lemma_size_of_first(s);
        lemma_size_bounds(s.skip(1));
    }
}

proof fn lemma_size_falls(s: Seq<char>, k: nat)
    requires
        0 < k <= s.len(),
    ensures
        size(s.skip(k as int)) < size(s),
    decreases k,
{
    lemma_size_of_first(s);
    if k > 1 {
        lemma_size_falls(s.skip(1), (k - 1) as nat);
        assert(s.skip(1).skip(k - 1) =~= s.skip(k as int));
    }
}

/// What a model is told to do.
pub open spec fn system_prompt(assistant: Seq<char>) -> Seq<char> {
    "You summarize tmux session output for developer monitoring. Focus on what the agent is doing, any errors encountered, and current status. Keep it concise (2-5 sentences).\n\n"@ + "IMPORTANT: If the terminal output indicates the session is waiting for user input — for example: a [Y/n] confirmation prompt, 'Press enter to continue', 'Allow, Deny, Always allow' tool approval ("@ + assistant + " style), 'continue?', 'proceed?', 'overwrite?', an interactive menu asking for a choice, or a shell/REPL prompt awaiting a command — begin your response with exactly this line:\nSTATUS: WAITING_FOR_INPUT\n\n"@ + "Otherwise do not include a STATUS line. Respond in plain text."@
}

/// What a model is told to do. `assistant` is the one whose way of asking stands for
/// others.
pub fn summarize_system_prompt(assistant: &str) -> (r: String)
    ensures
        r@ == system_prompt(assistant@),
{
    cat5(
        "You summarize tmux session output for developer monitoring. Focus on what the agent is doing, any errors encountered, and current status. Keep it concise (2-5 sentences).\n\n",
        "IMPORTANT: If the terminal output indicates the session is waiting for user input — for example: a [Y/n] confirmation prompt, 'Press enter to continue', 'Allow, Deny, Always allow' tool approval (",
        assistant,
        " style), 'continue?', 'proceed?', 'overwrite?', an interactive menu asking for a choice, or a shell/REPL prompt awaiting a command — begin your response with exactly this line:\nSTATUS: WAITING_FOR_INPUT\n\n",
        "Otherwise do not include a STATUS line. Respond in plain text.",
    )
}

/// What a model is shown.
pub open spec fn user_prompt(session: Seq<char>, content: Seq<char>) -> Seq<char> {
    "Session: "@ + session + "\n\n"@ + end_within(content, MAX_INPUT_BYTES as nat)
}

/// What a model is shown.
pub fn summarize_user_prompt(session: &str, content: &str) -> (r: String)
    ensures
        r@ == user_prompt(session@, content@),
{
    cat4("Session: ", session, "\n\n", truncate_for_summarizer(content))
}

// ---------------------------------------------------------------------------
// Summarizers
// ---------------------------------------------------------------------------

/// A summarizer of the content of terminal sessions.
pub trait Summarizer {
    /// The name under which its summaries are reported.
    spec fn label(&self) -> Seq<char>;

    /// The name under which its summaries are reported.
    fn name(&self) -> (r: &str)
        ensures
            r@ == self.label(),
    ;
}

/// Gemini on the command line.
#[derive(Debug)]
pub struct GeminiCli {
    pub model: String,
}

impl Summarizer for GeminiCli {
    open spec fn label(&self) -> Seq<char> {
        "gemini-cli"@
    }

    fn name(&self) -> (r: &str) {
        "gemini-cli"
    }
}

/// The content as it stands.
#[derive(Debug)]
pub struct RawPassthroughSummarizer;

impl Summarizer for RawPassthroughSummarizer {
    open spec fn label(&self) -> Seq<char> {
        "raw"@
    }

    fn name(&self) -> (r: &str) {
        "raw"
    }
}

/// A service that is asked as OpenAI is.
#[derive(Debug)]
pub struct OpenAiCompatibleSummarizer {
    pub backend_name: String,
    pub base_url: String,
    pub api_key: String,
    pub model: String,
}

impl Summarizer for OpenAiCompatibleSummarizer {
    open spec fn label(&self) -> Seq<char> {
        self.backend_name@
    }

    fn name(&self) -> (r: &str) {
        self.backend_name.as_str()
    }
}

/// One of the summarizers.
#[derive(Debug)]
pub enum Backend {
    Gemini(GeminiCli),
    OpenAi(OpenAiCompatibleSummarizer),
    Raw(RawPassthroughSummarizer),
}

/// One of the summarizers.
pub enum BackendView {
    Gemini { model: Seq<char> },
    OpenAi {
        backend_name: Seq<char>,
        base_url: Seq<char>,
        api_key: Seq<char>,
        model: Seq<char>,
    },
    Raw,
}

impl View for Backend {
    type V = BackendView;

    open spec fn view(&self) -> BackendView {
        match self {
            Backend::Gemini(one) => BackendView::Gemini { model: one.model@ },
            Backend::OpenAi(one) => BackendView::OpenAi {
                backend_name: one.backend_name@,
                base_url: one.base_url@,
                api_key: one.api_key@,
                model: one.model@,
            },
            Backend::Raw(_) => BackendView::Raw,
        }
    }
}

impl Summarizer for Backend {
    open spec fn label(&self) -> Seq<char> {
        match self {
            Backend::Gemini(one) => one.label(),
            Backend::OpenAi(one) => one.label(),
            Backend::Raw(one) => one.label(),
        }
    }

    fn name(&self) -> (r: &str) {
        match self {
            Backend::Gemini(one) => one.name(),
            Backend::OpenAi(one) => one.name(),
            Backend::Raw(one) => one.name(),
        }
    }
}

/// What the environment says of the services.
#[derive(Debug)]
pub struct ServiceEnv {
    pub openrouter_api_key: Option<String>,
    pub openai_api_key: Option<String>,
    pub openai_base_url: Option<String>,
}

/// What the environment says of the services.
pub struct ServiceView {
    pub openrouter_api_key: Option<Seq<char>>,
    pub openai_api_key: Option<Seq<char>>,
    pub openai_base_url: Option<Seq<char>>,
}

impl View for ServiceEnv {
    type V = ServiceView;

    open spec fn view(&self) -> ServiceView {
        ServiceView {
            openrouter_api_key: text::opt_text(self.openrouter_api_key),
            openai_api_key: text::opt_text(self.openai_api_key),
            openai_base_url: text::opt_text(self.openai_base_url),
        }
    }
}

/// A text that is not blank, as it stands.
pub open spec fn if_not_blank(o: Option<Seq<char>>) -> Option<Seq<char>> {
    match o {
        Some(s) => if text::blank(s) {
            None
        } else {
            Some(s)
        },
        None => None,
    }
}

fn unless_blank(o: &Option<String>) -> (r: Option<String>)
    ensures
        text::opt_text(r) == if_not_blank(text::opt_text(*o)),
{
    match o {
        Some(s) => if is_blank(s.as_str()) {
            None
        } else {
            Some(s.clone())
        },
        None => None,
    }
}

/// The key of a service: that of the configuration where it is not blank, and else
/// that of the environment.
pub open spec fn key_of(
    config_key: Option<Seq<char>>,
    env_key: Option<Seq<char>>,
    env_var: Seq<char>,
    backend: Seq<char>,
) -> Result<Seq<char>, Seq<char>> {
    match text::or_else(if_not_blank(config_key), env_key) {
        Some(key) => Ok(key),
        None => Err(
            env_var + " is required for "@ + backend
                + " summarizer; set it via [providers."@ + backend
                + "].api_key in config.toml or as an environment variable"@,
        ),
    }
}

fn resolve_key(
    config_key: &Option<String>,
    env_key: &Option<String>,
    env_var: &str,
    backend: &str,
) -> (r: Result<String, String>)
    ensures
        text::text_result(r) == key_of(
            text::opt_text(*config_key),
            text::opt_text(*env_key),
            env_var@,
            backend@,
        ),
{
    match unless_blank(config_key) {
        Some(key) => Ok(key),
        None => match env_key {
            Some(key) => Ok(key.clone()),
            None => Err(
                compose::cat6(
                    env_var,
                    " is required for ",
                    backend,
                    " summarizer; set it via [providers.",
                    backend,
                    "].api_key in config.toml or as an environment variable",
                ),
            ),
        },
    }
}

/// The summarizer that a name stands for, with what it needs.
pub open spec fn backend_of(
    summarizer: Seq<char>,
    providers: ProvidersSettingsView,
    env: ServiceView,
) -> Result<BackendView, Seq<char>> {
    match spec_of(summarizer) {
        Err(e) => Err(e),
        Ok(named) => match named {
            SpecView::Gemini { model } => Ok(BackendView::Gemini { model }),
            SpecView::OpenRouter { model } => match key_of(
                providers.openrouter.api_key,
                env.openrouter_api_key,
                "OPENROUTER_API_KEY"@,
                "openrouter"@,
            ) {
                Err(e) => Err(e),
                Ok(api_key) => Ok(
                    BackendView::OpenAi {
                        backend_name: "openrouter"@,
                        base_url: monitor::without_endings(OPENROUTER_BASE_URL@, "/"@),
                        api_key,
                        model,
                    },
                ),
            },
            SpecView::OpenAiCompatible { model } => match key_of(
                providers.openai.api_key,
                env.openai_api_key,
                "OPENAI_API_KEY"@,
                "openai"@,
            ) {
                Err(e) => Err(e),
                Ok(api_key) => Ok(
                    BackendView::OpenAi {
                        backend_name: "openai-compatible"@,
                        base_url: monitor::without_endings(
                            match text::or_else(
                                if_not_blank(providers.openai.base_url),
                                if_not_blank(env.openai_base_url),
                            ) {
                                Some(url) => url,
                                None => DEFAULT_OPENAI_BASE_URL@,
                            },
                            "/"@,
                        ),
                        api_key,
                        model,
                    },
                ),
            },
            SpecView::Raw => Ok(BackendView::Raw),
        },
    }
}

/// A summarizer or an error, as they are.
pub open spec fn backend_result(r: Result<Backend, String>) -> Result<BackendView, Seq<char>> {
    match r {
        Ok(backend) => Ok(backend@),
        Err(e) => Err(e@),
    }
}

/// The summarizer that a name stands for, with what it needs.
pub fn build_summarizer(summarizer: &str, providers: &ProvidersConfig, env: &ServiceEnv) -> (r: Result<
    Backend,
    String,
>)
    ensures
        backend_result(r) == backend_of(summarizer@, providers@, env@),
{
    match parse_summarizer_spec(summarizer) {
        Err(e) => Err(e),
        Ok(SummarizerSpec::Gemini { model }) => Ok(Backend::Gemini(GeminiCli { model })),
        Ok(SummarizerSpec::OpenRouter { model }) => match resolve_key(
            &providers.openrouter.api_key,
            &env.openrouter_api_key,
            "OPENROUTER_API_KEY",
            "openrouter",
        ) {
            Err(e) => Err(e),
            Ok(api_key) => Ok(
                Backend::OpenAi(
                    OpenAiCompatibleSummarizer {
                        backend_name: "openrouter".to_owned(),
                        base_url: trim_endings(OPENROUTER_BASE_URL, "/").to_owned(),
                        api_key,
                        model,
                    },
                ),
            ),
        },
        Ok(SummarizerSpec::OpenAiCompatible { model }) => match resolve_key(
            &providers.openai.api_key,
            &env.openai_api_key,
            "OPENAI_API_KEY",
            "openai",
        ) {
            Err(e) => Err(e),
            Ok(api_key) => {
                let url = match unless_blank(&providers.openai.base_url) {
                    Some(url) => url,
                    None => match unless_blank(&env.openai_base_url) {
                        Some(url) => url,
                        None => DEFAULT_OPENAI_BASE_URL.to_owned(),
                    },
                };
                Ok(
                    Backend::OpenAi(
                        OpenAiCompatibleSummarizer {
                            backend_name: "openai-compatible".to_owned(),
                            base_url: trim_endings(url.as_str(), "/").to_owned(),
                            api_key,
                            model,
                        },
                    ),
                )
            },
        },
        Ok(SummarizerSpec::Raw) => Ok(Backend::Raw(RawPassthroughSummarizer)),
    }
}

// ---------------------------------------------------------------------------
// Asking and being answered
// ---------------------------------------------------------------------------

/// A message of a conversation with a model.
pub open spec fn message(role: Seq<char>, content: Seq<char>) -> Node {
    json::empty().with_text("role"@, role).with_text("content"@, content)
}

/// The request that asks a service for a summary. The temperature is the number
/// that its notation stands for.
pub open spec fn chat_request(
    model: Seq<char>,
    session: Seq<char>,
    content: Seq<char>,
    assistant: Seq<char>,
) -> Node {
    let request = json::empty().with_text("model"@, model).with(
        "messages"@,
        Node::List(
            seq![
                message("system"@, system_prompt(assistant)),
                message("user"@, user_prompt(session, content)),
            ],
        ),
    );
    match codec::read_text("0.2"@) {
        Ok(temperature) => request.with("temperature"@, temperature),
        Err(_) => request,
    }
}

fn make_message(role: &str, content: &str) -> (r: Json)
    ensures
        r@ == message(role@, content@),
{
    Json::object().with_text("role", role).with_text("content", content)
}

/// The request that asks a service for a summary.
pub fn openai_chat_request(model: &str, session: &str, content: &str, assistant: &str) -> (r: Json)
    ensures
        r@ == chat_request(model@, session@, content@, assistant@),
{
    let mut messages: Vec<Json> = Vec::new();
    messages.push(make_message("system", summarize_system_prompt(assistant).as_str()));
    messages.push(make_message("user", summarize_user_prompt(session, content).as_str()));
    assert(json::nodes(messages@) =~= seq![
        message("system"@, system_prompt(assistant@)),
        message("user"@, user_prompt(session@, content@)),
    ]);
    let request = Json::object().with_text("model", model).with("messages", Json::List(messages));
    match parse_json("0.2") {
        Ok(temperature) => request.with("temperature", temperature),
        Err(_) => request,
    }
}

/// The first item of a list, or what an object has under that index.
pub open spec fn first_item(node: Node) -> Option<Node> {
    match node {
        Node::List(items) => if items.len() > 0 {
            Some(items[0])
        } else {
            None
        },
        Node::Object(_) => json::member(node, "0"@),
        _ => None,
    }
}

/// The content of the first choice of an answer.
pub open spec fn choice_content(node: Node) -> Option<Node> {
    match json::member(node, "choices"@) {
        None => None,
        Some(choices) => match first_item(choices) {
            None => None,
            Some(choice) => match json::member(choice, "message"@) {
                None => None,
                Some(said) => json::member(said, "content"@),
            },
        },
    }
}

/// The texts of some parts, those that are blank left out.
pub open spec fn part_texts(parts: Seq<Node>) -> Seq<Seq<char>>
    decreases parts.len(),
{
    if parts.len() == 0 {
        Seq::empty()
    } else {
        match json::field(parts.last(), "text"@) {
            Some(s) => part_texts(parts.drop_last()).push(s),
            None => part_texts(parts.drop_last()),
        }
    }
}

/// The text of an answer.
pub open spec fn answer_text(node: Node) -> Option<Seq<char>> {
    match choice_content(node) {
        Some(Node::Text(s)) => text::meaningful(s),
        Some(Node::List(parts)) => if_not_blank(Some(compose::joined(part_texts(parts), "\n"@))),
        _ => None,
    }
}

fn find_content(value: &Json) -> (r: Option<&Json>)
    ensures
        json::opt_node(r) == choice_content(value@),
{
    let choice = match value.get("choices") {
        None => {
            return None;
        },
        Some(Json::List(items)) => {
            if items.len() == 0 {
                return None;
            }
            assert(json::nodes(items@)[0] == items@[0]@);
            &items[0]
        },
        Some(Json::Object(entries)) => match crate::table::find_entry(entries, "0") {
            Some(choice) => choice,
            None => {
                return None;
            },
        },
        Some(_) => {
            return None;
        },
    };
    match choice.get("message") {
        Some(said) => said.get("content"),
        None => None,
    }
}

/// The text of an answer.
pub fn extract_openai_response_text(value: &Json) -> (r: Option<String>)
    ensures
        text::opt_text(r) == answer_text(value@),
{
    match find_content(value) {
        Some(Json::Text(s)) => {
            let trimmed = trim(s.as_str());
            if trimmed.is_empty() {
                None
            } else {
                Some(trimmed.to_owned())
            }
        },
        Some(Json::List(parts)) => {
            let ghost all = json::nodes(parts@);
            let mut texts: Vec<String> = Vec::new();
            assert(text::views(texts@) =~= Seq::<Seq<char>>::empty());
            let mut i: usize = 0;
            while i < parts.len()
                invariant
                    i <= parts.len(),
                    all == json::nodes(parts@),
                    text::views(texts@) == part_texts(all.take(i as int)),
                decreases parts.len() - i,
            {
                assert(all.take(i + 1).drop_last() =~= all.take(i as int));
                assert(all.take(i + 1).last() == parts@[i as int]@);
                match parts[i].field("text") {
                    Some(s) => texts.push(s),
                    None => {},
                }
                i = i + 1;
            }
            assert(all.take(i as int) =~= all);
            let joined = join(&texts, "\n");
            if is_blank(joined.as_str()) {
                None
            } else {
                Some(joined)
            }
        },
        _ => None,
    }
}

/// What has to be done for a summary.
#[derive(Debug)]
pub enum SummaryCall {
    /// The content stands as it is.
    Ready(SummarizedContent),
    /// Gemini is asked on the command line.
    Gemini { model: String, prompt: String },
    /// A service is asked.
    Post { url: String, api_key: String, body: Json },
}

/// What has to be done for a summary.
pub enum CallView {
    Ready(SummaryView),
    Gemini { model: Seq<char>, prompt: Seq<char> },
    Post { url: Seq<char>, api_key: Seq<char>, body: Node },
}

impl View for SummaryCall {
    type V = CallView;

    open spec fn view(&self) -> CallView {
        match self {
            SummaryCall::Ready(content) => CallView::Ready(content@),
            SummaryCall::Gemini { model, prompt } => CallView::Gemini {
                model: model@,
                prompt: prompt@,
            },
            SummaryCall::Post { url, api_key, body } => CallView::Post {
                url: url@,
                api_key: api_key@,
                body: body@,
            },
        }
    }
}

/// What a summarizer does with a content.
pub open spec fn call_for(
    backend: BackendView,
    content: Seq<char>,
    session: Seq<char>,
    assistant: Seq<char>,
) -> CallView {
    match backend {
        BackendView::Raw => {
            let end = end_within(content, MAX_INPUT_BYTES as nat);
            CallView::Ready(
                SummaryView {
                    summary: end,
                    raw_truncated: end,
                    backend: "raw"@,
                    content_mode: ContentMode::Raw,
                },
            )
        },
        BackendView::Gemini { model } => CallView::Gemini {
            model,
            prompt: system_prompt(assistant) + "\n\n"@ + user_prompt(session, content),
        },
        BackendView::OpenAi { backend_name: _, base_url, api_key, model } => CallView::Post {
            url: base_url + "/chat/completions"@,
            api_key,
            body: chat_request(model, session, content, assistant),
        },
    }
}

/// A summary of a content.
pub open spec fn summarized(summary: Seq<char>, content: Seq<char>, backend: Seq<char>) -> SummaryView {
    SummaryView {
        summary,
        raw_truncated: end_within(content, MAX_INPUT_BYTES as nat),
        backend,
        content_mode: ContentMode::Summary,
    }
}

/// A summary or an error, as they are.
pub open spec fn summary_result(r: Result<SummarizedContent, String>) -> Result<
    SummaryView,
    Seq<char>,
> {
    match r {
        Ok(content) => Ok(content@),
        Err(e) => Err(e@),
    }
}

impl Backend {
    /// What this summarizer does with a content.
    pub fn call(&self, content: &str, session: &str, assistant: &str) -> (r: SummaryCall)
        ensures
            r@ == call_for(self@, content@, session@, assistant@),
    {
        match self {
            Backend::Raw(_) => {
                let end = truncate_for_summarizer(content);
                SummaryCall::Ready(
                    SummarizedContent {
                        summary: end.to_owned(),
                        raw_truncated: end.to_owned(),
                        backend: "raw".to_owned(),
                        content_mode: ContentMode::Raw,
                    },
                )
            },
            Backend::Gemini(one) => {
                let user = summarize_user_prompt(session, content);
                SummaryCall::Gemini {
                    model: one.model.clone(),
                    prompt: cat3(
                        summarize_system_prompt(assistant).as_str(),
                        "\n\n",
                        user.as_str(),
                    ),
                }
            },
            Backend::OpenAi(one) => SummaryCall::Post {
                url: cat2(one.base_url.as_str(), "/chat/completions"),
                api_key: one.api_key.clone(),
                body: openai_chat_request(one.model.as_str(), session, content, assistant),
            },
        }
    }
}

/// The summary that Gemini printed on the command line. `status` is how it ended.
pub fn gemini_summary(
    content: &str,
    success: bool,
    status: &str,
    stdout: &str,
    stderr: &str,
) -> (r: Result<SummarizedContent, String>)
    ensures
        summary_result(r) == (if !success {
            Err(
                "gemini CLI exited with status "@ + status@ + ": "@ + text::trimmed(stderr@),
            )
        } else {
            match text::meaningful(stdout@) {
                Some(summary) => Ok(summarized(summary, content@, "gemini-cli"@)),
                None => Err("gemini returned an empty summary"@),
            }
        }),
{
    if !success {
        return Err(cat4("gemini CLI exited with status ", status, ": ", trim(stderr)));
    }
    let summary = trim(stdout);
    if summary.is_empty() {
        return Err("gemini returned an empty summary".to_owned());
    }
    Ok(
        SummarizedContent {
            summary: summary.to_owned(),
            raw_truncated: truncate_for_summarizer(content).to_owned(),
            backend: "gemini-cli".to_owned(),
            content_mode: ContentMode::Summary,
        },
    )
}

/// Why a service gave no summary: the status and the body of its answer.
pub fn failed_summary(backend: &OpenAiCompatibleSummarizer, status: &str, body: &str) -> (r: String)
    ensures
        r@ == backend.backend_name@ + " API request failed with "@ + status@ + ": "@ + body@,
{
    cat5(backend.backend_name.as_str(), " API request failed with ", status, ": ", body)
}

/// The summary in the answer of a service.
pub fn answered_summary(backend: &OpenAiCompatibleSummarizer, content: &str, answer: &Json) -> (r: Result<
    SummarizedContent,
    String,
>)
    ensures
        summary_result(r) == (match answer_text(answer@) {
            Some(summary) => Ok(summarized(summary, content@, backend.backend_name@)),
            None => Err(backend.backend_name@ + " API returned no summary text"@),
        }),
{
    match extract_openai_response_text(answer) {
        Some(summary) => Ok(
            SummarizedContent {
                summary,
                raw_truncated: truncate_for_summarizer(content).to_owned(),
                backend: backend.backend_name.clone(),
                content_mode: ContentMode::Summary,
            },
        ),
        None => Err(cat2(backend.backend_name.as_str(), " API returned no summary text")),
    }
}

// ---------------------------------------------------------------------------
// The event of a summary
// ---------------------------------------------------------------------------

/// The event of a content that was summarized.
pub open spec fn content_event(
    r: RegistrationView,
    session: Seq<char>,
    pane: Seq<char>,
    content: SummaryView,
) -> EventView {
    EventView {
        kind: "tmux.content_changed"@,
        channel: r.channel,
        mention: r.mention,
        format: r.format,
        template: None,
        payload: json::empty().with_text("session"@, session).with_text("pane"@, pane).with_text(
            "summary"@,
            content.summary,
        ).with_text("raw_truncated"@, content.raw_truncated).with_text(
            "backend"@,
            content.backend,
        ).with_text("content_mode"@, mode_label(content.content_mode)),
    }
}

/// The event of a content that was summarized.
pub fn tmux_content_changed_event(
    registration: &RegisteredTmuxSession,
    session: String,
    pane: String,
    content: SummarizedContent,
) -> (r: IncomingEvent)
    ensures
        r@ == content_event(registration@, session@, pane@, content@),
{
    let mode = content.content_mode.as_str().to_owned();
    IncomingEvent::tmux_content_changed_with_metadata(
        session,
        pane,
        content.summary,
        content.raw_truncated,
        content.backend,
        mode,
        copy_opt(&registration.channel),
    ).with_mention(copy_opt(&registration.mention)).with_format(registration.format)
}

// ---------------------------------------------------------------------------
// Laws
// ---------------------------------------------------------------------------

/// What is summarized takes no more bytes than are allowed, ends as the output
/// does, and is all of it where that fits.
pub proof fn law_summarized_end_fits(s: Seq<char>, limit: nat)
    ensures
        size(end_within(s, limit)) <= limit,
        end_within(s, limit).len() <= s.len(),
        end_within(s, limit) == s.skip(s.len() - end_within(s, limit).len()),
        size(s) <= limit ==> end_within(s, limit) == s,
    decreases s.len(),
{
    if s.len() == 0 {
        assert(size(s) == 0);
        assert(s.skip(0) =~= s);
    } else if size(s) <= limit {
        assert(s.skip(0) =~= s);
    } else {
        let rest = s.skip(1);
        law_summarized_end_fits(rest, limit);
        let end = end_within(rest, limit);
        assert(rest.skip(rest.len() - end.len()) =~= s.skip(s.len() - end.len()));
    }
}

/// The name of a summarizer that stands as it is names it in any case of letters.
pub proof fn law_name_of_raw_ignores_case(name: Seq<char>)
    requires
        alike(text::trimmed(name), "raw"@),
    ensures
        spec_of(name) == Ok::<SpecView, Seq<char>>(SpecView::Raw),
{
}

} // verus!
