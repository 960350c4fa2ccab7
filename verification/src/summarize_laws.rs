//! Which summarizer a name stands for, what it is asked, and what its answer says.
use vstd::prelude::*;
use vstd::string::*;

use crate::compose;
use crate::config::ProvidersSettingsView;
use crate::json;
use crate::json::Node;
use crate::json_laws;
use crate::monitor;
use crate::registry::RegistrationView;
use crate::scan;
use crate::scan_laws;
use crate::summarize;
use crate::summarize::{BackendView, CallView, ContentMode, ServiceView, SpecView};
use crate::text;

verus! {

broadcast use json_laws::group_members;

/// A text without blanks at its ends, or another where nothing is left.
pub open spec fn model_or(s: Seq<char>, otherwise: Seq<char>) -> Seq<char> {
    if text::trimmed(s).len() > 0 {
        text::trimmed(s)
    } else {
        otherwise
    }
}

proof fn lemma_lower(s: Seq<char>)
    requires
        forall|i: int| 0 <= i < s.len() ==> !('A' <= #[trigger] s[i] <= 'Z'),
    ensures
        scan::lowered(s) == s,
{
    assert(scan::lowered(s) =~= s);
}

proof fn lemma_words()
    ensures
        scan::lowered("raw"@) == "raw"@,
        scan::lowered("openrouter"@) == "openrouter"@,
        scan::lowered("openai"@) == "openai"@,
        scan::lowered("openai-compatible"@) == "openai-compatible"@,
        scan::lowered("gemini"@) == "gemini"@,
        "raw"@ != "openrouter"@,
        "raw"@ != "openai"@,
        "raw"@ != "openai-compatible"@,
        "raw"@ != "gemini"@,
        "openrouter"@ != "openai"@,
        "openrouter"@ != "openai-compatible"@,
        "openrouter"@ != "gemini"@,
        "openai"@ != "openai-compatible"@,
        "openai"@ != "gemini"@,
        "openai-compatible"@ != "gemini"@,
{
    reveal_strlit("raw");
    reveal_strlit("openrouter");
    reveal_strlit("openai");
    reveal_strlit("openai-compatible");
    reveal_strlit("gemini");
    assert("raw"@.len() == 3);
    assert("openrouter"@.len() == 10);
    assert("openai"@.len() == 6);
    assert("openai"@[0] == 'o');
    assert("openai-compatible"@.len() == 17);
    assert("gemini"@.len() == 6);
    assert("gemini"@[0] == 'g');
    lemma_lower("raw"@);
    lemma_lower("openrouter"@);
    lemma_lower("openai"@);
    lemma_lower("openai-compatible"@);
    lemma_lower("gemini"@);
}

/// The name of a summarizer alone, in any case of letters, stands for it with its usual model;
/// and no name at all for the first of them.
pub proof fn law_summarizer_by_its_name(summarizer: Seq<char>)
    ensures
        ({
            let word = scan::lowered(text::trimmed(summarizer));
            let r = summarize::spec_of(summarizer);
            &&& word == "raw"@ ==> r == Ok::<SpecView, Seq<char>>(SpecView::Raw)
            &&& word == "openrouter"@ ==> r == Ok::<SpecView, Seq<char>>(
                SpecView::OpenRouter { model: "openai/gpt-4o-mini"@ },
            )
            &&& (word == "openai"@ || word == "openai-compatible"@) ==> r == Ok::<
                SpecView,
                Seq<char>,
            >(SpecView::OpenAiCompatible { model: "gpt-4o-mini"@ })
            &&& (word == "gemini"@ || word.len() == 0) ==> r == Ok::<SpecView, Seq<char>>(
                SpecView::Gemini { model: "gemini-2.5-flash"@ },
            )
        }),
{
    lemma_words();
    let name = text::trimmed(summarizer);
    let word = scan::lowered(name);
    reveal_strlit("openrouter:");
    assert("openrouter:"@.len() == 11);
    assert("openrouter:"@[10] == ':');
    assert("openrouter:"@[4] == 'r');
    reveal_strlit("raw");
    reveal_strlit("openrouter");
    reveal_strlit("openai");
    reveal_strlit("openai-compatible");
    reveal_strlit("gemini");
    assert("raw"@.len() == 3);
    assert("openrouter"@.len() == 10);
    assert("openai"@.len() == 6);
    assert("openai"@[0] == 'o');
    assert("openai-compatible"@.len() == 17);
    assert("gemini"@.len() == 6);
    assert("gemini"@[0] == 'g');
    if text::begins_with(name, "openrouter:"@) {
        assert(name.subrange(0, 11)[10] == ':');
        assert(name.subrange(0, 11)[4] == 'r');
        assert(name[10] == ':' && name[4] == 'r');
        assert(word[10] == ':' && word[4] == 'r');
        assert("openai-compatible"@[4] == 'a');
    }
}

proof fn lemma_prefix(prefix: Seq<char>, model: Seq<char>, at: int)
    requires
        0 <= at < prefix.len(),
    ensures
        text::begins_with(prefix + model, prefix),
        text::after_prefix(prefix + model, prefix) == Some(model),
        (prefix + model)[at] == prefix[at],
        scan::lowered(prefix + model).len() >= prefix.len(),
        !('A' <= prefix[at] <= 'Z') ==> scan::lowered(prefix + model)[at] == prefix[at],
{
    scan_laws::law_ends_of_a_text(prefix + model, prefix, model);
}

/// A name with a model behind it stands for the summarizer with that model, or with its usual
/// one where the model is blank.
pub proof fn law_summarizer_with_a_model(summarizer: Seq<char>, model: Seq<char>)
    ensures
        ({
            let name = text::trimmed(summarizer);
            let r = summarize::spec_of(summarizer);
            &&& name == "openrouter:"@ + model ==> r == Ok::<SpecView, Seq<char>>(
                SpecView::OpenRouter { model: model_or(model, "openai/gpt-4o-mini"@) },
            )
            &&& name == "openai:"@ + model ==> r == Ok::<SpecView, Seq<char>>(
                SpecView::OpenAiCompatible { model: model_or(model, "gpt-4o-mini"@) },
            )
            &&& name == "openai-compatible:"@ + model ==> r == Ok::<SpecView, Seq<char>>(
                SpecView::OpenAiCompatible { model: model_or(model, "gpt-4o-mini"@) },
            )
            &&& name == "gemini:"@ + model ==> r == Ok::<SpecView, Seq<char>>(
                SpecView::Gemini { model: model_or(model, "gemini-2.5-flash"@) },
            )
        }),
{
    lemma_words();
    let name = text::trimmed(summarizer);
    reveal_strlit("raw");
    reveal_strlit("openrouter");
    reveal_strlit("openai");
    reveal_strlit("openai-compatible");
    reveal_strlit("gemini");
    reveal_strlit("openrouter:");
    reveal_strlit("openai:");
    reveal_strlit("openai-compatible:");
    reveal_strlit("gemini:");
    assert("raw"@.len() == 3);
    assert("openrouter"@.len() == 10);
    assert("openai"@.len() == 6);
    assert("openai"@[0] == 'o');
    assert("openai-compatible"@.len() == 17);
    assert("gemini"@.len() == 6);
    assert("gemini"@[0] == 'g');
    assert("openrouter:"@.len() == 11);
    assert("openai:"@.len() == 7);
    assert("openai:"@[0] == 'o');
    assert("openai-compatible:"@.len() == 18);
    assert("gemini:"@.len() == 7);
    assert("gemini:"@[0] == 'g');
    assert("raw"@[0] == 'r');
    assert("openrouter"@[0] == 'o');
    assert("openrouter"@[4] == 'r');
    assert("openrouter"@[6] == 'u');
    assert("openai"@[0] == 'o');
    assert("openai"@[4] == 'a');
    assert("openai-compatible"@[0] == 'o');
    assert("openai-compatible"@[4] == 'a');
    assert("openai-compatible"@[6] == '-');
    assert("openai-compatible"@[10] == 'p');
    assert("gemini"@[0] == 'g');
    assert("gemini"@[4] == 'n');
    assert("openrouter:"@[0] == 'o');
    assert("openrouter:"@[4] == 'r');
    assert("openrouter:"@[6] == 'u');
    assert("openrouter:"@[10] == ':');
    assert("openai:"@[0] == 'o');
    assert("openai:"@[4] == 'a');
    assert("openai:"@[6] == ':');
    assert("openai-compatible:"@[0] == 'o');
    assert("openai-compatible:"@[4] == 'a');
    assert("openai-compatible:"@[6] == '-');
    assert("openai-compatible:"@[10] == 'p');
    assert("gemini:"@[0] == 'g');
    assert("gemini:"@[4] == 'n');
    assert("gemini:"@[6] == ':');
    if name == "openrouter:"@ + model {
        lemma_prefix("openrouter:"@, model, 0);
        lemma_prefix("openrouter:"@, model, 4);
        lemma_prefix("openrouter:"@, model, 6);
        lemma_prefix("openrouter:"@, model, 10);
        if text::begins_with(name, "openai:"@) {
            assert("openrouter:"@[4] == 'r');
            assert("openai:"@[4] == 'a');
            assert(name.subrange(0, 7)[4] == "openai:"@[4]);
            assert(name[4] == "openrouter:"@[4]);
        }
        if text::begins_with(name, "openai-compatible:"@) {
            assert("openrouter:"@[4] == 'r');
            assert("openai-compatible:"@[4] == 'a');
            assert(name.subrange(0, 18)[4] == "openai-compatible:"@[4]);
            assert(name[4] == "openrouter:"@[4]);
        }
        if text::begins_with(name, "gemini:"@) {
            assert("openrouter:"@[0] == 'o');
            assert("gemini:"@[0] == 'g');
            assert(name.subrange(0, 7)[0] == "gemini:"@[0]);
            assert(name[0] == "openrouter:"@[0]);
        }
    }
    if name == "openai:"@ + model {
        lemma_prefix("openai:"@, model, 0);
        lemma_prefix("openai:"@, model, 4);
        lemma_prefix("openai:"@, model, 6);
        if text::begins_with(name, "openrouter:"@) {
            assert("openai:"@[4] == 'a');
            assert("openrouter:"@[4] == 'r');
            assert(name.subrange(0, 11)[4] == "openrouter:"@[4]);
            assert(name[4] == "openai:"@[4]);
        }
        if text::begins_with(name, "openai-compatible:"@) {
            assert("openai:"@[6] == ':');
            assert("openai-compatible:"@[6] == '-');
            assert(name.subrange(0, 18)[6] == "openai-compatible:"@[6]);
            assert(name[6] == "openai:"@[6]);
        }
        if text::begins_with(name, "gemini:"@) {
            assert("openai:"@[0] == 'o');
            assert("gemini:"@[0] == 'g');
            assert(name.subrange(0, 7)[0] == "gemini:"@[0]);
            assert(name[0] == "openai:"@[0]);
        }
    }
    if name == "openai-compatible:"@ + model {
        lemma_prefix("openai-compatible:"@, model, 0);
        lemma_prefix("openai-compatible:"@, model, 4);
        lemma_prefix("openai-compatible:"@, model, 6);
        lemma_prefix("openai-compatible:"@, model, 10);
        if text::begins_with(name, "openrouter:"@) {
            assert("openai-compatible:"@[4] == 'a');
            assert("openrouter:"@[4] == 'r');
            assert(name.subrange(0, 11)[4] == "openrouter:"@[4]);
            assert(name[4] == "openai-compatible:"@[4]);
        }
        if text::begins_with(name, "openai:"@) {
            assert("openai-compatible:"@[6] == '-');
            assert("openai:"@[6] == ':');
            assert(name.subrange(0, 7)[6] == "openai:"@[6]);
            assert(name[6] == "openai-compatible:"@[6]);
        }
        if text::begins_with(name, "gemini:"@) {
            assert("openai-compatible:"@[0] == 'o');
            assert("gemini:"@[0] == 'g');
            assert(name.subrange(0, 7)[0] == "gemini:"@[0]);
            assert(name[0] == "openai-compatible:"@[0]);
        }
    }
    if name == "gemini:"@ + model {
        lemma_prefix("gemini:"@, model, 0);
        lemma_prefix("gemini:"@, model, 4);
        lemma_prefix("gemini:"@, model, 6);
        if text::begins_with(name, "openrouter:"@) {
            assert("gemini:"@[0] == 'g');
            assert("openrouter:"@[0] == 'o');
            assert(name.subrange(0, 11)[0] == "openrouter:"@[0]);
            assert(name[0] == "gemini:"@[0]);
        }
        if text::begins_with(name, "openai:"@) {
            assert("gemini:"@[0] == 'g');
            assert("openai:"@[0] == 'o');
            assert(name.subrange(0, 7)[0] == "openai:"@[0]);
            assert(name[0] == "gemini:"@[0]);
        }
        if text::begins_with(name, "openai-compatible:"@) {
            assert("gemini:"@[0] == 'g');
            assert("openai-compatible:"@[0] == 'o');
            assert(name.subrange(0, 18)[0] == "openai-compatible:"@[0]);
            assert(name[0] == "gemini:"@[0]);
        }
    }
}

/// Any other name is refused.
pub proof fn law_other_summarizer_is_refused(summarizer: Seq<char>)
    requires
        text::trimmed(summarizer).len() > 0,
        scan::lowered(text::trimmed(summarizer)) != "raw"@,
        scan::lowered(text::trimmed(summarizer)) != "openrouter"@,
        scan::lowered(text::trimmed(summarizer)) != "openai"@,
        scan::lowered(text::trimmed(summarizer)) != "openai-compatible"@,
        scan::lowered(text::trimmed(summarizer)) != "gemini"@,
        !text::begins_with(text::trimmed(summarizer), "openrouter:"@),
        !text::begins_with(text::trimmed(summarizer), "openai:"@),
        !text::begins_with(text::trimmed(summarizer), "openai-compatible:"@),
        !text::begins_with(text::trimmed(summarizer), "gemini:"@),
    ensures
        summarize::spec_of(summarizer) == Err::<SpecView, Seq<char>>(
            "unsupported summarizer backend '"@ + text::trimmed(summarizer) + "'"@,
        ),
{
    lemma_words();
}

/// A setting that is not blank.
pub open spec fn set(o: Option<Seq<char>>) -> Option<Seq<char>> {
    match o {
        Some(s) => if text::trimmed(s).len() > 0 {
            Some(s)
        } else {
            None
        },
        None => None,
    }
}

/// The first of two settings that is there.
pub open spec fn first_of(a: Option<Seq<char>>, b: Option<Seq<char>>) -> Option<Seq<char>> {
    if a is Some {
        a
    } else {
        b
    }
}

/// An address without the slashes at its end.
pub proof fn law_slashes_at_the_end_do_not_count(url: Seq<char>, n: nat)
    requires
        url.len() > 0,
        url.last() != '/',
    ensures
        monitor::without_endings(url + Seq::new(n, |i: int| '/'), "/"@) == url,
    decreases n,
{
    reveal_strlit("/");
    assert("/"@ =~= seq!['/']);
    let s = url + Seq::new(n, |i: int| '/');
    if n == 0 {
        assert(s =~= url);
        if text::finishes_with(url, "/"@) {
            assert(url.subrange(url.len() - 1, url.len() as int)[0] == '/');
        }
    } else {
        assert(s.subrange(s.len() - 1, s.len() as int) =~= "/"@);
        assert(s.take(s.len() - 1) =~= url + Seq::new((n - 1) as nat, |i: int| '/'));
        law_slashes_at_the_end_do_not_count(url, (n - 1) as nat);
    }
}

/// A summarizer of a service needs a key, from the configuration or else from the environment,
/// and goes to the address of the service; the one whose address can be set goes there.
pub proof fn law_what_a_summarizer_needs(
    summarizer: Seq<char>,
    providers: ProvidersSettingsView,
    env: ServiceView,
)
    ensures
        ({
            let r = summarize::backend_of(summarizer, providers, env);
            match summarize::spec_of(summarizer) {
                Err(e) => r == Err::<BackendView, Seq<char>>(e),
                Ok(SpecView::Raw) => r == Ok::<BackendView, Seq<char>>(BackendView::Raw),
                Ok(SpecView::Gemini { model }) => r == Ok::<BackendView, Seq<char>>(
                    BackendView::Gemini { model },
                ),
                Ok(SpecView::OpenRouter { model }) => match first_of(
                    set(providers.openrouter.api_key),
                    env.openrouter_api_key,
                ) {
                    Some(api_key) => r == Ok::<BackendView, Seq<char>>(
                        BackendView::OpenAi {
                            backend_name: "openrouter"@,
                            base_url: "https://openrouter.ai/api/v1"@,
                            api_key,
                            model,
                        },
                    ),
                    None => r == Err::<BackendView, Seq<char>>(
                        "OPENROUTER_API_KEY"@ + " is required for "@ + "openrouter"@
                            + " summarizer; set it via [providers."@ + "openrouter"@
                            + "].api_key in config.toml or as an environment variable"@,
                    ),
                },
                Ok(SpecView::OpenAiCompatible { model }) => match first_of(
                    set(providers.openai.api_key),
                    env.openai_api_key,
                ) {
                    Some(api_key) => r == Ok::<BackendView, Seq<char>>(
                        BackendView::OpenAi {
                            backend_name: "openai-compatible"@,
                            base_url: match first_of(
                                set(providers.openai.base_url),
                                set(env.openai_base_url),
                            ) {
                                Some(url) => monitor::without_endings(url, "/"@),
                                None => "https://api.openai.com/v1"@,
                            },
                            api_key,
                            model,
                        },
                    ),
                    None => r == Err::<BackendView, Seq<char>>(
                        "OPENAI_API_KEY"@ + " is required for "@ + "openai"@
                            + " summarizer; set it via [providers."@ + "openai"@
                            + "].api_key in config.toml or as an environment variable"@,
                    ),
                },
            }
        }),
{
    reveal_strlit("https://openrouter.ai/api/v1");
    reveal_strlit("https://api.openai.com/v1");
    let a = "https://openrouter.ai/api/v1"@;
    let b = "https://api.openai.com/v1"@;
    assert(a.len() == 28 && a[27] == '1');
    assert(b.len() == 25 && b[24] == '1');
    law_slashes_at_the_end_do_not_count(a, 0);
    law_slashes_at_the_end_do_not_count(b, 0);
    assert(a + Seq::new(0, |i: int| '/') =~= a);
    assert(b + Seq::new(0, |i: int| '/') =~= b);
}

/// What is shown of an output is as much of its end as fits: one character more would not.
pub proof fn law_as_much_as_fits_is_shown(s: Seq<char>, limit: nat)
    requires
        summarize::size(s) > limit,
    ensures
        ({
            let shown = summarize::end_within(s, limit);
            &&& shown.len() < s.len()
            &&& summarize::size(s.skip(s.len() - shown.len() - 1)) > limit
        }),
    decreases s.len(),
{
    if s.len() > 0 {
        let rest = s.skip(1);
        if summarize::size(rest) > limit {
            law_as_much_as_fits_is_shown(rest, limit);
            let shown = summarize::end_within(rest, limit);
            assert(rest.skip(rest.len() - shown.len() - 1) =~= s.skip(
                s.len() - shown.len() - 1,
            ));
        } else {
            assert(summarize::end_within(rest, limit) == rest);
            assert(s.skip(0) =~= s);
        }
    } else {
        assert(s =~= Seq::empty());
        summarize::law_summarized_end_fits(s, limit);
    }
}

/// What a summarizer is asked: the plain one nothing, as it shows the end of the output; the
/// one of the command line with its instructions and the session with the end of its output;
/// and a service by a request of two messages that say the same.
pub proof fn law_summarizer_is_asked(
    backend: BackendView,
    content: Seq<char>,
    session: Seq<char>,
    assistant: Seq<char>,
)
    ensures
        ({
            let end = summarize::end_within(content, 4000);
            let told = summarize::system_prompt(assistant);
            let shown = "Session: "@ + session + "\n\n"@ + end;
            match (backend, summarize::call_for(backend, content, session, assistant)) {
                (BackendView::Raw, CallView::Ready(s)) => {
                    &&& s.summary == end
                    &&& s.raw_truncated == end
                    &&& s.backend == "raw"@
                    &&& s.content_mode == ContentMode::Raw
                },
                (BackendView::Gemini { model }, CallView::Gemini { model: asked, prompt }) => {
                    asked == model && prompt == told + "\n\n"@ + shown
                },
                (
                    BackendView::OpenAi { backend_name: _, base_url, api_key, model },
                    CallView::Post { url, api_key: key, body },
                ) => {
                    &&& url == base_url + "/chat/completions"@
                    &&& key == api_key
                    &&& json::member(body, "model"@) == Some(Node::Text(model))
                    &&& match json::member(body, "messages"@) {
                        Some(Node::List(messages)) => {
                            &&& messages.len() == 2
                            &&& json::member(messages[0], "role"@) == Some(Node::Text("system"@))
                            &&& json::member(messages[0], "content"@) == Some(Node::Text(told))
                            &&& json::member(messages[1], "role"@) == Some(Node::Text("user"@))
                            &&& json::member(messages[1], "content"@) == Some(Node::Text(shown))
                        },
                        _ => false,
                    }
                },
                _ => false,
            }
        }),
{
    reveal_strlit("model");
    reveal_strlit("messages");
    reveal_strlit("temperature");
    reveal_strlit("role");
    reveal_strlit("content");
    assert("model"@.len() == 5);
    assert("messages"@.len() == 8);
    assert("temperature"@.len() == 11);
    assert("role"@.len() == 4);
    assert("content"@.len() == 7);
}

/// The texts of the parts of an answer that say something.
pub open spec fn texts_in(parts: Seq<Node>) -> Seq<Seq<char>> {
    parts.filter(|part: Node| json::field(part, "text"@) is Some).map_values(
        |part: Node| json::field(part, "text"@)->0,
    )
}

proof fn lemma_texts_in(parts: Seq<Node>)
    ensures
        summarize::part_texts(parts) == texts_in(parts),
    decreases parts.len(),
{
    reveal(Seq::filter);
    let says = |part: Node| json::field(part, "text"@) is Some;
    if parts.len() > 0 {
        let front = parts.drop_last();
        lemma_texts_in(front);
        if says(parts.last()) {
            assert(parts.filter(says) == front.filter(says).push(parts.last()));
            assert(texts_in(parts) =~= texts_in(front).push(
                json::field(parts.last(), "text"@)->0,
            ));
        } else {
            assert(parts.filter(says) == front.filter(says));
        }
    } else {
        assert(summarize::part_texts(parts) =~= texts_in(parts));
    }
}

/// The answer of a service is the content of the message of its first choice: a text, or the
/// texts of its parts, one below the other. A blank one is none.
pub proof fn law_answer_of_a_service(
    node: Node,
    choices: Seq<Node>,
    said: Node,
    content: Node,
)
    requires
        json::member(node, "choices"@) == Some(Node::List(choices)),
        choices.len() > 0,
        json::member(choices[0], "message"@) == Some(said),
        json::member(said, "content"@) == Some(content),
    ensures
        match content {
            Node::Text(s) => summarize::answer_text(node) == (if text::trimmed(s).len() > 0 {
                Some(text::trimmed(s))
            } else {
                None
            }),
            Node::List(parts) => summarize::answer_text(node) == set(
                Some(compose::joined(texts_in(parts), "\n"@)),
            ),
            _ => summarize::answer_text(node) is None,
        },
{
    match content {
        Node::List(parts) => lemma_texts_in(parts),
        _ => {},
    }
}

/// A summary says what was answered, the end of the output and who answered; its event goes
/// where the session's events go and says the same.
pub proof fn law_event_of_a_summary(
    r: RegistrationView,
    session: Seq<char>,
    pane: Seq<char>,
    answer: Seq<char>,
    content: Seq<char>,
    backend: Seq<char>,
)
    ensures
        ({
            let s = summarize::summarized(answer, content, backend);
            let e = summarize::content_event(r, session, pane, s);
            &&& e.kind == "tmux.content_changed"@
            &&& e.channel == r.channel
            &&& e.mention == r.mention
            &&& e.format == r.format
            &&& e.template is None
            &&& json::member(e.payload, "session"@) == Some(Node::Text(session))
            &&& json::member(e.payload, "pane"@) == Some(Node::Text(pane))
            &&& json::member(e.payload, "summary"@) == Some(Node::Text(answer))
            &&& json::member(e.payload, "raw_truncated"@) == Some(
                Node::Text(summarize::end_within(content, 4000)),
            )
            &&& json::member(e.payload, "backend"@) == Some(Node::Text(backend))
            &&& json::member(e.payload, "content_mode"@) == Some(Node::Text("summary"@))
        }),
{
    reveal_strlit("session");
    reveal_strlit("pane");
    reveal_strlit("summary");
    reveal_strlit("raw_truncated");
    reveal_strlit("backend");
    reveal_strlit("content_mode");
    assert("session"@.len() == 7);
    assert("session"@[0] == 's');
    assert("session"@[1] == 'e');
    assert("pane"@.len() == 4);
    assert("summary"@.len() == 7);
    assert("summary"@[0] == 's');
    assert("summary"@[1] == 'u');
    assert("raw_truncated"@.len() == 13);
    assert("backend"@.len() == 7);
    assert("backend"@[0] == 'b');
    assert("content_mode"@.len() == 12);
}

} // verus!
