//! What the dialogue about the configuration changes.
use vstd::prelude::*;
use vstd::string::*;

use crate::config::AppSettingsView;
use crate::editor;
use crate::editor::EditorChoice;
use crate::events;
use crate::text;

verus! {

/// The digits from one to seven stand for the choices; anything else for none.
pub proof fn law_digits_of_choices(line: Seq<char>)
    ensures
        ({
            let typed = text::trimmed(text::trim_right(line));
            &&& (typed == "1"@ <==> editor::choice_of(line) is BotToken)
            &&& (typed == "2"@ <==> editor::choice_of(line) is BaseUrl)
            &&& (typed == "3"@ <==> editor::choice_of(line) is DefaultChannel)
            &&& (typed == "4"@ <==> editor::choice_of(line) is DefaultFormat)
            &&& (typed == "5"@ <==> editor::choice_of(line) is Save)
            &&& (typed == "6"@ <==> editor::choice_of(line) is Discard)
            &&& (typed == "7"@ <==> editor::choice_of(line) is Hint)
        }),
{
    reveal_strlit("1");
    reveal_strlit("2");
    reveal_strlit("3");
    reveal_strlit("4");
    reveal_strlit("5");
    reveal_strlit("6");
    reveal_strlit("7");
    assert("1"@.len() == 1);
    assert("1"@[0] == '1');
    assert("2"@.len() == 1);
    assert("2"@[0] == '2');
    assert("3"@.len() == 1);
    assert("3"@[0] == '3');
    assert("4"@.len() == 1);
    assert("4"@[0] == '4');
    assert("5"@.len() == 1);
    assert("5"@[0] == '5');
    assert("6"@.len() == 1);
    assert("6"@[0] == '6');
    assert("7"@.len() == 1);
    assert("7"@[0] == '7');
}

/// A setting without blanks at its ends; none where nothing is left.
pub open spec fn clean(s: Seq<char>) -> Option<Seq<char>> {
    if text::trimmed(s).len() > 0 {
        Some(text::trimmed(s))
    } else {
        None
    }
}

/// An answer sets what was asked for, and only that: the token, the address of the daemon, the
/// default channel, or the default format. A blank answer takes the token or the channel away
/// and leaves the format; a format that there is not is refused.
pub proof fn law_answer_sets_what_was_asked(c: AppSettingsView, line: Seq<char>)
    ensures
        ({
            let typed = text::trim_right(line);
            let r = editor::edited(c, EditorChoice::BotToken, line);
            r is Ok && r->Ok_0.providers.discord.bot_token == clean(typed)
                && r->Ok_0.providers.discord.legacy_default_channel
                == c.providers.discord.legacy_default_channel && r->Ok_0.providers.openai
                == c.providers.openai && r->Ok_0.defaults == c.defaults && r->Ok_0.daemon
                == c.daemon && r->Ok_0.discord == c.discord
        }),
        ({
            let r = editor::edited(c, EditorChoice::BaseUrl, line);
            r is Ok && r->Ok_0.daemon.base_url == text::trim_right(line) && r->Ok_0.daemon.port
                == c.daemon.port && r->Ok_0.daemon.bind_host == c.daemon.bind_host
                && r->Ok_0.defaults == c.defaults && r->Ok_0.providers == c.providers
                && r->Ok_0.discord == c.discord
        }),
        ({
            let r = editor::edited(c, EditorChoice::DefaultChannel, line);
            r is Ok && r->Ok_0.defaults.channel == clean(text::trim_right(line))
                && r->Ok_0.defaults.format == c.defaults.format && r->Ok_0.daemon == c.daemon
                && r->Ok_0.providers == c.providers && r->Ok_0.discord == c.discord
        }),
        ({
            let typed = text::trim_right(line);
            let r = editor::edited(c, EditorChoice::DefaultFormat, line);
            match clean(typed) {
                None => r == Ok::<AppSettingsView, Seq<char>>(c),
                Some(label) => match (events::format_of(label), r) {
                    (Ok(format), Ok(after)) => {
                        &&& after.defaults.format == format
                        &&& after.defaults.channel == c.defaults.channel
                        &&& after.daemon == c.daemon
                        &&& after.providers == c.providers
                        &&& after.discord == c.discord
                    },
                    (Err(e), Err(said)) => said == e,
                    _ => false,
                },
            }
        }),
{
}

/// What is asked names what it is about and what is set now.
pub proof fn law_what_is_asked(c: AppSettingsView)
    ensures
        editor::asked(c, EditorChoice::BotToken) == Some("Bot token"@),
        editor::asked(c, EditorChoice::BaseUrl) == Some(
            "Daemon base URL ["@ + c.daemon.base_url + "]"@,
        ),
        editor::asked(c, EditorChoice::DefaultChannel) == Some("Default channel"@),
        editor::asked(c, EditorChoice::DefaultFormat) == Some(
            "Format ["@ + events::label_of(c.defaults.format)
                + "] (compact/alert/inline/raw)"@,
        ),
        editor::asked(c, EditorChoice::Save) is None,
        editor::asked(c, EditorChoice::Discard) is None,
        editor::asked(c, EditorChoice::Hint) is None,
        editor::asked(c, EditorChoice::Unknown) is None,
{
}

} // verus!
