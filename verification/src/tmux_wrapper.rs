//! Terminal sessions that the program starts and watches itself.
use vstd::prelude::*;
use vstd::string::*;

use std::time::Duration;

use crate::cli::{TmuxNewArgs, TmuxWatchArgs, TmuxWrapperFormat};
use crate::compose;
use crate::compose::{cat3, join};
use crate::config;
use crate::config::AppConfig;
use crate::config_rules::copy_list;
use crate::events;
use crate::events::{EventView, IncomingEvent, MessageFormat};
use crate::monitor;
use crate::monitor::look_at_pane;
use crate::registry;
use crate::registry::{
    ParentProcessInfo, ParentView, RegisteredTmuxSession, RegistrationSource, RegistrationView,
};
use crate::router;
use crate::router::resolve_tmux_session_channel;
use crate::scan;
use crate::scan::replace;
use crate::table;
use crate::table::{remove_entry, set_entry};
use crate::text;
use crate::text::{chars_of, copy_opt, same, trim};
use crate::tmux;
use crate::tmux::{keep_keys, PaneView, Panes, SnapshotView, TmuxPaneSnapshot, TmuxPaneState};

verus! {

broadcast use crate::text::views_push;

// ---------------------------------------------------------------------------
// What is watched
// ---------------------------------------------------------------------------

/// What is watched in a session.
#[derive(Debug)]
pub struct TmuxMonitorArgs {
    pub session: String,
    pub channel: Option<String>,
    pub mention: Option<String>,
    pub keywords: Vec<String>,
    pub stale_minutes: u64,
    pub format: Option<TmuxWrapperFormat>,
}

/// What is watched in a session.
pub struct MonitorArgsView {
    pub session: Seq<char>,
    pub channel: Option<Seq<char>>,
    pub mention: Option<Seq<char>>,
    pub keywords: Seq<Seq<char>>,
    pub stale_minutes: u64,
    pub format: Option<TmuxWrapperFormat>,
}

impl View for TmuxMonitorArgs {
    type V = MonitorArgsView;

    open spec fn view(&self) -> MonitorArgsView {
        MonitorArgsView {
            session: self.session@,
            channel: text::opt_text(self.channel),
            mention: text::opt_text(self.mention),
            keywords: text::views(self.keywords@),
            stale_minutes: self.stale_minutes,
            format: self.format,
        }
    }
}

impl TmuxMonitorArgs {
    /// What is watched in a session that is there.
    pub fn from(value: &TmuxWatchArgs) -> (r: Self)
        ensures
            r@ == (MonitorArgsView {
                session: value.session@,
                channel: text::opt_text(value.channel),
                mention: text::opt_text(value.mention),
                keywords: text::views(value.keywords@),
                stale_minutes: value.stale_minutes,
                format: value.format,
            }),
    {
        TmuxMonitorArgs {
            session: value.session.clone(),
            channel: copy_opt(&value.channel),
            mention: copy_opt(&value.mention),
            keywords: copy_list(&value.keywords),
            stale_minutes: value.stale_minutes,
            format: value.format,
        }
    }

    /// The same, with the channel of the session's route or the default one where no
    /// channel is named.
    pub fn with_routed_channel(self, config: &AppConfig) -> (r: Self)
        ensures
            r@ == (MonitorArgsView {
                channel: text::or_else(
                    self@.channel,
                    router::session_channel(config@, self@.session, events::no_routing()),
                ),
                ..self@
            }),
    {
        let channel = match self.channel {
            Some(channel) => Some(channel),
            None => resolve_tmux_session_channel(config, self.session.as_str()),
        };
        TmuxMonitorArgs {
            session: self.session,
            channel,
            mention: self.mention,
            keywords: self.keywords,
            stale_minutes: self.stale_minutes,
            format: self.format,
        }
    }

    /// What is watched in a new session.
    pub fn from_new(value: &TmuxNewArgs) -> (r: Self)
        ensures
            r@ == (MonitorArgsView {
                session: value.session@,
                channel: text::opt_text(value.channel),
                mention: text::opt_text(value.mention),
                keywords: text::views(value.keywords@),
                stale_minutes: value.stale_minutes,
                format: value.format,
            }),
    {
        TmuxMonitorArgs {
            session: value.session.clone(),
            channel: copy_opt(&value.channel),
            mention: copy_opt(&value.mention),
            keywords: copy_list(&value.keywords),
            stale_minutes: value.stale_minutes,
            format: value.format,
        }
    }
}

/// The format of messages that a format on the command line stands for.
pub open spec fn message_format(format: Option<TmuxWrapperFormat>) -> Option<MessageFormat> {
    match format {
        Some(TmuxWrapperFormat::Compact) => Some(MessageFormat::Compact),
        Some(TmuxWrapperFormat::Alert) => Some(MessageFormat::Alert),
        Some(TmuxWrapperFormat::Inline) => Some(MessageFormat::Inline),
        None => None,
    }
}

fn to_message_format(format: Option<TmuxWrapperFormat>) -> (r: Option<MessageFormat>)
    ensures
        r == message_format(format),
{
    match format {
        Some(f) => Some(MessageFormat::from(f)),
        None => None,
    }
}

/// The registration of a session that the program watches itself.
pub open spec fn registered(
    args: MonitorArgsView,
    source: RegistrationSource,
    registered_at: Seq<char>,
    parent: Option<ParentView>,
) -> RegistrationView {
    RegistrationView {
        session: args.session,
        channel: args.channel,
        mention: args.mention,
        keywords: args.keywords,
        keyword_window_secs: 30,
        stale_minutes: args.stale_minutes,
        format: message_format(args.format),
        registered_at,
        registration_source: source,
        parent_process: parent,
        active_wrapper_monitor: true,
        ..registry::default_registration()
    }
}

/// The registration of a session that the program watches itself.
pub fn registration_for(
    args: &TmuxMonitorArgs,
    source: RegistrationSource,
    registered_at: String,
    parent: Option<ParentProcessInfo>,
) -> (r: RegisteredTmuxSession)
    ensures
        r@ == registered(args@, source, registered_at@, table::opt_owned(parent)),
{
    let mut r = RegisteredTmuxSession::default();
    r.session = args.session.clone();
    r.channel = copy_opt(&args.channel);
    r.mention = copy_opt(&args.mention);
    r.keywords = copy_list(&args.keywords);
    r.keyword_window_secs = 30;
    r.stale_minutes = args.stale_minutes;
    r.format = to_message_format(args.format);
    r.registered_at = registered_at;
    r.registration_source = source;
    r.parent_process = parent;
    r.active_wrapper_monitor = true;
    r
}

// ---------------------------------------------------------------------------
// A look at the panes
// ---------------------------------------------------------------------------

/// The keywords of a list without the blanks around them, those that are blank
/// left out.
pub open spec fn cleaned(keywords: Seq<Seq<char>>) -> Seq<Seq<char>>
    decreases keywords.len(),
{
    if keywords.len() == 0 {
        Seq::empty()
    } else {
        match text::meaningful(keywords.last()) {
            Some(keyword) => cleaned(keywords.drop_last()).push(keyword),
            None => cleaned(keywords.drop_last()),
        }
    }
}

fn clean_keywords(keywords: &Vec<String>) -> (r: Vec<String>)
    ensures
        text::views(r@) == cleaned(text::views(keywords@)),
{
    let ghost all = text::views(keywords@);
    let mut out: Vec<String> = Vec::new();
    assert(text::views(out@) =~= Seq::<Seq<char>>::empty());
    let mut i: usize = 0;
    while i < keywords.len()
        invariant
            i <= keywords.len(),
            all == text::views(keywords@),
            text::views(out@) == cleaned(all.take(i as int)),
        decreases keywords.len() - i,
    {
        assert(all.take(i + 1).drop_last() =~= all.take(i as int));
        assert(all.take(i + 1).last() == keywords@[i as int]@);
        let keyword = trim(keywords[i].as_str());
        if !keyword.is_empty() {
            out.push(keyword.to_owned());
        }
        i = i + 1;
    }
    assert(all.take(i as int) =~= all);
    out
}

/// The registration by which the panes of a session are looked at.
pub open spec fn looked_at(args: MonitorArgsView) -> RegistrationView {
    RegistrationView {
        keywords: cleaned(args.keywords),
        ..registered(args, RegistrationSource::CliWatch, ""@, None)
    }
}

/// Events with a mention.
pub open spec fn with_mention(events: Seq<EventView>, mention: Option<Seq<char>>) -> Seq<EventView> {
    Seq::new(events.len(), |i: int| EventView { mention, ..events[i] })
}

/// What is remembered of a pane after a look at it: where its content changed, the
/// name of its session too.
pub open spec fn pane_kept(
    existing: Option<PaneView>,
    pane: SnapshotView,
    r: RegistrationView,
    now_ms: u64,
) -> PaneView {
    if tmux::has_changed(existing, pane) {
        tmux::first_seen(pane, now_ms)
    } else {
        monitor::pane_remembered(existing, pane, r, now_ms)
    }
}

/// What has come of a look at some panes.
pub struct Looked {
    pub panes: Panes,
    pub events: Seq<EventView>,
    pub seen: Seq<Seq<char>>,
}

/// What has come of a look at some panes.
pub open spec fn panes_looked(
    looked: Looked,
    args: MonitorArgsView,
    list: Seq<SnapshotView>,
    now_ms: u64,
) -> Looked
    decreases list.len(),
{
    if list.len() == 0 {
        looked
    } else {
        let so_far = panes_looked(looked, args, list.drop_last(), now_ms);
        let pane = list.last();
        let r = looked_at(args);
        let existing = table::lookup(so_far.panes, pane.pane_id);
        Looked {
            panes: table::put(so_far.panes, pane.pane_id, pane_kept(existing, pane, r, now_ms)),
            events: so_far.events + with_mention(
                monitor::pane_events(existing, pane, r, now_ms),
                args.mention,
            ),
            seen: so_far.seen.push(pane.pane_id),
        }
    }
}

/// What comes of a look at the panes of a session: what is remembered of them, and
/// the events that follow.
pub open spec fn session_looked(
    panes: Panes,
    args: MonitorArgsView,
    list: Seq<SnapshotView>,
    now_ms: u64,
) -> (Panes, Seq<EventView>) {
    let looked = panes_looked(
        Looked { panes, events: Seq::empty(), seen: Seq::empty() },
        args,
        list,
        now_ms,
    );
    (table::kept(looked.panes, tmux::has_key(looked.seen)), looked.events)
}

fn push_mentioned(out: &mut Vec<IncomingEvent>, events: Vec<IncomingEvent>, mention: &Option<String>)
    ensures
        text::all_views(final(out)@) == text::all_views(old(out)@) + with_mention(
            text::all_views(events@),
            text::opt_text(*mention),
        ),
{
    let ghost before = text::all_views(out@);
    let ghost wanted = with_mention(text::all_views(events@), text::opt_text(*mention));
    let mut i: usize = 0;
    assert(before + wanted.take(0) =~= before);
    while i < events.len()
        invariant
            i <= events.len(),
            wanted == with_mention(text::all_views(events@), text::opt_text(*mention)),
            text::all_views(out@) == before + wanted.take(i as int),
        decreases events.len() - i,
    {
        let ghost so_far = text::all_views(out@);
        let event = events[i].clone().with_mention(copy_opt(mention));
        let ghost view = event@;
        assert(view == wanted[i as int]);
        out.push(event);
        assert(text::all_views(out@) =~= so_far.push(view));
        assert(text::all_views(out@) =~= before + wanted.take(i + 1));
        i = i + 1;
    }
    assert(wanted.take(i as int) =~= wanted);
}

/// Looks at the panes of a session, which are remembered by their identifiers: the
/// events that follow.
pub fn look_at_session(
    panes: &mut Vec<(String, TmuxPaneState)>,
    args: &TmuxMonitorArgs,
    list: &Vec<TmuxPaneSnapshot>,
    now_ms: u64,
) -> (r: Vec<IncomingEvent>)
    requires
        table::in_order(table::pairs(old(panes)@)),
    ensures
        table::in_order(table::pairs(final(panes)@)),
        (table::pairs(final(panes)@), text::all_views(r@)) == session_looked(
            table::pairs(old(panes)@),
            args@,
            text::all_views(list@),
            now_ms,
        ),
{
    let mut registration = registration_for(
        args,
        RegistrationSource::CliWatch,
        "".to_owned(),
        None,
    );
    registration.keywords = clean_keywords(&args.keywords);
    assert(registration@ == looked_at(args@));
    let mut out: Vec<IncomingEvent> = Vec::new();
    assert(text::all_views(out@) =~= Seq::<EventView>::empty());
    let mut seen: Vec<String> = Vec::new();
    assert(text::views(seen@) =~= Seq::<Seq<char>>::empty());
    let ghost start = Looked {
        panes: table::pairs(panes@),
        events: Seq::empty(),
        seen: Seq::empty(),
    };
    let ghost all = text::all_views(list@);
    let mut i: usize = 0;
    while i < list.len()
        invariant
            i <= list.len(),
            all == text::all_views(list@),
            registration@ == looked_at(args@),
            table::in_order(table::pairs(panes@)),
            (Looked {
                panes: table::pairs(panes@),
                events: text::all_views(out@),
                seen: text::views(seen@),
            }) == panes_looked(start, args@, all.take(i as int), now_ms),
        decreases list.len() - i,
    {
        assert(all.take(i + 1).drop_last() =~= all.take(i as int));
        assert(all.take(i + 1).last() == list@[i as int]@);
        let pane = &list[i];
        let ghost before = table::pairs(panes@);
        let existing = remove_entry(panes, pane.pane_id.as_str());
        let ghost known = table::opt_owned(existing);
        let changed = match &existing {
            Some(state) => !same(state.snapshot.as_str(), pane.content.as_str()),
            None => false,
        };
        let mut events: Vec<IncomingEvent> = Vec::new();
        assert(text::all_views(events@) =~= Seq::<EventView>::empty());
        let mut state = look_at_pane(&mut events, existing, &registration, pane, now_ms);
        assert(text::all_views(events@) =~= monitor::pane_events(
            known,
            pane@,
            registration@,
            now_ms,
        ));
        if changed {
            state.session = pane.session.clone();
        }
        assert(state@ == pane_kept(known, pane@, registration@, now_ms));
        proof {
            table::law_without_then_put(before, pane.pane_id@, state@);
            table::law_put_keeps_order(before, pane.pane_id@, state@);
        }
        set_entry(panes, pane.pane_id.as_str(), state);
        push_mentioned(&mut out, events, &args.mention);
        seen.push(pane.pane_id.clone());
        i = i + 1;
    }
    assert(all.take(i as int) =~= all);
    keep_keys(panes, &seen);
    out
}

// ---------------------------------------------------------------------------
// Starting a session
// ---------------------------------------------------------------------------

/// The words of the tmux command that starts a session.
pub open spec fn new_session_words(args: TmuxNewArgs) -> Seq<Seq<char>> {
    let words = seq!["new-session"@, "-d"@, "-s"@, args.session@];
    let words = match args.window_name {
        Some(name) => words.push("-n"@).push(name@),
        None => words,
    };
    match args.cwd {
        Some(dir) => words.push("-c"@).push(dir@),
        None => words,
    }
}

/// The words of the tmux command that starts a session.
pub fn new_session_args(args: &TmuxNewArgs) -> (r: Vec<String>)
    ensures
        text::views(r@) == new_session_words(*args),
{
    let mut words: Vec<String> = Vec::new();
    words.push("new-session".to_owned());
    words.push("-d".to_owned());
    words.push("-s".to_owned());
    words.push(args.session.clone());
    assert(text::views(words@) =~= seq!["new-session"@, "-d"@, "-s"@, args.session@]);
    match &args.window_name {
        Some(name) => {
            words.push("-n".to_owned());
            words.push(name.clone());
        },
        None => {},
    }
    match &args.cwd {
        Some(dir) => {
            words.push("-c".to_owned());
            words.push(dir.clone());
        },
        None => {},
    }
    words
}

/// A character that needs no quotes in a word of a shell.
pub open spec fn is_plain(c: char) -> bool {
    ('a' <= c && c <= 'z') || ('A' <= c && c <= 'Z') || ('0' <= c && c <= '9') || c == '_' || c
        == '@' || c == '%' || c == '+' || c == '=' || c == ':' || c == ',' || c == '.' || c == '/'
        || c == '-'
}

/// A word that needs no quotes.
pub open spec fn is_plain_word(s: Seq<char>) -> bool {
    s.len() > 0 && forall|i: int| 0 <= i < s.len() ==> is_plain(#[trigger] s[i])
}

/// A text as one word of a shell.
pub open spec fn escaped(s: Seq<char>) -> Seq<char> {
    if is_plain_word(s) {
        s
    } else {
        "'"@ + scan::replaced(s, "'"@, "'\\''"@) + "'"@
    }
}

fn plain(c: char) -> (r: bool)
    ensures
        r == is_plain(c),
{
    ('a' <= c && c <= 'z') || ('A' <= c && c <= 'Z') || ('0' <= c && c <= '9') || c == '_' || c
        == '@' || c == '%' || c == '+' || c == '=' || c == ':' || c == ',' || c == '.' || c == '/'
        || c == '-'
}

fn plain_word(s: &str) -> (r: bool)
    ensures
        r == is_plain_word(s@),
{
    let chars = chars_of(s);
    let mut i: usize = 0;
    while i < chars.len()
        invariant
            i <= chars@.len(),
            chars@ == s@,
            forall|k: int| 0 <= k < i ==> is_plain(#[trigger] s@[k]),
        decreases chars.len() - i,
    {
        if !plain(chars[i]) {
            assert(!is_plain(s@[i as int]));
            return false;
        }
        i = i + 1;
    }
    chars.len() > 0
}

/// A text as one word of a shell.
pub fn shell_escape(value: &str) -> (r: String)
    ensures
        r@ == escaped(value@),
{
    if plain_word(value) {
        value.to_owned()
    } else {
        proof {
            reveal_strlit("'");
        }
        let inner = replace(value, "'", "'\\''");
        cat3("'", inner.as_str(), "'")
    }
}

/// Texts as words of a shell.
pub open spec fn escaped_all(parts: Seq<Seq<char>>) -> Seq<Seq<char>> {
    Seq::new(parts.len(), |i: int| escaped(parts[i]))
}

/// Texts as the words of a command of a shell.
pub fn shell_join(parts: &Vec<String>) -> (r: String)
    ensures
        r@ == compose::joined(escaped_all(text::views(parts@)), " "@),
{
    let ghost wanted = escaped_all(text::views(parts@));
    let mut words: Vec<String> = Vec::new();
    let mut i: usize = 0;
    while i < parts.len()
        invariant
            i <= parts.len(),
            wanted == escaped_all(text::views(parts@)),
            text::views(words@) == wanted.take(i as int),
        decreases parts.len() - i,
    {
        words.push(shell_escape(parts[i].as_str()));
        assert(text::views(words@) =~= wanted.take(i + 1));
        i = i + 1;
    }
    assert(wanted.take(i as int) =~= wanted);
    join(&words, " ")
}

/// What is typed into a new session: a single word as it stands, several as a
/// command, and either as the argument of a shell where one is named.
pub open spec fn typed(command: Seq<Seq<char>>, shell: Option<Seq<char>>) -> Option<Seq<char>> {
    if command.len() == 0 {
        None
    } else {
        let line = if command.len() == 1 {
            command[0]
        } else {
            compose::joined(escaped_all(command), " "@)
        };
        Some(
            match shell {
                Some(name) => escaped(name) + " -c "@ + escaped(line),
                None => line,
            },
        )
    }
}

/// What is typed into a new session.
pub fn build_command_to_send(args: &TmuxNewArgs) -> (r: Option<String>)
    ensures
        text::opt_text(r) == typed(text::views(args.command@), text::opt_text(args.shell)),
{
    assert(text::views(args.command@).len() == args.command@.len());
    if args.command.len() == 0 {
        return None;
    }
    let line = if args.command.len() == 1 {
        assert(text::views(args.command@)[0] == args.command@[0]@);
        args.command[0].clone()
    } else {
        shell_join(&args.command)
    };
    Some(
        match &args.shell {
            Some(name) => cat3(
                shell_escape(name.as_str()).as_str(),
                " -c ",
                shell_escape(line.as_str()).as_str(),
            ),
            None => line,
        },
    )
}

// ---------------------------------------------------------------------------
// Pressing Enter again
// ---------------------------------------------------------------------------

/// `std::time::Duration::from_millis`: a duration of whole milliseconds.
pub assume_specification[ Duration::from_millis ](millis: u64) -> (r: Duration)
    ensures
        config::nanos_in(r) == millis as nat * 1_000_000,
;

/// The pauses before Enter is pressed again, in milliseconds.
pub open spec fn retry_pauses(max_retries: u32) -> Seq<nat> {
    let all: Seq<nat> = seq![500, 1000, 2000];
    if max_retries < 3 {
        all.take(max_retries as int)
    } else {
        all
    }
}

/// The lengths of some durations, in milliseconds.
pub open spec fn millis_of(durations: Seq<Duration>) -> Seq<nat> {
    Seq::new(durations.len(), |i: int| config::nanos_in(durations[i]) / 1_000_000)
}

/// The pauses before Enter is pressed again.
pub fn retry_enter_delays(max_retries: u32) -> (r: Vec<Duration>)
    ensures
        millis_of(r@) == retry_pauses(max_retries),
        forall|i: int|
            0 <= i < r@.len() ==> config::nanos_in(#[trigger] r@[i]) % 1_000_000 == 0,
{
    let mut out: Vec<Duration> = Vec::new();
    if max_retries > 0 {
        out.push(Duration::from_millis(500));
    }
    if max_retries > 1 {
        out.push(Duration::from_millis(1000));
    }
    if max_retries > 2 {
        out.push(Duration::from_millis(2000));
    }
    assert(millis_of(out@) =~= retry_pauses(max_retries));
    out
}

/// A pause that was doubled some times, in milliseconds.
pub open spec fn doubled(first: u64, times: nat) -> nat
    decreases times,
{
    if times == 0 {
        first as nat
    } else {
        let before = doubled(first, (times - 1) as nat);
        if 2 * before <= u64::MAX {
            2 * before
        } else {
            u64::MAX as nat
        }
    }
}

/// The pauses before Enter is pressed again, each twice as long as the one before.
pub fn backoff_enter_delays(count: u32, first_ms: u64) -> (r: Vec<Duration>)
    ensures
        r@.len() == count,
        forall|i: int|
            0 <= i < count ==> config::nanos_in(#[trigger] r@[i]) == doubled(first_ms, i as nat)
                * 1_000_000,
{
    let mut out: Vec<Duration> = Vec::new();
    let mut pause: u64 = first_ms;
    let mut i: u32 = 0;
    while i < count
        invariant
            i <= count,
            out@.len() == i,
            pause == doubled(first_ms, i as nat),
            forall|j: int|
                0 <= j < i ==> config::nanos_in(#[trigger] out@[j]) == doubled(
                    first_ms,
                    j as nat,
                ) * 1_000_000,
        decreases count - i,
    {
        out.push(Duration::from_millis(pause));
        assert(doubled(first_ms, (i + 1) as nat) == if 2 * pause <= u64::MAX {
            2 * pause
        } else {
            u64::MAX as int
        });
        pause = if pause <= u64::MAX / 2 {
            2 * pause
        } else {
            u64::MAX
        };
        i = i + 1;
    }
    out
}

/// What is done after a look at a session that is to react to Enter.
#[derive(Debug, Clone, Copy, PartialEq, Eq, Structural)]
pub enum EnterStep {
    /// The session reacted.
    Done,
    /// It is looked at once more after the pause.
    LookAgain,
    /// Enter is pressed again.
    Press,
}

/// A session that is to react to Enter: how it looked before, and how it looked
/// after the first half of a pause.
#[derive(Debug)]
pub struct EnterWatch {
    pub baseline: String,
    pub first: Option<String>,
}

impl EnterWatch {
    /// A session as it looked before Enter was pressed.
    pub fn new(baseline: String) -> (r: Self)
        ensures
            r.baseline@ == baseline@,
            r.first is None,
    {
        EnterWatch { baseline, first: None }
    }

    /// Looks at the session. It reacted where it looks otherwise than before, or
    /// than at the last look; where it did not at two looks, Enter is pressed again.
    pub fn observe(&mut self, content: &str) -> (r: EnterStep)
        ensures
            match text::opt_text(old(self).first) {
                None => if content@ != old(self).baseline@ {
                    r == EnterStep::Done && final(self).baseline@ == old(self).baseline@
                        && final(self).first is None
                } else {
                    r == EnterStep::LookAgain && final(self).baseline@ == old(self).baseline@
                        && text::opt_text(final(self).first) == Some(content@)
                },
                Some(first) => if content@ != first {
                    r == EnterStep::Done && final(self).baseline@ == old(self).baseline@
                        && final(self).first is None
                } else {
                    r == EnterStep::Press && final(self).baseline@ == content@
                        && final(self).first is None
                },
            },
    {
        match self.first.take() {
            None => {
                if !same(content, self.baseline.as_str()) {
                    EnterStep::Done
                } else {
                    self.first = Some(content.to_owned());
                    EnterStep::LookAgain
                }
            },
            Some(first) => {
                if !same(content, first.as_str()) {
                    EnterStep::Done
                } else {
                    self.baseline = content.to_owned();
                    EnterStep::Press
                }
            },
        }
    }
}

// ---------------------------------------------------------------------------
// Laws
// ---------------------------------------------------------------------------

/// A word so far; one that has begun may still be empty.
pub open spec fn begun(word: Option<Seq<char>>) -> Seq<char> {
    match word {
        Some(w) => w,
        None => Seq::empty(),
    }
}

/// The words so far, with the one that ends here, if one has begun.
pub open spec fn ended(words: Seq<Seq<char>>, word: Option<Seq<char>>) -> Seq<Seq<char>> {
    match word {
        Some(w) => words.push(w),
        None => words,
    }
}

/// The words that a shell reads in the rest of a line, in quotes or out of them,
/// behind the words and the part of a word that it has read so far. A space out of
/// quotes ends a word; none are read where the line ends in quotes or holds
/// another character that is special out of quotes.
pub open spec fn words_from(
    s: Seq<char>,
    quoted: bool,
    word: Option<Seq<char>>,
    words: Seq<Seq<char>>,
) -> Option<Seq<Seq<char>>>
    decreases s.len(),
{
    if s.len() == 0 {
        if quoted {
            None
        } else {
            Some(ended(words, word))
        }
    } else if s[0] == '\'' {
        words_from(s.skip(1), !quoted, Some(begun(word)), words)
    } else if quoted {
        words_from(s.skip(1), true, Some(begun(word).push(s[0])), words)
    } else if s[0] == ' ' {
        words_from(s.skip(1), false, None, ended(words, word))
    } else if s[0] == '\\' {
        if s.len() < 2 {
            None
        } else {
            words_from(s.skip(2), false, Some(begun(word).push(s[1])), words)
        }
    } else if is_plain(s[0]) {
        words_from(s.skip(1), false, Some(begun(word).push(s[0])), words)
    } else {
        None
    }
}

/// The words that a shell reads in a line.
pub open spec fn shell_words(line: Seq<char>) -> Option<Seq<Seq<char>>> {
    words_from(line, false, None, Seq::empty())
}

proof fn lemma_plain_part(
    s: Seq<char>,
    rest: Seq<char>,
    word: Seq<char>,
    words: Seq<Seq<char>>,
)
    requires
        forall|i: int| 0 <= i < s.len() ==> is_plain(#[trigger] s[i]),
    ensures
        words_from(s + rest, false, Some(word), words) == words_from(
            rest,
            false,
            Some(word + s),
            words,
        ),
    decreases s.len(),
{
    if s.len() > 0 {
        assert(is_plain(s[0]));
        let tail = s.skip(1);
        assert forall|i: int| 0 <= i < tail.len() implies is_plain(#[trigger] tail[i]) by {
            assert(is_plain(s[i + 1]));
        }
        lemma_plain_part(tail, rest, word.push(s[0]), words);
        assert((s + rest).skip(1) =~= tail + rest);
        assert(word.push(s[0]) + tail =~= word + s);
    } else {
        assert(s + rest =~= rest);
        assert(word + s =~= word);
    }
}

proof fn lemma_quoted_part(
    s: Seq<char>,
    rest: Seq<char>,
    word: Seq<char>,
    words: Seq<Seq<char>>,
)
    ensures
        words_from(
            scan::replaced(s, "'"@, "'\\''"@) + "'"@ + rest,
            true,
            Some(word),
            words,
        ) == words_from(rest, false, Some(word + s), words),
    decreases s.len(),
{
    reveal_strlit("'");
    reveal_strlit("'\\''");
    let quote = "'"@;
    let gap = "'\\''"@;
    let whole = scan::replaced(s, quote, gap) + quote + rest;
    if s.len() == 0 {
        assert(whole.skip(1) =~= rest);
        assert(word + s =~= word);
    } else {
        let next = s.skip(1);
        let tail = scan::replaced(next, quote, gap) + quote + rest;
        lemma_quoted_part(next, rest, word.push(s[0]), words);
        assert(word.push(s[0]) + next =~= word + s);
        if text::begins_with(s, quote) {
            assert(s.subrange(0, 1)[0] == quote[0]);
            assert(whole =~= gap + tail);
            assert(whole.skip(1) =~= seq!['\\', '\'', '\''] + tail);
            assert(whole.skip(1).skip(2) =~= seq!['\''] + tail);
            assert(whole.skip(1).skip(2).skip(1) =~= tail);
            reveal_with_fuel(words_from, 4);
        } else {
            assert(s[0] != '\'') by {
                if s[0] == '\'' {
                    assert(s.subrange(0, 1) =~= quote);
                }
            }
            assert(whole =~= seq![s[0]] + tail);
            assert(whole.skip(1) =~= tail);
        }
    }
}

proof fn lemma_escaped_part(s: Seq<char>, rest: Seq<char>, words: Seq<Seq<char>>)
    ensures
        words_from(escaped(s) + rest, false, None, words) == words_from(
            rest,
            false,
            Some(s),
            words,
        ),
{
    let empty = Seq::<char>::empty();
    assert(empty + s =~= s);
    if is_plain_word(s) {
        assert(is_plain(s[0]));
        let tail = s.skip(1);
        assert forall|i: int| 0 <= i < tail.len() implies is_plain(#[trigger] tail[i]) by {
            assert(is_plain(s[i + 1]));
        }
        lemma_plain_part(tail, rest, empty.push(s[0]), words);
        assert((s + rest).skip(1) =~= tail + rest);
        assert(empty.push(s[0]) + tail =~= s);
    } else {
        reveal_strlit("'");
        lemma_quoted_part(s, rest, empty, words);
        let tail = scan::replaced(s, "'"@, "'\\''"@) + "'"@ + rest;
        assert(escaped(s) + rest =~= seq!['\''] + tail);
        assert((escaped(s) + rest).skip(1) =~= tail);
    }
}

proof fn lemma_joined_parts(parts: Seq<Seq<char>>, rest: Seq<char>)
    requires
        parts.len() > 0,
    ensures
        words_from(
            compose::joined(escaped_all(parts), " "@) + rest,
            false,
            None,
            Seq::empty(),
        ) == words_from(rest, false, Some(parts.last()), parts.drop_last()),
    decreases parts.len(),
{
    let all = escaped_all(parts);
    if parts.len() == 1 {
        lemma_escaped_part(parts[0], rest, Seq::empty());
        assert(parts.drop_last() =~= Seq::empty());
    } else {
        reveal_strlit(" ");
        let front = parts.drop_last();
        assert(all.drop_last() =~= escaped_all(front));
        let tail = escaped(parts.last()) + rest;
        let gap = " "@ + tail;
        lemma_joined_parts(front, gap);
        assert(compose::joined(all, " "@) + rest =~= compose::joined(escaped_all(front), " "@)
            + gap);
        assert(gap.skip(1) =~= tail);
        assert(front.drop_last().push(front.last()) =~= front);
        lemma_escaped_part(parts.last(), rest, front);
    }
}

/// A shell reads in the word of a text that text, whatever it holds.
pub proof fn law_shell_reads_the_text(s: Seq<char>)
    ensures
        shell_words(escaped(s)) == Some(seq![s]),
{
    let empty = Seq::<char>::empty();
    lemma_escaped_part(s, empty, Seq::empty());
    assert(escaped(s) + empty =~= escaped(s));
    assert(Seq::<Seq<char>>::empty().push(s) =~= seq![s]);
}

/// A shell reads in a line of joined texts those texts, each as a word of its own,
/// whatever they hold.
pub proof fn law_shell_reads_the_texts(parts: Seq<Seq<char>>)
    ensures
        shell_words(compose::joined(escaped_all(parts), " "@)) == Some(parts),
{
    let empty = Seq::<char>::empty();
    let line = compose::joined(escaped_all(parts), " "@);
    if parts.len() > 0 {
        lemma_joined_parts(parts, empty);
        assert(line + empty =~= line);
        assert(parts.drop_last().push(parts.last()) =~= parts);
    } else {
        assert(parts =~= Seq::empty());
    }
}

/// A word that needs no quotes stands as it is, and every other stands in quotes.
pub proof fn law_only_special_words_are_quoted(s: Seq<char>)
    ensures
        is_plain_word(s) ==> escaped(s) == s,
        !is_plain_word(s) ==> escaped(s).len() >= 2 && escaped(s)[0] == '\'' && escaped(s).last()
            == '\'',
{
    reveal_strlit("'");
}

/// Enter is pressed at most as often again as is asked for, and never more than
/// three times.
pub proof fn law_enter_is_pressed_seldom(max_retries: u32)
    ensures
        retry_pauses(max_retries).len() <= max_retries,
        retry_pauses(max_retries).len() <= 3,
{
}

/// No pause before Enter is pressed again is shorter than the one before.
pub proof fn law_pauses_grow(first: u64, times: nat)
    ensures
        doubled(first, times) <= doubled(first, times + 1) <= u64::MAX,
    decreases times,
{
    if times > 0 {
        law_pauses_grow(first, (times - 1) as nat);
    }
}

} // verus!
