//! The tmux sessions that are watched.
use vstd::prelude::*;
use vstd::string::*;

use crate::config::{AppConfig, AppSettingsView, TmuxSessionMonitor, TmuxSessionMonitorView};
use crate::config_rules::copy_list;
use crate::events;
use crate::events::{MessageFormat, RoutingMetadata, RoutingView};
use crate::glob;
use crate::glob::glob_match;
use crate::identity;
use crate::identity::current_timestamp_rfc3339;
use crate::table;
use crate::table::{find_entry, keep_marked, set_entry};
use crate::text;
use crate::text::{chars_of, contains_char, copy_opt, list_has};

verus! {

/// What made a registration.
#[derive(Debug, Clone, Copy, PartialEq, Eq, Structural)]
pub enum RegistrationSource {
    CliWatch,
    CliNew,
    ConfigMonitor,
}

impl Default for RegistrationSource {
    fn default() -> (r: Self)
        ensures
            r == RegistrationSource::ConfigMonitor,
    {
        RegistrationSource::ConfigMonitor
    }
}

/// The label of what made a registration.
pub open spec fn source_label(source: RegistrationSource) -> Seq<char> {
    match source {
        RegistrationSource::CliWatch => "cli-watch"@,
        RegistrationSource::CliNew => "cli-new"@,
        RegistrationSource::ConfigMonitor => "config-monitor"@,
    }
}

impl RegistrationSource {
    /// The label of what made a registration.
    pub fn as_str(self) -> (r: &'static str)
        ensures
            r@ == source_label(self),
    {
        match self {
            RegistrationSource::CliWatch => "cli-watch",
            RegistrationSource::CliNew => "cli-new",
            RegistrationSource::ConfigMonitor => "config-monitor",
        }
    }
}

/// The process that asked for a registration.
#[derive(Debug, PartialEq, Eq)]
pub struct ParentProcessInfo {
    pub pid: u32,
    pub name: Option<String>,
}

/// The process that asked for a registration.
pub struct ParentView {
    pub pid: u32,
    pub name: Option<Seq<char>>,
}

impl View for ParentProcessInfo {
    type V = ParentView;

    open spec fn view(&self) -> ParentView {
        ParentView { pid: self.pid, name: text::opt_text(self.name) }
    }
}

impl Clone for ParentProcessInfo {
    fn clone(&self) -> (r: Self)
        ensures
            r@ == self@,
    {
        ParentProcessInfo { pid: self.pid, name: copy_opt(&self.name) }
    }
}

/// What was last seen of a session.
#[derive(Debug, PartialEq, Eq)]
pub struct SessionLiveState {
    pub is_waiting: bool,
    pub pane_dead: bool,
    /// When something last changed, in RFC 3339 notation.
    pub last_activity: Option<String>,
    /// When it was last looked at, in RFC 3339 notation.
    pub last_poll: Option<String>,
}

/// What was last seen of a session.
pub struct LiveView {
    pub is_waiting: bool,
    pub pane_dead: bool,
    pub last_activity: Option<Seq<char>>,
    pub last_poll: Option<Seq<char>>,
}

impl View for SessionLiveState {
    type V = LiveView;

    open spec fn view(&self) -> LiveView {
        LiveView {
            is_waiting: self.is_waiting,
            pane_dead: self.pane_dead,
            last_activity: text::opt_text(self.last_activity),
            last_poll: text::opt_text(self.last_poll),
        }
    }
}

impl Clone for SessionLiveState {
    fn clone(&self) -> (r: Self)
        ensures
            r@ == self@,
    {
        SessionLiveState {
            is_waiting: self.is_waiting,
            pane_dead: self.pane_dead,
            last_activity: copy_opt(&self.last_activity),
            last_poll: copy_opt(&self.last_poll),
        }
    }
}

impl Default for SessionLiveState {
    fn default() -> (r: Self)
        ensures
            r@ == (LiveView {
                is_waiting: false,
                pane_dead: false,
                last_activity: None,
                last_poll: None,
            }),
    {
        SessionLiveState {
            is_waiting: false,
            pane_dead: false,
            last_activity: None,
            last_poll: None,
        }
    }
}

fn copy_parent(o: &Option<ParentProcessInfo>) -> (r: Option<ParentProcessInfo>)
    ensures
        table::opt_owned(r) == table::opt_owned(*o),
{
    match o {
        Some(parent) => Some(parent.clone()),
        None => None,
    }
}

fn copy_live(o: &Option<SessionLiveState>) -> (r: Option<SessionLiveState>)
    ensures
        table::opt_owned(r) == table::opt_owned(*o),
{
    match o {
        Some(state) => Some(state.clone()),
        None => None,
    }
}

/// A tmux session that is watched, and how.
#[derive(Debug)]
pub struct RegisteredTmuxSession {
    /// The name of the session, or a pattern of names.
    pub session: String,
    pub channel: Option<String>,
    pub mention: Option<String>,
    /// What is known of the repository and the session.
    pub routing: RoutingMetadata,
    pub keywords: Vec<String>,
    pub keyword_window_secs: u64,
    /// The minutes after which a pane is stale; 0 for never.
    pub stale_minutes: u64,
    pub format: Option<MessageFormat>,
    /// When it was registered, in RFC 3339 notation.
    pub registered_at: String,
    pub registration_source: RegistrationSource,
    pub parent_process: Option<ParentProcessInfo>,
    /// A wrapper process watches the session itself.
    pub active_wrapper_monitor: bool,
    pub summarize: bool,
    pub summarizer: String,
    pub heartbeat_mins: u64,
    /// The new lines below which nothing is summarized.
    pub min_new_lines: usize,
    pub summarize_interval_mins: u64,
    pub heartbeat_interval: u64,
    pub summary_interval: u64,
    pub detect_waiting: bool,
    pub pin_status: bool,
    pub pin_summary: bool,
    pub pin_alerts: bool,
    pub pin_activity: bool,
    pub pin_keywords: bool,
    /// What was last seen of the session.
    pub live_state: Option<SessionLiveState>,
}

/// A tmux session that is watched, and how.
pub struct RegistrationView {
    pub session: Seq<char>,
    pub channel: Option<Seq<char>>,
    pub mention: Option<Seq<char>>,
    pub routing: RoutingView,
    pub keywords: Seq<Seq<char>>,
    pub keyword_window_secs: u64,
    pub stale_minutes: u64,
    pub format: Option<MessageFormat>,
    pub registered_at: Seq<char>,
    pub registration_source: RegistrationSource,
    pub parent_process: Option<ParentView>,
    pub active_wrapper_monitor: bool,
    pub summarize: bool,
    pub summarizer: Seq<char>,
    pub heartbeat_mins: u64,
    pub min_new_lines: usize,
    pub summarize_interval_mins: u64,
    pub heartbeat_interval: u64,
    pub summary_interval: u64,
    pub detect_waiting: bool,
    pub pin_status: bool,
    pub pin_summary: bool,
    pub pin_alerts: bool,
    pub pin_activity: bool,
    pub pin_keywords: bool,
    pub live_state: Option<LiveView>,
}

impl View for RegisteredTmuxSession {
    type V = RegistrationView;

    open spec fn view(&self) -> RegistrationView {
        RegistrationView {
            session: self.session@,
            channel: text::opt_text(self.channel),
            mention: text::opt_text(self.mention),
            routing: self.routing@,
            keywords: text::views(self.keywords@),
            keyword_window_secs: self.keyword_window_secs,
            stale_minutes: self.stale_minutes,
            format: self.format,
            registered_at: self.registered_at@,
            registration_source: self.registration_source,
            parent_process: table::opt_owned(self.parent_process),
            active_wrapper_monitor: self.active_wrapper_monitor,
            summarize: self.summarize,
            summarizer: self.summarizer@,
            heartbeat_mins: self.heartbeat_mins,
            min_new_lines: self.min_new_lines,
            summarize_interval_mins: self.summarize_interval_mins,
            heartbeat_interval: self.heartbeat_interval,
            summary_interval: self.summary_interval,
            detect_waiting: self.detect_waiting,
            pin_status: self.pin_status,
            pin_summary: self.pin_summary,
            pin_alerts: self.pin_alerts,
            pin_activity: self.pin_activity,
            pin_keywords: self.pin_keywords,
            live_state: table::opt_owned(self.live_state),
        }
    }
}

impl Clone for RegisteredTmuxSession {
    fn clone(&self) -> (r: Self)
        ensures
            r@ == self@,
    {
        RegisteredTmuxSession {
            session: self.session.clone(),
            channel: copy_opt(&self.channel),
            mention: copy_opt(&self.mention),
            routing: self.routing.clone(),
            keywords: copy_list(&self.keywords),
            keyword_window_secs: self.keyword_window_secs,
            stale_minutes: self.stale_minutes,
            format: self.format,
            registered_at: self.registered_at.clone(),
            registration_source: self.registration_source,
            parent_process: copy_parent(&self.parent_process),
            active_wrapper_monitor: self.active_wrapper_monitor,
            summarize: self.summarize,
            summarizer: self.summarizer.clone(),
            heartbeat_mins: self.heartbeat_mins,
            min_new_lines: self.min_new_lines,
            summarize_interval_mins: self.summarize_interval_mins,
            heartbeat_interval: self.heartbeat_interval,
            summary_interval: self.summary_interval,
            detect_waiting: self.detect_waiting,
            pin_status: self.pin_status,
            pin_summary: self.pin_summary,
            pin_alerts: self.pin_alerts,
            pin_activity: self.pin_activity,
            pin_keywords: self.pin_keywords,
            live_state: copy_live(&self.live_state),
        }
    }
}

/// A registration of which nothing is set.
pub open spec fn default_registration() -> RegistrationView {
    RegistrationView {
        session: ""@,
        channel: None,
        mention: None,
        routing: events::no_routing(),
        keywords: Seq::empty(),
        keyword_window_secs: 0,
        stale_minutes: 0,
        format: None,
        registered_at: ""@,
        registration_source: RegistrationSource::ConfigMonitor,
        parent_process: None,
        active_wrapper_monitor: false,
        summarize: false,
        summarizer: ""@,
        heartbeat_mins: 0,
        min_new_lines: 0,
        summarize_interval_mins: 0,
        heartbeat_interval: 0,
        summary_interval: 0,
        detect_waiting: false,
        pin_status: false,
        pin_summary: false,
        pin_alerts: false,
        pin_activity: false,
        pin_keywords: false,
        live_state: None,
    }
}

impl Default for RegisteredTmuxSession {
    fn default() -> (r: Self)
        ensures
            r@ == default_registration(),
    {
        let r = RegisteredTmuxSession {
            session: "".to_owned(),
            channel: None,
            mention: None,
            routing: RoutingMetadata::default(),
            keywords: Vec::new(),
            keyword_window_secs: 0,
            stale_minutes: 0,
            format: None,
            registered_at: "".to_owned(),
            registration_source: RegistrationSource::ConfigMonitor,
            parent_process: None,
            active_wrapper_monitor: false,
            summarize: false,
            summarizer: "".to_owned(),
            heartbeat_mins: 0,
            min_new_lines: 0,
            summarize_interval_mins: 0,
            heartbeat_interval: 0,
            summary_interval: 0,
            detect_waiting: false,
            pin_status: false,
            pin_summary: false,
            pin_alerts: false,
            pin_activity: false,
            pin_keywords: false,
            live_state: None,
        };
        assert(text::views(r.keywords@) =~= Seq::empty());
        r
    }
}

/// The registration of a session of the configuration, made at some moment.
pub open spec fn configured(
    monitor: TmuxSessionMonitorView,
    registered_at: Seq<char>,
) -> RegistrationView {
    RegistrationView {
        session: monitor.session,
        channel: monitor.channel,
        mention: monitor.mention,
        keywords: monitor.keywords,
        keyword_window_secs: monitor.keyword_window_secs,
        stale_minutes: monitor.stale_minutes,
        format: monitor.format,
        registered_at,
        summarize: monitor.summarize,
        summarizer: monitor.summarizer,
        heartbeat_mins: monitor.heartbeat_mins,
        min_new_lines: monitor.min_new_lines,
        summarize_interval_mins: monitor.summarize_interval_mins,
        heartbeat_interval: monitor.heartbeat_interval,
        summary_interval: monitor.summary_interval,
        ..default_registration()
    }
}

impl RegisteredTmuxSession {
    /// The registration of a session of the configuration, made at some moment.
    pub fn from_monitor(value: &TmuxSessionMonitor, registered_at: String) -> (r: Self)
        ensures
            r@ == configured(value@, registered_at@),
    {
        RegisteredTmuxSession {
            session: value.session.clone(),
            channel: copy_opt(&value.channel),
            mention: copy_opt(&value.mention),
            routing: RoutingMetadata::default(),
            keywords: copy_list(&value.keywords),
            keyword_window_secs: value.keyword_window_secs,
            stale_minutes: value.stale_minutes,
            format: value.format,
            registered_at,
            registration_source: RegistrationSource::ConfigMonitor,
            parent_process: None,
            active_wrapper_monitor: false,
            summarize: value.summarize,
            summarizer: value.summarizer.clone(),
            heartbeat_mins: value.heartbeat_mins,
            min_new_lines: value.min_new_lines,
            summarize_interval_mins: value.summarize_interval_mins,
            heartbeat_interval: value.heartbeat_interval,
            summary_interval: value.summary_interval,
            detect_waiting: false,
            pin_status: false,
            pin_summary: false,
            pin_alerts: false,
            pin_activity: false,
            pin_keywords: false,
            live_state: None,
        }
    }

    /// The registration of a session of the configuration, made now.
    pub fn from(value: &TmuxSessionMonitor) -> (r: Self)
        ensures
            r@ == configured(value@, r@.registered_at),
            identity::is_fresh_moment(r@.registered_at),
    {
        Self::from_monitor(value, current_timestamp_rfc3339())
    }

    /// The minutes between two heartbeats: the interval, or where it is not set
    /// the older setting.
    pub fn effective_heartbeat_mins(&self) -> (r: u64)
        ensures
            r == self@.heartbeat_minutes(),
    {
        if self.heartbeat_interval > 0 {
            self.heartbeat_interval
        } else {
            self.heartbeat_mins
        }
    }

    /// The minutes between two summaries: the interval, or where it is not set
    /// the older setting.
    pub fn effective_summary_interval(&self) -> (r: u64)
        ensures
            r == self@.summary_minutes(),
    {
        if self.summary_interval > 0 {
            self.summary_interval
        } else {
            self.summarize_interval_mins
        }
    }
}

impl RegistrationView {
    /// The minutes between two heartbeats; 0 for none.
    pub open spec fn heartbeat_minutes(self) -> u64 {
        if self.heartbeat_interval > 0 {
            self.heartbeat_interval
        } else {
            self.heartbeat_mins
        }
    }

    /// The minutes between two summaries; 0 sets no limit.
    pub open spec fn summary_minutes(self) -> u64 {
        if self.summary_interval > 0 {
            self.summary_interval
        } else {
            self.summarize_interval_mins
        }
    }

    /// It comes from the configuration and no wrapper watches it.
    pub open spec fn from_config(self) -> bool {
        !self.active_wrapper_monitor && self.registration_source
            == RegistrationSource::ConfigMonitor
    }
}

/// Registrations by session, in the order of the sessions' names.
pub type Registry = Seq<(Seq<char>, RegistrationView)>;

// ---------------------------------------------------------------------------
// The sessions of the configuration
// ---------------------------------------------------------------------------

/// How closely a pattern describes a session.
#[derive(Debug, Clone, Copy, PartialEq, Eq, Structural)]
pub struct MonitorSpecificity {
    pub exact_match: bool,
    pub literal_chars: usize,
    pub wildcard_count: usize,
}

/// How often a character occurs.
pub open spec fn char_count(s: Seq<char>, c: char) -> nat
    decreases s.len(),
{
    if s.len() == 0 {
        0
    } else if s.last() == c {
        char_count(s.drop_last(), c) + 1
    } else {
        char_count(s.drop_last(), c)
    }
}

/// How closely a pattern describes a session.
pub open spec fn specificity_of(pattern: Seq<char>) -> MonitorSpecificity {
    MonitorSpecificity {
        exact_match: !pattern.contains('*'),
        literal_chars: (pattern.len() - char_count(pattern, '*')) as usize,
        wildcard_count: char_count(pattern, '*') as usize,
    }
}

/// One pattern describes a session more closely than another: a name before a
/// pattern, more characters before fewer, and fewer stars before more.
pub open spec fn ranks_above(a: MonitorSpecificity, b: MonitorSpecificity) -> bool {
    if a.exact_match != b.exact_match {
        a.exact_match
    } else if a.literal_chars != b.literal_chars {
        a.literal_chars > b.literal_chars
    } else {
        a.wildcard_count < b.wildcard_count
    }
}

/// Tells whether the name of a session is a pattern.
pub fn is_session_pattern(session: &str) -> (r: bool)
    ensures
        r == session@.contains('*'),
{
    contains_char(session, '*')
}

impl MonitorSpecificity {
    /// How closely a pattern describes a session.
    pub fn for_pattern(pattern: &str) -> (r: Self)
        ensures
            r == specificity_of(pattern@),
    {
        let chars = chars_of(pattern);
        let mut stars: usize = 0;
        let mut i: usize = 0;
        while i < chars.len()
            invariant
                i <= chars@.len(),
                stars <= i,
                stars == char_count(chars@.take(i as int), '*'),
            decreases chars.len() - i,
        {
            assert(chars@.take(i + 1).drop_last() =~= chars@.take(i as int));
            if chars[i] == '*' {
                stars = stars + 1;
            }
            i = i + 1;
        }
        assert(chars@.take(i as int) =~= chars@);
        MonitorSpecificity {
            exact_match: !is_session_pattern(pattern),
            literal_chars: chars.len() - stars,
            wildcard_count: stars,
        }
    }

    /// Tells whether this describes a session more closely.
    pub fn outranks(self, other: Self) -> (r: bool)
        ensures
            r == ranks_above(self, other),
    {
        if self.exact_match != other.exact_match {
            return self.exact_match;
        }
        if self.literal_chars != other.literal_chars {
            return self.literal_chars > other.literal_chars;
        }
        self.wildcard_count < other.wildcard_count
    }
}

/// A registration and how closely its pattern describes the session.
#[derive(Debug)]
pub struct ResolvedSession {
    pub specificity: MonitorSpecificity,
    pub registration: RegisteredTmuxSession,
}

/// A registration and how closely its pattern describes the session.
pub struct ResolvedView {
    pub specificity: MonitorSpecificity,
    pub registration: RegistrationView,
}

impl View for ResolvedSession {
    type V = ResolvedView;

    open spec fn view(&self) -> ResolvedView {
        ResolvedView { specificity: self.specificity, registration: self.registration@ }
    }
}

/// Sessions with the closest registration so far.
pub type Resolved = Seq<(Seq<char>, ResolvedView)>;

/// Sessions with a further registration of one of them: it is taken where the
/// session has none that it does not rank above.
pub open spec fn with_resolved(
    m: Resolved,
    session: Seq<char>,
    specificity: MonitorSpecificity,
    registration: RegistrationView,
) -> Resolved {
    match table::lookup(m, session) {
        Some(present) => if ranks_above(specificity, present.specificity) {
            table::put(m, session, ResolvedView { specificity, registration })
        } else {
            m
        },
        None => table::put(m, session, ResolvedView { specificity, registration }),
    }
}

/// The sessions that a pattern fits.
pub open spec fn fitting(pattern: Seq<char>, sessions: Seq<Seq<char>>) -> Seq<Seq<char>>
    decreases sessions.len(),
{
    if sessions.len() == 0 {
        Seq::empty()
    } else if glob::fits(pattern, sessions.last()) {
        fitting(pattern, sessions.drop_last()).push(sessions.last())
    } else {
        fitting(pattern, sessions.drop_last())
    }
}

/// Sessions with a registration for each of some names.
pub open spec fn with_all_resolved(
    m: Resolved,
    sessions: Seq<Seq<char>>,
    registration: RegistrationView,
) -> Resolved
    decreases sessions.len(),
{
    if sessions.len() == 0 {
        m
    } else {
        with_resolved(
            with_all_resolved(m, sessions.drop_last(), registration),
            sessions.last(),
            specificity_of(registration.session),
            RegistrationView { session: sessions.last(), ..registration },
        )
    }
}

/// The sessions for which a registration stands: those that are there and that
/// its pattern fits, or where there are none the one that it names.
pub open spec fn stands_for(
    registration: RegistrationView,
    available: Option<Seq<Seq<char>>>,
) -> Seq<Seq<char>> {
    let matched = match available {
        Some(sessions) => fitting(registration.session, sessions),
        None => Seq::empty(),
    };
    if matched.len() == 0 && !registration.session.contains('*') {
        seq![registration.session]
    } else {
        matched
    }
}

/// Sessions with the closest of some registrations.
pub open spec fn resolved(
    registrations: Seq<RegistrationView>,
    available: Option<Seq<Seq<char>>>,
) -> Resolved
    decreases registrations.len(),
{
    if registrations.len() == 0 {
        Seq::empty()
    } else {
        with_all_resolved(
            resolved(registrations.drop_last(), available),
            stands_for(registrations.last(), available),
            registrations.last(),
        )
    }
}

/// The registrations of resolved sessions.
pub open spec fn registrations_in(m: Resolved) -> Registry {
    Seq::new(m.len(), |i: int| (m[i].0, m[i].1.registration))
}

/// The names of sessions, where they are known.
pub open spec fn opt_names(o: Option<&Vec<String>>) -> Option<Seq<Seq<char>>> {
    match o {
        Some(names) => Some(text::views(names@)),
        None => None,
    }
}

fn insert_resolved_session(
    resolved: &mut Vec<(String, ResolvedSession)>,
    session: &str,
    specificity: MonitorSpecificity,
    registration: RegisteredTmuxSession,
)
    ensures
        table::pairs(final(resolved)@) == with_resolved(
            table::pairs(old(resolved)@),
            session@,
            specificity,
            registration@,
        ),
{
    let stays = match find_entry(resolved, session) {
        Some(present) => !specificity.outranks(present.specificity),
        None => false,
    };
    if !stays {
        set_entry(resolved, session, ResolvedSession { specificity, registration });
    }
}

fn matched_sessions(pattern: &str, available: Option<&Vec<String>>) -> (r: Vec<String>)
    ensures
        text::views(r@) == (match opt_names(available) {
            Some(sessions) => fitting(pattern@, sessions),
            None => Seq::empty(),
        }),
{
    let mut out: Vec<String> = Vec::new();
    assert(text::views(out@) =~= Seq::<Seq<char>>::empty());
    match available {
        Some(sessions) => {
            let ghost all = text::views(sessions@);
            let mut i: usize = 0;
            while i < sessions.len()
                invariant
                    i <= sessions.len(),
                    all == text::views(sessions@),
                    text::views(out@) == fitting(pattern@, all.take(i as int)),
                decreases sessions.len() - i,
            {
                assert(all.take(i + 1).drop_last() =~= all.take(i as int));
                assert(all.take(i + 1).last() == sessions@[i as int]@);
                if glob_match(pattern, sessions[i].as_str()) {
                    out.push(sessions[i].clone());
                }
                i = i + 1;
            }
            assert(all.take(i as int) =~= all);
        },
        None => {},
    }
    out
}

fn insert_registration(
    resolved: &mut Vec<(String, ResolvedSession)>,
    registration: &RegisteredTmuxSession,
    available: Option<&Vec<String>>,
)
    ensures
        table::pairs(final(resolved)@) == with_all_resolved(
            table::pairs(old(resolved)@),
            stands_for(registration@, opt_names(available)),
            registration@,
        ),
{
    let specificity = MonitorSpecificity::for_pattern(registration.session.as_str());
    let mut sessions = matched_sessions(registration.session.as_str(), available);
    assert(text::views(sessions@).len() == sessions@.len());
    if sessions.len() == 0 && !is_session_pattern(registration.session.as_str()) {
        sessions.push(registration.session.clone());
        assert(text::views(sessions@) =~= seq![registration.session@]);
    }
    let ghost before = table::pairs(resolved@);
    let ghost all = text::views(sessions@);
    let mut i: usize = 0;
    while i < sessions.len()
        invariant
            i <= sessions.len(),
            all == text::views(sessions@),
            specificity == specificity_of(registration@.session),
            table::pairs(resolved@) == with_all_resolved(
                before,
                all.take(i as int),
                registration@,
            ),
        decreases sessions.len() - i,
    {
        assert(all.take(i + 1).drop_last() =~= all.take(i as int));
        assert(all.take(i + 1).last() == sessions@[i as int]@);
        let mut own = registration.clone();
        own.session = sessions[i].clone();
        assert(own@ == (RegistrationView { session: sessions@[i as int]@, ..registration@ }));
        insert_resolved_session(resolved, sessions[i].as_str(), specificity, own);
        i = i + 1;
    }
    assert(all.take(i as int) =~= all);
}

/// The sessions to watch, each with the registration whose pattern describes it
/// most closely.
pub fn resolve_monitored_sessions(
    configured_sessions: &Vec<RegisteredTmuxSession>,
    available_sessions: Option<&Vec<String>>,
) -> (r: Vec<(String, RegisteredTmuxSession)>)
    ensures
        table::pairs(r@) == registrations_in(
            resolved(text::all_views(configured_sessions@), opt_names(available_sessions)),
        ),
{
    let mut found: Vec<(String, ResolvedSession)> = Vec::new();
    let ghost all = text::all_views(configured_sessions@);
    let ghost names = opt_names(available_sessions);
    let mut i: usize = 0;
    assert(table::pairs(found@) =~= Seq::empty());
    while i < configured_sessions.len()
        invariant
            i <= configured_sessions.len(),
            all == text::all_views(configured_sessions@),
            names == opt_names(available_sessions),
            table::pairs(found@) == resolved(all.take(i as int), names),
        decreases configured_sessions.len() - i,
    {
        assert(all.take(i + 1).drop_last() =~= all.take(i as int));
        assert(all.take(i + 1).last() == configured_sessions@[i as int]@);
        insert_registration(&mut found, &configured_sessions[i], available_sessions);
        i = i + 1;
    }
    assert(all.take(i as int) =~= all);
    let ghost m = table::pairs(found@);
    let mut out: Vec<(String, RegisteredTmuxSession)> = Vec::new();
    let mut k: usize = 0;
    while k < found.len()
        invariant
            k <= found.len(),
            m == table::pairs(found@),
            table::pairs(out@) == registrations_in(m).take(k as int),
        decreases found.len() - k,
    {
        let ghost before = table::pairs(out@);
        let entry = (found[k].0.clone(), found[k].1.registration.clone());
        let ghost view = (entry.0@, entry.1@);
        out.push(entry);
        assert(table::pairs(out@) =~= before.push(view));
        assert(view == registrations_in(m)[k as int]);
        assert(table::pairs(out@) =~= registrations_in(m).take(k + 1));
        k = k + 1;
    }
    assert(registrations_in(m).take(k as int) =~= registrations_in(m));
    out
}

/// The registrations of the sessions of a configuration, made at some moment.
pub open spec fn configured_all(config: AppSettingsView, now: Seq<char>) -> Seq<RegistrationView> {
    let sessions = config.monitors.tmux.sessions;
    Seq::new(sessions.len(), |i: int| configured(sessions[i], now))
}

/// The registrations of the sessions of a configuration, made at some moment.
pub fn configured_registrations(config: &AppConfig, now: &str) -> (r: Vec<RegisteredTmuxSession>)
    ensures
        text::all_views(r@) == configured_all(config@, now@),
{
    let sessions = &config.monitors.tmux.sessions;
    let mut out: Vec<RegisteredTmuxSession> = Vec::new();
    let mut i: usize = 0;
    while i < sessions.len()
        invariant
            i <= sessions.len(),
            sessions == config.monitors.tmux.sessions,
            text::all_views(out@) == configured_all(config@, now@).take(i as int),
        decreases sessions.len() - i,
    {
        let ghost before = text::all_views(out@);
        let one = RegisteredTmuxSession::from_monitor(&sessions[i], now.to_owned());
        let ghost view = one@;
        out.push(one);
        assert(text::all_views(out@) =~= before.push(view));
        assert(text::all_views(out@) =~= configured_all(config@, now@).take(i + 1));
        i = i + 1;
    }
    assert(configured_all(config@, now@).take(i as int) =~= configured_all(config@, now@));
    out
}

// ---------------------------------------------------------------------------
// The registry
// ---------------------------------------------------------------------------

/// A registration that stays when the active sessions of the configuration are
/// taken over.
pub open spec fn stays(active: Registry) -> spec_fn((Seq<char>, RegistrationView)) -> bool {
    |entry: (Seq<char>, RegistrationView)|
        !entry.1.from_config() || table::lookup(active, entry.0) is Some
}

/// A registration as it enters the registry in the place of another.
pub open spec fn taking_over(
    registration: RegistrationView,
    present: Option<RegistrationView>,
) -> RegistrationView {
    match present {
        Some(old_one) => if old_one.from_config() {
            RegistrationView {
                registered_at: old_one.registered_at,
                parent_process: old_one.parent_process,
                ..registration
            }
        } else {
            registration
        },
        None => registration,
    }
}

/// A registry that takes over some active sessions, one after the other.
pub open spec fn merged(registry: Registry, active: Registry) -> Registry
    decreases active.len(),
{
    if active.len() == 0 {
        registry
    } else {
        let so_far = merged(registry, active.drop_last());
        let present = table::lookup(so_far, active.last().0);
        if present matches Some(old_one) && old_one.active_wrapper_monitor {
            so_far
        } else {
            table::put(so_far, active.last().0, taking_over(active.last().1, present))
        }
    }
}

/// Takes the active sessions of the configuration over into a registry: those
/// that are no longer active go, and a session that a wrapper watches stays.
pub fn merge_active_config_registrations(
    registry: &mut Vec<(String, RegisteredTmuxSession)>,
    active_config: &Vec<(String, RegisteredTmuxSession)>,
)
    ensures
        table::pairs(final(registry)@) == merged(
            table::kept(table::pairs(old(registry)@), stays(table::pairs(active_config@))),
            table::pairs(active_config@),
        ),
{
    let ghost before = table::pairs(registry@);
    let ghost active = table::pairs(active_config@);
    let mut marks: Vec<bool> = Vec::new();
    let mut i: usize = 0;
    while i < registry.len()
        invariant
            i <= registry.len(),
            registry@ == old(registry)@,
            before == table::pairs(registry@),
            active == table::pairs(active_config@),
            marks@.len() == i,
            forall|k: int| 0 <= k < i ==> #[trigger] marks@[k] == (stays(active))(before[k]),
        decreases registry.len() - i,
    {
        let one = &registry[i].1;
        let mark = one.active_wrapper_monitor || !matches!(
            one.registration_source,
            RegistrationSource::ConfigMonitor
        ) || find_entry(active_config, registry[i].0.as_str()).is_some();
        marks.push(mark);
        i = i + 1;
    }
    keep_marked(registry, &marks, Ghost(stays(active)));
    let ghost rest = table::pairs(registry@);
    let mut j: usize = 0;
    while j < active_config.len()
        invariant
            j <= active_config.len(),
            active == table::pairs(active_config@),
            table::pairs(registry@) == merged(rest, active.take(j as int)),
        decreases active_config.len() - j,
    {
        assert(active.take(j + 1).drop_last() =~= active.take(j as int));
        assert(active.take(j + 1).last() == active[j as int]);
        let session = &active_config[j].0;
        let mut registration = active_config[j].1.clone();
        let mut watched = false;
        match find_entry(registry, session.as_str()) {
            Some(existing) => {
                if existing.active_wrapper_monitor {
                    watched = true;
                } else if matches!(
                    existing.registration_source,
                    RegistrationSource::ConfigMonitor
                ) {
                    registration.registered_at = existing.registered_at.clone();
                    registration.parent_process = copy_parent(&existing.parent_process);
                }
            },
            None => {},
        }
        if !watched {
            set_entry(registry, session.as_str(), registration);
        }
        j = j + 1;
    }
    assert(active.take(j as int) =~= active);
}

/// An entry whose session is there.
pub open spec fn is_there(available: Seq<Seq<char>>) -> spec_fn(
    (Seq<char>, RegistrationView),
) -> bool {
    |entry: (Seq<char>, RegistrationView)| available.contains(entry.0)
}

/// The sessions of a configuration that are there, with their registrations.
pub open spec fn active_sessions(
    config: AppSettingsView,
    available: Seq<Seq<char>>,
    now: Seq<char>,
) -> Registry {
    table::kept(
        registrations_in(resolved(configured_all(config, now), Some(available))),
        is_there(available),
    )
}

/// Brings a registry up to date with the sessions that are there.
pub fn sync_active_config_registrations(
    config: &AppConfig,
    registry: &mut Vec<(String, RegisteredTmuxSession)>,
    available_sessions: &Vec<String>,
    now: &str,
)
    ensures
        table::pairs(final(registry)@) == ({
            let active = active_sessions(config@, text::views(available_sessions@), now@);
            merged(table::kept(table::pairs(old(registry)@), stays(active)), active)
        }),
{
    let configured_sessions = configured_registrations(config, now);
    let mut active = resolve_monitored_sessions(&configured_sessions, Some(available_sessions));
    let ghost all = table::pairs(active@);
    let ghost names = text::views(available_sessions@);
    let mut marks: Vec<bool> = Vec::new();
    let mut i: usize = 0;
    while i < active.len()
        invariant
            i <= active.len(),
            all == table::pairs(active@),
            names == text::views(available_sessions@),
            marks@.len() == i,
            forall|k: int| 0 <= k < i ==> #[trigger] marks@[k] == (is_there(names))(all[k]),
        decreases active.len() - i,
    {
        marks.push(list_has(available_sessions, active[i].0.as_str()));
        i = i + 1;
    }
    keep_marked(&mut active, &marks, Ghost(is_there(names)));
    merge_active_config_registrations(registry, &active);
}

/// The registrations of a table of entries.
pub open spec fn values(m: Registry) -> Seq<RegistrationView> {
    Seq::new(m.len(), |i: int| m[i].1)
}

/// The registrations of a registry, in the order of the sessions' names.
pub fn sorted_registry_snapshot(registry: &Vec<(String, RegisteredTmuxSession)>) -> (r: Vec<
    RegisteredTmuxSession,
>)
    ensures
        text::all_views(r@) == values(table::collected(table::pairs(registry@))),
        table::in_order(table::collected(table::pairs(registry@))),
{
    let ghost all = table::pairs(registry@);
    let mut sessions: Vec<(String, RegisteredTmuxSession)> = Vec::new();
    let mut i: usize = 0;
    assert(table::pairs(sessions@) =~= table::collected(all.take(0)));
    while i < registry.len()
        invariant
            i <= registry.len(),
            all == table::pairs(registry@),
            table::pairs(sessions@) == table::collected(all.take(i as int)),
        decreases registry.len() - i,
    {
        assert(all.take(i + 1).drop_last() =~= all.take(i as int));
        set_entry(&mut sessions, registry[i].0.as_str(), registry[i].1.clone());
        i = i + 1;
    }
    assert(all.take(i as int) =~= all);
    proof {
        table::law_collected_is_in_order(all);
    }
    copy_values(&sessions)
}

fn copy_values(registry: &Vec<(String, RegisteredTmuxSession)>) -> (r: Vec<RegisteredTmuxSession>)
    ensures
        text::all_views(r@) == values(table::pairs(registry@)),
{
    let ghost all = values(table::pairs(registry@));
    let mut out: Vec<RegisteredTmuxSession> = Vec::new();
    let mut i: usize = 0;
    while i < registry.len()
        invariant
            i <= registry.len(),
            all == values(table::pairs(registry@)),
            text::all_views(out@) == all.take(i as int),
        decreases registry.len() - i,
    {
        let ghost before = text::all_views(out@);
        let one = registry[i].1.clone();
        let ghost view = one@;
        out.push(one);
        assert(text::all_views(out@) =~= before.push(view));
        assert(text::all_views(out@) =~= all.take(i + 1));
        i = i + 1;
    }
    assert(all.take(i as int) =~= all);
    out
}

// ---------------------------------------------------------------------------
// Laws
// ---------------------------------------------------------------------------

/// The snapshot of a registry holds each registration once, in the ascending order of
/// the names, and does not depend on the order in which the registry holds them.
pub proof fn law_snapshot_is_sorted(m: Registry, other: Registry)
    requires
        table::has_no_key_twice(m),
        forall|key: Seq<char>| #[trigger] table::lookup(m, key) == table::lookup(other, key),
    ensures
        table::in_order(table::collected(m)),
        values(table::collected(m)).len() == m.len(),
        forall|key: Seq<char>| #[trigger]
            table::lookup(table::collected(m), key) == table::lookup(m, key),
        values(table::collected(other)) == values(table::collected(m)),
{
    table::law_collected_is_in_order(m);
    table::law_collected_is_in_order(other);
    table::law_collected_keeps_contents(m);
    table::law_collected_keeps_contents(other);
    assert forall|key: Seq<char>| #[trigger]
        table::lookup(table::collected(m), key) == table::lookup(table::collected(other), key) by {
        assert(table::lookup(m, key) == table::lookup(other, key));
    }
    table::law_same_contents_same_table(table::collected(m), table::collected(other));
}

/// The session has a registration, and the pattern does not rank above it.
pub open spec fn settled(m: Resolved, session: Seq<char>, pattern: Seq<char>) -> bool {
    table::lookup(m, session) matches Some(present) && !ranks_above(
        specificity_of(pattern),
        present.specificity,
    )
}

proof fn lemma_settled_stays(
    m: Resolved,
    other: Seq<char>,
    specificity: MonitorSpecificity,
    registration: RegistrationView,
    session: Seq<char>,
    pattern: Seq<char>,
)
    requires
        settled(m, session, pattern),
    ensures
        settled(with_resolved(m, other, specificity, registration), session, pattern),
{
    let entry = ResolvedView { specificity, registration };
    table::law_put_then_lookup(m, other, entry, session);
}

proof fn lemma_all_settled_stays(
    m: Resolved,
    sessions: Seq<Seq<char>>,
    registration: RegistrationView,
    session: Seq<char>,
    pattern: Seq<char>,
)
    requires
        settled(m, session, pattern),
    ensures
        settled(with_all_resolved(m, sessions, registration), session, pattern),
    decreases sessions.len(),
{
    if sessions.len() > 0 {
        let front = sessions.drop_last();
        lemma_all_settled_stays(m, front, registration, session, pattern);
        lemma_settled_stays(
            with_all_resolved(m, front, registration),
            sessions.last(),
            specificity_of(registration.session),
            RegistrationView { session: sessions.last(), ..registration },
            session,
            pattern,
        );
    }
}

proof fn lemma_settles(
    m: Resolved,
    sessions: Seq<Seq<char>>,
    registration: RegistrationView,
    session: Seq<char>,
)
    requires
        sessions.contains(session),
    ensures
        settled(with_all_resolved(m, sessions, registration), session, registration.session),
    decreases sessions.len(),
{
    let front = sessions.drop_last();
    let so_far = with_all_resolved(m, front, registration);
    let specificity = specificity_of(registration.session);
    let own = RegistrationView { session: sessions.last(), ..registration };
    if sessions.last() == session {
        table::law_put_then_lookup(
            so_far,
            session,
            ResolvedView { specificity, registration: own },
            session,
        );
    } else {
        let i = choose|i: int| 0 <= i < sessions.len() && sessions[i] == session;
        assert(front[i] == session);
        lemma_settles(m, front, registration, session);
        lemma_settled_stays(
            so_far,
            sessions.last(),
            specificity,
            own,
            session,
            registration.session,
        );
    }
}

/// Every session for which a registration stands is watched, and none of the
/// registrations that stand for it describes it more closely than the one under
/// which it is watched.
pub proof fn law_closest_registration_wins(
    registrations: Seq<RegistrationView>,
    available: Option<Seq<Seq<char>>>,
    k: int,
    session: Seq<char>,
)
    requires
        0 <= k < registrations.len(),
        stands_for(registrations[k], available).contains(session),
    ensures
        settled(resolved(registrations, available), session, registrations[k].session),
    decreases registrations.len(),
{
    let front = registrations.drop_last();
    let last = registrations.last();
    if k < front.len() {
        assert(front[k] == registrations[k]);
        law_closest_registration_wins(front, available, k, session);
        lemma_all_settled_stays(
            resolved(front, available),
            stands_for(last, available),
            last,
            session,
            registrations[k].session,
        );
    } else {
        lemma_settles(
            resolved(front, available),
            stands_for(last, available),
            last,
            session,
        );
    }
}

proof fn lemma_merged_keeps_watched(
    registry: Registry,
    active: Registry,
    session: Seq<char>,
    registration: RegistrationView,
)
    requires
        table::lookup(registry, session) == Some(registration),
        registration.active_wrapper_monitor,
    ensures
        table::lookup(merged(registry, active), session) == Some(registration),
    decreases active.len(),
{
    if active.len() > 0 {
        let so_far = merged(registry, active.drop_last());
        lemma_merged_keeps_watched(registry, active.drop_last(), session, registration);
        let present = table::lookup(so_far, active.last().0);
        table::law_put_then_lookup(
            so_far,
            active.last().0,
            taking_over(active.last().1, present),
            session,
        );
    }
}

/// A session that a wrapper watches keeps its registration, whatever the
/// configuration says.
pub proof fn law_watched_session_keeps_its_registration(
    registry: Registry,
    active: Registry,
    session: Seq<char>,
    registration: RegistrationView,
)
    requires
        table::in_order(registry),
        table::lookup(registry, session) == Some(registration),
        registration.active_wrapper_monitor,
    ensures
        table::lookup(merged(table::kept(registry, stays(active)), active), session) == Some(
            registration,
        ),
{
    table::law_kept_then_lookup(registry, stays(active), session);
    lemma_merged_keeps_watched(
        table::kept(registry, stays(active)),
        active,
        session,
        registration,
    );
}

proof fn lemma_merged_keeps_order(registry: Registry, active: Registry)
    requires
        table::in_order(registry),
    ensures
        table::in_order(merged(registry, active)),
    decreases active.len(),
{
    if active.len() > 0 {
        let so_far = merged(registry, active.drop_last());
        lemma_merged_keeps_order(registry, active.drop_last());
        table::law_put_keeps_order(
            so_far,
            active.last().0,
            taking_over(active.last().1, table::lookup(so_far, active.last().0)),
        );
    }
}

/// Taking active sessions over keeps a registry in the order of the names.
pub proof fn law_merge_keeps_order(registry: Registry, active: Registry)
    requires
        table::in_order(registry),
    ensures
        table::in_order(merged(table::kept(registry, stays(active)), active)),
{
    table::law_kept_keeps_order(registry, stays(active));
    lemma_merged_keeps_order(table::kept(registry, stays(active)), active);
}

proof fn lemma_untouched(registry: Registry, active: Registry, session: Seq<char>)
    requires
        table::lookup(active, session) is None,
    ensures
        table::lookup(merged(registry, active), session) == table::lookup(registry, session),
    decreases active.len(),
{
    if active.len() > 0 {
        lemma_untouched(registry, active.drop_last(), session);
        let so_far = merged(registry, active.drop_last());
        table::law_put_then_lookup(
            so_far,
            active.last().0,
            taking_over(active.last().1, table::lookup(so_far, active.last().0)),
            session,
        );
    }
}

/// A session of the configuration that is no longer active is no longer
/// registered, and one that something else registered stays as it is.
pub proof fn law_only_active_config_sessions_stay(
    registry: Registry,
    active: Registry,
    session: Seq<char>,
)
    requires
        table::in_order(registry),
        table::lookup(active, session) is None,
    ensures
        table::lookup(merged(table::kept(registry, stays(active)), active), session) == (
        match table::lookup(registry, session) {
            Some(registration) => if registration.from_config() {
                None
            } else {
                Some(registration)
            },
            None => None,
        }),
{
    table::law_kept_then_lookup(registry, stays(active), session);
    lemma_untouched(table::kept(registry, stays(active)), active, session);
}

} // verus!
