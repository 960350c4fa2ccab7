//! Routing: which deliveries an event leads to.
use vstd::prelude::*;
use vstd::string::*;

use std::sync::Arc;

use crate::compose::{cat2, cat3, cat4};
use crate::config::{default_sink_name, AppConfig, AppSettingsView, RouteRule, RouteView};
use crate::events;
use crate::events::{EventView, IncomingEvent, MessageFormat, RoutingMetadata, RoutingView};
use crate::glob;
use crate::glob::glob_match;
use crate::json;
use crate::json::Json;
use crate::labels::first_of;
use crate::render;
use crate::render::DefaultRenderer;
use crate::table;
use crate::table::find_entry;
use crate::template;
use crate::template::render_template;
use crate::text;
use crate::text::{
    contains_char, copy_opt, is_blank, same, starts_with, strip_prefix, trim,
};

verus! {

broadcast use {crate::json::group_trees, crate::text::views_push};

// ---------------------------------------------------------------------------
// Deliveries
// ---------------------------------------------------------------------------

/// Where a message goes.
#[derive(Debug, PartialEq, Eq)]
pub enum SinkTarget {
    DiscordChannel(String),
    DiscordWebhook(String),
    SlackWebhook(String),
}

/// Where a message goes.
pub enum TargetView {
    DiscordChannel(Seq<char>),
    DiscordWebhook(Seq<char>),
    SlackWebhook(Seq<char>),
}

impl View for SinkTarget {
    type V = TargetView;

    open spec fn view(&self) -> TargetView {
        match self {
            SinkTarget::DiscordChannel(s) => TargetView::DiscordChannel(s@),
            SinkTarget::DiscordWebhook(s) => TargetView::DiscordWebhook(s@),
            SinkTarget::SlackWebhook(s) => TargetView::SlackWebhook(s@),
        }
    }
}

impl Clone for SinkTarget {
    fn clone(&self) -> (r: Self)
        ensures
            r@ == self@,
    {
        match self {
            SinkTarget::DiscordChannel(s) => SinkTarget::DiscordChannel(s.clone()),
            SinkTarget::DiscordWebhook(s) => SinkTarget::DiscordWebhook(s.clone()),
            SinkTarget::SlackWebhook(s) => SinkTarget::SlackWebhook(s.clone()),
        }
    }
}

/// A message on its way: where it goes and how it is laid out.
#[derive(Debug, PartialEq, Eq)]
pub struct ResolvedDelivery {
    pub sink: String,
    pub target: SinkTarget,
    pub format: MessageFormat,
    pub mention: Option<String>,
    pub template: Option<String>,
    pub allow_dynamic_tokens: bool,
}

/// A message on its way: where it goes and how it is laid out.
pub struct DeliveryView {
    pub sink: Seq<char>,
    pub target: TargetView,
    pub format: MessageFormat,
    pub mention: Option<Seq<char>>,
    pub template: Option<Seq<char>>,
    pub allow_dynamic_tokens: bool,
}

impl View for ResolvedDelivery {
    type V = DeliveryView;

    open spec fn view(&self) -> DeliveryView {
        DeliveryView {
            sink: self.sink@,
            target: self.target@,
            format: self.format,
            mention: text::opt_text(self.mention),
            template: text::opt_text(self.template),
            allow_dynamic_tokens: self.allow_dynamic_tokens,
        }
    }
}

impl Clone for ResolvedDelivery {
    fn clone(&self) -> (r: Self)
        ensures
            r@ == self@,
    {
        ResolvedDelivery {
            sink: self.sink.clone(),
            target: self.target.clone(),
            format: self.format,
            mention: copy_opt(&self.mention),
            template: copy_opt(&self.template),
            allow_dynamic_tokens: self.allow_dynamic_tokens,
        }
    }
}

// ---------------------------------------------------------------------------
// Which routes fit
// ---------------------------------------------------------------------------

/// The tokens of an event, with what they stand for.
pub type Tokens = Seq<(Seq<char>, Seq<char>)>;

/// A stage that agents and sessions have in common.
pub open spec fn is_shared_stage(stage: Seq<char>) -> bool {
    stage == "started"@ || stage == "blocked"@ || stage == "finished"@ || stage == "failed"@
}

/// The stage that a kind of event of a family tells of, where agents and sessions have
/// it in common.
pub open spec fn shared_stage(kind: Seq<char>, family: Seq<char>) -> Option<Seq<char>> {
    match text::after_prefix(kind, family) {
        Some(stage) => if is_shared_stage(stage) {
            Some(stage)
        } else {
            None
        },
        None => None,
    }
}

/// The names by which routes may call a kind of event. What agents and sessions have in
/// common goes by the names of both.
pub open spec fn candidates(kind: Seq<char>) -> Seq<Seq<char>> {
    if kind == "git.commit"@ {
        seq!["git.commit"@, "github.commit"@]
    } else if kind == "git.branch-changed"@ {
        seq!["git.branch-changed"@, "github.branch-changed"@]
    } else if let Some(stage) = shared_stage(kind, "agent."@) {
        seq![kind, "agent.*"@, "session.*"@, "session."@ + stage]
    } else if let Some(stage) = shared_stage(kind, "session."@) {
        seq![kind, "session.*"@, "agent.*"@, "agent."@ + stage]
    } else if kind == "session.retry-needed"@ || kind == "session.pr-created"@ || kind
        == "session.test-started"@ || kind == "session.test-finished"@ || kind
        == "session.test-failed"@ || kind == "session.handoff-needed"@ {
        seq![kind, "session.*"@]
    } else if kind == "tmux.content_changed"@ || kind == "tmux.heartbeat"@ {
        seq![kind, "tmux.*"@]
    } else {
        seq![kind]
    }
}

/// A pattern fits one of the names of a kind.
pub open spec fn kind_fits(pattern: Seq<char>, kind: Seq<char>) -> bool {
    exists|i: int| 0 <= i < candidates(kind).len() && #[trigger] glob::fits(pattern, candidates(kind)[i])
}

/// The tokens pass a filter: each of its keys is there and fits its pattern.
pub open spec fn passes(filter: Tokens, tokens: Tokens) -> bool {
    forall|i: int|
        0 <= i < filter.len() ==> passes_one(#[trigger] filter[i], tokens)
}

/// The tokens pass one entry of a filter.
pub open spec fn passes_one(entry: (Seq<char>, Seq<char>), tokens: Tokens) -> bool {
    match table::lookup(tokens, entry.0) {
        Some(actual) => glob::fits(entry.1, actual),
        None => false,
    }
}

/// A route fits an event.
pub open spec fn route_fits(route: RouteView, kind: Seq<char>, tokens: Tokens) -> bool {
    kind_fits(route.event, kind) && passes(route.filter, tokens)
}

/// A token that is there and says something.
pub open spec fn says(tokens: Tokens, key: Seq<char>) -> bool {
    match table::lookup(tokens, key) {
        Some(value) => !text::blank(value),
        None => false,
    }
}

/// An event of a session or a terminal that says where it belongs: routes that
/// go by the name of the session alone are then passed over.
pub open spec fn has_metadata(kind: Seq<char>, tokens: Tokens) -> bool {
    (text::begins_with(kind, "session."@) || text::begins_with(kind, "tmux."@)) && (says(
        tokens,
        "project"@,
    ) || says(tokens, "repo_name"@) || says(tokens, "repo_path"@) || says(
        tokens,
        "worktree_path"@,
    ) || says(tokens, "session_id"@))
}

/// An entry of a filter that goes by a part of the session's name.
pub open spec fn by_session_name(entry: (Seq<char>, Seq<char>)) -> bool {
    (entry.0 == "session"@ || entry.0 == "session_name"@) && entry.1.contains('*')
}

/// A route that goes by parts of the session's name alone.
pub open spec fn is_heuristic(route: RouteView) -> bool {
    route.filter.len() > 0 && forall|i: int|
        0 <= i < route.filter.len() ==> by_session_name(#[trigger] route.filter[i])
}

/// The routes that an event takes, in their order.
pub open spec fn matching(routes: Seq<RouteView>, kind: Seq<char>, tokens: Tokens) -> Seq<RouteView>
    decreases routes.len(),
{
    if routes.len() == 0 {
        routes
    } else {
        let before = matching(routes.drop_last(), kind, tokens);
        let route = routes.last();
        if route_fits(route, kind, tokens) && !(has_metadata(kind, tokens) && is_heuristic(route)) {
            before.push(route)
        } else {
            before
        }
    }
}

fn read_shared_stage<'a>(kind: &'a str, family: &str) -> (r: Option<&'a str>)
    ensures
        text::opt_str(r) == shared_stage(kind@, family@),
{
    match strip_prefix(kind, family) {
        Some(stage) => {
            if same(stage, "started") || same(stage, "blocked") || same(stage, "finished") || same(
                stage,
                "failed",
            ) {
                Some(stage)
            } else {
                None
            }
        },
        None => None,
    }
}

fn route_candidates(kind: &str) -> (r: Vec<String>)
    ensures
        text::views(r@) == candidates(kind@),
{
    let r = if same(kind, "git.commit") {
        vec!["git.commit".to_owned(), "github.commit".to_owned()]
    } else if same(kind, "git.branch-changed") {
        vec!["git.branch-changed".to_owned(), "github.branch-changed".to_owned()]
    } else if let Some(stage) = read_shared_stage(kind, "agent.") {
        vec![
            kind.to_owned(),
            "agent.*".to_owned(),
            "session.*".to_owned(),
            cat2("session.", stage),
        ]
    } else if let Some(stage) = read_shared_stage(kind, "session.") {
        vec![
            kind.to_owned(),
            "session.*".to_owned(),
            "agent.*".to_owned(),
            cat2("agent.", stage),
        ]
    } else if same(kind, "session.retry-needed") || same(kind, "session.pr-created") || same(
        kind,
        "session.test-started",
    ) || same(kind, "session.test-finished") || same(kind, "session.test-failed") || same(
        kind,
        "session.handoff-needed",
    ) {
        vec![kind.to_owned(), "session.*".to_owned()]
    } else if same(kind, "tmux.content_changed") || same(kind, "tmux.heartbeat") {
        vec![kind.to_owned(), "tmux.*".to_owned()]
    } else {
        vec![kind.to_owned()]
    };
    assert(text::views(r@) =~= candidates(kind@));
    r
}

fn fits_kind(pattern: &str, kind: &str) -> (r: bool)
    ensures
        r == kind_fits(pattern@, kind@),
{
    let names = route_candidates(kind);
    let ghost all = candidates(kind@);
    let mut i: usize = 0;
    assert(all.len() == names@.len());
    while i < names.len()
        invariant
            i <= names.len() == all.len(),
            all == candidates(kind@),
            text::views(names@) == all,
            forall|k: int| 0 <= k < i ==> !#[trigger] glob::fits(pattern@, all[k]),
        decreases names.len() - i,
    {
        assert(names@[i as int]@ == all[i as int]);
        if glob_match(pattern, names[i].as_str()) {
            return true;
        }
        i = i + 1;
    }
    false
}

fn passes_filter(filter: &Vec<(String, String)>, context: &Vec<(String, String)>) -> (r: bool)
    ensures
        r == passes(table::pairs(filter@), table::pairs(context@)),
{
    let ghost all = table::pairs(filter@);
    let ghost tokens = table::pairs(context@);
    let mut i: usize = 0;
    while i < filter.len()
        invariant
            i <= filter.len(),
            all == table::pairs(filter@),
            tokens == table::pairs(context@),
            forall|k: int| 0 <= k < i ==> passes_one(#[trigger] all[k], tokens),
        decreases filter.len() - i,
    {
        assert(all[i as int] == (filter@[i as int].0@, filter@[i as int].1@));
        let fits = match find_entry(context, filter[i].0.as_str()) {
            Some(actual) => glob_match(filter[i].1.as_str(), actual.as_str()),
            None => false,
        };
        if !fits {
            assert(!passes_one(all[i as int], tokens));
            return false;
        }
        i = i + 1;
    }
    true
}

fn route_matches(route: &RouteRule, kind: &str, context: &Vec<(String, String)>) -> (r: bool)
    ensures
        r == route_fits(route@, kind@, table::pairs(context@)),
{
    fits_kind(route.event.as_str(), kind) && passes_filter(&route.filter, context)
}

fn token_says(context: &Vec<(String, String)>, key: &str) -> (r: bool)
    ensures
        r == says(table::pairs(context@), key@),
{
    match find_entry(context, key) {
        Some(value) => !is_blank(value.as_str()),
        None => false,
    }
}

fn prefers_metadata_first_routing(kind: &str, context: &Vec<(String, String)>) -> (r: bool)
    ensures
        r == has_metadata(kind@, table::pairs(context@)),
{
    (starts_with(kind, "session.") || starts_with(kind, "tmux.")) && (token_says(context, "project")
        || token_says(context, "repo_name") || token_says(context, "repo_path") || token_says(
        context,
        "worktree_path",
    ) || token_says(context, "session_id"))
}

fn route_uses_session_name_prefix_heuristics(route: &RouteRule) -> (r: bool)
    ensures
        r == is_heuristic(route@),
{
    let ghost all = route@.filter;
    assert(all.len() == route.filter@.len());
    if route.filter.len() == 0 {
        return false;
    }
    let mut i: usize = 0;
    while i < route.filter.len()
        invariant
            i <= route.filter.len(),
            all == route@.filter,
            forall|k: int| 0 <= k < i ==> by_session_name(#[trigger] all[k]),
        decreases route.filter.len() - i,
    {
        let key = route.filter[i].0.as_str();
        let expected = route.filter[i].1.as_str();
        assert(all[i as int] == (key@, expected@));
        if !((same(key, "session") || same(key, "session_name")) && contains_char(expected, '*')) {
            assert(!by_session_name(all[i as int]));
            return false;
        }
        i = i + 1;
    }
    true
}

/// What some routes are.
pub open spec fn route_views(routes: Seq<&RouteRule>) -> Seq<RouteView> {
    Seq::new(routes.len(), |i: int| routes[i]@)
}

fn matching_routes_for<'a>(
    routes: &'a Vec<RouteRule>,
    kind: &str,
    context: &Vec<(String, String)>,
) -> (r: Vec<&'a RouteRule>)
    ensures
        route_views(r@) == matching(text::all_views(routes@), kind@, table::pairs(context@)),
{
    let ghost all = text::all_views(routes@);
    let ghost tokens = table::pairs(context@);
    let prefer_metadata = prefers_metadata_first_routing(kind, context);
    let mut out: Vec<&'a RouteRule> = Vec::new();
    let mut i: usize = 0;
    assert(route_views(out@) =~= matching(all.take(0), kind@, tokens));
    while i < routes.len()
        invariant
            i <= routes.len(),
            all == text::all_views(routes@),
            tokens == table::pairs(context@),
            prefer_metadata == has_metadata(kind@, tokens),
            route_views(out@) == matching(all.take(i as int), kind@, tokens),
        decreases routes.len() - i,
    {
        let route = &routes[i];
        assert(all.take(i + 1).drop_last() =~= all.take(i as int));
        assert(all.take(i + 1).last() == route@);
        if route_matches(route, kind, context) && !(prefer_metadata
            && route_uses_session_name_prefix_heuristics(route)) {
            let ghost before = route_views(out@);
            out.push(route);
            assert(route_views(out@) =~= before.push(route@));
        }
        i = i + 1;
    }
    assert(all.take(i as int) =~= all);
    out
}

// ---------------------------------------------------------------------------
// What a route leads to
// ---------------------------------------------------------------------------

/// The sink of a delivery.
pub open spec fn sink_for(route: Option<RouteView>) -> Seq<char> {
    match route {
        Some(r) => r.sink_used(),
        None => "discord"@,
    }
}

/// The channel of a delivery. A message of the user's own goes to the channel it
/// names before any other; every other event goes by its route first.
pub open spec fn channel_for(
    event: EventView,
    route: Option<RouteView>,
    default: Option<Seq<char>>,
) -> Option<Seq<char>> {
    let by_route = match route {
        Some(r) => r.channel,
        None => None,
    };
    if events::canonical_kind(event.kind) == "custom"@ {
        text::or_else(event.channel, text::or_else(by_route, default))
    } else {
        text::or_else(by_route, text::or_else(event.channel, default))
    }
}

/// Where a delivery goes.
pub open spec fn target_of(
    event: EventView,
    route: Option<RouteView>,
    default: Option<Seq<char>>,
) -> Result<TargetView, Seq<char>> {
    let sink = sink_for(route);
    let kind = events::canonical_kind(event.kind);
    if sink == "discord"@ {
        match (match route {
            Some(r) => r.discord_target(),
            None => None,
        }) {
            Some(webhook) => Ok(TargetView::DiscordWebhook(webhook)),
            None => match channel_for(event, route, default) {
                Some(channel) => Ok(TargetView::DiscordChannel(channel)),
                None => Err("no channel configured for event "@ + kind),
            },
        }
    } else if sink == "slack"@ {
        match (match route {
            Some(r) => r.slack_target(),
            None => None,
        }) {
            Some(webhook) => Ok(TargetView::SlackWebhook(webhook)),
            None => Err("no Slack webhook configured for event "@ + kind),
        }
    } else {
        Err("unsupported sink '"@ + sink + "' for event "@ + kind)
    }
}

/// Some route that allows dynamic tokens leads to a channel.
pub open spec fn channel_allows(routes: Seq<RouteView>, channel: Seq<char>) -> bool {
    exists|i: int|
        0 <= i < routes.len() && (#[trigger] routes[i]).allow_dynamic_tokens && routes[i].channel
            == Some(channel)
}

/// Whether dynamic tokens are filled in: as the route says, and for a message of
/// the user's own that no route takes, as some route to its channel says.
pub open spec fn dynamic_allowed(
    routes: Seq<RouteView>,
    event: EventView,
    route: Option<RouteView>,
) -> bool {
    match route {
        Some(r) => r.allow_dynamic_tokens,
        None => match event.channel {
            Some(channel) => events::canonical_kind(event.kind) == "custom"@ && channel_allows(
                routes,
                channel,
            ),
            None => false,
        },
    }
}

/// The delivery to which a route leads an event, or none.
pub open spec fn delivery_of(
    config: AppSettingsView,
    event: EventView,
    route: Option<RouteView>,
) -> Result<DeliveryView, Seq<char>> {
    match target_of(event, route, config.defaults.channel) {
        Err(e) => Err(e),
        Ok(target) => Ok(
            DeliveryView {
                sink: sink_for(route),
                target,
                format: match (event.format, route) {
                    (Some(f), _) => f,
                    (None, Some(r)) => match r.format {
                        Some(f) => f,
                        None => config.defaults.format,
                    },
                    (None, None) => config.defaults.format,
                },
                mention: match route {
                    Some(r) => text::or_else(r.mention, event.mention),
                    None => event.mention,
                },
                template: match route {
                    Some(r) => text::or_else(event.template, r.template),
                    None => event.template,
                },
                allow_dynamic_tokens: dynamic_allowed(config.routes, event, route),
            },
        ),
    }
}

/// The deliveries to which some routes lead an event; the first error among them.
pub open spec fn deliveries_of(
    config: AppSettingsView,
    event: EventView,
    routes: Seq<RouteView>,
) -> Result<Seq<DeliveryView>, Seq<char>>
    decreases routes.len(),
{
    if routes.len() == 0 {
        Ok(Seq::empty())
    } else {
        match deliveries_of(config, event, routes.drop_last()) {
            Err(e) => Err(e),
            Ok(before) => match delivery_of(config, event, Some(routes.last())) {
                Err(e) => Err(e),
                Ok(delivery) => Ok(before.push(delivery)),
            },
        }
    }
}

/// The routes that an event takes.
pub open spec fn routes_of(config: AppSettingsView, event: EventView) -> Seq<RouteView> {
    matching(config.routes, events::canonical_kind(event.kind), template::context_of(event))
}

/// The deliveries to which an event leads: one for each route that it takes, and
/// one to the default where it takes none.
pub open spec fn resolved(config: AppSettingsView, event: EventView) -> Result<
    Seq<DeliveryView>,
    Seq<char>,
> {
    let routes = routes_of(config, event);
    if routes.len() == 0 {
        match delivery_of(config, event, None) {
            Err(e) => Err(e),
            Ok(delivery) => Ok(seq![delivery]),
        }
    } else {
        deliveries_of(config, event, routes)
    }
}

proof fn lemma_first_failure(
    config: AppSettingsView,
    event: EventView,
    routes: Seq<RouteView>,
    i: int,
)
    requires
        0 <= i < routes.len(),
        deliveries_of(config, event, routes.take(i)) is Ok,
        delivery_of(config, event, Some(routes[i])) is Err,
    ensures
        deliveries_of(config, event, routes) == Err::<Seq<DeliveryView>, Seq<char>>(
            delivery_of(config, event, Some(routes[i]))->Err_0,
        ),
    decreases routes.len(),
{
    if i == routes.len() - 1 {
        assert(routes.drop_last() =~= routes.take(i));
    } else {
        assert(routes.drop_last().take(i) =~= routes.take(i));
        lemma_first_failure(config, event, routes.drop_last(), i);
    }
}

/// Leads events to deliveries.
pub struct Router {
    pub config: Arc<AppConfig>,
}

/// What an optional route is.
pub open spec fn opt_route(route: Option<&RouteRule>) -> Option<RouteView> {
    match route {
        Some(r) => Some(r@),
        None => None,
    }
}

/// A target or an error, as they are.
pub open spec fn target_result(r: Result<SinkTarget, String>) -> Result<TargetView, Seq<char>> {
    match r {
        Ok(t) => Ok(t@),
        Err(e) => Err(e@),
    }
}

/// A delivery or an error, as they are.
pub open spec fn delivery_result(r: Result<ResolvedDelivery, String>) -> Result<
    DeliveryView,
    Seq<char>,
> {
    match r {
        Ok(d) => Ok(d@),
        Err(e) => Err(e@),
    }
}

/// Deliveries or an error, as they are.
pub open spec fn deliveries_result(r: Result<Vec<ResolvedDelivery>, String>) -> Result<
    Seq<DeliveryView>,
    Seq<char>,
> {
    match r {
        Ok(d) => Ok(text::all_views(d@)),
        Err(e) => Err(e@),
    }
}

impl Router {
    /// A router that goes by a configuration.
    pub fn new(config: Arc<AppConfig>) -> (r: Self)
        ensures
            r.config == config,
    {
        Router { config }
    }

    fn routes_for(&self, event: &IncomingEvent) -> (r: Vec<&RouteRule>)
        ensures
            route_views(r@) == routes_of(self.config@, event@),
    {
        let context = event.template_context();
        matching_routes_for(&self.config.routes, event.canonical_kind(), &context)
    }

    /// The deliveries to which an event leads.
    pub fn resolve(&self, event: &IncomingEvent) -> (r: Result<Vec<ResolvedDelivery>, String>)
        ensures
            deliveries_result(r) == resolved(self.config@, event@),
    {
        let routes = self.routes_for(event);
        let ghost all = route_views(routes@);
        let ghost config = self.config@;
        let mut out: Vec<ResolvedDelivery> = Vec::new();
        assert(all.len() == routes@.len());
        if routes.len() == 0 {
            match self.resolve_delivery(event, None) {
                Ok(delivery) => {
                    let ghost view = delivery@;
                    out.push(delivery);
                    assert(text::all_views(out@) =~= seq![view]);
                    return Ok(out);
                },
                Err(e) => return Err(e),
            }
        }
        let mut i: usize = 0;
        assert(text::all_views(out@) =~= Seq::<DeliveryView>::empty());
        while i < routes.len()
            invariant
                i <= routes.len(),
                routes.len() > 0,
                config == self.config@,
                all == route_views(routes@),
                all == routes_of(config, event@),
                deliveries_of(config, event@, all.take(i as int)) == Ok::<
                    Seq<DeliveryView>,
                    Seq<char>,
                >(text::all_views(out@)),
            decreases routes.len() - i,
        {
            assert(all.take(i + 1).drop_last() =~= all.take(i as int));
            assert(all.take(i + 1).last() == routes@[i as int]@);
            match self.resolve_delivery(event, Some(routes[i])) {
                Ok(delivery) => {
                    let ghost before = text::all_views(out@);
                    let ghost view = delivery@;
                    out.push(delivery);
                    assert(text::all_views(out@) =~= before.push(view));
                },
                Err(e) => {
                    proof {
                        lemma_first_failure(config, event@, all, i as int);
                    }
                    return Err(e);
                },
            }
            i = i + 1;
        }
        assert(all.take(i as int) =~= all);
        Ok(out)
    }

    fn resolve_delivery(&self, event: &IncomingEvent, route: Option<&RouteRule>) -> (r: Result<
        ResolvedDelivery,
        String,
    >)
        ensures
            delivery_result(r) == delivery_of(self.config@, event@, opt_route(route)),
    {
        let sink = match route {
            Some(rule) => rule.effective_sink().to_owned(),
            None => default_sink_name(),
        };
        let target = match self.target_for(event, route) {
            Ok(target) => target,
            Err(e) => return Err(e),
        };
        let format = match event.format {
            Some(f) => f,
            None => match route {
                Some(rule) => match rule.format {
                    Some(f) => f,
                    None => self.config.defaults.format,
                },
                None => self.config.defaults.format,
            },
        };
        let mention = match route {
            Some(rule) => first_of(copy_opt(&rule.mention), copy_opt(&event.mention)),
            None => copy_opt(&event.mention),
        };
        let template = match route {
            Some(rule) => first_of(copy_opt(&event.template), copy_opt(&rule.template)),
            None => copy_opt(&event.template),
        };
        Ok(
            ResolvedDelivery {
                sink,
                target,
                format,
                mention,
                template,
                allow_dynamic_tokens: self.allow_dynamic_tokens_for(event, route),
            },
        )
    }

    fn allow_dynamic_tokens_for(&self, event: &IncomingEvent, route: Option<&RouteRule>) -> (r: bool)
        ensures
            r == dynamic_allowed(self.config@.routes, event@, opt_route(route)),
    {
        match route {
            Some(rule) => return rule.allow_dynamic_tokens,
            None => {},
        }
        let channel = match &event.channel {
            Some(channel) => channel.as_str(),
            None => return false,
        };
        if !same(event.canonical_kind(), "custom") {
            return false;
        }
        let ghost all = self.config@.routes;
        let mut i: usize = 0;
        while i < self.config.routes.len()
            invariant
                i <= self.config.routes.len(),
                all == self.config@.routes,
                event@.channel == Some(channel@),
                route is None,
                events::canonical_kind(event@.kind) == "custom"@,
                forall|k: int|
                    0 <= k < i ==> !((#[trigger] all[k]).allow_dynamic_tokens && all[k].channel
                        == Some(channel@)),
            decreases self.config.routes.len() - i,
        {
            let rule = &self.config.routes[i];
            assert(all[i as int] == rule@);
            let leads_there = match &rule.channel {
                Some(c) => same(c.as_str(), channel),
                None => false,
            };
            if rule.allow_dynamic_tokens && leads_there {
                assert(channel_allows(all, channel@));
                return true;
            }
            i = i + 1;
        }
        assert(!channel_allows(all, channel@));
        false
    }

    fn target_for(&self, event: &IncomingEvent, route: Option<&RouteRule>) -> (r: Result<
        SinkTarget,
        String,
    >)
        ensures
            target_result(r) == target_of(
                event@,
                opt_route(route),
                self.config@.defaults.channel,
            ),
    {
        let kind = event.canonical_kind();
        let sink = match route {
            Some(rule) => rule.effective_sink(),
            None => "discord",
        };
        if same(sink, "discord") {
            let webhook = match route {
                Some(rule) => rule.discord_webhook_target(),
                None => None,
            };
            match webhook {
                Some(url) => return Ok(SinkTarget::DiscordWebhook(url.to_owned())),
                None => {},
            }
            let by_route = match route {
                Some(rule) => copy_opt(&rule.channel),
                None => None,
            };
            let by_event = copy_opt(&event.channel);
            let default = copy_opt(&self.config.defaults.channel);
            let channel = if same(kind, "custom") {
                first_of(by_event, first_of(by_route, default))
            } else {
                first_of(by_route, first_of(by_event, default))
            };
            match channel {
                Some(channel) => Ok(SinkTarget::DiscordChannel(channel)),
                None => Err(cat2("no channel configured for event ", kind)),
            }
        } else if same(sink, "slack") {
            let webhook = match route {
                Some(rule) => rule.slack_webhook_target(),
                None => None,
            };
            match webhook {
                Some(url) => Ok(SinkTarget::SlackWebhook(url.to_owned())),
                None => Err(cat2("no Slack webhook configured for event ", kind)),
            }
        } else {
            Err(cat4("unsupported sink '", sink, "' for event ", kind))
        }
    }
}

// ---------------------------------------------------------------------------
// The text of a delivery
// ---------------------------------------------------------------------------

/// The text of a delivery without the mention before it.
pub struct DeliveryBody {
    pub text: String,
    /// The text may hold tokens that have yet to be filled in, dynamic ones among
    /// them.
    pub dynamic: bool,
}

/// The text of a delivery without the mention before it.
pub struct BodyView {
    pub text: Seq<char>,
    pub dynamic: bool,
}

impl View for DeliveryBody {
    type V = BodyView;

    open spec fn view(&self) -> BodyView {
        BodyView { text: self.text@, dynamic: self.dynamic }
    }
}

/// The text of a delivery without the mention before it: the template, or else
/// the message of the event. Where dynamic tokens are allowed no token is filled
/// in yet.
pub open spec fn body_of(event: EventView, delivery: DeliveryView) -> Result<BodyView, Seq<char>> {
    match delivery.template {
        Some(t) => Ok(
            BodyView {
                text: if delivery.allow_dynamic_tokens {
                    t
                } else {
                    template::filled(t, template::context_of(event))
                },
                dynamic: delivery.allow_dynamic_tokens,
            },
        ),
        None => match render::rendered(event, delivery.format) {
            Err(e) => Err(e),
            Ok(s) => Ok(BodyView { text: s, dynamic: delivery.allow_dynamic_tokens }),
        },
    }
}

/// A text with the mention of a delivery before it.
pub open spec fn mentioned(mention: Option<Seq<char>>, content: Seq<char>) -> Seq<char> {
    match text::meaningful_opt(mention) {
        Some(m) => m + " "@ + content,
        None => content,
    }
}

/// A body or an error, as they are.
pub open spec fn body_result(r: Result<DeliveryBody, String>) -> Result<BodyView, Seq<char>> {
    match r {
        Ok(b) => Ok(b@),
        Err(e) => Err(e@),
    }
}

/// A text with the mention of a delivery before it.
pub fn with_delivery_mention(delivery: &ResolvedDelivery, content: String) -> (r: String)
    ensures
        r@ == mentioned(delivery@.mention, content@),
{
    match &delivery.mention {
        Some(mention) => {
            let m = trim(mention.as_str());
            if m.is_empty() {
                content
            } else {
                cat3(m, " ", content.as_str())
            }
        },
        None => content,
    }
}

impl Router {
    /// The text of a delivery without the mention before it.
    pub fn render_delivery_body(
        &self,
        event: &IncomingEvent,
        delivery: &ResolvedDelivery,
        renderer: &DefaultRenderer,
    ) -> (r: Result<DeliveryBody, String>)
        ensures
            body_result(r) == body_of(event@, delivery@),
    {
        let dynamic = delivery.allow_dynamic_tokens;
        match &delivery.template {
            Some(template) => {
                let text = if dynamic {
                    template.clone()
                } else {
                    render_template(template.as_str(), &event.template_context())
                };
                Ok(DeliveryBody { text, dynamic })
            },
            None => match renderer.render(event, &delivery.format) {
                Ok(text) => Ok(DeliveryBody { text, dynamic }),
                Err(e) => Err(e),
            },
        }
    }

    /// The text of a delivery in which no dynamic token is filled in.
    pub fn render_delivery(
        &self,
        event: &IncomingEvent,
        delivery: &ResolvedDelivery,
        renderer: &DefaultRenderer,
    ) -> (r: Result<String, String>)
        requires
            !delivery.allow_dynamic_tokens,
        ensures
            text::text_result(r) == (match body_of(event@, delivery@) {
                Ok(body) => Ok(mentioned(delivery@.mention, body.text)),
                Err(e) => Err(e),
            }),
    {
        match self.render_delivery_body(event, delivery, renderer) {
            Ok(body) => Ok(with_delivery_mention(delivery, body.text)),
            Err(e) => Err(e),
        }
    }
}

// ---------------------------------------------------------------------------
// The channel of a terminal session
// ---------------------------------------------------------------------------

/// The tokens of a terminal session's keyword events.
pub open spec fn tmux_tokens(session: Seq<char>, routing: RoutingView) -> Tokens {
    template::context_of(
        events::plain_event(
            "tmux.keyword"@,
            None,
            events::with_metadata(
                json::empty().with_text("session"@, session).with_text("keyword"@, ""@).with_text(
                    "line"@,
                    ""@,
                ),
                routing,
            ),
        ),
    )
}

/// The tokens of the start of a terminal session.
pub open spec fn session_tokens(session: Seq<char>, routing: RoutingView) -> Tokens {
    template::context_of(
        events::plain_event(
            "session.started"@,
            None,
            events::with_metadata(
                json::empty().with_text("session_name"@, session).with_text(
                    "session"@,
                    session,
                ).with_text("tool"@, "tmux"@),
                routing,
            ),
        ),
    )
}

/// The Discord channel of a route.
pub open spec fn own_channel(route: RouteView) -> Option<Seq<char>> {
    if route.sink_used() == "discord"@ {
        text::meaningful_opt(route.channel)
    } else {
        None
    }
}

/// A route that the events of a session take, as keyword events or as its start.
pub open spec fn session_route(
    route: RouteView,
    tmux: Tokens,
    session: Tokens,
    prefer_metadata: bool,
) -> bool {
    (route_fits(route, "tmux.keyword"@, tmux) || route_fits(route, "session.started"@, session))
        && !(prefer_metadata && is_heuristic(route))
}

/// The channel of the first route from a position that a session takes and that
/// has one.
pub open spec fn first_channel(
    routes: Seq<RouteView>,
    i: int,
    tmux: Tokens,
    session: Tokens,
    prefer_metadata: bool,
) -> Option<Seq<char>>
    decreases routes.len() - i,
{
    if i >= routes.len() {
        None
    } else if session_route(routes[i], tmux, session, prefer_metadata) && own_channel(
        routes[i],
    ) is Some {
        own_channel(routes[i])
    } else {
        first_channel(routes, i + 1, tmux, session, prefer_metadata)
    }
}

/// The channel of a terminal session.
pub open spec fn session_channel(
    config: AppSettingsView,
    name: Seq<char>,
    routing: RoutingView,
) -> Option<Seq<char>> {
    let tmux = tmux_tokens(name, routing);
    let session = session_tokens(name, routing);
    let prefer_metadata = has_metadata("tmux.keyword"@, tmux) || has_metadata(
        "session.started"@,
        session,
    );
    text::or_else(
        first_channel(config.routes, 0, tmux, session, prefer_metadata),
        config.defaults.channel,
    )
}

/// The channel of a terminal session of which nothing but the name is known.
pub fn resolve_tmux_session_channel(config: &AppConfig, session_name: &str) -> (r: Option<String>)
    ensures
        text::opt_text(r) == session_channel(
            config@,
            session_name@,
            events::no_routing(),
        ),
{
    resolve_tmux_session_channel_with_metadata(config, session_name, &RoutingMetadata::default())
}

/// The channel of a terminal session: that of the first route that its events
/// take, or the default one.
pub fn resolve_tmux_session_channel_with_metadata(
    config: &AppConfig,
    session_name: &str,
    routing: &RoutingMetadata,
) -> (r: Option<String>)
    ensures
        text::opt_text(r) == session_channel(config@, session_name@, routing@),
{
    let tmux_event = IncomingEvent::tmux_keyword(
        session_name.to_owned(),
        "".to_owned(),
        "".to_owned(),
        None,
    ).with_routing_metadata(routing);
    let tmux = tmux_event.template_context();
    let session_event = IncomingEvent {
        kind: "session.started".to_owned(),
        channel: None,
        mention: None,
        format: None,
        template: None,
        payload: Json::object().with_text("session_name", session_name).with_text(
            "session",
            session_name,
        ).with_text("tool", "tmux"),
    }.with_routing_metadata(routing);
    let session = session_event.template_context();
    let ghost tmux_view = tmux_tokens(session_name@, routing@);
    let ghost session_view = session_tokens(session_name@, routing@);
    assert(table::pairs(tmux@) == tmux_view);
    assert(table::pairs(session@) == session_view);
    let prefer_metadata = prefers_metadata_first_routing("tmux.keyword", &tmux)
        || prefers_metadata_first_routing("session.started", &session);
    let ghost all = config@.routes;
    let mut i: usize = 0;
    while i < config.routes.len()
        invariant
            i <= config.routes.len(),
            all == config@.routes,
            table::pairs(tmux@) == tmux_view,
            table::pairs(session@) == session_view,
            tmux_view == tmux_tokens(session_name@, routing@),
            session_view == session_tokens(session_name@, routing@),
            prefer_metadata == (has_metadata("tmux.keyword"@, tmux_view) || has_metadata(
                "session.started"@,
                session_view,
            )),
            first_channel(all, 0, tmux_view, session_view, prefer_metadata) == first_channel(
                all,
                i as int,
                tmux_view,
                session_view,
                prefer_metadata,
            ),
        decreases config.routes.len() - i,
    {
        let route = &config.routes[i];
        assert(all[i as int] == route@);
        let takes = route_matches(route, "tmux.keyword", &tmux) || route_matches(
            route,
            "session.started",
            &session,
        );
        if takes && !(prefer_metadata && route_uses_session_name_prefix_heuristics(route)) && same(
            route.effective_sink(),
            "discord",
        ) {
            match &route.channel {
                Some(channel) => {
                    let c = trim(channel.as_str());
                    if !c.is_empty() {
                        return Some(c.to_owned());
                    }
                },
                None => {},
            }
        }
        i = i + 1;
    }
    copy_opt(&config.defaults.channel)
}

// ---------------------------------------------------------------------------
// Laws
// ---------------------------------------------------------------------------

/// An event that some route takes leads to one delivery for each route that it
/// takes, in their order; one that no route takes leads to a single delivery.
pub proof fn law_one_delivery_per_route(config: AppSettingsView, event: EventView)
    requires
        resolved(config, event) is Ok,
    ensures
        ({
            let routes = routes_of(config, event);
            let deliveries = resolved(config, event)->Ok_0;
            &&& routes.len() > 0 ==> deliveries.len() == routes.len()
            &&& routes.len() == 0 ==> deliveries.len() == 1
            &&& forall|i: int|
                0 <= i < routes.len() ==> delivery_of(config, event, Some(routes[i])) == Ok::<
                    DeliveryView,
                    Seq<char>,
                >(#[trigger] deliveries[i])
        }),
{
    let routes = routes_of(config, event);
    if routes.len() > 0 {
        lemma_deliveries(config, event, routes);
    }
}

proof fn lemma_deliveries(config: AppSettingsView, event: EventView, routes: Seq<RouteView>)
    requires
        deliveries_of(config, event, routes) is Ok,
    ensures
        ({
            let deliveries = deliveries_of(config, event, routes)->Ok_0;
            &&& deliveries.len() == routes.len()
            &&& forall|i: int|
                0 <= i < routes.len() ==> delivery_of(config, event, Some(routes[i])) == Ok::<
                    DeliveryView,
                    Seq<char>,
                >(#[trigger] deliveries[i])
        }),
    decreases routes.len(),
{
    if routes.len() > 0 {
        lemma_deliveries(config, event, routes.drop_last());
        let deliveries = deliveries_of(config, event, routes)->Ok_0;
        let before = deliveries_of(config, event, routes.drop_last())->Ok_0;
        assert forall|i: int| 0 <= i < routes.len() implies delivery_of(
            config,
            event,
            Some(routes[i]),
        ) == Ok::<DeliveryView, Seq<char>>(#[trigger] deliveries[i]) by {
            if i < routes.len() - 1 {
                assert(deliveries[i] == before[i]);
                assert(routes.drop_last()[i] == routes[i]);
            }
        }
    }
}

/// A message of the user's own that names a channel goes to that channel, unless
/// a route leads it to a webhook or to another sink.
pub proof fn law_named_channel_comes_first(
    config: AppSettingsView,
    event: EventView,
    route: Option<RouteView>,
    channel: Seq<char>,
)
    requires
        events::canonical_kind(event.kind) == "custom"@,
        event.channel == Some(channel),
        sink_for(route) == "discord"@,
        route matches Some(r) ==> r.discord_target() is None,
    ensures
        delivery_of(config, event, route) matches Ok(d) && d.target == TargetView::DiscordChannel(
            channel,
        ),
{
}

/// Every route that an event takes fits it, and one that goes by parts of the
/// session's name alone is never taken by an event that says where it belongs.
pub proof fn law_taken_routes_fit(
    routes: Seq<RouteView>,
    kind: Seq<char>,
    tokens: Tokens,
    i: int,
)
    requires
        0 <= i < matching(routes, kind, tokens).len(),
    ensures
        route_fits(matching(routes, kind, tokens)[i], kind, tokens),
        has_metadata(kind, tokens) ==> !is_heuristic(matching(routes, kind, tokens)[i]),
    decreases routes.len(),
{
    if routes.len() > 0 {
        let before = matching(routes.drop_last(), kind, tokens);
        if i < before.len() {
            law_taken_routes_fit(routes.drop_last(), kind, tokens, i);
        }
    }
}

/// Agents and sessions share the routes of the stages that they have in common: a route
/// that takes the one takes the other, be it on the name of the kind or of the family.
pub proof fn law_agents_and_sessions_share_routes(stage: Seq<char>)
    requires
        is_shared_stage(stage),
    ensures
        forall|pattern: Seq<char>|
            #![trigger kind_fits(pattern, "agent."@ + stage)]
            #![trigger kind_fits(pattern, "session."@ + stage)]
            kind_fits(pattern, "agent."@ + stage) == kind_fits(pattern, "session."@ + stage),
        kind_fits("session."@ + stage, "agent."@ + stage),
        kind_fits("agent."@ + stage, "session."@ + stage),
        kind_fits("session.*"@, "agent."@ + stage),
        kind_fits("agent.*"@, "session."@ + stage),
{
    reveal_strlit("agent.");
    reveal_strlit("session.");
    reveal_strlit("started");
    reveal_strlit("blocked");
    reveal_strlit("finished");
    reveal_strlit("failed");
    reveal_strlit("git.commit");
    reveal_strlit("git.branch-changed");
    reveal_strlit("agent.*");
    reveal_strlit("session.*");
    let agent = "agent."@ + stage;
    let session = "session."@ + stage;
    assert(agent.subrange(0, 6) =~= "agent."@);
    assert(agent.skip(6) =~= stage);
    assert(session.subrange(0, 8) =~= "session."@);
    assert(session.skip(8) =~= stage);
    assert(agent[0] == 'a' && session[0] == 's');
    assert("git.commit"@[0] == 'g' && "git.branch-changed"@[0] == 'g');
    if text::occurs_at(session, "agent."@, 0) {
        assert(session.subrange(0, 6)[0] == 'a');
    }
    assert(candidates(agent) == seq![agent, "agent.*"@, "session.*"@, session]);
    assert(candidates(session) == seq![session, "session.*"@, "agent.*"@, agent]);
    assert forall|pattern: Seq<char>|
        #![trigger kind_fits(pattern, agent)]
        #![trigger kind_fits(pattern, session)]
        kind_fits(pattern, agent) == kind_fits(pattern, session) by {
        lemma_four_names(pattern, agent);
        lemma_four_names(pattern, session);
    }
    lemma_four_names(agent, session);
    lemma_four_names(session, agent);
    lemma_four_names("agent.*"@, session);
    lemma_four_names("session.*"@, agent);
    assert(!agent.contains('*'));
    assert(!session.contains('*'));
    glob::law_plain_pattern_fits_itself(agent, agent);
    glob::law_plain_pattern_fits_itself(session, session);
    lemma_family_fits_itself("agent."@);
    lemma_family_fits_itself("session."@);
    assert("agent."@.push('*') =~= "agent.*"@);
    assert("session."@.push('*') =~= "session.*"@);
}

proof fn lemma_four_names(pattern: Seq<char>, kind: Seq<char>)
    requires
        candidates(kind).len() == 4,
    ensures
        kind_fits(pattern, kind) == (glob::fits(pattern, candidates(kind)[0]) || glob::fits(
            pattern,
            candidates(kind)[1],
        ) || glob::fits(pattern, candidates(kind)[2]) || glob::fits(pattern, candidates(kind)[3])),
{
}

proof fn lemma_family_fits_itself(prefix: Seq<char>)
    requires
        !prefix.contains('*'),
    ensures
        glob::fits(prefix.push('*'), prefix.push('*')),
{
    glob::law_prefix_pattern(prefix, prefix.push('*'));
    assert(prefix.push('*').take(prefix.len() as int) =~= prefix);
}

/// The mention of a delivery stands before its text.
pub proof fn law_mention_comes_first(mention: Seq<char>, content: Seq<char>)
    requires
        !text::blank(mention),
    ensures
        mentioned(Some(mention), content) == text::trimmed(mention) + " "@ + content,
        text::begins_with(mentioned(Some(mention), content), text::trimmed(mention)),
        text::finishes_with(mentioned(Some(mention), content), content),
{
    let all = mentioned(Some(mention), content);
    let m = text::trimmed(mention);
    assert(all.subrange(0, m.len() as int) =~= m);
    assert(all.subrange(all.len() - content.len(), all.len() as int) =~= content);
}

/// Where no route allows dynamic tokens, none are filled in anywhere.
pub proof fn law_dynamic_tokens_need_a_route(config: AppSettingsView, event: EventView, i: int)
    requires
        forall|j: int|
            0 <= j < config.routes.len() ==> !(#[trigger] config.routes[j]).allow_dynamic_tokens,
        resolved(config, event) is Ok,
        0 <= i < resolved(config, event)->Ok_0.len(),
    ensures
        !resolved(config, event)->Ok_0[i].allow_dynamic_tokens,
        body_of(event, resolved(config, event)->Ok_0[i]) matches Ok(body) ==> !body.dynamic,
{
    let kind = events::canonical_kind(event.kind);
    let tokens = template::context_of(event);
    let routes = routes_of(config, event);
    law_one_delivery_per_route(config, event);
    if routes.len() > 0 {
        lemma_taken_from(config.routes, kind, tokens, i);
        let deliveries = resolved(config, event)->Ok_0;
        assert(delivery_of(config, event, Some(routes[i])) == Ok::<DeliveryView, Seq<char>>(
            deliveries[i],
        ));
    }
}

proof fn lemma_taken_from(routes: Seq<RouteView>, kind: Seq<char>, tokens: Tokens, i: int)
    requires
        0 <= i < matching(routes, kind, tokens).len(),
    ensures
        exists|j: int| 0 <= j < routes.len() && #[trigger] routes[j] == matching(
            routes,
            kind,
            tokens,
        )[i],
    decreases routes.len(),
{
    if routes.len() > 0 {
        let before = matching(routes.drop_last(), kind, tokens);
        if i < before.len() {
            lemma_taken_from(routes.drop_last(), kind, tokens, i);
            let j = choose|j: int|
                0 <= j < routes.drop_last().len() && #[trigger] routes.drop_last()[j] == before[i];
            assert(routes[j] == before[i]);
        } else {
            assert(routes[routes.len() - 1] == matching(routes, kind, tokens)[i]);
        }
    }
}

/// What a route leaves open is as it would be without it: a route to Discord that names
/// no target, format, mention or template leads where no route would.
pub proof fn law_bare_route_falls_back(
    config: AppSettingsView,
    event: EventView,
    route: RouteView,
)
    requires
        route.sink_used() == "discord"@,
        route.channel is None,
        route.webhook is None,
        route.format is None,
        route.mention is None,
        route.template is None,
    ensures
        match (delivery_of(config, event, Some(route)), delivery_of(config, event, None)) {
            (Ok(a), Ok(b)) => a == (DeliveryView {
                allow_dynamic_tokens: route.allow_dynamic_tokens,
                ..b
            }),
            (Err(a), Err(b)) => a == b,
            _ => false,
        },
{
}

} // verus!
