//! User settings: the port range to scan and, per topic, its score and
//! whether it is subscribed.

use vstd::prelude::*;

use crate::score_table::ScoreTable;
use crate::topics::{
    default_score, default_score_map, default_score_of, disabled_by_default, is_disabled_by_default,
    lemma_topic_uris_distinct, topic_uris, topics, ScoreConfig,
};

verus! {

/// Per-topic settings: score value and whether the subscription is active.
#[derive(Clone, Debug)]
pub struct TopicSetting {
    pub uri: String,
    pub score: u64,
    pub enabled: bool,
}

/// A topic setting with its URI taken as text.
pub struct TopicSettingView {
    pub uri: Seq<char>,
    pub score: u64,
    pub enabled: bool,
}

impl View for TopicSetting {
    type V = TopicSettingView;

    open spec fn view(&self) -> TopicSettingView {
        TopicSettingView { uri: self.uri@, score: self.score, enabled: self.enabled }
    }
}

/// All user-editable settings.
#[derive(Clone, Debug)]
pub struct UserSettings {
    pub port_start: u16,
    pub port_end: u16,
    pub topics: Vec<TopicSetting>,
}

/// The topic settings of a list, each taken by its view.
pub open spec fn settings_view(v: Seq<TopicSetting>) -> Seq<TopicSettingView> {
    v.map_values(|t: TopicSetting| t@)
}

/// Some setting of `ts` is for `uri`.
pub open spec fn has_uri(ts: Seq<TopicSettingView>, uri: Seq<char>) -> bool {
    exists|i: int| 0 <= i < ts.len() && ts[i].uri == uri
}

/// `i` is the first position of `ts` whose setting is for `uri`.
pub open spec fn is_first_match(ts: Seq<TopicSettingView>, uri: Seq<char>, i: int) -> bool {
    &&& 0 <= i < ts.len()
    &&& ts[i].uri == uri
    &&& forall|j: int| 0 <= j < i ==> ts[j].uri != uri
}

/// The first setting of `ts` for `uri`, if any.
pub open spec fn setting_for(ts: Seq<TopicSettingView>, uri: Seq<char>) -> Option<TopicSettingView> {
    if exists|i: int| is_first_match(ts, uri, i) {
        Some(ts[choose|i: int| is_first_match(ts, uri, i)])
    } else {
        None
    }
}

/// A topic is subscribed unless its first setting disables it.
pub open spec fn subscribed(ts: Seq<TopicSettingView>, uri: Seq<char>) -> bool {
    match setting_for(ts, uri) {
        Some(t) => t.enabled,
        None => true,
    }
}

/// The score a subscribed topic earns: that of its first setting, else 1.
pub open spec fn score_for(ts: Seq<TopicSettingView>, uri: Seq<char>) -> u64 {
    match setting_for(ts, uri) {
        Some(t) => t.score,
        None => 1,
    }
}

/// The subscriptions to make: each of `uris` in order that `ts` subscribes,
/// with the score that `ts` gives it.
pub open spec fn plan_for(ts: Seq<TopicSettingView>, uris: Seq<Seq<char>>) -> Seq<(Seq<char>, u64)>
    decreases uris.len(),
{
    if uris.len() == 0 {
        seq![]
    } else {
        let rest = plan_for(ts, uris.drop_last());
        let u = uris.last();
        if subscribed(ts, u) {
            rest.push((u, score_for(ts, u)))
        } else {
            rest
        }
    }
}

/// The setting a known topic has in fresh settings, and the one it is given
/// where loaded settings lack it.
pub open spec fn default_setting(uri: Seq<char>) -> TopicSettingView {
    TopicSettingView { uri, score: default_score(uri), enabled: !disabled_by_default(uri) }
}

/// The settings added for those of `uris` that `ts` lacks, in the order of `uris`.
pub open spec fn missing_settings(ts: Seq<TopicSettingView>, uris: Seq<Seq<char>>) -> Seq<
    TopicSettingView,
>
    decreases uris.len(),
{
    if uris.len() == 0 {
        seq![]
    } else {
        let rest = missing_settings(ts, uris.drop_last());
        if has_uri(ts, uris.last()) {
            rest
        } else {
            rest.push(default_setting(uris.last()))
        }
    }
}

/// The topic settings after every known topic has been made present.
pub open spec fn completed_settings(ts: Seq<TopicSettingView>) -> Seq<TopicSettingView> {
    ts + missing_settings(ts, topic_uris())
}

/// Each added setting is the default setting of one of `uris`, and none is
/// for a topic that `ts` already has.
pub proof fn lemma_missing_settings_uris(ts: Seq<TopicSettingView>, uris: Seq<Seq<char>>)
    ensures
        forall|k: int|
            0 <= k < missing_settings(ts, uris).len() ==> uris.contains(
                #[trigger] missing_settings(ts, uris)[k].uri,
            ) && !has_uri(ts, missing_settings(ts, uris)[k].uri) && missing_settings(ts, uris)[k]
                == default_setting(missing_settings(ts, uris)[k].uri),
    decreases uris.len(),
{
    if uris.len() > 0 {
        let pre = uris.drop_last();
        lemma_missing_settings_uris(ts, pre);
        let m = missing_settings(ts, uris);
        assert forall|k: int| 0 <= k < m.len() implies uris.contains(#[trigger] m[k].uri) && !has_uri(
            ts,
            m[k].uri,
        ) && m[k] == default_setting(m[k].uri) by {
            let r = missing_settings(ts, pre);
            if k < r.len() {
                assert(m[k] == r[k]);
                let w = choose|w: int| 0 <= w < pre.len() && pre[w] == r[k].uri;
                assert(uris[w] == r[k].uri);
            } else {
                assert(m[k].uri == uris[uris.len() - 1]);
            }
        }
    }
}

/// After completion, each of `uris` has a setting.
pub proof fn lemma_missing_settings_cover(ts: Seq<TopicSettingView>, uris: Seq<Seq<char>>)
    ensures
        forall|k: int| 0 <= k < uris.len() ==> has_uri(ts + missing_settings(ts, uris), #[trigger] uris[k]),
    decreases uris.len(),
{
    if uris.len() > 0 {
        let pre = uris.drop_last();
        lemma_missing_settings_cover(ts, pre);
        let r = missing_settings(ts, pre);
        let m = missing_settings(ts, uris);
        assert forall|k: int| 0 <= k < uris.len() implies has_uri(ts + m, #[trigger] uris[k]) by {
            if k < pre.len() {
                assert(uris[k] == pre[k]);
                assert(has_uri(ts + r, pre[k]));
                let w = choose|w: int| 0 <= w < (ts + r).len() && (ts + r)[w].uri == pre[k];
                assert((ts + m)[w] == (ts + r)[w]);
            } else {
                let u = uris.last();
                if has_uri(ts, u) {
                    let w = choose|w: int| 0 <= w < ts.len() && ts[w].uri == u;
                    assert((ts + m)[w] == ts[w]);
                } else {
                    assert((ts + m)[(ts.len() + r.len()) as int] == default_setting(u));
                }
            }
        }
    }
}

/// Nothing is added for `uris` that all have a setting already.
pub proof fn lemma_missing_settings_none(ts: Seq<TopicSettingView>, uris: Seq<Seq<char>>)
    requires
        forall|k: int| 0 <= k < uris.len() ==> has_uri(ts, #[trigger] uris[k]),
    ensures
        missing_settings(ts, uris) == Seq::<TopicSettingView>::empty(),
    decreases uris.len(),
{
    if uris.len() > 0 {
        let pre = uris.drop_last();
        assert forall|k: int| 0 <= k < pre.len() implies has_uri(ts, #[trigger] pre[k]) by {
            assert(pre[k] == uris[k]);
        }
        lemma_missing_settings_none(ts, pre);
        assert(has_uri(ts, uris[uris.len() - 1]));
    }
}

/// Law: completing the topic settings keeps every setting that was there, in
/// place; each setting added is the known topic's fresh-settings entry; and
/// afterwards every known topic has a setting.
pub proof fn lemma_completion_keeps_and_covers(ts: Seq<TopicSettingView>)
    ensures
        completed_settings(ts).subrange(0, ts.len() as int) == ts,
        forall|k: int|
            ts.len() <= k < completed_settings(ts).len() ==> #[trigger] completed_settings(ts)[k]
                == default_setting(completed_settings(ts)[k].uri) && topic_uris().contains(
                completed_settings(ts)[k].uri,
            ) && !has_uri(ts, completed_settings(ts)[k].uri),
        forall|u: Seq<char>| topic_uris().contains(u) ==> has_uri(completed_settings(ts), u),
{
    assert(completed_settings(ts).subrange(0, ts.len() as int) =~= ts);
    lemma_missing_settings_uris(ts, topic_uris());
    assert forall|k: int| ts.len() <= k < completed_settings(ts).len() implies #[trigger] completed_settings(
        ts,
    )[k] == default_setting(completed_settings(ts)[k].uri) && topic_uris().contains(
        completed_settings(ts)[k].uri,
    ) && !has_uri(ts, completed_settings(ts)[k].uri) by {
        assert(completed_settings(ts)[k] == missing_settings(ts, topic_uris())[k - ts.len()]);
    }
    lemma_missing_settings_cover(ts, topic_uris());
    assert forall|u: Seq<char>| topic_uris().contains(u) implies has_uri(completed_settings(ts), u) by {
        let k = choose|k: int| 0 <= k < topic_uris().len() && topic_uris()[k] == u;
        assert(has_uri(completed_settings(ts), topic_uris()[k]));
    }
}

/// Law: completing settings that were already completed changes nothing.
pub proof fn lemma_completion_idempotent(ts: Seq<TopicSettingView>)
    ensures
        completed_settings(completed_settings(ts)) == completed_settings(ts),
{
    let c = completed_settings(ts);
    lemma_missing_settings_cover(ts, topic_uris());
    lemma_missing_settings_none(c, topic_uris());
    assert(completed_settings(c) =~= c);
}

/// Position of the first setting in `topics` for `uri`, if any.
fn find_setting(topics: &Vec<TopicSetting>, uri: &str) -> (r: Option<usize>)
    ensures
        match r {
            Some(i) => is_first_match(settings_view(topics@), uri@, i as int),
            None => !has_uri(settings_view(topics@), uri@),
        },
{
    let ghost ts = settings_view(topics@);
    let target = uri.to_owned();
    let n = topics.len();
    let mut i: usize = 0;
    while i < n
        invariant
            n == topics@.len(),
            ts == settings_view(topics@),
            target@ == uri@,
            i <= n,
            forall|j: int| 0 <= j < i ==> ts[j].uri != uri@,
        decreases n - i,
    {
        assert(ts[i as int] == topics@[i as int]@);
        if topics[i].uri == target {
            return Some(i);
        }
        i = i + 1;
    }
    None
}

/// The first-match index is the only one, so `setting_for` picks it.
proof fn lemma_setting_for_at(ts: Seq<TopicSettingView>, uri: Seq<char>, i: int)
    requires
        is_first_match(ts, uri, i),
    ensures
        setting_for(ts, uri) == Some(ts[i]),
{
    let k = choose|k: int| is_first_match(ts, uri, k);
    if k < i {
        assert(ts[k].uri != uri);
    } else if k > i {
        assert(ts[i].uri != uri);
    }
}

/// Without any setting for `uri`, `setting_for` gives none.
proof fn lemma_setting_for_none(ts: Seq<TopicSettingView>, uri: Seq<char>)
    requires
        !has_uri(ts, uri),
    ensures
        setting_for(ts, uri) == None::<TopicSettingView>,
{
    if exists|i: int| is_first_match(ts, uri, i) {
        let k = choose|k: int| is_first_match(ts, uri, k);
        assert(ts[k].uri == uri);
    }
}

/// Law: the setting a known topic is given when fresh, or when loaded
/// settings lack it, carries its built-in score and is enabled exactly when
/// the topic does not start disabled.
pub proof fn lemma_default_setting(u: Seq<char>)
    ensures
        default_setting(u).uri == u,
        default_setting(u).score == default_score(u),
        default_setting(u).enabled <==> !disabled_by_default(u),
{
}

/// A pair is planned exactly when its topic is among `uris`, subscribed, and
/// paired with its score.
proof fn lemma_plan_for_contains(
    ts: Seq<TopicSettingView>,
    uris: Seq<Seq<char>>,
    u: Seq<char>,
    x: u64,
)
    ensures
        plan_for(ts, uris).contains((u, x)) <==> (uris.contains(u) && subscribed(ts, u) && x
            == score_for(ts, u)),
    decreases uris.len(),
{
    if uris.len() > 0 {
        let pre = uris.drop_last();
        lemma_plan_for_contains(ts, pre, u, x);
        let rest = plan_for(ts, pre);
        let last = uris.last();
        if uris.contains(u) && !pre.contains(u) {
            let k = choose|k: int| 0 <= k < uris.len() && uris[k] == u;
            if k < pre.len() {
                assert(pre[k] == u);
            }
        }
        if pre.contains(u) {
            let k = choose|k: int| 0 <= k < pre.len() && pre[k] == u;
            assert(uris[k] == u);
        }
        if subscribed(ts, last) {
            let full = rest.push((last, score_for(ts, last)));
            if full.contains((u, x)) && !rest.contains((u, x)) {
                let k = choose|k: int| 0 <= k < full.len() && full[k] == (u, x);
                if k < rest.len() {
                    assert(rest[k] == (u, x));
                }
            }
            if rest.contains((u, x)) {
                let k = choose|k: int| 0 <= k < rest.len() && rest[k] == (u, x);
                assert(full[k] == (u, x));
            }
            if u == last && x == score_for(ts, last) {
                assert(full[full.len() - 1] == (u, x));
            }
        }
    }
}

/// Law: a known topic is planned, with the score of its first setting,
/// exactly when that first setting enables it; this holds whatever the
/// topic's default, so the user can turn on a topic that starts disabled.
pub proof fn lemma_plan_obeys_first_setting(ts: Seq<TopicSettingView>, u: Seq<char>, i: int)
    requires
        topic_uris().contains(u),
        is_first_match(ts, u, i),
    ensures
        ts[i].enabled ==> plan_for(ts, topic_uris()).contains((u, ts[i].score)),
        forall|x: u64| #[trigger]
            plan_for(ts, topic_uris()).contains((u, x)) ==> ts[i].enabled && x == ts[i].score,
{
    lemma_setting_for_at(ts, u, i);
    lemma_plan_for_contains(ts, topic_uris(), u, ts[i].score);
    assert forall|x: u64| #[trigger] plan_for(ts, topic_uris()).contains((u, x)) implies ts[i].enabled
        && x == ts[i].score by {
        lemma_plan_for_contains(ts, topic_uris(), u, x);
    }
}

/// Law: a known topic without any setting is planned, with score 1 and no
/// other.
pub proof fn lemma_plan_unset_topic(ts: Seq<TopicSettingView>, u: Seq<char>)
    requires
        topic_uris().contains(u),
        !has_uri(ts, u),
    ensures
        plan_for(ts, topic_uris()).contains((u, 1)),
        forall|x: u64| #[trigger] plan_for(ts, topic_uris()).contains((u, x)) ==> x == 1,
{
    lemma_setting_for_none(ts, u);
    lemma_plan_for_contains(ts, topic_uris(), u, 1);
    assert forall|x: u64| #[trigger] plan_for(ts, topic_uris()).contains((u, x)) implies x == 1 by {
        lemma_plan_for_contains(ts, topic_uris(), u, x);
    }
}

/// Law: only known topics are planned.
pub proof fn lemma_plan_only_known_topics(ts: Seq<TopicSettingView>, u: Seq<char>, x: u64)
    ensures
        plan_for(ts, topic_uris()).contains((u, x)) ==> topic_uris().contains(u),
{
    lemma_plan_for_contains(ts, topic_uris(), u, x);
}

impl Default for UserSettings {
    /// Fresh settings: ports 8080 to 8083, every known topic in order with
    /// its built-in score, enabled unless it starts disabled.
    fn default() -> (s: UserSettings)
        ensures
            s.port_start == 8080,
            s.port_end == 8083,
            settings_view(s.topics@) == topic_uris().map_values(|u: Seq<char>| default_setting(u)),
    {
        let defaults = ScoreConfig::defaults();
        let list = topics();
        let ghost want = topic_uris().map_values(|u: Seq<char>| default_setting(u));
        let n = list.len();
        let mut out: Vec<TopicSetting> = Vec::new();
        let mut i: usize = 0;
        while i < n
            invariant
                n == list@.len(),
                list@.map_values(|s: &str| s@) == topic_uris(),
                want == topic_uris().map_values(|u: Seq<char>| default_setting(u)),
                defaults.wf(),
                defaults@ == default_score_map(),
                i <= n,
                settings_view(out@) =~= want.take(i as int),
            decreases n - i,
        {
            let uri = list[i];
            assert(uri@ == topic_uris()[i as int]);
            let score = default_score_of(&defaults, uri);
            let enabled = !is_disabled_by_default(uri);
            let ghost before = out@;
            let setting = TopicSetting { uri: uri.to_owned(), score, enabled };
            assert(setting@ == default_setting(topic_uris()[i as int]));
            out.push(setting);
            assert(settings_view(out@) =~= settings_view(before).push(setting@));
            assert(want.take(i + 1) =~= want.take(i as int).push(want[i as int]));
            i = i + 1;
        }
        UserSettings { port_start: 8080, port_end: 8083, topics: out }
    }
}

impl UserSettings {
    /// Ensures every known topic is present: appends, in the order of the
    /// known topics, a setting for each that is missing, filled with its
    /// defaults: the built-in score, and enabled unless it starts disabled.
    /// What was there stays as it was.
    pub fn with_missing_topics(self) -> (s: UserSettings)
        ensures
            s.port_start == self.port_start,
            s.port_end == self.port_end,
            settings_view(s.topics@) == completed_settings(settings_view(self.topics@)),
    {
        proof {
            lemma_topic_uris_distinct();
        }
        let ghost ts = settings_view(self.topics@);
        let UserSettings { port_start, port_end, topics: mut out } = self;
        let defaults = ScoreConfig::defaults();
        let list = topics();
        let n = list.len();
        let mut i: usize = 0;
        while i < n
            invariant
                n == list@.len(),
                list@.map_values(|s: &str| s@) == topic_uris(),
                topic_uris().no_duplicates(),
                defaults.wf(),
                defaults@ == default_score_map(),
                i <= n,
                settings_view(out@) =~= ts + missing_settings(ts, topic_uris().take(i as int)),
            decreases n - i,
        {
            let uri = list[i];
            let ghost pre = topic_uris().take(i as int);
            let ghost post = topic_uris().take(i + 1);
            assert(uri@ == topic_uris()[i as int]);
            assert(post.drop_last() =~= pre);
            assert(post.last() == uri@);
            proof {
                lemma_missing_settings_uris(ts, pre);
            }
            let found = find_setting(&out, uri);
            let ghost m = missing_settings(ts, pre);
            assert(has_uri(ts + m, uri@) == has_uri(ts, uri@)) by {
                if has_uri(ts + m, uri@) && !has_uri(ts, uri@) {
                    let w = choose|w: int| 0 <= w < (ts + m).len() && (ts + m)[w].uri == uri@;
                    if w < ts.len() {
                        assert(ts[w].uri == uri@);
                    } else {
                        let k = w - ts.len();
                        assert(m[k].uri == uri@);
                        assert(pre.contains(uri@));
                        let z = choose|z: int| 0 <= z < pre.len() && pre[z] == uri@;
                        assert(topic_uris()[z] == topic_uris()[i as int]);
                    }
                }
                if has_uri(ts, uri@) {
                    let w = choose|w: int| 0 <= w < ts.len() && ts[w].uri == uri@;
                    assert((ts + m)[w] == ts[w]);
                }
            }
            match found {
                Some(_) => {
                    assert(missing_settings(ts, post) =~= m);
                },
                None => {
                    let score = default_score_of(&defaults, uri);
                    let ghost before = out@;
                    let enabled = !is_disabled_by_default(uri);
                    let setting = TopicSetting { uri: uri.to_owned(), score, enabled };
                    out.push(setting);
                    assert(settings_view(out@) =~= settings_view(before).push(setting@));
                    assert(missing_settings(ts, post) =~= m.push(default_setting(uri@)));
                },
            }
            i = i + 1;
        }
        assert(topic_uris().take(n as int) =~= topic_uris());
        UserSettings { port_start, port_end, topics: out }
    }

    /// The settings to use given what was loaded: the loaded settings with
    /// every known topic made present, or fresh settings where nothing could
    /// be loaded.
    pub fn load_or_default_from(loaded: Option<UserSettings>) -> (s: UserSettings)
        ensures
            match loaded {
                Some(l) => {
                    &&& s.port_start == l.port_start
                    &&& s.port_end == l.port_end
                    &&& settings_view(s.topics@) == completed_settings(settings_view(l.topics@))
                },
                None => {
                    &&& s.port_start == 8080
                    &&& s.port_end == 8083
                    &&& settings_view(s.topics@) == topic_uris().map_values(
                        |u: Seq<char>| default_setting(u),
                    )
                },
            },
    {
        match loaded {
            Some(l) => l.with_missing_topics(),
            None => UserSettings::default(),
        }
    }

    /// The subscriptions a connection makes: each known topic in order,
    /// skipped where its first setting disables it, with the score of its
    /// first setting (1 where it has none).
    pub fn subscription_plan(&self) -> (plan: Vec<(&'static str, u64)>)
        ensures
            plan@.map_values(|p: (&str, u64)| (p.0@, p.1)) == plan_for(
                settings_view(self.topics@),
                topic_uris(),
            ),
    {
        let ghost ts = settings_view(self.topics@);
        let list = topics();
        let n = list.len();
        let mut plan: Vec<(&'static str, u64)> = Vec::new();
        let mut i: usize = 0;
        while i < n
            invariant
                n == list@.len(),
                list@.map_values(|s: &str| s@) == topic_uris(),
                ts == settings_view(self.topics@),
                i <= n,
                plan@.map_values(|p: (&str, u64)| (p.0@, p.1)) =~= plan_for(
                    ts,
                    topic_uris().take(i as int),
                ),
            decreases n - i,
        {
            let uri = list[i];
            let ghost post = topic_uris().take(i + 1);
            assert(uri@ == topic_uris()[i as int]);
            assert(post.drop_last() =~= topic_uris().take(i as int));
            assert(post.last() == uri@);
            match find_setting(&self.topics, uri) {
                Some(k) => {
                    proof {
                        lemma_setting_for_at(ts, uri@, k as int);
                    }
                    assert(ts[k as int] == self.topics@[k as int]@);
                    if self.topics[k].enabled {
                        plan.push((uri, self.topics[k].score));
                    }
                },
                None => {
                    proof {
                        lemma_setting_for_none(ts, uri@);
                    }
                    plan.push((uri, 1));
                },
            }
            i = i + 1;
        }
        assert(topic_uris().take(n as int) =~= topic_uris());
        plan
    }
}

} // verus!
