//! The topics that the monitor knows, the score each earns by default, and
//! those that start disabled.

use vstd::prelude::*;

use crate::score_table::{keys_distinct, lemma_pairs_map_dom, lemma_pairs_map_value, pairs_map, pairs_view, ScoreTable};
use crate::uris;

verus! {

/// The text of the topic that `waapi_rs` has no constant for.
pub open spec fn structure_changed_uri() -> Seq<char> {
    "ak.wwise.core.object.structureChanged"@
}

/// Every topic the monitor subscribes to, in subscription order.
pub open spec fn topic_uris() -> Seq<Seq<char>> {
    seq![
        "ak.wwise.core.audio.imported"@,
        "ak.wwise.core.object.attenuationCurveChanged"@,
        "ak.wwise.core.object.attenuationCurveLinkChanged"@,
        "ak.wwise.core.object.childAdded"@,
        "ak.wwise.core.object.childRemoved"@,
        "ak.wwise.core.object.created"@,
        "ak.wwise.core.object.curveChanged"@,
        "ak.wwise.core.object.nameChanged"@,
        "ak.wwise.core.object.notesChanged"@,
        "ak.wwise.core.object.postDeleted"@,
        "ak.wwise.core.object.propertyChanged"@,
        "ak.wwise.core.object.referenceChanged"@,
        "ak.wwise.core.object.structureChanged"@,
        "ak.wwise.core.project.loaded"@,
        "ak.wwise.core.project.postClosed"@,
        "ak.wwise.core.project.saved"@,
        "ak.wwise.core.soundbank.generated"@,
        "ak.wwise.core.soundbank.generationDone"@,
        "ak.wwise.core.switchContainer.assignmentAdded"@,
        "ak.wwise.core.switchContainer.assignmentRemoved"@,
        "ak.wwise.core.transport.stateChanged"@,
        "ak.wwise.ui.selectionChanged"@,
    ]
}

/// The built-in score of each topic, in the order the table is written.
pub open spec fn default_score_pairs() -> Seq<(Seq<char>, u64)> {
    seq![
        ("ak.wwise.core.audio.imported"@, 4u64),
        ("ak.wwise.core.object.attenuationCurveChanged"@, 1u64),
        ("ak.wwise.core.object.attenuationCurveLinkChanged"@, 1u64),
        ("ak.wwise.core.object.childAdded"@, 3u64),
        ("ak.wwise.core.object.childRemoved"@, 2u64),
        ("ak.wwise.core.object.created"@, 5u64),
        ("ak.wwise.core.object.curveChanged"@, 3u64),
        ("ak.wwise.core.object.nameChanged"@, 2u64),
        ("ak.wwise.core.object.notesChanged"@, 1u64),
        ("ak.wwise.core.object.postDeleted"@, 3u64),
        ("ak.wwise.core.object.propertyChanged"@, 3u64),
        ("ak.wwise.core.object.referenceChanged"@, 4u64),
        ("ak.wwise.core.object.structureChanged"@, 5u64),
        ("ak.wwise.core.project.loaded"@, 3u64),
        ("ak.wwise.core.project.postClosed"@, 2u64),
        ("ak.wwise.core.project.saved"@, 3u64),
        ("ak.wwise.core.soundbank.generated"@, 5u64),
        ("ak.wwise.core.soundbank.generationDone"@, 5u64),
        ("ak.wwise.core.switchContainer.assignmentAdded"@, 4u64),
        ("ak.wwise.core.switchContainer.assignmentRemoved"@, 3u64),
        ("ak.wwise.core.transport.stateChanged"@, 3u64),
        ("ak.wwise.ui.selectionChanged"@, 1u64),
    ]
}

/// The built-in scores as a map from topic to score.
pub open spec fn default_score_map() -> Map<Seq<char>, u64> {
    pairs_map(default_score_pairs())
}

/// The score a topic gets when the settings do not say: its built-in score,
/// or 1 for a topic without one.
pub open spec fn default_score(uri: Seq<char>) -> u64 {
    if default_score_map().contains_key(uri) {
        default_score_map()[uri]
    } else {
        1
    }
}

/// The topics that start disabled in fresh settings.
pub open spec fn disabled_by_default_uris() -> Seq<Seq<char>> {
    seq![
        "ak.wwise.core.object.propertyChanged"@,
        "ak.wwise.core.object.structureChanged"@,
        "ak.wwise.core.transport.stateChanged"@,
    ]
}

/// Whether a topic starts disabled.
pub open spec fn disabled_by_default(uri: Seq<char>) -> bool {
    disabled_by_default_uris().contains(uri)
}

/// The known topics are pairwise different.
pub proof fn lemma_topic_uris_distinct()
    ensures
        topic_uris().no_duplicates(),
        topic_uris().len() == 22,
{
    reveal_strlit("ak.wwise.core.audio.imported");
    reveal_strlit("ak.wwise.core.object.attenuationCurveChanged");
    reveal_strlit("ak.wwise.core.object.attenuationCurveLinkChanged");
    reveal_strlit("ak.wwise.core.object.childAdded");
    reveal_strlit("ak.wwise.core.object.childRemoved");
    reveal_strlit("ak.wwise.core.object.created");
    reveal_strlit("ak.wwise.core.object.curveChanged");
    reveal_strlit("ak.wwise.core.object.nameChanged");
    reveal_strlit("ak.wwise.core.object.notesChanged");
    reveal_strlit("ak.wwise.core.object.postDeleted");
    reveal_strlit("ak.wwise.core.object.propertyChanged");
    reveal_strlit("ak.wwise.core.object.referenceChanged");
    reveal_strlit("ak.wwise.core.object.structureChanged");
    reveal_strlit("ak.wwise.core.project.loaded");
    reveal_strlit("ak.wwise.core.project.postClosed");
    reveal_strlit("ak.wwise.core.project.saved");
    reveal_strlit("ak.wwise.core.soundbank.generated");
    reveal_strlit("ak.wwise.core.soundbank.generationDone");
    reveal_strlit("ak.wwise.core.switchContainer.assignmentAdded");
    reveal_strlit("ak.wwise.core.switchContainer.assignmentRemoved");
    reveal_strlit("ak.wwise.core.transport.stateChanged");
    reveal_strlit("ak.wwise.ui.selectionChanged");
    assert(topic_uris().len() == 22);
    assert forall|i: int, j: int| 0 <= i < 22 && 0 <= j < 22 && i != j implies topic_uris()[i]
        != topic_uris()[j] by {
        if topic_uris()[i] == topic_uris()[j] {
            assert(topic_uris()[i].len() == topic_uris()[j].len());
            assert(topic_uris()[i][22] == topic_uris()[j][22]);
        }
    }
}

/// Law: every known topic has a built-in score.
pub proof fn lemma_default_scores_cover_topics()
    ensures
        forall|u: Seq<char>| topic_uris().contains(u) ==> default_score_map().contains_key(u),
{
    let ps = default_score_pairs();
    assert forall|u: Seq<char>| topic_uris().contains(u) implies default_score_map().contains_key(
        u,
    ) by {
        let k = choose|k: int| 0 <= k < topic_uris().len() && topic_uris()[k] == u;
        assert(ps[k].0 == u);
        lemma_pairs_map_dom(ps, u);
    }
}

/// The built-in table has no topic twice.
proof fn lemma_default_score_keys_distinct()
    ensures
        keys_distinct(default_score_pairs()),
{
    lemma_topic_uris_distinct();
    let ps = default_score_pairs();
    assert forall|i: int, j: int| 0 <= i < j < ps.len() implies ps[i].0 != ps[j].0 by {
        assert(ps[i].0 == topic_uris()[i]);
        assert(ps[j].0 == topic_uris()[j]);
    }
}

/// Law: the built-in score of each known topic.
pub proof fn lemma_builtin_scores()
    ensures
        default_score("ak.wwise.core.audio.imported"@) == 4,
        default_score("ak.wwise.core.object.attenuationCurveChanged"@) == 1,
        default_score("ak.wwise.core.object.attenuationCurveLinkChanged"@) == 1,
        default_score("ak.wwise.core.object.childAdded"@) == 3,
        default_score("ak.wwise.core.object.childRemoved"@) == 2,
        default_score("ak.wwise.core.object.created"@) == 5,
        default_score("ak.wwise.core.object.curveChanged"@) == 3,
        default_score("ak.wwise.core.object.nameChanged"@) == 2,
        default_score("ak.wwise.core.object.notesChanged"@) == 1,
        default_score("ak.wwise.core.object.postDeleted"@) == 3,
        default_score("ak.wwise.core.object.propertyChanged"@) == 3,
        default_score("ak.wwise.core.object.referenceChanged"@) == 4,
        default_score("ak.wwise.core.object.structureChanged"@) == 5,
        default_score("ak.wwise.core.project.loaded"@) == 3,
        default_score("ak.wwise.core.project.postClosed"@) == 2,
        default_score("ak.wwise.core.project.saved"@) == 3,
        default_score("ak.wwise.core.soundbank.generated"@) == 5,
        default_score("ak.wwise.core.soundbank.generationDone"@) == 5,
        default_score("ak.wwise.core.switchContainer.assignmentAdded"@) == 4,
        default_score("ak.wwise.core.switchContainer.assignmentRemoved"@) == 3,
        default_score("ak.wwise.core.transport.stateChanged"@) == 3,
        default_score("ak.wwise.ui.selectionChanged"@) == 1,
        forall|u: Seq<char>| topic_uris().contains(u) ==> 1 <= #[trigger] default_score(u) <= 5,
{
    lemma_default_score_keys_distinct();
    let ps = default_score_pairs();
    lemma_pairs_map_value(ps, 0);
    lemma_pairs_map_value(ps, 1);
    lemma_pairs_map_value(ps, 2);
    lemma_pairs_map_value(ps, 3);
    lemma_pairs_map_value(ps, 4);
    lemma_pairs_map_value(ps, 5);
    lemma_pairs_map_value(ps, 6);
    lemma_pairs_map_value(ps, 7);
    lemma_pairs_map_value(ps, 8);
    lemma_pairs_map_value(ps, 9);
    lemma_pairs_map_value(ps, 10);
    lemma_pairs_map_value(ps, 11);
    lemma_pairs_map_value(ps, 12);
    lemma_pairs_map_value(ps, 13);
    lemma_pairs_map_value(ps, 14);
    lemma_pairs_map_value(ps, 15);
    lemma_pairs_map_value(ps, 16);
    lemma_pairs_map_value(ps, 17);
    lemma_pairs_map_value(ps, 18);
    lemma_pairs_map_value(ps, 19);
    lemma_pairs_map_value(ps, 20);
    lemma_pairs_map_value(ps, 21);
    assert forall|u: Seq<char>| topic_uris().contains(u) implies 1 <= #[trigger] default_score(u)
        <= 5 by {
        let k = choose|k: int| 0 <= k < topic_uris().len() && topic_uris()[k] == u;
        assert(ps[k].0 == u);
        lemma_pairs_map_value(ps, k);
    }
}

/// Law: of the known topics, exactly `object.propertyChanged`,
/// `object.structureChanged` and `transport.stateChanged` start disabled.
pub proof fn lemma_disabled_topics()
    ensures
        forall|k: int|
            0 <= k < topic_uris().len() ==> (disabled_by_default(#[trigger] topic_uris()[k]) <==> (
            topic_uris()[k] == "ak.wwise.core.object.propertyChanged"@ || topic_uris()[k]
                == "ak.wwise.core.object.structureChanged"@ || topic_uris()[k]
                == "ak.wwise.core.transport.stateChanged"@)),
{
}


/// The known topics, in subscription order.
pub fn topics() -> (v: Vec<&'static str>)
    ensures
        v@.map_values(|s: &str| s@) == topic_uris(),
{
    let mut v: Vec<&'static str> = Vec::new();
    v.push(uris::audio_imported());
    v.push(uris::object_attenuation_curve_changed());
    v.push(uris::object_attenuation_curve_link_changed());
    v.push(uris::object_child_added());
    v.push(uris::object_child_removed());
    v.push(uris::object_created());
    v.push(uris::object_curve_changed());
    v.push(uris::object_name_changed());
    v.push(uris::object_notes_changed());
    v.push(uris::object_post_deleted());
    v.push(uris::object_property_changed());
    v.push(uris::object_reference_changed());
    v.push("ak.wwise.core.object.structureChanged");
    v.push(uris::project_loaded());
    v.push(uris::project_post_closed());
    v.push(uris::project_saved());
    v.push(uris::soundbank_generated());
    v.push(uris::soundbank_generation_done());
    v.push(uris::switch_container_assignment_added());
    v.push(uris::switch_container_assignment_removed());
    v.push(uris::transport_state_changed());
    v.push(uris::selection_changed());
    assert(v@.map_values(|s: &str| s@) =~= topic_uris());
    v
}

/// The topics that start disabled.
fn disabled_by_default_topics() -> (v: Vec<&'static str>)
    ensures
        v@.map_values(|s: &str| s@) == disabled_by_default_uris(),
{
    let mut v: Vec<&'static str> = Vec::new();
    v.push(uris::object_property_changed());
    v.push("ak.wwise.core.object.structureChanged");
    v.push(uris::transport_state_changed());
    assert(v@.map_values(|s: &str| s@) =~= disabled_by_default_uris());
    v
}

/// Whether `uri` is one of the topics that start disabled.
pub fn is_disabled_by_default(uri: &str) -> (b: bool)
    ensures
        b == disabled_by_default(uri@),
{
    let list = disabled_by_default_topics();
    let target = uri.to_owned();
    let n = list.len();
    let mut i: usize = 0;
    while i < n
        invariant
            n == list@.len(),
            list@.map_values(|s: &str| s@) == disabled_by_default_uris(),
            target@ == uri@,
            i <= n,
            forall|j: int| 0 <= j < i ==> disabled_by_default_uris()[j] != uri@,
        decreases n - i,
    {
        let candidate = list[i].to_owned();
        assert(disabled_by_default_uris()[i as int] == list@[i as int]@);
        if candidate == target {
            return true;
        }
        i = i + 1;
    }
    assert(!disabled_by_default_uris().contains(uri@));
    false
}

/// The built-in score table (the seed of fresh settings).
pub struct ScoreConfig {
    pub scores: ScoreTable,
}

impl ScoreConfig {
    /// The built-in score of every known topic.
    pub fn defaults() -> (t: ScoreTable)
        ensures
            t.wf(),
            t@ == default_score_map(),
    {
        let mut pairs: Vec<(String, u64)> = Vec::new();
        pairs.push((uris::audio_imported().to_owned(), 4));
        pairs.push((uris::object_attenuation_curve_changed().to_owned(), 1));
        pairs.push((uris::object_attenuation_curve_link_changed().to_owned(), 1));
        pairs.push((uris::object_child_added().to_owned(), 3));
        pairs.push((uris::object_child_removed().to_owned(), 2));
        pairs.push((uris::object_created().to_owned(), 5));
        pairs.push((uris::object_curve_changed().to_owned(), 3));
        pairs.push((uris::object_name_changed().to_owned(), 2));
        pairs.push((uris::object_notes_changed().to_owned(), 1));
        pairs.push((uris::object_post_deleted().to_owned(), 3));
        pairs.push((uris::object_property_changed().to_owned(), 3));
        pairs.push((uris::object_reference_changed().to_owned(), 4));
        pairs.push(("ak.wwise.core.object.structureChanged".to_owned(), 5));
        pairs.push((uris::project_loaded().to_owned(), 3));
        pairs.push((uris::project_post_closed().to_owned(), 2));
        pairs.push((uris::project_saved().to_owned(), 3));
        pairs.push((uris::soundbank_generated().to_owned(), 5));
        pairs.push((uris::soundbank_generation_done().to_owned(), 5));
        pairs.push((uris::switch_container_assignment_added().to_owned(), 4));
        pairs.push((uris::switch_container_assignment_removed().to_owned(), 3));
        pairs.push((uris::transport_state_changed().to_owned(), 3));
        pairs.push((uris::selection_changed().to_owned(), 1));
        assert(pairs_view(pairs@) =~= default_score_pairs());
        ScoreTable::from_pairs(pairs)
    }
}

/// The score of `uri` in a score table, or 1 where it has none.
pub fn default_score_of(defaults: &ScoreTable, uri: &str) -> (s: u64)
    requires
        defaults.wf(),
    ensures
        s == (if defaults@.contains_key(uri@) {
            defaults@[uri@]
        } else {
            1
        }),
        defaults@ == default_score_map() ==> s == default_score(uri@),
{
    match defaults.get(uri) {
        Some(s) => s,
        None => 1,
    }
}

} // verus!
