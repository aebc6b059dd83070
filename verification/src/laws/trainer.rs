//! What training is owed: how a log is labelled, which records train a model,
//! and what is exported and answered.
use vstd::prelude::*;
use crate::detection;
use crate::detection::{ExtractedFeatures, FrequencyFeatures, RequestMetadata};
use crate::json;
use crate::json::{Json, JsonView};
use crate::laws::answers;
use crate::laws::answers::{refuses, says};
use crate::model;
use crate::outside;
use crate::reply::Reply;
use crate::text;
use crate::trainer;
use crate::trainer::{FitPlan, LabeledRecord, LabeledView, LogRecord, ReviewedTrainingRecord};

verus! {

/// A logged request is the one that the log describes, of which nothing else is
/// known.
pub proof fn law_logs_describe_requests(record: LogRecord, metadata: RequestMetadata)
    requires
        call_ensures(trainer::metadata_from_log, (&record,), metadata),
    ensures
        metadata@.ip == Some(record.ip@),
        record.method matches Some(method) ==> metadata@.method == Some(method@),
        record.method is None ==> metadata@.method == Some("GET"@),
        metadata@.path == Some(record.path@),
        record.user_agent matches Some(agent) ==> metadata@.user_agent == Some(agent@),
        record.user_agent is None ==> metadata@.user_agent == Some(Seq::<char>::empty()),
        metadata@.referer == text::opt_view(record.referer),
        metadata.status == record.status,
        metadata.bytes == record.bytes,
        metadata.timestamp is None,
        metadata.headers is None,
        metadata.fingerprint_id is None,
        metadata.fingerprint_reuse_count is None,
        metadata.tls_ja3 is None,
        metadata.tls_ja4 is None,
        metadata.verified_bot is None,
{
}

/// What tells these names apart.
proof fn lemma_labels_differ()
    ensures
        "bot"@.len() == 3,
        "human"@.len() == 5,
        "suspicious"@.len() == 10,
{
    reveal_strlit("bot");
    reveal_strlit("human");
    reveal_strlit("suspicious");
}

/// A logged request has the points of its heuristic score, ten more where it was
/// answered with an error, and at most one hundred. From 80 points on it is
/// labelled a bot, up to 50 a human, and suspicious in between.
pub proof fn law_logs_are_labelled_by_points(
    record: LogRecord,
    metadata: RequestMetadata,
    now: i64,
    features: ExtractedFeatures,
    score: u32,
    terms: Vec<i32>,
    written: String,
    written_text: &str,
    reason: String,
    labelled: LabeledRecord,
)
    requires
        call_ensures(trainer::metadata_from_log, (&record,), metadata),
        call_ensures(
            detection::extract_features_at,
            (&metadata, FrequencyFeatures { count: 0, time_since: None }, now),
            features,
        ),
        call_ensures(detection::score, (&features,), score),
        call_ensures(detection::score_terms, (&features,), terms),
        call_ensures(detection::hundredths_string, (score,), written),
        written_text@ == written@,
        call_ensures(detection::reason_text, (false, written_text), reason),
        call_ensures(trainer::label_record, (record,), labelled),
    ensures
        (record.status is None || record.status->0 < 400) ==> labelled.points == score,
        record.status matches Some(status) ==> status >= 400 && score <= 90 ==> labelled.points
            == score + 10,
        record.status matches Some(status) ==> status >= 400 && score > 90 ==> labelled.points
            == 100,
        labelled.label@ == "bot"@ <==> labelled.points >= 80,
        labelled.label@ == "human"@ <==> labelled.points <= 50,
        labelled.label@ == "suspicious"@ <==> 50 < labelled.points < 80,
        labelled.log_data@ == record@,
        labelled.reason@ == reason@,
        labelled@.terms == detection::ints(terms@),
{
    lemma_labels_differ();
    let made = trainer::logged_request(record@);
    let then = detection::features_of(made, trainer::no_frequency(), 0);
    assert(detection::terms_of(then) == detection::terms_of(features@));
}

/// A batch is labelled record by record, in order.
pub proof fn law_batches_are_labelled_in_order(
    records: Vec<LogRecord>,
    i: int,
    alone: LabeledRecord,
    labelled: Vec<LabeledRecord>,
)
    requires
        call_ensures(trainer::label_batch, (records,), labelled),
        0 <= i < records@.len(),
        call_ensures(trainer::label_record, (records@[i],), alone),
    ensures
        labelled@.len() == records@.len(),
        labelled@[i]@ == alone@,
{
    let labels = trainer::labels(labelled@);
    assert(labels.len() == labelled@.len());
    assert(labels[i] == labelled@[i]@);
    assert(trainer::logs(records@)[i] == records@[i]@);
}

/// Whether a reviewed label is one of the two words, trimmed and in whatever case.
pub open spec fn is_word(label: String, word: Seq<char>) -> bool {
    text::lower(text::trimmed(label@)) == word
}

/// A model is trained on two to ten thousand reviewed records, bots and humans
/// among them, in at most two million steps; anything else is refused with the
/// first thing that is wrong with it.
pub proof fn law_training_needs_reviewed_records(
    records: Vec<ReviewedTrainingRecord>,
    epochs: usize,
    plan: Result<FitPlan, String>,
)
    requires
        call_ensures(trainer::prepare_fit, (&records, Some(epochs)), plan),
        10 <= epochs <= 10_000,
    ensures
        ({
            let n = records@.len();
            let all = forall|i: int|
                0 <= i < n ==> is_word((#[trigger] records@[i]).label, "bot"@) || is_word(
                    records@[i].label,
                    "human"@,
                );
            let bots = exists|i: int|
                0 <= i < n && is_word((#[trigger] records@[i]).label, "bot"@);
            let humans = exists|i: int|
                0 <= i < n && is_word((#[trigger] records@[i]).label, "human"@);
            &&& plan is Ok <==> 2 <= n <= 10_000 && n * epochs <= 2_000_000 && all && bots && humans
            &&& n < 2 ==> (plan matches Err(message) && message@
                == "at least two reviewed training records are required"@)
            &&& n > 10_000 ==> (plan matches Err(message) && message@
                == "at most 10000 training records are accepted per request"@)
            &&& 2 <= n <= 10_000 && n * epochs > 2_000_000 ==> (plan matches Err(message)
                && message@ == "training request exceeds the 2000000 record-epoch work limit"@)
            &&& 2 <= n <= 10_000 && n * epochs <= 2_000_000 && !all ==> (plan matches Err(message)
                && message@ == "reviewed labels must be either 'bot' or 'human'"@)
            &&& 2 <= n <= 10_000 && n * epochs <= 2_000_000 && all && !(bots && humans) ==> (
            plan matches Err(message) && message@
                == "training data must contain both bot and human reviewed labels"@)
        }),
{
    lemma_labels_differ();
    let views = trainer::reviewed(records@);
    assert(views.len() == records@.len());
    assert forall|i: int| 0 <= i < records@.len() implies (#[trigger] views[i]).label
        == records@[i].label@ by {}
    let n = records@.len();
    let bots = exists|i: int| 0 <= i < n && is_word((#[trigger] records@[i]).label, "bot"@);
    let humans = exists|i: int| 0 <= i < n && is_word((#[trigger] records@[i]).label, "human"@);
    let all = forall|i: int|
        0 <= i < n ==> is_word((#[trigger] records@[i]).label, "bot"@) || is_word(
            records@[i].label,
            "human"@,
        );
    assert(trainer::all_reviewed(views) == all) by {
        if all {
            assert forall|i: int| 0 <= i < views.len() implies trainer::says_bot(
                (#[trigger] views[i]).label,
            ) is Some by {
                assert(views[i].label == records@[i].label@);
            }
        }
        if trainer::all_reviewed(views) {
            assert forall|i: int| 0 <= i < n implies is_word((#[trigger] records@[i]).label, "bot"@)
                || is_word(records@[i].label, "human"@) by {
                assert(trainer::says_bot(views[i].label) is Some);
            }
        }
    }
    assert(trainer::some_label(views, true) == bots) by {
        if bots {
            let i = choose|i: int| 0 <= i < n && is_word((#[trigger] records@[i]).label, "bot"@);
            assert(trainer::says_bot(views[i].label) == Some(true));
        }
        if trainer::some_label(views, true) {
            let i = choose|i: int|
                0 <= i < views.len() && trainer::says_bot((#[trigger] views[i]).label) == Some(
                    true,
                );
            assert(is_word(records@[i].label, "bot"@));
        }
    }
    assert(trainer::some_label(views, false) == humans) by {
        if humans {
            let i = choose|i: int| 0 <= i < n && is_word((#[trigger] records@[i]).label, "human"@);
            assert(trainer::says_bot(views[i].label) == Some(false));
        }
        if trainer::some_label(views, false) {
            let i = choose|i: int|
                0 <= i < views.len() && trainer::says_bot((#[trigger] views[i]).label) == Some(
                    false,
                );
            assert(is_word(records@[i].label, "human"@));
        }
    }
}

/// A fit goes over the records as often as asked for, between ten and ten
/// thousand times, and 400 times where nothing is asked. Each record is weighed
/// as the request that it logs, and counts as it is labelled.
pub proof fn law_fits_weigh_the_records(
    records: Vec<ReviewedTrainingRecord>,
    epochs: Option<usize>,
    plan: FitPlan,
    i: int,
    metadata: RequestMetadata,
    now: i64,
    features: ExtractedFeatures,
    entries: Vec<(u64, u64)>,
    k: int,
)
    requires
        call_ensures(trainer::prepare_fit, (&records, epochs), Ok(plan)),
        0 <= i < records@.len(),
        call_ensures(trainer::metadata_from_log, (&records@[i].log_data,), metadata),
        call_ensures(
            detection::extract_features_at,
            (&metadata, FrequencyFeatures { count: 0, time_since: None }, now),
            features,
        ),
        call_ensures(model::model_feature_vector, (&features,), entries),
        0 <= k < 10,
    ensures
        plan.samples@.len() == records@.len(),
        plan.samples@[i].features@.len() == 10,
        plan.samples@[i].features@[k] == entries@[k],
        plan.samples@[i].is_bot <==> is_word(records@[i].label, "bot"@),
        epochs is None ==> plan.epochs == 400,
        epochs matches Some(asked) ==> plan.epochs == (if asked < 10 {
            10int
        } else if asked > 10_000 {
            10_000int
        } else {
            asked as int
        }),
{
    lemma_labels_differ();
    assert(trainer::is_sample_of(plan.samples@[i], records@[i]@));
    let then = trainer::sample_features(records@[i].log_data@);
    let weighed = model::weighed_features(features@);
    assert(then =~= weighed);
    assert(entries@[k].0 == weighed[k] && entries@[k].1 == model::feature_scales()[k]);
    assert(plan.samples@[i].features@[k].0 == then[k]);
}

/// A log is written as one JSON object, field by field, with null for what is not
/// known.
pub proof fn law_logs_are_written_in_order(record: LogRecord, written: String)
    requires
        call_ensures(trainer::write_log, (&record,), written),
    ensures
        ({
            let method = match record.method {
                Some(method) => outside::json_quoted(method@),
                None => "null"@,
            };
            let status = match record.status {
                Some(status) => text::decimal(status as nat),
                None => "null"@,
            };
            let bytes = match record.bytes {
                Some(bytes) => text::decimal(bytes as nat),
                None => "null"@,
            };
            let referer = match record.referer {
                Some(referer) => outside::json_quoted(referer@),
                None => "null"@,
            };
            let agent = match record.user_agent {
                Some(agent) => outside::json_quoted(agent@),
                None => "null"@,
            };
            written@ == "{\"ip\":"@ + outside::json_quoted(record.ip@) + ",\"method\":"@ + method
                + ",\"path\":"@ + outside::json_quoted(record.path@) + ",\"status\":"@ + status
                + ",\"bytes\":"@ + bytes + ",\"referer\":"@ + referer + ",\"user_agent\":"@ + agent
                + "}"@
        }),
{
}

/// A labelled record is exported on a line of its own, behind the earlier ones,
/// exactly where it was decided.
pub proof fn law_decided_records_are_exported(
    records: Vec<LabeledRecord>,
    record: LabeledRecord,
    more: Vec<LabeledRecord>,
    log: String,
    lines: Vec<String>,
    more_lines: Vec<String>,
)
    requires
        more@ == records@.push(record),
        call_ensures(trainer::write_log, (&record.log_data,), log),
        call_ensures(trainer::export_jsonl, (&records,), lines),
        call_ensures(trainer::export_jsonl, (&more,), more_lines),
    ensures
        record.label@ == "bot"@ || record.label@ == "human"@ ==> text::views(more_lines@)
            == text::views(lines@).push(
            "{\"label\":"@ + outside::json_quoted(record.label@) + ",\"log_data\":"@
                + outside::json_quoted(log@) + "}"@,
        ),
        record.label@ != "bot"@ && record.label@ != "human"@ ==> text::views(more_lines@)
            == text::views(lines@),
        records@.len() == 0 ==> lines@.len() == 0,
{
    let views = trainer::labels(more@);
    assert(views.drop_last() =~= trainer::labels(records@));
    assert(views.last() == record@);
    assert(text::views(lines@).len() == lines@.len());
    if records@.len() == 0 {
        assert(trainer::labels(records@) =~= Seq::<LabeledView>::empty());
    }
}

/// What tells these names apart.
proof fn lemma_export_names_differ()
    ensures
        "status"@.len() == 6,
        "jsonl"@.len() == 5,
        "metadata"@.len() == 8,
        "count"@.len() == 5,
        "schema_version"@.len() == 14,
        "generated_at"@.len() == 12,
        "generated_by"@.len() == 12,
        "record_count"@.len() == 12,
        "trust_boundary"@.len() == 14,
        "review_required"@.len() == 15,
        "notes"@.len() == 5,
        "jsonl"@[0] == 'j',
        "count"@[0] == 'c',
        "notes"@[0] == 'n',
        "schema_version"@[0] == 's',
        "trust_boundary"@[0] == 't',
        "generated_at"@[10] == 'a',
        "generated_by"@[10] == 'b',
        "record_count"@[10] == 'n',
{
    reveal_strlit("status");
    reveal_strlit("jsonl");
    reveal_strlit("metadata");
    reveal_strlit("count");
    reveal_strlit("schema_version");
    reveal_strlit("generated_at");
    reveal_strlit("generated_by");
    reveal_strlit("record_count");
    reveal_strlit("trust_boundary");
    reveal_strlit("review_required");
    reveal_strlit("notes");
}

/// An export holds its lines, one below the other, and says how many there are
/// and that they need a review.
pub proof fn law_exports_are_described(lines: Vec<String>, moment: &str, answer: Json)
    requires
        call_ensures(trainer::export_answer, (&lines, moment), answer),
    ensures
        says(answer@, "status"@, "success"@),
        says(answer@, "jsonl"@, text::joined(text::views(lines@), "\n"@)),
        json::member(answer@, "metadata"@) matches Some(about) && says(
            about,
            "generated_at"@,
            moment@,
        ) && says(about, "generated_by"@, "rag-trainer"@) && json::member(
            about,
            "schema_version"@,
        ) == Some(JsonView::Int(1)) && json::member(about, "record_count"@) == Some(
            JsonView::Int(lines@.len() as int),
        ) && (json::member(about, "trust_boundary"@) matches Some(boundary) && json::member(
            boundary,
            "review_required"@,
        ) == Some(JsonView::Bool(true))),
{
    lemma_export_names_differ();
}

/// What was ingested is counted; a store that cannot be reached is answered 503.
pub proof fn law_ingests_are_answered(count: usize, answer: Json, refusal: Reply)
    requires
        call_ensures(trainer::ingest_answer, (count,), answer),
        call_ensures(trainer::ingest_refused, (), refusal),
    ensures
        says(answer@, "status"@, "success"@),
        json::member(answer@, "count"@) == Some(JsonView::Int(count as int)),
        refuses(refusal@, 503, "training database unavailable"@),
{
    lemma_export_names_differ();
    answers::lemma_refusal(503, "training database unavailable"@);
}

/// What tells these names apart.
proof fn lemma_log_names_differ()
    ensures
        "ip"@.len() == 2,
        "method"@.len() == 6,
        "path"@.len() == 4,
        "status"@.len() == 6,
        "bytes"@.len() == 5,
        "referer"@.len() == 7,
        "user_agent"@.len() == 10,
        "method"@[0] == 'm',
        "status"@[0] == 's',
{
    reveal_strlit("ip");
    reveal_strlit("method");
    reveal_strlit("path");
    reveal_strlit("status");
    reveal_strlit("bytes");
    reveal_strlit("referer");
    reveal_strlit("user_agent");
}

/// What tells these names apart.
proof fn lemma_label_names_differ()
    ensures
        "log_data"@.len() == 8,
        "label"@.len() == 5,
        "bot_score"@.len() == 9,
        "reasons"@.len() == 7,
{
    reveal_strlit("log_data");
    reveal_strlit("label");
    reveal_strlit("bot_score");
    reveal_strlit("reasons");
}

/// A labelled record is told with its log, its label, its score and its reason.
pub proof fn law_labels_are_told(record: LabeledRecord, score: &str, told: Json)
    requires
        call_ensures(trainer::describe_label, (&record, score), told),
    ensures
        says(told@, "label"@, record.label@),
        json::member(told@, "bot_score"@) == Some(JsonView::Decimal(score@)),
        json::member(told@, "reasons"@) == Some(
            JsonView::Array(seq![JsonView::Text(record.reason@)]),
        ),
        json::member(told@, "log_data"@) matches Some(log) && says(
            log,
            "ip"@,
            record.log_data.ip@,
        ) && says(log, "path"@, record.log_data.path@) && json::member(log, "method"@) == Some(
            json::text_or_null(text::opt_view(record.log_data.method)),
        ) && json::member(log, "referer"@) == Some(
            json::text_or_null(text::opt_view(record.log_data.referer)),
        ) && json::member(log, "user_agent"@) == Some(
            json::text_or_null(text::opt_view(record.log_data.user_agent)),
        ) && (record.log_data.status matches Some(status) ==> json::member(log, "status"@) == Some(
            JsonView::Int(status as int),
        )) && (record.log_data.status is None ==> json::member(log, "status"@) == Some(
            JsonView::Null,
        )) && (record.log_data.bytes matches Some(bytes) ==> json::member(log, "bytes"@) == Some(
            JsonView::Int(bytes as int),
        )) && (record.log_data.bytes is None ==> json::member(log, "bytes"@) == Some(
            JsonView::Null,
        )),
{
    lemma_log_names_differ();
    lemma_label_names_differ();
}

/// Training is for whom is authorized, and persists only where a path is set.
pub proof fn law_training_is_admitted(
    authorized: bool,
    persist: bool,
    has_path: bool,
    verdict: Result<(), Reply>,
)
    requires
        call_ensures(trainer::admit_training, (authorized, persist, has_path), verdict),
    ensures
        verdict is Ok <==> authorized && (persist ==> has_path),
        !authorized ==> refuses(verdict->Err_0@, 401, "Unauthorized"@),
        authorized && persist && !has_path ==> refuses(
            verdict->Err_0@,
            400,
            "persist requested but DETECTION_MODEL_PATH is not configured"@,
        ),
{
    answers::lemma_refusal(401, "Unauthorized"@);
    answers::lemma_refusal(400, "persist requested but DETECTION_MODEL_PATH is not configured"@);
}

/// What tells these names apart.
proof fn lemma_trained_names_differ()
    ensures
        "status"@.len() == 6,
        "model"@.len() == 5,
        "persisted_to"@.len() == 12,
        "metrics"@.len() == 7,
        "training_accuracy"@.len() == 17,
        "reviewed_labels_required"@.len() == 24,
{
    reveal_strlit("status");
    reveal_strlit("model");
    reveal_strlit("persisted_to");
    reveal_strlit("metrics");
    reveal_strlit("training_accuracy");
    reveal_strlit("reviewed_labels_required");
}

/// A trained model is answered with its accuracy and with where it was stored; a
/// refused fit is answered 400, and one that could not be stored 503.
pub proof fn law_training_is_answered(
    artifact: Json,
    stored: Option<&str>,
    accuracy: &str,
    message: &str,
    answer: Json,
    unfit: Reply,
    unstored: Reply,
)
    requires
        call_ensures(trainer::trained_answer, (artifact, stored, accuracy), answer),
        call_ensures(trainer::fit_refused, (message,), unfit),
        call_ensures(trainer::persist_refused, (), unstored),
    ensures
        says(answer@, "status"@, "success"@),
        json::member(answer@, "model"@) == Some(artifact@),
        stored matches Some(path) ==> says(answer@, "persisted_to"@, path@),
        stored is None ==> json::member(answer@, "persisted_to"@) == Some(JsonView::Null),
        json::member(answer@, "metrics"@) matches Some(metrics) && json::member(
            metrics,
            "training_accuracy"@,
        ) == Some(JsonView::Decimal(accuracy@)) && json::member(
            metrics,
            "reviewed_labels_required"@,
        ) == Some(JsonView::Bool(true)),
        refuses(unfit@, 400, message@),
        refuses(unstored@, 503, "failed to persist trained model"@),
{
    lemma_trained_names_differ();
    answers::lemma_refusal(400, message@);
    answers::lemma_refusal(503, "failed to persist trained model"@);
}

/// A temporary name is made of the process, the moment and a count, parted by
/// dots, and ends with what it is.
pub proof fn law_temporary_names(process: u32, nanoseconds: u64, sequence: u64, suffix: String)
    requires
        call_ensures(trainer::temp_suffix, (process, nanoseconds, sequence), suffix),
    ensures
        suffix@ == "."@ + text::decimal(process as nat) + "."@ + text::decimal(nanoseconds as nat)
            + "."@ + text::decimal(sequence as nat) + ".tmp"@,
{
    reveal_strlit(".");
    reveal_strlit("tmp");
    reveal_strlit(".tmp");
    let parts = seq![
        Seq::<char>::empty(),
        text::decimal(process as nat),
        text::decimal(nanoseconds as nat),
        text::decimal(sequence as nat),
        "tmp"@,
    ];
    reveal_with_fuel(text::joined, 6);
    assert(parts.drop_last() =~= seq![parts[0], parts[1], parts[2], parts[3]]);
    assert(parts.drop_last().drop_last() =~= seq![parts[0], parts[1], parts[2]]);
    assert(parts.drop_last().drop_last().drop_last() =~= seq![parts[0], parts[1]]);
    assert(parts.drop_last().drop_last().drop_last().drop_last() =~= seq![parts[0]]);
    assert(suffix@ =~= "."@ + text::decimal(process as nat) + "."@ + text::decimal(
        nanoseconds as nat,
    ) + "."@ + text::decimal(sequence as nat) + ".tmp"@);
}

} // verus!
