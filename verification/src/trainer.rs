//! Training: labels for logged requests, the samples that a model is fitted to,
//! and what of it is exported and stored.
use vstd::prelude::*;
use crate::detection;
use crate::detection::{FrequencyFeatures, MetadataView, RequestMetadata};
use crate::json;
use crate::json::{Json, JsonObject, JsonView};
use crate::model;
use crate::outside;
use crate::reply;
use crate::reply::{Reply, ReplyView};
use crate::settings;
use crate::text;
use crate::text_laws;

verus! {

/// How many records one training request may hold.
pub const MAX_TRAINING_RECORDS: usize = 10_000;

/// How many records times epochs one training request may ask for.
pub const MAX_TRAINING_STEPS: u64 = 2_000_000;

/// A request as a log holds it.
#[derive(Debug)]
pub struct LogRecord {
    pub ip: String,
    pub method: Option<String>,
    pub path: String,
    pub status: Option<u16>,
    pub bytes: Option<u64>,
    pub referer: Option<String>,
    pub user_agent: Option<String>,
}

/// What a log says of a request.
pub ghost struct LogView {
    pub ip: Seq<char>,
    pub method: Option<Seq<char>>,
    pub path: Seq<char>,
    pub status: Option<u16>,
    pub bytes: Option<u64>,
    pub referer: Option<Seq<char>>,
    pub user_agent: Option<Seq<char>>,
}

impl View for LogRecord {
    type V = LogView;

    open spec fn view(&self) -> LogView {
        LogView {
            ip: self.ip@,
            method: text::opt_view(self.method),
            path: self.path@,
            status: self.status,
            bytes: self.bytes,
            referer: text::opt_view(self.referer),
            user_agent: text::opt_view(self.user_agent),
        }
    }
}

/// What the detector sees of a logged request.
pub open spec fn logged_request(record: LogView) -> MetadataView {
    MetadataView {
        ip: Some(record.ip),
        method: Some(settings::string_setting(record.method, "GET"@)),
        path: Some(record.path),
        user_agent: Some(settings::string_setting(record.user_agent, Seq::empty())),
        referer: record.referer,
        status: record.status,
        bytes: record.bytes,
        ..detection::unknown_request()
    }
}

/// What the detector sees of a logged request.
pub fn metadata_from_log(record: &LogRecord) -> (r: RequestMetadata)
    ensures
        r@ == logged_request(record@),
{
    proof {
        reveal_strlit("");
        assert(""@ =~= Seq::<char>::empty());
    }
    let unknown: RequestMetadata = Default::default();
    RequestMetadata {
        ip: Some(record.ip.clone()),
        method: Some(settings::env_string(text::borrowed(&record.method), "GET")),
        path: Some(record.path.clone()),
        user_agent: Some(settings::env_string(text::borrowed(&record.user_agent), "")),
        referer: text::owned(text::borrowed(&record.referer)),
        status: record.status,
        bytes: record.bytes,
        ..unknown
    }
}

/// No request came before.
pub open spec fn no_frequency() -> FrequencyFeatures {
    FrequencyFeatures { count: 0, time_since: None }
}

/// A logged request with a label that somebody has reviewed.
#[derive(Debug)]
pub struct ReviewedTrainingRecord {
    pub log_data: LogRecord,
    pub label: String,
}

/// A logged request and its reviewed label.
pub ghost struct ReviewedView {
    pub log_data: LogView,
    pub label: Seq<char>,
}

impl View for ReviewedTrainingRecord {
    type V = ReviewedView;

    open spec fn view(&self) -> ReviewedView {
        ReviewedView { log_data: self.log_data@, label: self.label@ }
    }
}

/// The reviewed records.
pub open spec fn reviewed(records: Seq<ReviewedTrainingRecord>) -> Seq<ReviewedView> {
    records.map_values(|record: ReviewedTrainingRecord| record@)
}

/// Whether a label says bot or human; any other says nothing.
pub open spec fn says_bot(label: Seq<char>) -> Option<bool> {
    let word = text::lower(text::trimmed(label));
    if word == "bot"@ {
        Some(true)
    } else if word == "human"@ {
        Some(false)
    } else {
        None
    }
}

/// Whether a label says bot or human.
fn read_label(label: &str) -> (r: Option<bool>)
    ensures
        r == says_bot(label@),
{
    let solid = text::trim(label);
    let word = text::to_lower(solid.as_str());
    if text::text_eq(word.as_str(), "bot") {
        Some(true)
    } else if text::text_eq(word.as_str(), "human") {
        Some(false)
    } else {
        None
    }
}

/// How many epochs are run: what was asked for, within bounds.
pub open spec fn epochs_of(asked: Option<usize>) -> int {
    settings::clamped(
        match asked {
            Some(n) => n as int,
            None => 400,
        },
        10,
        10_000,
    )
}

/// Every label says something.
pub open spec fn all_reviewed(records: Seq<ReviewedView>) -> bool {
    forall|i: int| 0 <= i < records.len() ==> says_bot((#[trigger] records[i]).label) is Some
}

/// One of the labels says this.
pub open spec fn some_label(records: Seq<ReviewedView>, bot: bool) -> bool {
    exists|i: int| 0 <= i < records.len() && says_bot((#[trigger] records[i]).label) == Some(bot)
}

/// Why a training request is refused.
pub open spec fn training_fault(records: Seq<ReviewedView>, epochs: Option<usize>) -> Option<
    Seq<char>,
> {
    if records.len() < 2 {
        Some("at least two reviewed training records are required"@)
    } else if records.len() > MAX_TRAINING_RECORDS {
        Some("at most 10000 training records are accepted per request"@)
    } else if records.len() * epochs_of(epochs) > MAX_TRAINING_STEPS {
        Some("training request exceeds the 2000000 record-epoch work limit"@)
    } else if !all_reviewed(records) {
        Some("reviewed labels must be either 'bot' or 'human'"@)
    } else if !(some_label(records, true) && some_label(records, false)) {
        Some("training data must contain both bot and human reviewed labels"@)
    } else {
        None
    }
}

/// What a model is fitted to: features as fractions, and whether it was a bot.
#[derive(Debug)]
pub struct Sample {
    pub features: Vec<(u64, u64)>,
    pub is_bot: bool,
}

/// The features that a model weighs of a logged request.
pub open spec fn sample_features(record: LogView) -> Seq<int> {
    model::weighed_features(
        detection::features_of(logged_request(record), no_frequency(), 0),
    )
}

/// The sample is that of the record.
pub open spec fn is_sample_of(sample: Sample, record: ReviewedView) -> bool {
    &&& says_bot(record.label) == Some(sample.is_bot)
    &&& sample.features@.len() == model::MODEL_FEATURE_COUNT
    &&& forall|k: int|
        0 <= k < sample.features@.len() ==> (#[trigger] sample.features@[k]).0 == sample_features(
            record.log_data,
        )[k] && sample.features@[k].1 == model::feature_scales()[k]
}

/// What a fit works on.
#[derive(Debug)]
pub struct FitPlan {
    pub epochs: u64,
    pub samples: Vec<Sample>,
}

/// The features of a logged request that a model weighs.
fn read_features(record: &LogRecord) -> (r: Vec<(u64, u64)>)
    ensures
        r@.len() == model::MODEL_FEATURE_COUNT,
        forall|k: int|
            0 <= k < r@.len() ==> (#[trigger] r@[k]).0 == sample_features(record@)[k] && r@[k].1
                == model::feature_scales()[k],
{
    let metadata = metadata_from_log(record);
    let features = detection::extract_features_at(
        &metadata,
        FrequencyFeatures { count: 0, time_since: None },
        0,
    );
    model::model_feature_vector(&features)
}

/// Checks a training request and prepares what a fit works on.
pub fn prepare_fit(records: &Vec<ReviewedTrainingRecord>, epochs: Option<usize>) -> (r: Result<
    FitPlan,
    String,
>)
    ensures
        match r {
            Ok(plan) => {
                &&& training_fault(reviewed(records@), epochs) is None
                &&& plan.epochs == epochs_of(epochs)
                &&& plan.samples@.len() == records@.len()
                &&& forall|i: int|
                    0 <= i < records@.len() ==> is_sample_of(
                        #[trigger] plan.samples@[i],
                        records@[i]@,
                    )
            },
            Err(message) => training_fault(reviewed(records@), epochs) == Some(message@),
        },
{
    let ghost views = reviewed(records@);
    assert(views.len() == records@.len());
    if records.len() < 2 {
        return Err("at least two reviewed training records are required".to_string());
    }
    if records.len() > MAX_TRAINING_RECORDS {
        return Err("at most 10000 training records are accepted per request".to_string());
    }
    let asked: usize = match epochs {
        Some(n) => n,
        None => 400,
    };
    let rounds: u64 = if asked < 10 {
        10
    } else if asked > 10_000 {
        10_000
    } else {
        asked as u64
    };
    assert(records@.len() * rounds <= 100_000_000) by (nonlinear_arith)
        requires
            records@.len() <= 10_000,
            rounds <= 10_000,
    ;
    if records.len() as u64 * rounds > MAX_TRAINING_STEPS {
        return Err("training request exceeds the 2000000 record-epoch work limit".to_string());
    }
    let mut samples: Vec<Sample> = Vec::new();
    let mut saw_bot = false;
    let mut saw_human = false;
    let mut i: usize = 0;
    while i < records.len()
        invariant
            i <= records@.len(),
            views == reviewed(records@),
            views.len() == records@.len(),
            2 <= records@.len() <= MAX_TRAINING_RECORDS,
            rounds == epochs_of(epochs),
            records@.len() * rounds <= MAX_TRAINING_STEPS,
            samples@.len() == i,
            forall|j: int| 0 <= j < i ==> is_sample_of(#[trigger] samples@[j], records@[j]@),
            forall|j: int| 0 <= j < i ==> says_bot((#[trigger] views[j]).label) is Some,
            saw_bot == exists|j: int|
                0 <= j < i && says_bot((#[trigger] views[j]).label) == Some(true),
            saw_human == exists|j: int|
                0 <= j < i && says_bot((#[trigger] views[j]).label) == Some(false),
        decreases records@.len() - i,
    {
        assert(views[i as int] == records@[i as int]@);
        let is_bot = match read_label(records[i].label.as_str()) {
            Some(said) => said,
            None => {
                assert(!all_reviewed(views));
                return Err("reviewed labels must be either 'bot' or 'human'".to_string());
            },
        };
        if is_bot {
            saw_bot = true;
        } else {
            saw_human = true;
        }
        let features = read_features(&records[i].log_data);
        samples.push(Sample { features, is_bot });
        i += 1;
    }
    assert(all_reviewed(views));
    assert(saw_bot == some_label(views, true));
    assert(saw_human == some_label(views, false));
    if !saw_bot || !saw_human {
        return Err(
            "training data must contain both bot and human reviewed labels".to_string(),
        );
    }
    Ok(FitPlan { epochs: rounds, samples })
}

/// The score of a logged request in hundredths; one that was answered with an
/// error scores more.
pub open spec fn logged_score(record: LogView, now: int) -> int {
    let score = detection::score_of(
        detection::features_of(logged_request(record), no_frequency(), now),
    );
    if record.status matches Some(status) && status >= 400 {
        detection::smaller(score + 10, 100)
    } else {
        score
    }
}

/// The label that a score suggests.
pub open spec fn label_for(score: int) -> Seq<char> {
    if score >= 80 {
        "bot"@
    } else if score <= 50 {
        "human"@
    } else {
        "suspicious"@
    }
}

/// A logged request with the label that the detector suggests.
#[derive(Debug)]
pub struct LabeledRecord {
    pub log_data: LogRecord,
    pub label: String,
    /// The score in hundredths.
    pub points: u32,
    /// What the score without the error is the sum of, in hundredths.
    pub terms: Vec<i32>,
    pub reason: String,
}

/// A logged request and the label that the detector suggests.
pub ghost struct LabeledView {
    pub log_data: LogView,
    pub label: Seq<char>,
    pub points: int,
    pub terms: Seq<int>,
    pub reason: Seq<char>,
}

impl View for LabeledRecord {
    type V = LabeledView;

    open spec fn view(&self) -> LabeledView {
        LabeledView {
            log_data: self.log_data@,
            label: self.label@,
            points: self.points as int,
            terms: detection::ints(self.terms@),
            reason: self.reason@,
        }
    }
}

/// The label of a logged request, with its score and its reason.
pub open spec fn labeled(record: LogView) -> LabeledView {
    LabeledView {
        log_data: record,
        label: label_for(logged_score(record, 0)),
        points: logged_score(record, 0),
        terms: detection::terms_of(
            detection::features_of(logged_request(record), no_frequency(), 0),
        ),
        reason: detection::reason_of(
            false,
            detection::hundredths_text(
                detection::score_of(
                    detection::features_of(logged_request(record), no_frequency(), 0),
                ) as nat,
            ),
        ),
    }
}

/// Labels a logged request.
pub fn label_record(record: LogRecord) -> (r: LabeledRecord)
    ensures
        r@ == labeled(record@),
{
    let none = FrequencyFeatures { count: 0, time_since: None };
    let metadata = metadata_from_log(&record);
    let features = detection::extract_features_at(&metadata, none, 0);
    let terms = detection::score_terms(&features);
    let score = detection::score(&features);
    let reason = detection::reason_text(false, detection::hundredths_string(score).as_str());
    proof {
        detection::law_score_is_bounded(features@);
    }
    let failed = match record.status {
        Some(status) => status >= 400,
        None => false,
    };
    let points: u32 = if !failed {
        score
    } else if score >= 90 {
        100
    } else {
        score + 10
    };
    let label = if points >= 80 {
        "bot"
    } else if points <= 50 {
        "human"
    } else {
        "suspicious"
    };
    LabeledRecord {
        log_data: record,
        label: label.to_string(),
        points,
        terms,
        reason,
    }
}

/// The meanings of records.
pub open spec fn logs(records: Seq<LogRecord>) -> Seq<LogView> {
    records.map_values(|record: LogRecord| record@)
}

/// The meanings of labeled records.
pub open spec fn labels(records: Seq<LabeledRecord>) -> Seq<LabeledView> {
    records.map_values(|record: LabeledRecord| record@)
}

/// Labels logged requests.
pub fn label_batch(records: Vec<LogRecord>) -> (r: Vec<LabeledRecord>)
    ensures
        labels(r@) == logs(records@).map_values(|record: LogView| labeled(record)),
{
    let ghost all = records@;
    let mut out: Vec<LabeledRecord> = Vec::new();
    for record in it: records.into_iter()
        invariant
            it.seq() == all,
            out@.len() == it.index(),
            forall|j: int| 0 <= j < it.index() ==> (#[trigger] out@[j])@ == labeled(all[j]@),
    {
        out.push(label_record(record));
    }
    assert(labels(out@) =~= logs(all).map_values(|record: LogView| labeled(record)));
    out
}

/// A text in JSON, or null.
pub open spec fn quoted_or_null(value: Option<Seq<char>>) -> Seq<char> {
    match value {
        Some(s) => outside::json_quoted(s),
        None => "null"@,
    }
}

/// A number in JSON, or null.
pub open spec fn number_or_null(value: Option<int>) -> Seq<char> {
    match value {
        Some(n) => text::decimal(n as nat),
        None => "null"@,
    }
}

/// A text in JSON, or null.
fn write_text(value: Option<&str>) -> (r: String)
    ensures
        r@ == quoted_or_null(text::opt_str_view(value)),
{
    match value {
        Some(s) => outside::quote_json(s),
        None => "null".to_string(),
    }
}

/// A number in JSON, or null.
fn write_number(value: Option<u64>) -> (r: String)
    ensures
        r@ == number_or_null(
            match value {
                Some(n) => Some(n as int),
                None => None,
            },
        ),
{
    match value {
        Some(n) => text::u64_text(n),
        None => "null".to_string(),
    }
}

/// A logged request in JSON, its fields in their order.
pub open spec fn log_text(record: LogView) -> Seq<char> {
    "{\"ip\":"@ + outside::json_quoted(record.ip) + ",\"method\":"@ + quoted_or_null(record.method)
        + ",\"path\":"@ + outside::json_quoted(record.path) + ",\"status\":"@ + number_or_null(
        match record.status {
            Some(n) => Some(n as int),
            None => None,
        },
    ) + ",\"bytes\":"@ + number_or_null(
        match record.bytes {
            Some(n) => Some(n as int),
            None => None,
        },
    ) + ",\"referer\":"@ + quoted_or_null(record.referer) + ",\"user_agent\":"@ + quoted_or_null(
        record.user_agent,
    ) + "}"@
}

/// A logged request in JSON, its fields in their order.
pub fn write_log(record: &LogRecord) -> (r: String)
    ensures
        r@ == log_text(record@),
{
    let status: Option<u64> = match record.status {
        Some(n) => Some(n as u64),
        None => None,
    };
    let mut out = "{\"ip\":".to_string();
    out.append(outside::quote_json(record.ip.as_str()).as_str());
    out.append(",\"method\":");
    out.append(write_text(text::borrowed(&record.method)).as_str());
    out.append(",\"path\":");
    out.append(outside::quote_json(record.path.as_str()).as_str());
    out.append(",\"status\":");
    out.append(write_number(status).as_str());
    out.append(",\"bytes\":");
    out.append(write_number(record.bytes).as_str());
    out.append(",\"referer\":");
    out.append(write_text(text::borrowed(&record.referer)).as_str());
    out.append(",\"user_agent\":");
    out.append(write_text(text::borrowed(&record.user_agent)).as_str());
    out.append("}");
    out
}

/// The line with which a labeled request is exported.
pub open spec fn export_line(record: LabeledView) -> Seq<char> {
    "{\"label\":"@ + outside::json_quoted(record.label) + ",\"log_data\":"@ + outside::json_quoted(
        log_text(record.log_data),
    ) + "}"@
}

/// The line with which a labeled request is exported.
fn write_line(record: &LabeledRecord) -> (r: String)
    ensures
        r@ == export_line(record@),
{
    let log = write_log(&record.log_data);
    let mut out = "{\"label\":".to_string();
    out.append(outside::quote_json(record.label.as_str()).as_str());
    out.append(",\"log_data\":");
    out.append(outside::quote_json(log.as_str()).as_str());
    out.append("}");
    out
}

/// The label is one that is exported.
pub open spec fn is_decided(record: LabeledView) -> bool {
    record.label == "bot"@ || record.label == "human"@
}

/// The lines of the requests that are labeled bot or human, in order.
pub open spec fn export_lines(records: Seq<LabeledView>) -> Seq<Seq<char>>
    decreases records.len(),
{
    if records.len() == 0 {
        Seq::empty()
    } else {
        let before = export_lines(records.drop_last());
        if is_decided(records.last()) {
            before.push(export_line(records.last()))
        } else {
            before
        }
    }
}

/// The lines of the requests that are labeled bot or human, in order.
pub fn export_jsonl(records: &Vec<LabeledRecord>) -> (r: Vec<String>)
    ensures
        text::views(r@) == export_lines(labels(records@)),
{
    let ghost views = labels(records@);
    let mut lines: Vec<String> = Vec::new();
    let mut i: usize = 0;
    assert(text::views(lines@) =~= export_lines(views.take(0)));
    while i < records.len()
        invariant
            i <= records@.len(),
            views == labels(records@),
            text::views(lines@) == export_lines(views.take(i as int)),
        decreases records@.len() - i,
    {
        let ghost now = views.take(i + 1);
        let ghost before = text::views(lines@);
        assert(now.drop_last() =~= views.take(i as int));
        assert(now.last() == records@[i as int]@);
        let label = records[i].label.as_str();
        if text::text_eq(label, "bot") || text::text_eq(label, "human") {
            let line = write_line(&records[i]);
            lines.push(line);
            assert(text::views(lines@) =~= before.push(line@));
        }
        i += 1;
    }
    assert(views.take(i as int) =~= views);
    lines
}

/// What is said about an export.
pub open spec fn export_metadata(generated_at: Seq<char>, count: int) -> JsonView {
    JsonView::Object(
        map![
            "schema_version"@ => JsonView::Int(1),
            "generated_at"@ => JsonView::Text(generated_at),
            "generated_by"@ => JsonView::Text("rag-trainer"@),
            "record_count"@ => JsonView::Int(count),
            "trust_boundary"@ => JsonView::Object(
                map![
                    "review_required"@ => JsonView::Bool(true),
                    "notes"@ => JsonView::Text(
                        "Heuristic labels should be reviewed before fine-tuning or sharing model artifacts."@,
                    ),
                ],
            ),
        ],
    )
}

/// The answer that hands an export out.
pub fn export_answer(lines: &Vec<String>, generated_at: &str) -> (r: Json)
    ensures
        r@ == JsonView::Object(
            map![
                "status"@ => JsonView::Text("success"@),
                "jsonl"@ => JsonView::Text(text::joined(text::views(lines@), "\n"@)),
                "metadata"@ => export_metadata(generated_at@, lines@.len() as int),
            ],
        ),
{
    let mut boundary = JsonObject::new();
    boundary.put("review_required", Json::Bool(true));
    boundary.put(
        "notes",
        json::text_value(
            "Heuristic labels should be reviewed before fine-tuning or sharing model artifacts.",
        ),
    );
    let mut metadata = JsonObject::new();
    metadata.put("schema_version", Json::Unsigned(1));
    metadata.put("generated_at", json::text_value(generated_at));
    metadata.put("generated_by", json::text_value("rag-trainer"));
    metadata.put("record_count", Json::Unsigned(lines.len() as u64));
    metadata.put("trust_boundary", Json::Object(boundary));
    let jsonl = text::join(lines, "\n");
    let mut body = JsonObject::new();
    body.put("status", json::text_value("success"));
    body.put("jsonl", json::text_value(jsonl.as_str()));
    body.put("metadata", Json::Object(metadata));
    Json::Object(body)
}

/// The answer to records that were taken in.
pub fn ingest_answer(count: usize) -> (r: Json)
    ensures
        r@ == JsonView::Object(
            map![
                "status"@ => JsonView::Text("success"@),
                "count"@ => JsonView::Int(count as int),
            ],
        ),
{
    let mut body = JsonObject::new();
    body.put("status", json::text_value("success"));
    body.put("count", Json::Unsigned(count as u64));
    Json::Object(body)
}

/// The refusal of records that could not be stored.
pub fn ingest_refused() -> (r: Reply)
    ensures
        r@ == reply::refusal(reply::SERVICE_UNAVAILABLE, "training database unavailable"@),
{
    reply::refuse(reply::SERVICE_UNAVAILABLE, "training database unavailable")
}

/// A logged request as a document.
pub open spec fn log_document(record: LogView) -> JsonView {
    JsonView::Object(
        map![
            "ip"@ => JsonView::Text(record.ip),
            "method"@ => json::text_or_null(record.method),
            "path"@ => JsonView::Text(record.path),
            "status"@ => match record.status {
                Some(n) => JsonView::Int(n as int),
                None => JsonView::Null,
            },
            "bytes"@ => match record.bytes {
                Some(n) => JsonView::Int(n as int),
                None => JsonView::Null,
            },
            "referer"@ => json::text_or_null(record.referer),
            "user_agent"@ => json::text_or_null(record.user_agent),
        ],
    )
}

/// A logged request as a document.
fn describe_log(record: &LogRecord) -> (r: Json)
    ensures
        r@ == log_document(record@),
{
    let status = match record.status {
        Some(n) => Json::Unsigned(n as u64),
        None => Json::Null,
    };
    let bytes = match record.bytes {
        Some(n) => Json::Unsigned(n),
        None => Json::Null,
    };
    let mut body = JsonObject::new();
    body.put("ip", json::text_value(record.ip.as_str()));
    body.put("method", json::optional_text(text::borrowed(&record.method)));
    body.put("path", json::text_value(record.path.as_str()));
    body.put("status", status);
    body.put("bytes", bytes);
    body.put("referer", json::optional_text(text::borrowed(&record.referer)));
    body.put("user_agent", json::optional_text(text::borrowed(&record.user_agent)));
    Json::Object(body)
}

/// A labeled request as a document; the score is given as its text.
pub fn describe_label(record: &LabeledRecord, score: &str) -> (r: Json)
    ensures
        r@ == JsonView::Object(
            map![
                "log_data"@ => log_document(record@.log_data),
                "label"@ => JsonView::Text(record@.label),
                "bot_score"@ => JsonView::Decimal(score@),
                "reasons"@ => JsonView::Array(seq![JsonView::Text(record@.reason)]),
            ],
        ),
{
    let mut body = JsonObject::new();
    body.put("log_data", describe_log(&record.log_data));
    body.put("label", json::text_value(record.label.as_str()));
    body.put("bot_score", Json::Decimal(score.to_string()));
    body.put("reasons", json::one_item(json::text_value(record.reason.as_str())));
    Json::Object(body)
}

/// Whether a training request is refused before any training work.
pub open spec fn training_admission(authorized: bool, persist: bool, has_path: bool) -> Option<
    ReplyView,
> {
    if !authorized {
        Some(reply::unauthorized_view())
    } else if persist && !has_path {
        Some(
            reply::refusal(
                reply::BAD_REQUEST,
                "persist requested but DETECTION_MODEL_PATH is not configured"@,
            ),
        )
    } else {
        None
    }
}

/// Refuses a training request before any training work.
pub fn admit_training(authorized: bool, persist: bool, has_path: bool) -> (r: Result<(), Reply>)
    ensures
        match r {
            Ok(_) => training_admission(authorized, persist, has_path) is None,
            Err(refused) => training_admission(authorized, persist, has_path) == Some(refused@),
        },
{
    if !authorized {
        return Err(reply::unauthorized());
    }
    if persist && !has_path {
        return Err(
            reply::refuse(
                reply::BAD_REQUEST,
                "persist requested but DETECTION_MODEL_PATH is not configured",
            ),
        );
    }
    Ok(())
}

/// The refusal of a training request that cannot be fitted.
pub fn fit_refused(message: &str) -> (r: Reply)
    ensures
        r@ == reply::refusal(reply::BAD_REQUEST, message@),
{
    reply::refuse(reply::BAD_REQUEST, message)
}

/// The refusal where a trained model could not be stored.
pub fn persist_refused() -> (r: Reply)
    ensures
        r@ == reply::refusal(reply::SERVICE_UNAVAILABLE, "failed to persist trained model"@),
{
    reply::refuse(reply::SERVICE_UNAVAILABLE, "failed to persist trained model")
}

/// The answer to a training request: the model, where it was stored, and how
/// well it fits, given as its text.
pub fn trained_answer(model: Json, persisted_to: Option<&str>, accuracy: &str) -> (r: Json)
    ensures
        r@ == JsonView::Object(
            map![
                "status"@ => JsonView::Text("success"@),
                "model"@ => model@,
                "persisted_to"@ => json::text_or_null(text::opt_str_view(persisted_to)),
                "metrics"@ => JsonView::Object(
                    map![
                        "training_accuracy"@ => JsonView::Decimal(accuracy@),
                        "reviewed_labels_required"@ => JsonView::Bool(true),
                    ],
                ),
            ],
        ),
{
    let mut metrics = JsonObject::new();
    metrics.put("training_accuracy", Json::Decimal(accuracy.to_string()));
    metrics.put("reviewed_labels_required", Json::Bool(true));
    let mut body = JsonObject::new();
    body.put("status", json::text_value("success"));
    body.put("model", model);
    body.put("persisted_to", json::optional_text(persisted_to));
    body.put("metrics", Json::Object(metrics));
    Json::Object(body)
}

/// What a temporary file is named behind the name of its artifact.
pub open spec fn temp_suffix_of(process: u32, nanoseconds: u64, sequence: u64) -> Seq<char> {
    text::joined(
        seq![
            Seq::empty(),
            text::decimal(process as nat),
            text::decimal(nanoseconds as nat),
            text::decimal(sequence as nat),
            "tmp"@,
        ],
        seq!['.'],
    )
}

/// What a temporary file is named behind the name of its artifact.
pub fn temp_suffix(process: u32, nanoseconds: u64, sequence: u64) -> (r: String)
    ensures
        r@ == temp_suffix_of(process, nanoseconds, sequence),
{
    let mut parts: Vec<String> = Vec::new();
    parts.push(String::new());
    parts.push(text::u64_text(process as u64));
    parts.push(text::u64_text(nanoseconds));
    parts.push(text::u64_text(sequence));
    parts.push("tmp".to_string());
    proof {
        reveal_strlit(".");
        assert("."@ =~= seq!['.']);
        assert(text::views(parts@) =~= seq![
            Seq::empty(),
            text::decimal(process as nat),
            text::decimal(nanoseconds as nat),
            text::decimal(sequence as nat),
            "tmp"@,
        ]);
    }
    text::join(&parts, ".")
}

/// A decimal number holds no dot.
proof fn lemma_no_dot(n: nat)
    ensures
        !text::decimal(n).contains('.'),
{
    text_laws::lemma_decimal_digits(n);
    let s = text::decimal(n);
    if s.contains('.') {
        let i = choose|i: int| 0 <= i < s.len() && s[i] == '.';
        assert(text::is_digit(s[i]));
    }
}

/// Two temporary files share a name only if their process, their time and their
/// place in the sequence are the same.
pub proof fn law_temp_names_are_distinct(
    process: u32,
    nanoseconds: u64,
    sequence: u64,
    other_process: u32,
    other_nanoseconds: u64,
    other_sequence: u64,
)
    requires
        temp_suffix_of(process, nanoseconds, sequence) == temp_suffix_of(
            other_process,
            other_nanoseconds,
            other_sequence,
        ),
    ensures
        process == other_process,
        nanoseconds == other_nanoseconds,
        sequence == other_sequence,
{
    reveal_strlit("tmp");
    let parts = seq![
        Seq::empty(),
        text::decimal(process as nat),
        text::decimal(nanoseconds as nat),
        text::decimal(sequence as nat),
        "tmp"@,
    ];
    let others = seq![
        Seq::empty(),
        text::decimal(other_process as nat),
        text::decimal(other_nanoseconds as nat),
        text::decimal(other_sequence as nat),
        "tmp"@,
    ];
    assert(!"tmp"@.contains('.')) by {
        assert("tmp"@ =~= seq!['t', 'm', 'p']);
    }
    lemma_no_dot(process as nat);
    lemma_no_dot(nanoseconds as nat);
    lemma_no_dot(sequence as nat);
    lemma_no_dot(other_process as nat);
    lemma_no_dot(other_nanoseconds as nat);
    lemma_no_dot(other_sequence as nat);
    text_laws::law_split_of_join(parts, '.');
    text_laws::law_split_of_join(others, '.');
    assert(parts[1] == others[1] && parts[2] == others[2] && parts[3] == others[3]);
    text_laws::lemma_decimal_digits(process as nat);
    text_laws::lemma_decimal_digits(nanoseconds as nat);
    text_laws::lemma_decimal_digits(sequence as nat);
    text_laws::lemma_decimal_digits(other_process as nat);
    text_laws::lemma_decimal_digits(other_nanoseconds as nat);
    text_laws::lemma_decimal_digits(other_sequence as nat);
}

/// An admitted training request is bounded in records and in work, and shows
/// both kinds of requests.
pub proof fn law_training_is_bounded(records: Seq<ReviewedView>, epochs: Option<usize>)
    requires
        training_fault(records, epochs) is None,
    ensures
        2 <= records.len() <= MAX_TRAINING_RECORDS,
        records.len() * epochs_of(epochs) <= MAX_TRAINING_STEPS,
        some_label(records, true),
        some_label(records, false),
{
}

/// What a label says of a logged request does not depend on when it is labeled.
pub proof fn law_labels_do_not_depend_on_time(record: LogView, now: int, later: int)
    ensures
        logged_score(record, now) == logged_score(record, later),
        label_for(logged_score(record, now)) == labeled(record).label,
{
    let a = detection::features_of(logged_request(record), no_frequency(), now);
    let b = detection::features_of(logged_request(record), no_frequency(), later);
    let c = detection::features_of(logged_request(record), no_frequency(), 0);
    assert(detection::terms_of(a) =~= detection::terms_of(b));
    assert(detection::terms_of(a) =~= detection::terms_of(c));
}

/// An error status never makes a request look more human.
pub proof fn law_errors_never_lower_the_score(record: LogView, status: u16, now: int)
    requires
        record.status is None,
        status >= 400,
    ensures
        logged_score((LogView { status: Some(status), ..record }), now) >= logged_score(
            record,
            now,
        ),
{
    let failed = LogView { status: Some(status), ..record };
    let a = detection::features_of(logged_request(record), no_frequency(), now);
    let b = detection::features_of(logged_request(failed), no_frequency(), now);
    assert(detection::terms_of(a) =~= detection::terms_of(b));
    detection::law_score_is_bounded(a);
}

/// Requests that are labeled neither bot nor human leave no trace in an export:
/// it is the export of the others alone, a line for each.
pub proof fn law_undecided_requests_are_not_exported(records: Seq<LabeledView>)
    ensures
        export_lines(records) == export_lines(records.filter(|record| is_decided(record))),
        export_lines(records).len() == records.filter(|record| is_decided(record)).len(),
    decreases records.len(),
{
    reveal(Seq::filter);
    if records.len() > 0 {
        law_undecided_requests_are_not_exported(records.drop_last());
        let before = records.drop_last().filter(|record| is_decided(record));
        if is_decided(records.last()) {
            assert(before.push(records.last()).drop_last() =~= before);
        }
    }
}

} // verus!
