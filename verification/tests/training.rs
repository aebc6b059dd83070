//! Training, the tarpit, the dashboard, recommendations and prompt routing.
use scraping_defense::dashboard::{greeting, register, DashboardState};
use scraping_defense::json::Json;
use scraping_defense::auth::is_authorized_at;
use scraping_defense::headers::Headers;
use scraping_defense::outside::parse_json;
use scraping_defense::prompt_router::{
    forwarded_answer, is_cloud_target, local_answer, route_target, unreachable_answer,
};
use scraping_defense::recommender::{
    bot_share, cloudflare_enabled, recommendations, should_recommend_cloudflare,
};
use scraping_defense::reply::require_authorized;
use scraping_defense::tarpit::{
    build_link, build_page, fake_js_module, fake_js_module_at, generate_fake_links, generate_page,
    generate_page_with_content, html_escape, link_text, markov_content, realistic_js_filename,
    LinkKind,
};
use scraping_defense::trainer::{
    admit_training, describe_label, export_answer, export_jsonl, fit_refused, ingest_answer,
    ingest_refused, label_batch, persist_refused, prepare_fit, temp_suffix, trained_answer,
    write_log, LogRecord, ReviewedTrainingRecord, MAX_TRAINING_RECORDS, MAX_TRAINING_STEPS,
};

fn read(text: &str) -> Json {
    parse_json(text.as_bytes()).expect("a document")
}

fn log(user_agent: &str, path: &str) -> LogRecord {
    LogRecord {
        ip: "198.51.100.20".into(),
        method: Some("GET".into()),
        path: path.into(),
        status: Some(200),
        bytes: Some(100),
        referer: Some("https://example.test/".into()),
        user_agent: Some(user_agent.into()),
    }
}

fn record(user_agent: &str, path: &str, label: &str) -> ReviewedTrainingRecord {
    ReviewedTrainingRecord { log_data: log(user_agent, path), label: label.into() }
}

#[test]
fn training_rejects_single_class_or_unreviewed_labels() {
    assert!(prepare_fit(
        &vec![
            record("python-requests/2", "/.env", "bot"),
            record("Scrapy/2", "/wp-admin", "bot"),
        ],
        None,
    )
    .is_err());
    assert!(prepare_fit(
        &vec![
            record("python-requests/2", "/.env", "suspicious"),
            record("Mozilla/5.0", "/", "human"),
        ],
        None,
    )
    .is_err());
}

#[test]
fn training_rejects_unbounded_memory_and_cpu_requests() {
    let too_many_records = (0..=MAX_TRAINING_RECORDS)
        .map(|index| {
            let label = if index % 2 == 0 { "bot" } else { "human" };
            record("Mozilla/5.0", "/", label)
        })
        .collect();
    assert!(prepare_fit(&too_many_records, Some(10)).is_err());

    let expensive_records = (0..=(MAX_TRAINING_STEPS / 10_000))
        .map(|index| {
            let label = if index % 2 == 0 { "bot" } else { "human" };
            record("Mozilla/5.0", "/", label)
        })
        .collect();
    assert!(prepare_fit(&expensive_records, Some(10_000)).is_err());
}

#[test]
fn reviewed_labels_become_samples() {
    let plan = prepare_fit(
        &vec![
            record("python-requests/2", "/.env", " BOT "),
            record("Mozilla/5.0", "/", "human"),
        ],
        Some(3),
    )
    .expect("reviewed labels");
    assert_eq!(plan.epochs, 10);
    assert_eq!(plan.samples.len(), 2);
    assert!(plan.samples[0].is_bot);
    assert!(!plan.samples[1].is_bot);
    assert_eq!(plan.samples[0].features[0], (1, 1));
    assert_eq!(plan.samples[1].features[0], (0, 1));
    assert_eq!(prepare_fit(&vec![record("x", "/", "bot"), record("x", "/", "human")], None)
        .unwrap().epochs, 400);
    assert_eq!(
        prepare_fit(&vec![], None).unwrap_err(),
        "at least two reviewed training records are required"
    );
}

#[test]
fn training_routes_fail_closed_without_configured_secrets() {
    let authorized = is_authorized_at(&Headers::new(), None, None, 0);
    assert_eq!(require_authorized(authorized).unwrap_err().status, 401);
    assert_eq!(admit_training(authorized, false, false).unwrap_err().status, 401);
}

#[test]
fn training_routes_reject_wrong_key_and_accept_configured_key() {
    let mut wrong = Headers::new();
    wrong.push("x-api-key", Some("not-the-key"));
    let refused = is_authorized_at(&wrong, Some("trainer-test-key"), None, 0);
    assert_eq!(admit_training(refused, false, false).unwrap_err().status, 401);

    let mut authorized = Headers::new();
    authorized.push("x-api-key", Some("trainer-test-key"));
    let accepted = is_authorized_at(&authorized, Some("trainer-test-key"), None, 0);
    assert!(admit_training(accepted, false, false).is_ok());
    assert_eq!(admit_training(accepted, true, false).unwrap_err().status, 400);
    assert!(admit_training(accepted, true, true).is_ok());
}

#[test]
fn logged_requests_are_labeled() {
    let mut failing = log("python-requests/2", "/wp-admin");
    failing.status = Some(404);
    failing.referer = None;
    failing.method = None;
    let labeled = label_batch(vec![log("Mozilla/5.0", "/products"), failing]);
    assert_eq!(labeled[0].label, "human");
    assert_eq!(labeled[0].points, 5);
    assert_eq!(labeled[1].points, labeled[1].terms.iter().sum::<i32>() as u32 + 10);
    assert_eq!(labeled[1].label, "suspicious");
    let document = describe_label(&labeled[0], "0.05");
    assert_eq!(document.get_text("label"), Some("human"));
    let lines = export_jsonl(&labeled);
    assert_eq!(lines.len(), 1);
    let line: serde_json::Value = serde_json::from_str(&lines[0]).expect("a line");
    assert_eq!(line["label"], "human");
    let inner: serde_json::Value =
        serde_json::from_str(line["log_data"].as_str().expect("a text")).expect("a record");
    assert_eq!(inner["path"], "/products");
    assert_eq!(inner["bytes"], 100);
    let answer = export_answer(&lines, "2026-01-01T00:00:00Z");
    assert_eq!(answer.get_text("jsonl"), Some(lines[0].as_str()));
    let metadata = answer.get("metadata").expect("metadata");
    assert_eq!(metadata.get("record_count").and_then(|n| n.as_i64()), Some(1));
}

#[test]
fn logs_are_written_in_their_order() {
    let mut record = log("a\"b", "/x");
    record.method = None;
    record.status = None;
    assert_eq!(
        write_log(&record),
        r#"{"ip":"198.51.100.20","method":null,"path":"/x","status":null,"bytes":100,"referer":"https://example.test/","user_agent":"a\"b"}"#
    );
    record.user_agent = Some("\u{1}\u{8}\t\n\u{c}\r\u{1f}\\/\u{7f}\u{e9}".into());
    assert!(write_log(&record).ends_with(
        "\"user_agent\":\"\\u0001\\b\\t\\n\\f\\r\\u001f\\\\/\u{7f}\u{e9}\"}"
    ));
}

#[test]
fn training_is_answered() {
    assert_eq!(ingest_answer(3).get("count").and_then(|n| n.as_i64()), Some(3));
    assert_eq!(ingest_refused().status, 503);
    assert_eq!(fit_refused("x").status, 400);
    assert_eq!(persist_refused().status, 503);
    let answer = trained_answer(Json::Null, Some("/m.json"), "1.0");
    assert_eq!(answer.get_text("persisted_to"), Some("/m.json"));
    assert!(matches!(trained_answer(Json::Null, None, "1.0").get("persisted_to"), Some(Json::Null)));
    assert_eq!(temp_suffix(7, 12, 3), ".7.12.3.tmp");
    assert_ne!(temp_suffix(7, 12, 3), temp_suffix(7, 12, 4));
}

#[test]
fn pages_lead_deeper_into_the_tarpit() {
    let page = generate_page(Some("/a/b"));
    assert!(page.starts_with("<!DOCTYPE html>\n<html lang=\"en\">"));
    assert!(page.contains("<body data-path=\"/a/b\">"));
    assert_eq!(page.matches("<li><a href=\"/tarpit/").count(), 9);
    assert_eq!(page.matches("<p>").count(), 8);
    let said = generate_page_with_content(None, Some("<p>said</p>".into()));
    assert!(said.contains("<body data-path=\"/\">"));
    assert_eq!(said.matches("<p>").count(), 1);
    assert_eq!(generate_page(Some("/a/b")), page);
    assert_eq!(generate_page(None), generate_page(Some("/")));
    assert_ne!(generate_page(Some("/a/c")), page);
    assert!(page.contains("<title>1ifbp2zkca - System Documentation</title>"));
    assert!(page.contains("<h1>1ifbp2zkca</h1>\n  <p>validation tenant routing runtime "));
    let links = generate_fake_links(40, 2);
    assert_eq!(links.len(), 40);
    assert_eq!(links, generate_fake_links(40, 2));
    assert_eq!(
        links[..3],
        [
            "/tarpit/data/ayuijhs/ynp7chjy6f.xml",
            "/tarpit/js/6fft3xflif.js",
            "/tarpit/styles/peu0p/a7hi4t7loc.css",
        ]
    );
    assert_eq!(generate_fake_links(0, usize::MAX).len(), 0);
    assert!(links.iter().all(|link| link.starts_with("/tarpit/") && link.matches('/').count() <= 5));
    assert_eq!(
        build_link(LinkKind::XmlData, &vec!["abcde".into()], "name"),
        "/tarpit/data/abcde/name.xml"
    );
    assert_eq!(build_link(LinkKind::Page, &vec![], "name"), "/tarpit/page/name.html");
    assert_eq!(link_text("/tarpit/js/some_long-name.js"), "some long name");
    let built = build_page("T", "/", "P", &vec!["/x/a.js".into()]);
    assert!(built.contains("<title>T - System Documentation</title>"));
    assert!(built.ends_with(
        "<ul><li><a href=\"/x/a.js\">a</a></li></ul>\n  <a class=\"footer-link\" href=\"/internal-docs/admin\">Admin Console</a>\n</body>\n</html>"
    ));
}

#[test]
fn scripts_are_filled_up_to_size() {
    let script = fake_js_module_at(4096, "now");
    assert!(script.starts_with(
        "// Fake module: core_framework_aphiki4d.js\n// Generated: now\n(function() {\n  var ypaqkd = 761;\n"
    ));
    assert!(script.contains(
        "})();\n// lluwxhfpxclhlhsmwflendqutjvjtkpufilxdvifhpwhaxnvdbiygzgcwbpt\n"
    ));
    assert_eq!(script.matches("  var ").count(), 17);
    assert_eq!(fake_js_module_at(4096, "now"), script);
    assert!(script.contains("})();\n"));
    assert!(script.len() >= 4096 && script.len() < 4096 + 64);
    assert!(fake_js_module(16 * 1024).len() >= 16 * 1024);
    assert_eq!(realistic_js_filename(), "core_framework_kgbzonqv.js");
}

#[test]
fn corpus_words_become_paragraphs() {
    assert_eq!(markov_content(&vec![]), None);
    let words: Vec<String> = (0..46).map(|n| format!("w{n}<")).collect();
    let content = markov_content(&words).expect("content");
    let lines: Vec<&str> = content.split('\n').collect();
    assert_eq!(lines.len(), 2);
    assert!(lines[0].starts_with("<p>w0&lt; w1&lt;"));
    assert_eq!(lines[1], "<p>w45&lt;.</p>");
    assert_eq!(html_escape("a&<b>".into()), "a&amp;&lt;b&gt;");
    assert_eq!(html_escape("plain".into()), "plain");
}

#[test]
fn dashboards_show_what_was_pushed_last() {
    let mut state = DashboardState::new();
    let accepted = state.push_metrics(read(r#"{"installation_id":"one","n":1}"#));
    assert_eq!(accepted.get_text("installation_id"), Some("one"));
    state.push_metrics(read(r#"{"installation_id":"one","n":2}"#));
    state.push_metrics(read(r#"{"n":3}"#));
    let shown = state.get_metrics("one");
    let metrics = shown.get("metrics").expect("metrics");
    assert_eq!(metrics.get("n").and_then(|n| n.as_i64()), Some(2));
    assert!(state.get_metrics("default").get("metrics").is_some_and(|m| m.get("n").is_some()));
    assert!(state.get_metrics("none").get("metrics").is_some_and(|m| m.get("n").is_none()));
    assert_eq!(register(Json::Null).get_text("status"), Some("registered"));
    assert_eq!(greeting("one"), r#"{"status":"connected","installation_id":"one"}"#);
}

/// Whether the share of bots reaches a ratio.
fn reaches(total: u64, bots: u64, ratio: f64) -> bool {
    bot_share(total, bots).is_some_and(|(top, bottom)| top as f64 / bottom as f64 >= ratio)
}

fn recommended(enabled: bool, total: u64, bots: u64, minimum: u64, ratio: f64) -> bool {
    should_recommend_cloudflare(enabled, total, minimum, reaches(total, bots, ratio))
}

#[test]
fn cloudflare_recommendation_requires_integration_and_attack_evidence() {
    assert!(!recommended(false, 1_000, 900, 100, 0.25));
    assert!(!recommended(true, 99, 99, 100, 0.25));
    assert!(!recommended(true, 1_000, 100, 100, 0.25));
    assert!(recommended(true, 1_000, 300, 100, 0.25));
}

#[test]
fn cloudflare_ratio_clamps_impossible_bot_counts() {
    assert!(recommended(true, 100, 500, 100, 1.0));
}

#[test]
fn recommendations_are_documented() {
    assert!(cloudflare_enabled(Some("Yes"), None));
    assert!(!cloudflare_enabled(None, None));
    assert!(!cloudflare_enabled(Some("true"), Some("other")));
    assert_eq!(bot_share(0, 5), None);
    let quiet = recommendations(None);
    assert_eq!(quiet.get_text("source"), Some("rust-baseline"));
    assert!(matches!(quiet.get("operator_recommendations"), Some(Json::Array(list)) if list.is_empty()));
    let attack = recommendations(Some("0.3"));
    match attack.get("operator_recommendations") {
        Some(Json::Array(list)) => {
            assert_eq!(list.len(), 1);
            assert_eq!(list[0].get_text("id"), Some("enable-cloudflare-under-attack-mode"));
        }
        _ => panic!("a list"),
    }
}

#[test]
fn large_prompts_go_to_the_cloud() {
    assert_eq!(route_target(Some(4096), 2048, None), "cloud-proxy");
    assert_eq!(route_target(Some(2048), 2048, None), "local-inference");
    assert_eq!(route_target(None, 2048, Some("other")), "other");
    assert!(is_cloud_target("cloud-proxy"));
    assert!(!is_cloud_target("local-inference"));
    let answer = local_answer("local-inference", Some("h\u{e9}"), 2048);
    assert_eq!(answer.get("prompt_len").and_then(|n| n.as_i64()), Some(3));
    assert_eq!(forwarded_answer(false, "t", 502, Json::Null).get_text("status"), Some("error"));
    assert_eq!(unreachable_answer("t", "refused").get_text("message"), Some("refused"));
}
