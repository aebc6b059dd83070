//! The dashboard: installations register and push metrics, which are shown
//! until they push others.
use vstd::prelude::*;
use crate::json;
use crate::json::{Json, JsonObject, JsonView};
use crate::text_map::TextMap;

verus! {

/// The latest metrics of each installation.
#[derive(Debug)]
pub struct DashboardState {
    metrics: TextMap<Json>,
}

impl View for DashboardState {
    type V = Map<Seq<char>, JsonView>;

    closed spec fn view(&self) -> Map<Seq<char>, JsonView> {
        self.metrics@.map_values(|value: Json| value@)
    }
}

/// The installation that metrics are from.
pub open spec fn installation_of(payload: JsonView) -> Seq<char> {
    match json::text_of(json::member(payload, "installation_id"@)) {
        Some(id) => id,
        None => "default"@,
    }
}

/// What is shown of an installation: its latest metrics, or none.
pub open spec fn shown_of(metrics: Map<Seq<char>, JsonView>, id: Seq<char>) -> JsonView {
    if metrics.dom().contains(id) {
        metrics[id]
    } else {
        JsonView::Object(Map::empty())
    }
}

/// The answer to a registration.
pub fn register(payload: Json) -> (r: Json)
    ensures
        r@ == JsonView::Object(
            map!["status"@ => JsonView::Text("registered"@), "installation"@ => payload@],
        ),
{
    let mut body = JsonObject::new();
    body.put("status", json::text_value("registered"));
    body.put("installation", payload);
    Json::Object(body)
}

impl DashboardState {
    /// The metrics are kept in order.
    pub closed spec fn well_formed(&self) -> bool {
        self.metrics.well_formed()
    }

    /// No installation has pushed metrics.
    pub fn new() -> (r: DashboardState)
        ensures
            r.well_formed(),
            r@ == Map::<Seq<char>, JsonView>::empty(),
    {
        let r = DashboardState { metrics: TextMap::new() };
        assert(r@ =~= Map::<Seq<char>, JsonView>::empty());
        r
    }

    /// Takes metrics in the place of the earlier ones of the installation.
    pub fn push_metrics(&mut self, payload: Json) -> (r: Json)
        requires
            old(self).well_formed(),
        ensures
            final(self).well_formed(),
            final(self)@ == old(self)@.insert(installation_of(payload@), payload@),
            r@ == JsonView::Object(
                map![
                    "status"@ => JsonView::Text("accepted"@),
                    "installation_id"@ => JsonView::Text(installation_of(payload@)),
                ],
            ),
    {
        let ghost pushed = payload@;
        let id = match payload.get_text("installation_id") {
            Some(id) => id.to_string(),
            None => "default".to_string(),
        };
        self.metrics.insert(id.as_str(), payload);
        assert(self@ =~= old(self)@.insert(installation_of(pushed), pushed));
        let mut body = JsonObject::new();
        body.put("status", json::text_value("accepted"));
        body.put("installation_id", json::text_value(id.as_str()));
        Json::Object(body)
    }

    /// The latest metrics of an installation.
    pub fn get_metrics(&self, installation_id: &str) -> (r: Json)
        requires
            self.well_formed(),
        ensures
            r@ == JsonView::Object(
                map![
                    "installation_id"@ => JsonView::Text(installation_id@),
                    "metrics"@ => shown_of(self@, installation_id@),
                ],
            ),
    {
        let payload = match self.metrics.get(installation_id) {
            Some(value) => value.copy(),
            None => Json::Object(JsonObject::new()),
        };
        let mut body = JsonObject::new();
        body.put("installation_id", json::text_value(installation_id));
        body.put("metrics", payload);
        Json::Object(body)
    }
}

/// The first words on a socket of an installation.
pub fn greeting(installation_id: &str) -> (r: String)
    ensures
        r@ == "{\"status\":\"connected\",\"installation_id\":\""@ + installation_id@ + "\"}"@,
{
    let mut out = "{\"status\":\"connected\",\"installation_id\":\"".to_string();
    out.append(installation_id);
    out.append("\"}");
    out
}

/// What was pushed last is shown, and the metrics of other installations stay.
pub proof fn law_pushed_metrics_are_shown(
    metrics: Map<Seq<char>, JsonView>,
    payload: JsonView,
    other: Seq<char>,
)
    ensures
        shown_of(metrics.insert(installation_of(payload), payload), installation_of(payload))
            == payload,
        other != installation_of(payload) ==> shown_of(
            metrics.insert(installation_of(payload), payload),
            other,
        ) == shown_of(metrics, other),
{
}

} // verus!
