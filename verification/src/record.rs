use vstd::prelude::*;
use vstd::string::StringExecFns;

use crate::classify::{ask_shape, classify_spec, select_shape, Classification};
use crate::probe::{all_inconclusive, decide, lemma_all_inconclusive_unresolved,
    lemma_first_endpoint_decides, ProbeDecision, ProbeResult};

verus! {

/// The status a check record tags its query with.
#[derive(Clone, Copy, Debug, PartialEq, Eq)]
pub enum CheckProperty {
    Succeeded,
    Failed,
}

/// The one durable fact a run writes per candidate query: which query was
/// checked, whether the check succeeded, when, and — only where some
/// endpoint gave the definitive verdict — which knowledge graph the query
/// corresponds to.
#[derive(Clone, Debug, PartialEq, Eq)]
pub struct CheckRecord {
    pub query_id: String,
    pub property: CheckProperty,
    pub timestamp: String,
    pub endpoint: Option<String>,
}

/// Mathematical image of a `CheckRecord`.
pub ghost struct CheckRecordView {
    pub query_id: Seq<char>,
    pub property: CheckProperty,
    pub timestamp: Seq<char>,
    pub endpoint: Option<Seq<char>>,
}

impl View for CheckRecord {
    type V = CheckRecordView;

    open spec fn view(&self) -> CheckRecordView {
        CheckRecordView {
            query_id: self.query_id@,
            property: self.property,
            timestamp: self.timestamp@,
            endpoint: match self.endpoint {
                Some(e) => Some(e@),
                None => None,
            },
        }
    }
}

/// The record a probe verdict yields: success is written under the
/// succeeded property and failure under the failed one, and the URL of the
/// deciding endpoint is attached exactly where the verdict names one.
pub open spec fn record_spec(
    query_id: Seq<char>,
    d: ProbeDecision,
    timestamp: Seq<char>,
    endpoints: Seq<Seq<char>>,
) -> CheckRecordView {
    CheckRecordView {
        query_id: query_id,
        property: if d.success {
            CheckProperty::Succeeded
        } else {
            CheckProperty::Failed
        },
        timestamp: timestamp,
        endpoint: match d.endpoint {
            Some(i) => Some(endpoints[i]),
            None => None,
        },
    }
}

/// Builds the check record for one query's probe verdict.
pub fn make_check_record(
    query_id: String,
    result: &ProbeResult,
    timestamp: String,
    endpoints: &Vec<String>,
) -> (rec: CheckRecord)
    requires
        result.endpoint matches Some(i) ==> i < endpoints@.len(),
    ensures
        rec@ == record_spec(query_id@, result@, timestamp@, endpoints.deep_view()),
{
    let endpoint = match result.endpoint {
        Some(i) => Some(endpoints[i].clone()),
        None => None,
    };
    CheckRecord {
        query_id,
        property: if result.success {
            CheckProperty::Succeeded
        } else {
            CheckProperty::Failed
        },
        timestamp,
        endpoint,
    }
}

/// Relies on chrono's Utc::now and the `%FT%T` formatting of its DateTime:
/// the current UTC time rendered with date-time precision, such as
/// `2024-05-01T12:00:00`. The value depends on the clock, so nothing is
/// promised of it.
#[verifier::external_body]
pub(crate) fn utc_timestamp() -> String {
    chrono::offset::Utc::now().format("%FT%T").to_string()
}

/// The name the record's status is written under in the store.
pub open spec fn property_name(p: CheckProperty) -> Seq<char> {
    match p {
        CheckProperty::Succeeded => "testedSuccessfullyAt"@,
        CheckProperty::Failed => "didNotWorkAt"@,
    }
}

/// The property name a record's status is written under.
pub fn property_term(p: CheckProperty) -> (s: String)
    ensures
        s@ == property_name(p),
{
    match p {
        CheckProperty::Succeeded => "testedSuccessfullyAt".to_owned(),
        CheckProperty::Failed => "didNotWorkAt".to_owned(),
    }
}

/// The SPARQL UPDATE statement a record is written with: one insert that
/// links a fresh check node to the query, stamps it, tags it with the
/// status property, and — only where an endpoint is attached — links the
/// query to that knowledge graph. Nothing is ever removed.
pub open spec fn update_query_spec(r: CheckRecordView) -> Seq<char> {
    "PREFIX qado: <http://purl.com/qado/ontology.ttl#> PREFIX xsd: <http://www.w3.org/2001/XMLSchema#> insert { <"@
        + r.query_id
        + "> qado:hasSPARQLCheck [ a qado:SPARQLCheck ; qado:"@
        + property_name(r.property)
        + " \""@
        + r.timestamp
        + "\"^^xsd:dateTime ]."@
        + (match r.endpoint {
            Some(e) => " <"@ + r.query_id + "> qado:correspondsToKnowledgeGraph <"@ + e + "> ."@,
            None => Seq::<char>::empty(),
        })
        + " } where {}"@
}

/// Renders the SPARQL UPDATE statement that writes one check record.
pub fn render_update(rec: &CheckRecord) -> (q: String)
    ensures
        q@ == update_query_spec(rec@),
{
    let mut q = String::new();
    q.append("PREFIX qado: <http://purl.com/qado/ontology.ttl#> PREFIX xsd: <http://www.w3.org/2001/XMLSchema#> insert { <");
    q.append(rec.query_id.as_str());
    q.append("> qado:hasSPARQLCheck [ a qado:SPARQLCheck ; qado:");
    let prop = property_term(rec.property);
    q.append(prop.as_str());
    q.append(" \"");
    q.append(rec.timestamp.as_str());
    q.append("\"^^xsd:dateTime ].");
    match &rec.endpoint {
        Some(e) => {
            q.append(" <");
            q.append(rec.query_id.as_str());
            q.append("> qado:correspondsToKnowledgeGraph <");
            q.append(e.as_str());
            q.append("> .");
        },
        None => {},
    }
    q.append(" } where {}");
    proof {
        assert(q@ =~= update_query_spec(rec@));
    }
    q
}

/// The fixed, ordered list of knowledge-graph endpoints every query is
/// probed against, in priority order.
pub fn endpoints() -> (eps: Vec<String>)
    ensures
        eps.deep_view().len() == 2,
        eps.deep_view()[0] == "https://dbpedia.org/sparql"@,
        eps.deep_view()[1] == "https://query.wikidata.org/sparql"@,
{
    let mut eps: Vec<String> = Vec::new();
    eps.push("https://dbpedia.org/sparql".to_owned());
    eps.push("https://query.wikidata.org/sparql".to_owned());
    eps
}

/// The SELECT query that fetches every candidate query and its text from
/// the store under check.
pub open spec fn candidates_query_spec() -> Seq<char> {
    "PREFIX qado: <http://purl.com/qado/ontology.ttl#> PREFIX rdfs: <http://www.w3.org/2000/01/rdf-schema#> select ?query ?text where {?question a ?class ; qado:hasSparqlQuery ?query . ?class rdfs:subClassOf qado:Question .?query a qado:Query ; qado:hasQueryText ?text .} ORDER BY ?query"@
}

/// The text sent to the store to fetch the candidate queries.
pub fn candidates_query() -> (q: String)
    ensures
        q@ == candidates_query_spec(),
{
    "PREFIX qado: <http://purl.com/qado/ontology.ttl#> PREFIX rdfs: <http://www.w3.org/2000/01/rdf-schema#> select ?query ?text where {?question a ?class ; qado:hasSparqlQuery ?query . ?class rdfs:subClassOf qado:Question .?query a qado:Query ; qado:hasQueryText ?text .} ORDER BY ?query".to_owned()
}

/// A non-empty SELECT-shaped binding set from the first endpoint probed
/// decides the query by itself: the record succeeds and names that
/// endpoint, whatever any later endpoint would have answered. An empty
/// binding set is just as definitive: the record fails and still names
/// that first endpoint, and no later endpoint is consulted either way.
pub proof fn lemma_bindings_first_endpoint(
    body: Seq<u8>,
    rows: u64,
    events: Seq<Classification>,
    query_id: Seq<char>,
    timestamp: Seq<char>,
    endpoints: Seq<Seq<char>>,
)
    requires
        events.len() >= 1,
        endpoints.len() >= 1,
        select_shape(body) == Some(rows),
        events[0] == classify_spec(true, select_shape(body), ask_shape(body)),
    ensures
        rows > 0 ==> record_spec(query_id, decide(events), timestamp, endpoints)
            == (CheckRecordView {
                query_id,
                property: CheckProperty::Succeeded,
                timestamp,
                endpoint: Some(endpoints[0]),
            }),
        rows == 0 ==> record_spec(query_id, decide(events), timestamp, endpoints)
            == (CheckRecordView {
                query_id,
                property: CheckProperty::Failed,
                timestamp,
                endpoint: Some(endpoints[0]),
            }),
{
    lemma_first_endpoint_decides(events);
}

/// An ASK-shaped response from the first endpoint probed decides the query
/// by itself: boolean true yields a succeeded record naming that endpoint,
/// boolean false a failed record naming it, and no later endpoint matters.
pub proof fn lemma_ask_first_endpoint(
    body: Seq<u8>,
    b: bool,
    events: Seq<Classification>,
    query_id: Seq<char>,
    timestamp: Seq<char>,
    endpoints: Seq<Seq<char>>,
)
    requires
        events.len() >= 1,
        endpoints.len() >= 1,
        select_shape(body) is None,
        ask_shape(body) == Some(b),
        events[0] == classify_spec(true, select_shape(body), ask_shape(body)),
    ensures
        record_spec(query_id, decide(events), timestamp, endpoints) == (CheckRecordView {
            query_id,
            property: if b {
                CheckProperty::Succeeded
            } else {
                CheckProperty::Failed
            },
            timestamp,
            endpoint: Some(endpoints[0]),
        }),
{
    lemma_first_endpoint_decides(events);
}

/// Where every endpoint stayed inconclusive — each probe a transport
/// failure, a failing status, or an unusable body — the record fails with
/// no endpoint attached.
pub proof fn lemma_unresolved_record(
    events: Seq<Classification>,
    query_id: Seq<char>,
    timestamp: Seq<char>,
    endpoints: Seq<Seq<char>>,
)
    requires
        all_inconclusive(events),
    ensures
        record_spec(query_id, decide(events), timestamp, endpoints) == (CheckRecordView {
            query_id,
            property: CheckProperty::Failed,
            timestamp,
            endpoint: None,
        }),
{
    lemma_all_inconclusive_unresolved(events);
}

} // verus!
