use qado_check::classify::{classify, classify_parsed, Classification, EvidenceKind};
use qado_check::probe::{ProbeResult, Prober};
use qado_check::record::{
    candidates_query, endpoints, make_check_record, property_term, render_update, CheckProperty,
    CheckRecord,
};
use qado_check::run::{interpret_fetch, worker_count, CandidateQuery, Dispatcher, FetchError, FetchOutcome};

const DBPEDIA: &str = "https://dbpedia.org/sparql";
const WIKIDATA: &str = "https://query.wikidata.org/sparql";

fn body(s: &str) -> Vec<u8> {
    s.as_bytes().to_vec()
}

#[test]
fn classify_select_nonempty() {
    let b = body("{\"results\":{\"bindings\":[{\"x\":{\"value\":\"1\"}}]}}");
    assert_eq!(classify(true, &b), Classification::Confirmed(EvidenceKind::NonEmptyBindings));
}

#[test]
fn classify_select_empty() {
    let b = body("{\"results\":{\"bindings\":[]}}");
    assert_eq!(classify(true, &b), Classification::Rejected(EvidenceKind::EmptyBindings));
}

#[test]
fn classify_ask_true() {
    let b = body("{\"boolean\":true}");
    assert_eq!(classify(true, &b), Classification::Confirmed(EvidenceKind::BooleanTrue));
}

#[test]
fn classify_ask_false() {
    let b = body("{\"boolean\":false}");
    assert_eq!(classify(true, &b), Classification::Rejected(EvidenceKind::BooleanFalse));
}

#[test]
fn classify_unparsable_body() {
    assert_eq!(classify(true, &body("not json at all")), Classification::Inconclusive);
    assert_eq!(classify(true, &body("{\"other\":1}")), Classification::Inconclusive);
    assert_eq!(
        classify(true, &body("{\"results\":{\"bindings\":{\"not\":\"an array\"}}}")),
        Classification::Inconclusive
    );
}

#[test]
fn classify_failing_status() {
    let b = body("{\"boolean\":true}");
    assert_eq!(classify(false, &b), Classification::Inconclusive);
}

#[test]
fn classify_select_shape_wins() {
    let b = body("{\"results\":{\"bindings\":[]},\"boolean\":true}");
    assert_eq!(classify(true, &b), Classification::Rejected(EvidenceKind::EmptyBindings));
}

#[test]
fn classify_parsed_cases() {
    assert_eq!(
        classify_parsed(true, Some(2), None),
        Classification::Confirmed(EvidenceKind::NonEmptyBindings)
    );
    assert_eq!(
        classify_parsed(true, Some(0), Some(true)),
        Classification::Rejected(EvidenceKind::EmptyBindings)
    );
    assert_eq!(
        classify_parsed(true, None, Some(true)),
        Classification::Confirmed(EvidenceKind::BooleanTrue)
    );
    assert_eq!(
        classify_parsed(true, None, Some(false)),
        Classification::Rejected(EvidenceKind::BooleanFalse)
    );
    assert_eq!(classify_parsed(true, None, None), Classification::Inconclusive);
    assert_eq!(classify_parsed(false, Some(2), Some(true)), Classification::Inconclusive);
}

#[test]
fn probe_first_confirms_and_stops() {
    let mut p = Prober::new(2);
    assert_eq!(p.next_endpoint(), Some(0));
    p.on_response(true, &body("{\"results\":{\"bindings\":[{\"x\":{\"value\":\"1\"}}]}}"));
    assert_eq!(p.next_endpoint(), None);
    assert_eq!(p.result(), Some(ProbeResult { success: true, endpoint: Some(0) }));
}

#[test]
fn probe_first_rejects_and_stops() {
    let mut p = Prober::new(2);
    p.on_response(true, &body("{\"results\":{\"bindings\":[]}}"));
    assert_eq!(p.next_endpoint(), None);
    assert_eq!(p.result(), Some(ProbeResult { success: false, endpoint: Some(0) }));
}

#[test]
fn probe_all_transport_errors_unresolved() {
    let mut p = Prober::new(2);
    assert_eq!(p.next_endpoint(), Some(0));
    p.on_transport_error();
    assert_eq!(p.next_endpoint(), Some(1));
    p.on_transport_error();
    assert_eq!(p.next_endpoint(), None);
    assert_eq!(p.result(), Some(ProbeResult { success: false, endpoint: None }));
}

#[test]
fn probe_failing_status_moves_on() {
    let mut p = Prober::new(2);
    p.on_response(false, &body("{\"boolean\":true}"));
    assert_eq!(p.next_endpoint(), Some(1));
    p.on_response(true, &body("{\"boolean\":true}"));
    assert_eq!(p.result(), Some(ProbeResult { success: true, endpoint: Some(1) }));
}

#[test]
fn probe_timeout_then_empty_bindings() {
    // One candidate: endpoint 0 unreachable, endpoint 1 answers with an
    // empty binding set; the record must fail and name endpoint 1.
    let mut p = Prober::new(2);
    p.on_transport_error();
    p.on_response(true, &body("{\"results\":{\"bindings\":[]}}"));
    let result = p.result().unwrap();
    assert_eq!(result, ProbeResult { success: false, endpoint: Some(1) });
    let eps = endpoints();
    let rec = make_check_record("q7".to_string(), &result, "t".to_string(), &eps);
    assert_eq!(rec.property, CheckProperty::Failed);
    assert_eq!(rec.endpoint, Some(WIKIDATA.to_string()));
}

#[test]
fn ask_true_roundtrip_one_record() {
    // One fetched binding, query q1 with an ASK query; the first endpoint
    // answers boolean true; exactly one succeeded record for q1, naming it.
    let fetched = vec![CandidateQuery {
        id: "q1".to_string(),
        text: "ASK { ?s ?p ?o }".to_string(),
    }];
    let queries = interpret_fetch(FetchOutcome::Response {
        status_ok: true,
        candidates: Some(fetched),
    })
    .unwrap();
    let mut d = Dispatcher::new(queries);
    let eps = endpoints();
    let task = d.next_task().unwrap();
    assert_eq!(task, 0);
    assert_eq!(d.query_at(task).text, "ASK { ?s ?p ?o }");
    assert_eq!(d.next_task(), None);

    let mut p = Prober::new(2);
    p.on_response(true, &body("{\"boolean\":true}"));
    let result = p.result().unwrap();
    assert_eq!(result, ProbeResult { success: true, endpoint: Some(0) });

    let rec = d.complete(task, &result, &eps).unwrap();
    assert_eq!(rec.query_id, "q1");
    assert_eq!(rec.property, CheckProperty::Succeeded);
    assert_eq!(rec.endpoint, Some(DBPEDIA.to_string()));
    assert!(d.all_done());
    // a second completion of the same task writes nothing
    assert_eq!(d.complete(task, &result, &eps), None);
}

#[test]
fn dispatch_exactly_n_records() {
    let queries: Vec<CandidateQuery> = (0..3)
        .map(|i| CandidateQuery { id: format!("q{}", i), text: "ASK {}".to_string() })
        .collect();
    let mut d = Dispatcher::new(queries);
    let eps = endpoints();
    let result = ProbeResult { success: false, endpoint: None };

    // completing a task that was never handed out writes nothing
    assert_eq!(d.complete(2, &result, &eps), None);

    let mut tasks = Vec::new();
    while let Some(i) = d.next_task() {
        tasks.push(i);
    }
    assert_eq!(tasks, vec![0, 1, 2]);

    let mut records: Vec<CheckRecord> = Vec::new();
    // completions may come back in any order
    for &i in [1, 2, 0].iter() {
        assert!(!d.all_done());
        records.push(d.complete(i, &result, &eps).unwrap());
    }
    assert!(d.all_done());
    assert_eq!(records.len(), 3);
    assert_eq!(records[2].query_id, "q0");
    assert_eq!(records[0].query_id, "q1");
    assert_eq!(records[1].query_id, "q2");
    for rec in records.iter() {
        assert_eq!(rec.property, CheckProperty::Failed);
        assert_eq!(rec.endpoint, None);
    }
    // no fourth record can be produced
    for i in 0..3 {
        assert_eq!(d.complete(i, &result, &eps), None);
    }
}

#[test]
fn fetch_http_500_is_fatal_without_writes() {
    // The fetch itself answers with a failing status: the run ends with a
    // fatal error before any dispatcher exists, so nothing is written.
    let r = interpret_fetch(FetchOutcome::Response { status_ok: false, candidates: None });
    assert_eq!(r, Err(FetchError::Status));
}

#[test]
fn fetch_error_cases() {
    assert_eq!(
        interpret_fetch(FetchOutcome::Transport),
        Err::<Vec<CandidateQuery>, _>(FetchError::Transport)
    );
    assert_eq!(
        interpret_fetch(FetchOutcome::Response { status_ok: true, candidates: None }),
        Err(FetchError::Body)
    );
    let one = vec![CandidateQuery { id: "a".to_string(), text: "b".to_string() }];
    assert_eq!(
        interpret_fetch(FetchOutcome::Response { status_ok: true, candidates: Some(one.clone()) }),
        Ok(one)
    );
}

#[test]
fn render_update_with_endpoint() {
    let rec = CheckRecord {
        query_id: "http://example.org/q1".to_string(),
        property: CheckProperty::Succeeded,
        timestamp: "2024-05-01T12:00:00".to_string(),
        endpoint: Some(DBPEDIA.to_string()),
    };
    let expected = "PREFIX qado: <http://purl.com/qado/ontology.ttl#> \
        PREFIX xsd: <http://www.w3.org/2001/XMLSchema#> \
        insert { <http://example.org/q1> qado:hasSPARQLCheck [ a qado:SPARQLCheck ; \
        qado:testedSuccessfullyAt \"2024-05-01T12:00:00\"^^xsd:dateTime ]. \
        <http://example.org/q1> qado:correspondsToKnowledgeGraph <https://dbpedia.org/sparql> . \
        } where {}";
    assert_eq!(render_update(&rec), expected);
}

#[test]
fn render_update_without_endpoint() {
    let rec = CheckRecord {
        query_id: "q2".to_string(),
        property: CheckProperty::Failed,
        timestamp: "2024-05-01T12:00:00".to_string(),
        endpoint: None,
    };
    let expected = "PREFIX qado: <http://purl.com/qado/ontology.ttl#> \
        PREFIX xsd: <http://www.w3.org/2001/XMLSchema#> \
        insert { <q2> qado:hasSPARQLCheck [ a qado:SPARQLCheck ; \
        qado:didNotWorkAt \"2024-05-01T12:00:00\"^^xsd:dateTime ]. } where {}";
    assert_eq!(render_update(&rec), expected);
}

#[test]
fn property_terms() {
    assert_eq!(property_term(CheckProperty::Succeeded), "testedSuccessfullyAt");
    assert_eq!(property_term(CheckProperty::Failed), "didNotWorkAt");
}

#[test]
fn endpoint_list_in_priority_order() {
    let eps = endpoints();
    assert_eq!(eps, vec![DBPEDIA.to_string(), WIKIDATA.to_string()]);
}

#[test]
fn candidates_query_text() {
    let q = candidates_query();
    let expected = "PREFIX qado: <http://purl.com/qado/ontology.ttl#> \
        PREFIX rdfs: <http://www.w3.org/2000/01/rdf-schema#> \
        select ?query ?text where {?question a ?class ; qado:hasSparqlQuery ?query . \
        ?class rdfs:subClassOf qado:Question .\
        ?query a qado:Query ; qado:hasQueryText ?text .} ORDER BY ?query";
    assert_eq!(q, expected);
}

#[test]
fn worker_count_falls_back_to_one() {
    assert_eq!(worker_count(Some(8)), 8);
    assert_eq!(worker_count(None), 1);
}

#[test]
fn completion_stamps_a_timestamp() {
    let queries = vec![CandidateQuery { id: "q".to_string(), text: "ASK {}".to_string() }];
    let mut d = Dispatcher::new(queries);
    let eps = endpoints();
    let task = d.next_task().unwrap();
    let rec = d
        .complete(task, &ProbeResult { success: true, endpoint: Some(0) }, &eps)
        .unwrap();
    // the clock is the library's own; the stamp carries date-time precision
    assert_eq!(rec.timestamp.len(), 19);
    assert_eq!(rec.timestamp.as_bytes()[10], b'T');
}
