use elasticsearch::client::{Elasticsearch, Method};
use elasticsearch::ilm::{
    IlmDeleteLifecycle, IlmDeleteLifecycleParts, IlmExplainLifecycleParts, IlmGetLifecycleParts,
    IlmGetStatusParts, IlmMoveToStepParts, IlmPutLifecycleParts, IlmRemovePolicyParts, IlmRetryParts,
    IlmStartParts, IlmStopParts,
};

fn pairs(v: &[(&str, &str)]) -> Vec<(String, String)> {
    v.iter().map(|(a, b)| (a.to_string(), b.to_string())).collect()
}

#[test]
fn part_urls() {
    assert_eq!(IlmDeleteLifecycleParts::Policy("p1").url(), "/_ilm/policy/p1");
    assert_eq!(IlmExplainLifecycleParts::Index("idx").url(), "/idx/_ilm/explain");
    assert_eq!(IlmGetLifecycleParts::Policy("p").url(), "/_ilm/policy/p");
    assert_eq!(IlmGetLifecycleParts::NoParts.url(), "/_ilm/policy");
    assert_eq!(IlmGetStatusParts::NoParts.url(), "/_ilm/status");
    assert_eq!(IlmMoveToStepParts::Index("i").url(), "/_ilm/move/i");
    assert_eq!(IlmPutLifecycleParts::Policy("p").url(), "/_ilm/policy/p");
    assert_eq!(IlmRemovePolicyParts::Index("i").url(), "/i/_ilm/remove");
    assert_eq!(IlmRetryParts::Index("i").url(), "/i/_ilm/retry");
    assert_eq!(IlmStartParts::NoParts.url(), "/_ilm/start");
    assert_eq!(IlmStopParts::NoParts.url(), "/_ilm/stop");
}

#[test]
fn part_urls_are_percent_encoded() {
    assert_eq!(IlmDeleteLifecycleParts::Policy("my policy/x%").url(), "/_ilm/policy/my%20policy%2Fx%25");
    assert_eq!(IlmExplainLifecycleParts::Index("é,*").url(), "/%C3%A9,*/_ilm/explain");
}

#[test]
fn builder_sets_query_in_name_order() {
    let client = Elasticsearch::new("http://localhost:9200".to_string());
    let filters = ["a", "b.c"];
    let req = client
        .ilm()
        .explain_lifecycle(IlmExplainLifecycleParts::Index("logs"))
        .pretty(true)
        .only_managed(false)
        .filter_path(&filters)
        .error_trace(true)
        .source("q")
        .request();
    assert_eq!(req.method, Method::Get);
    assert_eq!(req.path, "/logs/_ilm/explain");
    assert_eq!(
        req.query,
        pairs(&[
            ("error_trace", "true"),
            ("filter_path", "a,b.c"),
            ("only_managed", "false"),
            ("pretty", "true"),
            ("source", "q"),
        ])
    );
    assert!(req.headers.is_empty());
}

#[test]
fn fresh_builder_sends_no_query() {
    let client = Elasticsearch::new("http://localhost:9200".to_string());
    let b = IlmDeleteLifecycle::new(&client, IlmDeleteLifecycleParts::Policy("p"));
    assert_eq!(b.error_trace, None);
    let req = b.request();
    assert_eq!(req.method, Method::Delete);
    assert!(req.query.is_empty());
    let ilm = client.ilm();
    assert_eq!(ilm.get_status().request().method, Method::Get);
    assert_eq!(ilm.start().request().method, Method::Post);
    assert_eq!(ilm.stop().request().path, "/_ilm/stop");
    assert_eq!(ilm.put_lifecycle(IlmPutLifecycleParts::Policy("p")).request().method, Method::Put);
    assert_eq!(ilm.get_lifecycle(IlmGetLifecycleParts::NoParts).request().path, "/_ilm/policy");
    assert_eq!(ilm.retry(IlmRetryParts::Index("i")).human(true).request().query, pairs(&[("human", "true")]));
    assert_eq!(ilm.remove_policy(IlmRemovePolicyParts::Index("i")).request().method, Method::Post);
    assert_eq!(ilm.move_to_step(IlmMoveToStepParts::Index("i")).request().path, "/_ilm/move/i");
}

#[test]
fn builder_body_and_headers() {
    let client = Elasticsearch::new("http://localhost:9200".to_string());
    let ilm = client.ilm();
    let b = ilm
        .move_to_step(IlmMoveToStepParts::Index("i"))
        .header("x-a".to_string(), "1".to_string())
        .header("x-a".to_string(), "2".to_string())
        .body("{\"current_step\":{}}".to_string());
    assert_eq!(b.body, Some("{\"current_step\":{}}".to_string()));
    assert_eq!(b.request().headers.last(), Some(&("x-a".to_string(), "2".to_string())));
}
