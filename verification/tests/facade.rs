use adi_http::facade::{
    clamp_results, default_limit, engine_reply, health_reply, not_ready_reply, search_reply, Body,
    HealthInfo, ReadKind, Reply, SearchQuery,
};

#[test]
fn health_names_the_service() {
    let rep: Reply<HealthInfo> = health_reply("1.2.3".to_string());
    assert_eq!(rep.status, 200);
    match rep.body {
        Body::Data(h) => {
            assert_eq!(h.status, "ok");
            assert_eq!(h.service, "adi-http");
            assert_eq!(h.version, "1.2.3");
        }
        Body::Error(_) => panic!("health is always OK"),
    }
}

#[test]
fn default_limit_is_ten() {
    assert_eq!(default_limit(), 10);
    let q = SearchQuery::new("foo".to_string(), None);
    assert_eq!(q.q, "foo");
    assert_eq!(q.limit, 10);
    let q = SearchQuery::new("bar".to_string(), Some(3));
    assert_eq!(q.limit, 3);
    let q = SearchQuery::new("baz".to_string(), Some(0));
    assert_eq!(q.limit, 0);
}

#[test]
fn limit_zero_returns_empty_without_error() {
    let rep = search_reply(ReadKind::Search, Ok(vec![1, 2, 3]), 0);
    assert_eq!(rep.status, 200);
    match rep.body {
        Body::Data(w) => assert_eq!(w, Vec::<i32>::new()),
        Body::Error(_) => panic!("limit zero is not an error"),
    }
}

#[test]
fn clamping_keeps_a_prefix() {
    let full = vec![10, 20, 30];
    assert_eq!(clamp_results(full.clone(), 2), vec![10, 20]);
    assert_eq!(clamp_results(full.clone(), 3), full);
    assert_eq!(clamp_results(full.clone(), 10), full);
    assert_eq!(clamp_results(full, 0), Vec::<i32>::new());
}

#[test]
fn engine_success_passes_payload_through() {
    let rep = engine_reply(ReadKind::Tree, Ok("the tree".to_string()));
    assert_eq!(rep.status, 200);
    match rep.body {
        Body::Data(d) => assert_eq!(d, "the tree"),
        Body::Error(_) => panic!("success must carry the payload"),
    }
}

#[test]
fn lookup_errors_are_not_found_others_internal() {
    let cases = [
        (ReadKind::Status, 500),
        (ReadKind::Search, 500),
        (ReadKind::Symbols, 500),
        (ReadKind::SymbolById, 404),
        (ReadKind::Files, 500),
        (ReadKind::FileByPath, 404),
        (ReadKind::Tree, 500),
    ];
    for (kind, expected) in cases {
        let rep = engine_reply::<()>(kind, Err("no such entity".to_string()));
        assert_eq!(rep.status, expected);
        match rep.body {
            Body::Error(m) => assert_eq!(m, "no such entity"),
            Body::Data(_) => panic!("an engine error must carry an error body"),
        }
    }
}

#[test]
fn search_failure_keeps_engine_message() {
    let rep = search_reply::<i32>(ReadKind::Files, Err("bad pattern".to_string()), 10);
    assert_eq!(rep.status, 500);
    match rep.body {
        Body::Error(m) => assert_eq!(m, "bad pattern"),
        Body::Data(_) => panic!("a failed search must carry an error body"),
    }
}

#[test]
fn not_ready_messages_differ_by_endpoint() {
    let rep = not_ready_reply::<()>(ReadKind::Status);
    assert_eq!(rep.status, 503);
    match rep.body {
        Body::Error(m) => assert_eq!(m, "ADI not initialized. POST /index first."),
        Body::Data(_) => panic!("not-ready is an error reply"),
    }
    let rep = not_ready_reply::<()>(ReadKind::FileByPath);
    assert_eq!(rep.status, 503);
    match rep.body {
        Body::Error(m) => assert_eq!(m, "ADI not initialized"),
        Body::Data(_) => panic!("not-ready is an error reply"),
    }
}
