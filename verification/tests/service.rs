use jwt_lookup::boundary::account_reply;
use jwt_lookup::boundary::health_reply;
use jwt_lookup::boundary::serve_account;
use jwt_lookup::lookup::resolve_outcome;
use jwt_lookup::lookup::LookupError;
use jwt_lookup::lookup::QueryOutcome;
use jwt_lookup::store::StoreModel;

#[test]
fn absent_identifier_resolves_not_found() {
    let empty = StoreModel::new();
    assert!(matches!(empty.resolve("anyone"), Err(LookupError::NotFound)));

    let mut store = StoreModel::new();
    store.insert("acct-a".to_string(), "token-a".to_string());
    assert!(matches!(store.resolve("acct-b"), Err(LookupError::NotFound)));
}

#[test]
fn absent_identifier_reply_is_not_found() {
    let mut store = StoreModel::new();
    store.insert("acct-a".to_string(), "token-a".to_string());
    let reply = serve_account(&store, "acct-missing");
    assert_eq!(reply.status, 404);
    assert_eq!(reply.body, "Account not found");
}

#[test]
fn single_record_resolves_its_token() {
    let mut store = StoreModel::new();
    store.insert("acct-a".to_string(), " a token kept verbatim ".to_string());
    let token = store.resolve("acct-a").unwrap();
    assert_eq!(token, " a token kept verbatim ");

    let reply = serve_account(&store, "acct-a");
    assert_eq!(reply.status, 200);
    assert_eq!(reply.body, " a token kept verbatim ");
}

#[test]
fn repeated_resolution_returns_same_token() {
    let mut store = StoreModel::new();
    store.insert("acct-a".to_string(), "token-a".to_string());
    let first = store.resolve("acct-a").unwrap();
    let second = store.resolve("acct-a").unwrap();
    let third = store.resolve("acct-a").unwrap();
    assert_eq!(first, "token-a");
    assert_eq!(second, "token-a");
    assert_eq!(third, "token-a");
}

#[test]
fn health_reply_is_fixed() {
    let reply = health_reply();
    assert_eq!(reply.status, 200);
    assert_eq!(reply.body, "OK");
}

#[test]
fn health_ignores_store_contents() {
    // The liveness probe takes no store at all, so its reply is the same
    // with a populated store, an emptied one, or none.
    let mut store = StoreModel::new();
    store.insert("acct-a".to_string(), "token-a".to_string());
    let reply = health_reply();
    assert_eq!((reply.status, reply.body.as_str()), (200, "OK"));

    store.delete("acct-a");
    let reply = health_reply();
    assert_eq!((reply.status, reply.body.as_str()), (200, "OK"));
}

#[test]
fn distinct_identifiers_resolve_independently() {
    let mut store = StoreModel::new();
    store.insert("acct-a".to_string(), "token-a".to_string());
    store.insert("acct-b".to_string(), "token-b".to_string());
    store.insert("acct-c".to_string(), "token-c".to_string());

    assert_eq!(store.resolve("acct-b").unwrap(), "token-b");
    assert_eq!(store.resolve("acct-a").unwrap(), "token-a");
    assert_eq!(store.resolve("acct-c").unwrap(), "token-c");
}

#[test]
fn account_scenario_insert_then_delete() {
    let mut store = StoreModel::new();
    store.insert("acct-1".to_string(), "abc.def.ghi".to_string());

    let reply = serve_account(&store, "acct-1");
    assert_eq!(reply.status, 200);
    assert_eq!(reply.body, "abc.def.ghi");

    store.delete("acct-1");
    let reply = serve_account(&store, "acct-1");
    assert_eq!(reply.status, 404);
    assert_eq!(reply.body, "Account not found");
}

#[test]
fn delete_removes_only_the_given_identifier() {
    let mut store = StoreModel::new();
    store.insert("acct-a".to_string(), "token-a".to_string());
    store.insert("acct-b".to_string(), "token-b".to_string());
    store.delete("acct-a");

    assert!(matches!(store.resolve("acct-a"), Err(LookupError::NotFound)));
    assert_eq!(store.resolve("acct-b").unwrap(), "token-b");
}

#[test]
fn duplicate_records_first_one_wins() {
    let mut store = StoreModel::new();
    store.insert("acct-a".to_string(), "token-first".to_string());
    store.insert("acct-a".to_string(), "token-second".to_string());
    assert_eq!(store.resolve("acct-a").unwrap(), "token-first");
}

#[test]
fn empty_identifier_is_passed_through() {
    let mut store = StoreModel::new();
    store.insert("acct-a".to_string(), "token-a".to_string());
    assert!(matches!(store.resolve(""), Err(LookupError::NotFound)));

    store.insert("".to_string(), "token-empty".to_string());
    assert_eq!(store.resolve("").unwrap(), "token-empty");
}

#[test]
fn query_failure_maps_to_query_failed() {
    let outcome = QueryOutcome::Failure("connection reset".to_string());
    match resolve_outcome(outcome) {
        Err(LookupError::QueryFailed(detail)) => assert_eq!(detail, "connection reset"),
        other => panic!("expected QueryFailed, got {:?}", other),
    }
}

#[test]
fn empty_row_set_maps_to_not_found() {
    let outcome = QueryOutcome::Rows(Vec::new());
    assert!(matches!(resolve_outcome(outcome), Err(LookupError::NotFound)));
}

#[test]
fn first_row_token_is_returned() {
    let rows = vec!["token-first".to_string(), "token-second".to_string()];
    assert_eq!(resolve_outcome(QueryOutcome::Rows(rows)).unwrap(), "token-first");
}

#[test]
fn reply_collapses_both_errors_to_not_found() {
    let reply = account_reply(Err(LookupError::NotFound));
    assert_eq!(reply.status, 404);
    assert_eq!(reply.body, "Account not found");

    let reply = account_reply(Err(LookupError::QueryFailed("store down".to_string())));
    assert_eq!(reply.status, 404);
    assert_eq!(reply.body, "Account not found");
}

#[test]
fn reply_carries_token_untouched() {
    let reply = account_reply(Ok("abc.def.ghi".to_string()));
    assert_eq!(reply.status, 200);
    assert_eq!(reply.body, "abc.def.ghi");
}
