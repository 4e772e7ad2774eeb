use homebuhg::commands::sync::{
    after_sync_writes, login_writes, logout_writes, status_after_login, store_i64, store_str,
    sync_config, sync_result, sync_status, StoreValue, SyncStatus, SyncStore,
};
use homebuhg::error::AppError;
use homebuhg::sync::auth::AuthTokens;
use homebuhg::sync::sync_service::SyncStats;

fn tokens(refresh: &str) -> AuthTokens {
    AuthTokens {
        id_token: "id-1".to_string(),
        refresh_token: refresh.to_string(),
        local_id: "user-1".to_string(),
    }
}

#[test]
fn empty_store_is_signed_out() {
    let store = SyncStore::new();
    assert_eq!(sync_status(&store), SyncStatus { logged_in: false, last_sync_ms: 0 });
    match sync_config(&store) {
        Err(AppError::Unauthorized(m)) => assert_eq!(m, "not logged in"),
        _ => panic!("expected refusal"),
    }
}

#[test]
fn login_then_status_and_config() {
    let mut store = SyncStore::new();
    store.apply(vec![("last_sync_ms".to_string(), StoreValue::Int(99))]);
    store.apply(login_writes("proj", "key", &tokens("r-1"), "house"));
    assert_eq!(sync_status(&store), status_after_login());
    let c = sync_config(&store).unwrap();
    assert_eq!(c.project_id, "proj");
    assert_eq!(c.api_key, "key");
    assert_eq!(c.id_token, "id-1");
    assert_eq!(c.refresh_token, "r-1");
    assert_eq!(c.household_id, "house");
    assert_eq!(c.last_sync_ms, 0);
    assert_eq!(store_str(&store, "local_id"), "user-1");
}

#[test]
fn logout_signs_out() {
    let mut store = SyncStore::new();
    store.apply(login_writes("proj", "key", &tokens("r-1"), "house"));
    store.apply(logout_writes());
    assert_eq!(sync_status(&store), SyncStatus { logged_in: false, last_sync_ms: 0 });
    assert_eq!(store_str(&store, "project_id"), "proj");
}

#[test]
fn finished_round_records_tokens_and_time() {
    let mut store = SyncStore::new();
    store.apply(login_writes("proj", "key", &tokens("r-1"), "house"));
    let mut c = sync_config(&store).unwrap();
    c.id_token = "id-2".to_string();
    c.refresh_token = "r-2".to_string();
    store.apply(after_sync_writes(&c, 1234));
    assert_eq!(store_str(&store, "id_token"), "id-2");
    assert_eq!(store_str(&store, "refresh_token"), "r-2");
    assert_eq!(store_i64(&store, "last_sync_ms"), 1234);
    assert_eq!(sync_status(&store), SyncStatus { logged_in: true, last_sync_ms: 1234 });
}

#[test]
fn values_of_other_kinds_read_as_empty() {
    let mut store = SyncStore::new();
    store.apply(vec![
        ("refresh_token".to_string(), StoreValue::Int(5)),
        ("last_sync_ms".to_string(), StoreValue::Text("7".to_string())),
        ("api_key".to_string(), StoreValue::Other),
    ]);
    assert_eq!(store_str(&store, "refresh_token"), "");
    assert_eq!(store_i64(&store, "last_sync_ms"), 0);
    assert_eq!(store_str(&store, "api_key"), "");
    assert_eq!(sync_status(&store), SyncStatus { logged_in: false, last_sync_ms: 0 });
}

#[test]
fn round_counts_are_reported() {
    let r = sync_result(SyncStats { uploaded: 3, downloaded: 4 });
    assert_eq!((r.uploaded, r.downloaded), (3, 4));
}
