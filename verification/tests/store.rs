use slack_rs::oauth::{
    begin_callback, complete_callback, CallbackStep, OAuthConfig, TokenResponse, TokenStorage,
};

fn credential(token: &str) -> TokenResponse {
    TokenResponse { access_token: token.to_string() }
}

#[test]
fn new_store_is_empty() {
    let store = TokenStorage::new();
    assert_eq!(store.get_token("T1"), None);
    assert_eq!(store.get_token(""), None);
    assert_eq!(TokenStorage::default().get_token("T1"), None);
}

#[test]
fn stored_credential_is_found_whole() {
    let mut store = TokenStorage::new();
    store.store_token("T1".to_string(), credential("xoxb-one"));
    assert_eq!(store.get_token("T1"), Some(&credential("xoxb-one")));
}

#[test]
fn storing_leaves_other_workspaces_alone() {
    let mut store = TokenStorage::new();
    store.store_token("T1".to_string(), credential("xoxb-one"));
    store.store_token("T2".to_string(), credential("xoxb-two"));
    store.store_token("".to_string(), credential("xoxb-none"));
    assert_eq!(store.get_token("T1"), Some(&credential("xoxb-one")));
    assert_eq!(store.get_token("T2"), Some(&credential("xoxb-two")));
    assert_eq!(store.get_token(""), Some(&credential("xoxb-none")));
    assert_eq!(store.get_token("T3"), None);
    assert_eq!(store.get_token("t1"), None);
    assert_eq!(store.get_token("T"), None);
    assert_eq!(store.get_token("T11"), None);
}

#[test]
fn storing_again_replaces_the_credential() {
    let mut store = TokenStorage::new();
    store.store_token("T1".to_string(), credential("xoxb-old"));
    store.store_token("T2".to_string(), credential("xoxb-two"));
    store.store_token("T1".to_string(), credential("xoxb-new"));
    assert_eq!(store.get_token("T1"), Some(&credential("xoxb-new")));
    assert_eq!(store.get_token("T2"), Some(&credential("xoxb-two")));
    store.store_token("T2".to_string(), credential("xoxb-two-new"));
    store.store_token("T1".to_string(), credential("xoxb-newest"));
    assert_eq!(store.get_token("T1"), Some(&credential("xoxb-newest")));
    assert_eq!(store.get_token("T2"), Some(&credential("xoxb-two-new")));
}

#[test]
fn store_holds_many_workspaces() {
    let mut store = TokenStorage::new();
    for i in 0..200 {
        store.store_token(format!("T{}", i), credential(&format!("xoxb-{}", i)));
    }
    for i in (0..200).step_by(3) {
        store.store_token(format!("T{}", i), credential(&format!("xoxb-again-{}", i)));
    }
    for i in 0..200 {
        let expected =
            if i % 3 == 0 { format!("xoxb-again-{}", i) } else { format!("xoxb-{}", i) };
        assert_eq!(store.get_token(&format!("T{}", i)), Some(&credential(&expected)));
    }
    assert_eq!(store.get_token("T200"), None);
}

#[test]
fn authorize_url_names_client_and_scopes() {
    let config = OAuthConfig::new(
        "1234.5678".to_string(),
        "shhh".to_string(),
        "https://example.com/oauth/callback".to_string(),
    );
    assert_eq!(config.client_id, "1234.5678");
    assert_eq!(config.client_secret, "shhh");
    assert_eq!(config.redirect_uri, "https://example.com/oauth/callback");
    assert_eq!(
        config.authorize_url(),
        "https://slack.com/oauth/v2/authorize?client_id=1234.5678&scope=channels:history,chat:write,commands"
    );
    assert_eq!(config.clone().authorize_url(), config.authorize_url());
}

#[test]
fn callback_with_code_asks_for_the_exchange() {
    assert_eq!(
        begin_callback(Some("code-1".to_string())),
        CallbackStep::Exchange("code-1".to_string())
    );
    assert_eq!(begin_callback(Some(String::new())), CallbackStep::Exchange(String::new()));
}

#[test]
fn callback_without_code_is_told_so() {
    assert_eq!(
        begin_callback(None),
        CallbackStep::Respond("認証コードが見つかりません".to_string())
    );
}

#[test]
fn granted_exchange_is_stored() {
    let mut store = TokenStorage::new();
    store.store_token("T0".to_string(), credential("xoxb-zero"));
    let answer =
        complete_callback(&mut store, Ok(("T1".to_string(), credential("xoxb-granted"))));
    assert_eq!(answer, "OAuth認証成功！");
    assert_eq!(store.get_token("T1"), Some(&credential("xoxb-granted")));
    assert_eq!(store.get_token("T0"), Some(&credential("xoxb-zero")));
}

#[test]
fn failed_exchange_changes_nothing() {
    let mut store = TokenStorage::new();
    store.store_token("T1".to_string(), credential("xoxb-old"));
    let answer = complete_callback(&mut store, Err("invalid_code".to_string()));
    assert_eq!(answer, "OAuth認証エラー: invalid_code");
    assert_eq!(store.get_token("T1"), Some(&credential("xoxb-old")));
    assert_eq!(store.get_token("invalid_code"), None);
}

#[test]
fn concurrent_readers_see_nothing_or_the_whole_credential() {
    let runtime = tokio::runtime::Builder::new_multi_thread()
        .worker_threads(4)
        .build()
        .unwrap();
    runtime.block_on(async {
        let store = std::sync::Arc::new(tokio::sync::RwLock::new(TokenStorage::new()));
        let written = credential("SECRET-REDACTED");
        let mut tasks = Vec::new();
        for _ in 0..4 {
            let store = store.clone();
            let written = written.clone();
            tasks.push(tokio::spawn(async move {
                let mut seen_some = false;
                for _ in 0..2000 {
                    let found = store.read().await.get_token("T1").cloned();
                    match found {
                        None => assert!(!seen_some),
                        Some(found) => {
                            assert_eq!(found, written);
                            seen_some = true;
                        }
                    }
                    tokio::task::yield_now().await;
                }
            }));
        }
        {
            let store = store.clone();
            let written = written.clone();
            tasks.push(tokio::spawn(async move {
                for i in 0..50 {
                    let mut guard = store.write().await;
                    guard.store_token(format!("other-{}", i), credential("xoxb-other"));
                }
                store.write().await.store_token("T1".to_string(), written);
                for i in 0..50 {
                    let mut guard = store.write().await;
                    guard.store_token(format!("later-{}", i), credential("xoxb-later"));
                }
            }));
        }
        for task in tasks {
            task.await.unwrap();
        }
        assert_eq!(store.read().await.get_token("T1"), Some(&written));
    });
}
