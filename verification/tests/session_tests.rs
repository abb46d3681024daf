use lectio_scraper::error::ScrapeError;
use lectio_scraper::session::ClientManager;

#[test]
fn a_new_store_holds_no_session() {
    let store: ClientManager<String> = ClientManager::new();
    assert!(!store.is_initialized());
    assert_eq!(store.get_client(), None);
    assert_eq!(store.require_client(), Err(ScrapeError::SessionMissing));
}

#[test]
fn a_session_replaces_the_one_before_it() {
    let mut store: ClientManager<String> = ClientManager::new();
    store.set_client("first".to_string());
    assert!(store.is_initialized());
    assert_eq!(store.get_client(), Some(&"first".to_string()));
    store.set_client("second".to_string());
    assert_eq!(store.get_client(), Some(&"second".to_string()));
    assert_eq!(store.require_client(), Ok(&"second".to_string()));
}
