use lemmy_bb::favicon::FaviconCache;

#[test]
fn empty_cache_holds_no_icon() {
    let cache = FaviconCache::new();
    assert_eq!(cache.lookup("https://example.com/icon.png"), None);
    assert_eq!(cache.lookup(""), None);
}

#[test]
fn cache_answers_for_the_address_it_was_filled_from() {
    let mut cache = FaviconCache::new();
    cache.replace("https://example.com/icon.png".to_string(), vec![1, 2, 3]);
    assert_eq!(cache.lookup("https://example.com/icon.png"), Some(&vec![1, 2, 3]));
    assert_eq!(cache.lookup("https://example.com/other.png"), None);
}

#[test]
fn last_writer_wins() {
    let mut cache = FaviconCache::new();
    cache.replace("https://example.com/icon.png".to_string(), vec![1, 2, 3]);
    cache.replace("https://example.com/new.png".to_string(), vec![9]);
    assert_eq!(cache.lookup("https://example.com/icon.png"), None);
    assert_eq!(cache.lookup("https://example.com/new.png"), Some(&vec![9]));
    cache.replace("https://example.com/new.png".to_string(), vec![]);
    assert_eq!(cache.lookup("https://example.com/new.png"), Some(&vec![]));
}
