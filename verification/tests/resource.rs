use futures::channel::oneshot::{channel, Canceled};
use ui_elements::resource::{
    outcome_of_poll, FetchError, FetchHandle, ImageData, ResourceCache, ResourceHandle,
};

fn logo() -> ImageData {
    ImageData { id: 1, width: 64, height: 32 }
}

fn uri(s: &str) -> String {
    s.to_string()
}

#[test]
fn new_cache_is_empty() {
    let mut cache = ResourceCache::new();
    assert_eq!(cache.len(), 0);
    assert_eq!(cache.take_fetch(), None);
    assert_eq!(cache.handle_of(&uri("img://logo")), None);
    assert_eq!(cache.poll(ResourceHandle(0)), None);
}

#[test]
fn first_request_queues_one_fetch() {
    let mut cache = ResourceCache::new();
    let handle = cache.get(&uri("img://logo"));
    assert_eq!(handle, ResourceHandle(0));
    assert_eq!(cache.len(), 1);
    assert_eq!(cache.poll(handle), None);
    assert_eq!(cache.take_fetch(), Some(uri("img://logo")));
    assert_eq!(cache.take_fetch(), None);
}

#[test]
fn requests_for_one_uri_share_one_fetch() {
    let mut cache = ResourceCache::new();
    let mut handles = Vec::new();
    for _ in 0..5 {
        handles.push(cache.get(&uri("img://logo")));
    }
    assert_eq!(cache.len(), 1);
    for handle in &handles {
        assert_eq!(*handle, handles[0]);
    }
    assert_eq!(cache.take_fetch(), Some(uri("img://logo")));
    assert_eq!(cache.take_fetch(), None);
    assert!(cache.resolve(&uri("img://logo"), Ok(logo())));
    for handle in &handles {
        assert_eq!(cache.poll(*handle), Some(Ok(logo())));
    }
}

#[test]
fn requests_for_other_uris_get_their_own_entries() {
    let mut cache = ResourceCache::new();
    let a = cache.get(&uri("img://a"));
    let b = cache.get(&uri("img://b"));
    let a_again = cache.get(&uri("img://a"));
    assert_eq!(a, ResourceHandle(0));
    assert_eq!(b, ResourceHandle(1));
    assert_eq!(a_again, a);
    assert_eq!(cache.len(), 2);
    assert_eq!(cache.handle_of(&uri("img://b")), Some(b));
    assert_eq!(cache.take_fetch(), Some(uri("img://a")));
    assert_eq!(cache.take_fetch(), Some(uri("img://b")));
    assert_eq!(cache.take_fetch(), None);
    assert!(cache.resolve(&uri("img://b"), Err(FetchError::Decode)));
    assert_eq!(cache.poll(a), None);
    assert_eq!(cache.poll(b), Some(Err(FetchError::Decode)));
}

#[test]
fn a_resolved_entry_keeps_its_outcome() {
    let mut cache = ResourceCache::new();
    let handle = cache.get(&uri("img://logo"));
    assert!(cache.resolve(&uri("img://logo"), Err(FetchError::Fetch)));
    assert!(!cache.resolve(&uri("img://logo"), Ok(logo())));
    assert_eq!(cache.poll(handle), Some(Err(FetchError::Fetch)));
    assert_eq!(cache.get(&uri("img://logo")), handle);
    assert_eq!(cache.poll(handle), Some(Err(FetchError::Fetch)));
    assert_eq!(cache.len(), 1);
}

#[test]
fn an_outcome_for_an_unknown_uri_is_dropped() {
    let mut cache = ResourceCache::new();
    assert!(!cache.resolve(&uri("img://nowhere"), Ok(logo())));
    assert_eq!(cache.len(), 0);
    let handle = cache.get(&uri("img://nowhere"));
    assert_eq!(cache.poll(handle), None);
}

#[test]
fn a_handle_the_cache_did_not_give_observes_nothing() {
    let mut cache = ResourceCache::new();
    cache.get(&uri("img://logo"));
    cache.resolve(&uri("img://logo"), Ok(logo()));
    assert_eq!(cache.poll(ResourceHandle(1)), None);
    assert_eq!(cache.poll(ResourceHandle(usize::MAX)), None);
}

#[test]
fn absorb_outcome_records_what_a_poll_observed() {
    let mut cache = ResourceCache::new();
    let handle = cache.get(&uri("img://logo"));
    assert!(!cache.absorb_outcome(&uri("img://logo"), None));
    assert_eq!(cache.poll(handle), None);
    assert!(cache.absorb_outcome(&uri("img://logo"), Some(Ok(logo()))));
    assert_eq!(cache.poll(handle), Some(Ok(logo())));
    assert!(!cache.absorb_outcome(&uri("img://logo"), Some(Err(FetchError::Fetch))));
    assert_eq!(cache.poll(handle), Some(Ok(logo())));
}

#[test]
fn absorb_takes_the_outcome_that_was_sent() {
    let mut cache = ResourceCache::new();
    let handle = cache.get(&uri("img://logo"));
    let (sender, receiver) = channel();
    let fetch = FetchHandle::new(receiver);
    assert!(!cache.absorb(&uri("img://logo"), &fetch));
    assert_eq!(cache.poll(handle), None);
    sender.send(Ok(logo())).unwrap();
    assert!(cache.absorb(&uri("img://logo"), &fetch));
    assert_eq!(cache.poll(handle), Some(Ok(logo())));
    assert!(!cache.absorb(&uri("img://logo"), &fetch));
    assert_eq!(cache.poll(handle), Some(Ok(logo())));
}

#[test]
fn absorb_takes_the_failure_that_was_sent() {
    let mut cache = ResourceCache::new();
    let handle = cache.get(&uri("img://broken"));
    let (sender, receiver) = channel();
    let fetch = FetchHandle::new(receiver);
    sender.send(Err(FetchError::Decode)).unwrap();
    assert!(cache.absorb(&uri("img://broken"), &fetch));
    assert_eq!(cache.poll(handle), Some(Err(FetchError::Decode)));
}

#[test]
fn absorb_leaves_the_cache_alone_while_the_fetch_is_under_way() {
    let mut cache = ResourceCache::new();
    let handle = cache.get(&uri("img://logo"));
    let (sender, receiver) = channel::<Result<ImageData, FetchError>>();
    let fetch = FetchHandle::new(receiver);
    assert!(!cache.absorb(&uri("img://logo"), &fetch));
    assert!(!cache.absorb(&uri("img://logo"), &fetch));
    assert_eq!(cache.poll(handle), None);
    assert_eq!(cache.len(), 1);
    assert!(!sender.is_canceled());
}

#[test]
fn absorb_takes_a_fetch_that_was_given_up_for_failed() {
    let mut cache = ResourceCache::new();
    let handle = cache.get(&uri("img://logo"));
    let (sender, receiver) = channel::<Result<ImageData, FetchError>>();
    let fetch = FetchHandle::new(receiver);
    drop(sender);
    assert!(cache.absorb(&uri("img://logo"), &fetch));
    assert_eq!(cache.poll(handle), Some(Err(FetchError::Canceled)));
}

#[test]
fn absorb_for_an_unknown_uri_changes_nothing() {
    let mut cache = ResourceCache::new();
    let (sender, receiver) = channel();
    let fetch = FetchHandle::new(receiver);
    sender.send(Ok(logo())).unwrap();
    assert!(!cache.absorb(&uri("img://logo"), &fetch));
    assert_eq!(cache.len(), 0);
}

#[test]
fn a_fetch_can_be_polled_again_and_again() {
    let (sender, receiver) = channel();
    let fetch = FetchHandle::new(receiver);
    assert_eq!(fetch.poll(), None);
    assert_eq!(fetch.poll(), None);
    sender.send(Err(FetchError::Fetch)).unwrap();
    assert_eq!(fetch.poll(), Some(Err(FetchError::Fetch)));
    assert_eq!(fetch.poll(), Some(Err(FetchError::Fetch)));
}

#[test]
fn a_poll_is_read_for_the_cache() {
    assert_eq!(outcome_of_poll(None), None);
    assert_eq!(outcome_of_poll(Some(Ok(Ok(logo())))), Some(Ok(logo())));
    assert_eq!(
        outcome_of_poll(Some(Ok(Err(FetchError::Decode)))),
        Some(Err(FetchError::Decode))
    );
    assert_eq!(outcome_of_poll(Some(Err(Canceled))), Some(Err(FetchError::Canceled)));
}
