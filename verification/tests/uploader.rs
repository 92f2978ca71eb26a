use ipoc_rust::uploader::{s3_url, MemoryStore};

#[test]
fn test_upload() {
    let key = "test-key";
    let etag = "test-etag";
    let buffer = vec![1, 2, 3, 4, 5];

    let mut store = MemoryStore::new(
        String::from("test-bucket"),
        String::from("ap-southeast-1"),
    );
    store.etag = Some(String::from(etag));
    let result = store.upload(buffer.clone(), key).unwrap();
    assert_eq!(result.key, "test-key");
    assert_eq!(
        result.url,
        "https://test-bucket.s3.ap-southeast-1.amazonaws.com/test-key"
    );
    assert_eq!(result.etag.as_deref(), Some(etag));
    assert_eq!(store.get(key), Some(&buffer));
}

#[test]
fn missing_etag_stays_missing() {
    let mut store = MemoryStore::new(String::from("b"), String::from("r"));
    let result = store.upload(vec![7], "k").unwrap();
    assert_eq!(result.etag, None);
}

#[test]
fn second_upload_wins() {
    let mut store = MemoryStore::new(
        String::from("test-bucket"),
        String::from("ap-southeast-1"),
    );
    store.upload(vec![1, 1, 1], "photo.png").unwrap();
    store.upload(vec![2, 2, 2, 2], "photo.png").unwrap();
    assert_eq!(store.get("photo.png"), Some(&vec![2, 2, 2, 2]));
}

#[test]
fn missing_key_reads_none() {
    let store = MemoryStore::new(String::from("b"), String::from("r"));
    assert_eq!(store.get("absent"), None);
}

#[test]
fn distinct_keys_stay_distinct() {
    let mut store = MemoryStore::new(String::from("b"), String::from("r"));
    store.upload(vec![1], "a").unwrap();
    store.upload(vec![2], "b").unwrap();
    assert_eq!(store.get("a"), Some(&vec![1]));
    assert_eq!(store.get("b"), Some(&vec![2]));
}

#[test]
fn url_has_bucket_region_and_key() {
    let url = s3_url("my-bucket", "eu-west-2", "cat.jpg");
    assert_eq!(url, "https://my-bucket.s3.eu-west-2.amazonaws.com/cat.jpg");
}
