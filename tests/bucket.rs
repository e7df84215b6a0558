use bucket_client::bucket::Bucket;
use bucket_client::error::{BucketError, Operation};
use rusoto_core::credential::StaticProvider;
use rusoto_core::request::{DispatchSignedRequest, DispatchSignedRequestFuture, HttpDispatchError};
use rusoto_core::signature::SignedRequest;
use rusoto_core::Region;
use rusoto_s3::S3Client;

struct Offline;

impl DispatchSignedRequest for Offline {
    fn dispatch(
        &self,
        _request: SignedRequest,
        _timeout: Option<std::time::Duration>,
    ) -> DispatchSignedRequestFuture {
        Box::pin(std::future::ready(Err(HttpDispatchError::new("offline".to_string()))))
    }
}

fn bucket(name: &str) -> Bucket {
    let credentials = StaticProvider::new_minimal("id".to_string(), "key".to_string());
    Bucket::new(S3Client::new_with(Offline, credentials, Region::UsEast1), name)
}

#[test]
fn bucket_keeps_its_name() {
    let b = bucket("test-bucket");
    assert_eq!(b.name(), "test-bucket");
}

#[test]
fn create_request_names_the_bucket() {
    let b = bucket("test-bucket");
    assert_eq!(b.create_request().bucket, "test-bucket");
}

#[test]
fn create_success_is_ok() {
    let b = bucket("test-bucket");
    assert!(b.finish_create(Ok(())).is_ok());
}

#[test]
fn create_of_existing_bucket_is_a_service_failure() {
    let b = bucket("test-bucket");
    let e = b.finish_create(Err("BucketAlreadyOwnedByYou".to_string())).unwrap_err();
    assert!(e.is_service_failure());
    assert_eq!(e.operation(), Operation::Create);
    match e {
        BucketError::ServiceRequestFailure { operation, bucket, key, detail } => {
            assert_eq!(operation, Operation::Create);
            assert_eq!(bucket, "test-bucket");
            assert_eq!(key, "");
            assert_eq!(detail, "BucketAlreadyOwnedByYou");
        }
        BucketError::LocalIoFailure { .. } => panic!("expected a service failure"),
    }
}

#[test]
fn put_request_declares_file_length() {
    let b = bucket("test-bucket");
    let q = b.put_request("a.txt", "a.txt", 10).unwrap();
    assert_eq!(q.bucket, "test-bucket");
    assert_eq!(q.key, "a.txt");
    assert_eq!(q.content_length, 10);
}

#[test]
fn put_request_of_empty_file_declares_zero() {
    let b = bucket("test-bucket");
    let q = b.put_request("empty.bin", "empty.bin", 0).unwrap();
    assert_eq!(q.content_length, 0);
}

#[test]
fn put_request_largest_declarable_length() {
    let b = bucket("test-bucket");
    let q = b.put_request("big", "big", i64::MAX as u64).unwrap();
    assert_eq!(q.content_length, i64::MAX);
}

#[test]
fn put_request_refuses_undeclarable_length() {
    let b = bucket("test-bucket");
    let e = b.put_request("big", "/data/big", i64::MAX as u64 + 1).unwrap_err();
    assert!(!e.is_service_failure());
    assert_eq!(
        e.message(),
        "put: local file '/data/big' failed: the file is longer than a request can declare"
    );
}

#[test]
fn put_request_refuses_empty_key() {
    let b = bucket("test-bucket");
    let e = b.put_request("", "a.txt", 10).unwrap_err();
    assert!(e.is_service_failure());
    assert_eq!(
        e.message(),
        "put request for bucket 'test-bucket' key '' failed: the object key is empty"
    );
}

#[test]
fn put_failure_names_key_and_bucket() {
    let b = bucket("test-bucket");
    let e = b.finish_put("a.txt", Err("AccessDenied".to_string())).unwrap_err();
    assert_eq!(e.operation(), Operation::Put);
    assert_eq!(
        e.message(),
        "put request for bucket 'test-bucket' key 'a.txt' failed: AccessDenied"
    );
    assert!(b.finish_put("a.txt", Ok(())).is_ok());
}

#[test]
fn get_request_names_bucket_and_key() {
    let b = bucket("test-bucket");
    let q = b.get_request("a.txt").unwrap();
    assert_eq!(q.bucket, "test-bucket");
    assert_eq!(q.key, "a.txt");
}

#[test]
fn get_request_refuses_empty_key() {
    let b = bucket("test-bucket");
    let e = b.get_request("").unwrap_err();
    assert_eq!(e.operation(), Operation::Get);
    assert!(e.is_service_failure());
}

#[test]
fn operation_names() {
    assert_eq!(Operation::Create.name(), "create");
    assert_eq!(Operation::Put.name(), "put");
    assert_eq!(Operation::Get.name(), "get");
}

#[test]
fn local_failure_message() {
    let e = BucketError::LocalIoFailure {
        operation: Operation::Get,
        path: "out.txt".to_string(),
        detail: "permission denied".to_string(),
    };
    assert_eq!(e.message(), "get: local file 'out.txt' failed: permission denied");
}
