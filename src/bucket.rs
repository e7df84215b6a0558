use vstd::prelude::*;

use crate::error::{BucketError, FailureView, Operation};
use rusoto_s3::S3Client;

verus! {

/// The storage service's client handle, carried through unopened.
#[verifier::external_type_specification]
#[verifier::external_body]
pub struct ExS3Client(rusoto_s3::S3Client);

/// A bucket-creation request.
#[derive(Debug)]
pub struct CreateRequest {
    pub bucket: String,
}

/// An upload request; the body is streamed from the local file by the caller.
#[derive(Debug)]
pub struct PutRequest {
    pub bucket: String,
    pub key: String,
    pub content_length: i64,
}

/// A download request.
#[derive(Debug)]
pub struct GetRequest {
    pub bucket: String,
    pub key: String,
}

/// What an operation of the client owes its caller when the storage
/// service answered `outcome` (`Ok` or the service's own description of the
/// refusal).
pub open spec fn service_result(
    op: Operation,
    bucket: Seq<char>,
    key: Seq<char>,
    outcome: Result<(), Seq<char>>,
    r: Result<(), BucketError>,
) -> bool {
    match outcome {
        Ok(_) => r is Ok,
        Err(detail) => r is Err && r->Err_0@ == (FailureView::ServiceRequestFailure {
            operation: op,
            bucket,
            key,
            detail,
        }),
    }
}

/// The view of an outcome reported as `Result<(), String>`.
pub open spec fn outcome_view(outcome: Result<(), String>) -> Result<(), Seq<char>> {
    match outcome {
        Ok(_) => Ok(()),
        Err(d) => Err(d@),
    }
}

/// The detail given when a request names no object.
pub open spec fn empty_key_detail() -> Seq<char> {
    "the object key is empty"@
}

/// The detail given when a file is longer than a request can declare.
pub open spec fn too_long_detail() -> Seq<char> {
    "the file is longer than a request can declare"@
}

/// Turns the service's answer into the client's result.
fn to_service_result(op: Operation, bucket: &String, key: &str, outcome: Result<(), String>) -> (r:
    Result<(), BucketError>)
    ensures
        service_result(op, bucket@, key@, outcome_view(outcome), r),
{
    match outcome {
        Ok(()) => Ok(()),
        Err(detail) => Err(
            BucketError::ServiceRequestFailure {
                operation: op,
                bucket: bucket.clone(),
                key: key.to_owned(),
                detail,
            },
        ),
    }
}

/// A client bound to one bucket. The name is fixed when the client is built,
/// and the service handle belongs to this client alone.
pub struct Bucket {
    s3: S3Client,
    name: String,
}

impl Bucket {
    /// The name of the bucket this client works on.
    pub closed spec fn spec_name(&self) -> Seq<char> {
        self.name@
    }

    pub fn new(s3: S3Client, name: &str) -> (r: Bucket)
        ensures
            r.spec_name() == name@,
    {
        Bucket { s3, name: name.to_owned() }
    }

    pub fn name(&self) -> (r: &str)
        ensures
            r@ == self.spec_name(),
    {
        self.name.as_str()
    }

    /// The service handle, to send the requests this client builds.
    pub fn client(&self) -> &S3Client {
        &self.s3
    }

    /// Refuses an empty object key before anything is sent.
    pub fn check_key(&self, op: Operation, key: &str) -> (r: Result<(), BucketError>)
        ensures
            key@.len() > 0 <==> r is Ok,
            r is Err ==> r->Err_0@ == (FailureView::ServiceRequestFailure {
                operation: op,
                bucket: self.spec_name(),
                key: key@,
                detail: empty_key_detail(),
            }),
    {
        if key.is_empty() {
            Err(
                BucketError::ServiceRequestFailure {
                    operation: op,
                    bucket: self.name.clone(),
                    key: key.to_owned(),
                    detail: "the object key is empty".to_owned(),
                },
            )
        } else {
            Ok(())
        }
    }

    /// The request that creates this client's bucket.
    pub fn create_request(&self) -> (r: CreateRequest)
        ensures
            r.bucket@ == self.spec_name(),
    {
        CreateRequest { bucket: self.name.clone() }
    }

    /// The client's result once the service answered a creation request.
    /// A bucket that already exists is reported by the service, and comes
    /// back as a service failure: creation never succeeds silently twice.
    pub fn finish_create(&self, outcome: Result<(), String>) -> (r: Result<(), BucketError>)
        ensures
            service_result(Operation::Create, self.spec_name(), Seq::empty(), outcome_view(outcome), r),
    {
        let r = to_service_result(Operation::Create, &self.name, "", outcome);
        proof {
            reveal_strlit("");
            assert(""@ =~= Seq::<char>::empty());
        }
        r
    }

    /// The request that uploads a local file of `file_len` bytes under
    /// `remote_key`. The declared length is the file's length; a file too
    /// long to declare, or an empty key, is refused.
    pub fn put_request(&self, remote_key: &str, local_path: &str, file_len: u64) -> (r: Result<
        PutRequest,
        BucketError,
    >)
        ensures
            r is Ok <==> (remote_key@.len() > 0 && file_len <= i64::MAX),
            r is Ok ==> ({
                let q = r->Ok_0;
                &&& q.bucket@ == self.spec_name()
                &&& q.key@ == remote_key@
                &&& q.content_length == file_len
            }),
            remote_key@.len() == 0 ==> r is Err && r->Err_0@ == (FailureView::ServiceRequestFailure {
                operation: Operation::Put,
                bucket: self.spec_name(),
                key: remote_key@,
                detail: empty_key_detail(),
            }),
            remote_key@.len() > 0 && file_len > i64::MAX ==> r is Err && r->Err_0@ == (
            FailureView::LocalIoFailure {
                operation: Operation::Put,
                path: local_path@,
                detail: too_long_detail(),
            }),
    {
        match self.check_key(Operation::Put, remote_key) {
            Err(e) => Err(e),
            Ok(()) => {
                if file_len > i64::MAX as u64 {
                    Err(
                        BucketError::LocalIoFailure {
                            operation: Operation::Put,
                            path: local_path.to_owned(),
                            detail: "the file is longer than a request can declare".to_owned(),
                        },
                    )
                } else {
                    Ok(
                        PutRequest {
                            bucket: self.name.clone(),
                            key: remote_key.to_owned(),
                            content_length: file_len as i64,
                        },
                    )
                }
            },
        }
    }

    /// The client's result once the service answered an upload of `remote_key`.
    pub fn finish_put(&self, remote_key: &str, outcome: Result<(), String>) -> (r: Result<
        (),
        BucketError,
    >)
        ensures
            service_result(Operation::Put, self.spec_name(), remote_key@, outcome_view(outcome), r),
    {
        to_service_result(Operation::Put, &self.name, remote_key, outcome)
    }

    /// The request that downloads `remote_key`; an empty key is refused.
    pub fn get_request(&self, remote_key: &str) -> (r: Result<GetRequest, BucketError>)
        ensures
            r is Ok <==> remote_key@.len() > 0,
            r is Ok ==> r->Ok_0.bucket@ == self.spec_name() && r->Ok_0.key@ == remote_key@,
            r is Err ==> r->Err_0@ == (FailureView::ServiceRequestFailure {
                operation: Operation::Get,
                bucket: self.spec_name(),
                key: remote_key@,
                detail: empty_key_detail(),
            }),
    {
        match self.check_key(Operation::Get, remote_key) {
            Err(e) => Err(e),
            Ok(()) => Ok(GetRequest { bucket: self.name.clone(), key: remote_key.to_owned() }),
        }
    }
}

} // verus!
