use vstd::prelude::*;

verus! {

/// The operation of the client that a failure belongs to.
#[derive(Clone, Copy, Debug, PartialEq, Eq, Structural)]
pub enum Operation {
    Create,
    Put,
    Get,
}

/// The name of an operation, as it appears in failure messages.
pub open spec fn operation_name(op: Operation) -> Seq<char> {
    match op {
        Operation::Create => "create"@,
        Operation::Put => "put"@,
        Operation::Get => "get"@,
    }
}

impl Operation {
    pub fn name(&self) -> (r: &'static str)
        ensures
            r@ == operation_name(*self),
    {
        match self {
            Operation::Create => "create",
            Operation::Put => "put",
            Operation::Get => "get",
        }
    }
}

/// Every way an operation of the client can fail. Each failure names the
/// operation and what it was working on, so that it can be diagnosed from
/// its message alone.
#[derive(Debug)]
pub enum BucketError {
    /// The storage service refused the request, or could not be reached.
    /// `key` is empty for bucket-level requests.
    ServiceRequestFailure { operation: Operation, bucket: String, key: String, detail: String },
    /// A local file could not be opened, read, created or written.
    LocalIoFailure { operation: Operation, path: String, detail: String },
}

/// The mathematical value of a `BucketError`: its strings as character sequences.
pub enum FailureView {
    ServiceRequestFailure {
        operation: Operation,
        bucket: Seq<char>,
        key: Seq<char>,
        detail: Seq<char>,
    },
    LocalIoFailure { operation: Operation, path: Seq<char>, detail: Seq<char> },
}

impl View for BucketError {
    type V = FailureView;

    open spec fn view(&self) -> FailureView {
        match self {
            BucketError::ServiceRequestFailure { operation, bucket, key, detail } =>
                FailureView::ServiceRequestFailure {
                operation: *operation,
                bucket: bucket@,
                key: key@,
                detail: detail@,
            },
            BucketError::LocalIoFailure { operation, path, detail } => FailureView::LocalIoFailure {
                operation: *operation,
                path: path@,
                detail: detail@,
            },
        }
    }
}

/// The text that describes a failure.
pub open spec fn failure_message(f: FailureView) -> Seq<char> {
    match f {
        FailureView::ServiceRequestFailure { operation, bucket, key, detail } => operation_name(
            operation,
        ) + " request for bucket '"@ + bucket + "' key '"@ + key + "' failed: "@ + detail,
        FailureView::LocalIoFailure { operation, path, detail } => operation_name(operation)
            + ": local file '"@ + path + "' failed: "@ + detail,
    }
}

/// Relies on `String::push_str`: appends the characters of `t` to `s`.
#[verifier::external_body]
fn append(s: &mut String, t: &str)
    ensures
        final(s)@ == old(s)@ + t@,
{
    s.push_str(t);
}

impl BucketError {
    /// The operation that failed.
    pub fn operation(&self) -> (r: Operation)
        ensures
            r == match self@ {
                FailureView::ServiceRequestFailure { operation, .. } => operation,
                FailureView::LocalIoFailure { operation, .. } => operation,
            },
    {
        match self {
            BucketError::ServiceRequestFailure { operation, .. } => *operation,
            BucketError::LocalIoFailure { operation, .. } => *operation,
        }
    }

    /// Whether the storage service is the cause of this failure.
    pub fn is_service_failure(&self) -> (r: bool)
        ensures
            r == (self@ is ServiceRequestFailure),
    {
        match self {
            BucketError::ServiceRequestFailure { .. } => true,
            BucketError::LocalIoFailure { .. } => false,
        }
    }

    /// A one-line description with the operation, its target and the cause.
    pub fn message(&self) -> (r: String)
        ensures
            r@ == failure_message(self@),
    {
        match self {
            BucketError::ServiceRequestFailure { operation, bucket, key, detail } => {
                let mut s = operation.name().to_owned();
                append(&mut s, " request for bucket '");
                append(&mut s, bucket.as_str());
                append(&mut s, "' key '");
                append(&mut s, key.as_str());
                append(&mut s, "' failed: ");
                append(&mut s, detail.as_str());
                s
            },
            BucketError::LocalIoFailure { operation, path, detail } => {
                let mut s = operation.name().to_owned();
                append(&mut s, ": local file '");
                append(&mut s, path.as_str());
                append(&mut s, "' failed: ");
                append(&mut s, detail.as_str());
                s
            },
        }
    }
}

} // verus!
