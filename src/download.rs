use vstd::prelude::*;

use crate::bucket::{Bucket, GetRequest};
use crate::error::{BucketError, FailureView, Operation};

verus! {

/// How many bytes the caller reads from the object's body at a time.
pub const COPY_BUFFER_SIZE: usize = 1024;

/// Where a download stands.
#[derive(Clone, Copy, Debug, PartialEq, Eq, Structural)]
pub enum Phase {
    /// The download request is out; its answer is awaited.
    AwaitingObject,
    /// The object exists; the destination file is being created.
    CreatingFile,
    /// A chunk of the body is being read.
    Reading,
    /// A chunk is being written to the destination file.
    Writing,
    /// The whole body is in the destination file.
    Done,
    /// The download stopped on a failure.
    Failed,
}

/// What the caller observed while carrying out the last action.
pub enum DownloadEvent {
    /// The service answered the download request with the object's body.
    ObjectReady,
    /// The service refused the download request, or could not be reached.
    RequestFailed(String),
    /// The destination file was created (or truncated).
    FileCreated,
    FileFailed(String),
    /// A read of the body returned these bytes; none at the end of the body.
    Read(Vec<u8>),
    /// A read of the body failed.
    ReadFailed(String),
    /// The last chunk is in the destination file.
    Written,
    WriteFailed(String),
}

/// The mathematical value of a `DownloadEvent`.
pub enum EventView {
    ObjectReady,
    RequestFailed(Seq<char>),
    FileCreated,
    FileFailed(Seq<char>),
    Read(Seq<u8>),
    ReadFailed(Seq<char>),
    Written,
    WriteFailed(Seq<char>),
}

impl View for DownloadEvent {
    type V = EventView;

    open spec fn view(&self) -> EventView {
        match self {
            DownloadEvent::ObjectReady => EventView::ObjectReady,
            DownloadEvent::RequestFailed(d) => EventView::RequestFailed(d@),
            DownloadEvent::FileCreated => EventView::FileCreated,
            DownloadEvent::FileFailed(d) => EventView::FileFailed(d@),
            DownloadEvent::Read(c) => EventView::Read(c@),
            DownloadEvent::ReadFailed(d) => EventView::ReadFailed(d@),
            DownloadEvent::Written => EventView::Written,
            DownloadEvent::WriteFailed(d) => EventView::WriteFailed(d@),
        }
    }
}

/// What the caller is to do next.
pub enum DownloadAction {
    /// Create or truncate the destination file.
    CreateFile,
    /// Read up to `COPY_BUFFER_SIZE` bytes of the body.
    ReadChunk,
    /// Append these bytes to the destination file.
    WriteChunk(Vec<u8>),
    /// The download is complete.
    Finish,
    /// The download failed; nothing is cleaned up.
    Abort(BucketError),
}

/// The state of a download: its phase, and every byte handed to the
/// destination file so far, in order.
pub struct DownloadState {
    pub phase: Phase,
    pub content: Seq<u8>,
}

/// Whether an event can happen in a phase: it answers the action that the
/// phase was entered with.
pub open spec fn event_fits(phase: Phase, e: EventView) -> bool {
    match e {
        EventView::ObjectReady | EventView::RequestFailed(_) => phase == Phase::AwaitingObject,
        EventView::FileCreated | EventView::FileFailed(_) => phase == Phase::CreatingFile,
        EventView::Read(_) | EventView::ReadFailed(_) => phase == Phase::Reading,
        EventView::Written | EventView::WriteFailed(_) => phase == Phase::Writing,
    }
}

/// The state after an event. An event that does not fit leaves it unchanged.
pub open spec fn next(s: DownloadState, e: EventView) -> DownloadState {
    if !event_fits(s.phase, e) {
        s
    } else {
        match e {
            EventView::ObjectReady => DownloadState { phase: Phase::CreatingFile, content: s.content },
            EventView::FileCreated => DownloadState { phase: Phase::Reading, content: s.content },
            EventView::Read(c) => if c.len() == 0 {
                DownloadState { phase: Phase::Done, content: s.content }
            } else {
                DownloadState { phase: Phase::Writing, content: s.content + c }
            },
            EventView::Written => DownloadState { phase: Phase::Reading, content: s.content },
            _ => DownloadState { phase: Phase::Failed, content: s.content },
        }
    }
}

/// The state after a sequence of events.
pub open spec fn run(s: DownloadState, events: Seq<EventView>) -> DownloadState
    decreases events.len(),
{
    if events.len() == 0 {
        s
    } else {
        run(next(s, events[0]), events.drop_first())
    }
}

/// The bytes of a sequence of chunks, one after another.
pub open spec fn concat_chunks(chunks: Seq<Seq<u8>>) -> Seq<u8>
    decreases chunks.len(),
{
    if chunks.len() == 0 {
        Seq::empty()
    } else {
        chunks[0] + concat_chunks(chunks.drop_first())
    }
}

/// `content` cut into chunks of `size` bytes; the last one may be shorter.
pub open spec fn chunks_of(content: Seq<u8>, size: nat) -> Seq<Seq<u8>>
    decreases content.len(),
{
    if content.len() == 0 {
        Seq::empty()
    } else if size == 0 || content.len() <= size {
        seq![content]
    } else {
        seq![content.take(size as int)] + chunks_of(content.skip(size as int), size)
    }
}

/// What the caller observes while copying a body that reads as `chunks`:
/// each chunk is read and written, and a last read returns nothing.
pub open spec fn copy_events(chunks: Seq<Seq<u8>>) -> Seq<EventView>
    decreases chunks.len(),
{
    if chunks.len() == 0 {
        seq![EventView::Read(Seq::empty())]
    } else {
        seq![EventView::Read(chunks[0]), EventView::Written] + copy_events(chunks.drop_first())
    }
}

proof fn lemma_run_copy(p: Seq<u8>, chunks: Seq<Seq<u8>>)
    requires
        forall|i: int| 0 <= i < chunks.len() ==> #[trigger] chunks[i].len() > 0,
    ensures
        run(DownloadState { phase: Phase::Reading, content: p }, copy_events(chunks)) == (
        DownloadState { phase: Phase::Done, content: p + concat_chunks(chunks) }),
    decreases chunks.len(),
{
    let s = DownloadState { phase: Phase::Reading, content: p };
    if chunks.len() == 0 {
        let ev = copy_events(chunks);
        assert(ev[0] == EventView::Read(Seq::empty()));
        assert(ev.drop_first().len() == 0);
        let s1 = next(s, ev[0]);
        assert(s1 == DownloadState { phase: Phase::Done, content: p });
        assert(run(s, ev) == run(s1, ev.drop_first()));
        assert(p + concat_chunks(chunks) =~= p);
    } else {
        let c = chunks[0];
        let rest = chunks.drop_first();
        assert(chunks[0].len() > 0);
        assert forall|i: int| 0 <= i < rest.len() implies #[trigger] rest[i].len() > 0 by {
            assert(rest[i] == chunks[i + 1]);
        }
        lemma_run_copy(p + c, rest);
        let ev = copy_events(chunks);
        let tail = copy_events(rest);
        assert(ev[0] == EventView::Read(c));
        assert(ev.drop_first()[0] == EventView::Written);
        assert(ev.drop_first().drop_first() =~= tail);
        let s1 = next(s, ev[0]);
        assert(s1 == DownloadState { phase: Phase::Writing, content: p + c });
        assert(run(s, ev) == run(s1, ev.drop_first()));
        let s2 = next(s1, ev.drop_first()[0]);
        assert(s2 == DownloadState { phase: Phase::Reading, content: p + c });
        assert(run(s1, ev.drop_first()) == run(s2, ev.drop_first().drop_first()));
        assert(p + c + concat_chunks(rest) =~= p + concat_chunks(chunks));
    }
}

proof fn lemma_chunks_of(content: Seq<u8>, size: nat)
    requires
        size > 0,
    ensures
        concat_chunks(chunks_of(content, size)) == content,
        forall|i: int|
            0 <= i < chunks_of(content, size).len() ==> 0 < #[trigger] chunks_of(content, size)[i].len()
                <= size,
    decreases content.len(),
{
    let cs = chunks_of(content, size);
    if content.len() == 0 {
        assert(content =~= Seq::<u8>::empty());
    } else if content.len() <= size {
        assert(cs == seq![content]);
        assert(cs[0] == content);
        assert(cs.drop_first() =~= Seq::<Seq<u8>>::empty());
        assert(concat_chunks(cs.drop_first()) == Seq::<u8>::empty());
        assert(concat_chunks(cs) == content + Seq::<u8>::empty());
        assert(content + Seq::<u8>::empty() =~= content);
    } else {
        let rest = content.skip(size as int);
        lemma_chunks_of(rest, size);
        assert(cs[0] == content.take(size as int));
        assert(cs.drop_first() =~= chunks_of(rest, size));
        assert(concat_chunks(cs) == content.take(size as int) + concat_chunks(chunks_of(rest, size)));
        assert(content.take(size as int) + rest =~= content);
        assert forall|i: int| 0 <= i < cs.len() implies 0 < #[trigger] cs[i].len() <= size by {
            if i > 0 {
                assert(cs[i] == chunks_of(rest, size)[i - 1]);
            }
        }
    }
}

/// Copying a body read in chunks of any size puts exactly the body's bytes
/// into the destination file and ends the download; an empty body leaves an
/// empty file.
pub proof fn lemma_chunked_copy_reproduces_body(body: Seq<u8>, size: nat)
    requires
        size > 0,
    ensures
        run(DownloadState { phase: Phase::Reading, content: Seq::empty() }, copy_events(chunks_of(body, size)))
            == (DownloadState { phase: Phase::Done, content: body }),
{
    lemma_chunks_of(body, size);
    lemma_run_copy(Seq::empty(), chunks_of(body, size));
    assert(Seq::<u8>::empty() + body =~= body);
}

/// Whatever chunks a body arrives in, a completed download holds their bytes
/// in order.
pub proof fn lemma_copy_keeps_order(chunks: Seq<Seq<u8>>)
    requires
        forall|i: int| 0 <= i < chunks.len() ==> #[trigger] chunks[i].len() > 0,
    ensures
        run(DownloadState { phase: Phase::Reading, content: Seq::empty() }, copy_events(chunks)) == (
        DownloadState { phase: Phase::Done, content: concat_chunks(chunks) }),
{
    lemma_run_copy(Seq::empty(), chunks);
    assert(Seq::<u8>::empty() + concat_chunks(chunks) =~= concat_chunks(chunks));
}

proof fn lemma_failed_is_final(content: Seq<u8>, events: Seq<EventView>)
    ensures
        run(DownloadState { phase: Phase::Failed, content }, events) == (DownloadState {
            phase: Phase::Failed,
            content,
        }),
    decreases events.len(),
{
    if events.len() > 0 {
        lemma_failed_is_final(content, events.drop_first());
    }
}

/// A download whose request the service refuses fails, and stays failed
/// whatever is reported after: it never reaches the creation of the
/// destination file, and nothing is written.
pub proof fn lemma_refused_download_leaves_no_file(detail: Seq<char>, later: Seq<EventView>)
    ensures
        run(
            DownloadState { phase: Phase::AwaitingObject, content: Seq::empty() },
            seq![EventView::RequestFailed(detail)] + later,
        ) == (DownloadState { phase: Phase::Failed, content: Seq::<u8>::empty() }),
{
    let s = DownloadState { phase: Phase::AwaitingObject, content: Seq::<u8>::empty() };
    let ev = seq![EventView::RequestFailed(detail)] + later;
    assert(ev[0] == EventView::RequestFailed(detail));
    assert(ev.drop_first() =~= later);
    lemma_failed_is_final(Seq::empty(), later);
}

/// The action that answers an event, for a download of `key` from `bucket`
/// into the file at `path`.
pub open spec fn action_fits(
    bucket: Seq<char>,
    key: Seq<char>,
    path: Seq<char>,
    e: EventView,
    a: DownloadAction,
) -> bool {
    match e {
        EventView::ObjectReady => a is CreateFile,
        EventView::RequestFailed(d) | EventView::ReadFailed(d) => a is Abort && a->Abort_0@
            == (FailureView::ServiceRequestFailure { operation: Operation::Get, bucket, key, detail: d }),
        EventView::FileCreated | EventView::Written => a is ReadChunk,
        EventView::FileFailed(d) | EventView::WriteFailed(d) => a is Abort && a->Abort_0@
            == (FailureView::LocalIoFailure { operation: Operation::Get, path, detail: d }),
        EventView::Read(c) => if c.len() == 0 {
            a is Finish
        } else {
            a is WriteChunk && a->WriteChunk_0@ == c
        },
    }
}

/// One download of an object into a local file. The caller performs each
/// action it is handed and reports what happened; the destination file is
/// only touched once the service has produced the object.
pub struct Download {
    bucket: String,
    key: String,
    path: String,
    phase: Phase,
    content: Ghost<Seq<u8>>,
}

impl View for Download {
    type V = DownloadState;

    closed spec fn view(&self) -> DownloadState {
        DownloadState { phase: self.phase, content: self.content@ }
    }
}

impl Download {
    pub closed spec fn spec_bucket(&self) -> Seq<char> {
        self.bucket@
    }

    pub closed spec fn spec_key(&self) -> Seq<char> {
        self.key@
    }

    pub closed spec fn spec_path(&self) -> Seq<char> {
        self.path@
    }

    /// Begins a download of `remote_key` into `local_path`: the request to
    /// send, and the download that awaits its answer. An empty key is refused.
    pub fn start(bucket: &Bucket, remote_key: &str, local_path: &str) -> (r: Result<
        (Download, GetRequest),
        BucketError,
    >)
        ensures
            r is Ok <==> remote_key@.len() > 0,
            r is Ok ==> ({
                let (d, q) = r->Ok_0;
                &&& d@ == (DownloadState { phase: Phase::AwaitingObject, content: Seq::empty() })
                &&& d.spec_bucket() == bucket.spec_name()
                &&& d.spec_key() == remote_key@
                &&& d.spec_path() == local_path@
                &&& q.bucket@ == bucket.spec_name()
                &&& q.key@ == remote_key@
            }),
            r is Err ==> r->Err_0@ == (FailureView::ServiceRequestFailure {
                operation: Operation::Get,
                bucket: bucket.spec_name(),
                key: remote_key@,
                detail: crate::bucket::empty_key_detail(),
            }),
    {
        match bucket.get_request(remote_key) {
            Err(e) => Err(e),
            Ok(q) => {
                let d = Download {
                    bucket: bucket.name().to_owned(),
                    key: remote_key.to_owned(),
                    path: local_path.to_owned(),
                    phase: Phase::AwaitingObject,
                    content: Ghost(Seq::empty()),
                };
                Ok((d, q))
            },
        }
    }

    pub fn phase(&self) -> (r: Phase)
        ensures
            r == self@.phase,
    {
        self.phase
    }

    /// Whether `event` answers the action this download last handed out.
    pub fn accepts(&self, event: &DownloadEvent) -> (r: bool)
        ensures
            r == event_fits(self@.phase, event@),
    {
        match event {
            DownloadEvent::ObjectReady | DownloadEvent::RequestFailed(_) => self.phase
                == Phase::AwaitingObject,
            DownloadEvent::FileCreated | DownloadEvent::FileFailed(_) => self.phase
                == Phase::CreatingFile,
            DownloadEvent::Read(_) | DownloadEvent::ReadFailed(_) => self.phase == Phase::Reading,
            DownloadEvent::Written | DownloadEvent::WriteFailed(_) => self.phase == Phase::Writing,
        }
    }

    /// Takes in what the caller observed and decides what it does next. A
    /// refused request aborts before any file is created; a failed read is a
    /// failure, never a silent end of the body.
    pub fn step(&mut self, event: DownloadEvent) -> (a: DownloadAction)
        requires
            event_fits(old(self)@.phase, event@),
        ensures
            final(self)@ == next(old(self)@, event@),
            final(self).spec_bucket() == old(self).spec_bucket(),
            final(self).spec_key() == old(self).spec_key(),
            final(self).spec_path() == old(self).spec_path(),
            action_fits(old(self).spec_bucket(), old(self).spec_key(), old(self).spec_path(), event@, a),
    {
        match event {
            DownloadEvent::ObjectReady => {
                self.phase = Phase::CreatingFile;
                DownloadAction::CreateFile
            },
            DownloadEvent::FileCreated | DownloadEvent::Written => {
                self.phase = Phase::Reading;
                DownloadAction::ReadChunk
            },
            DownloadEvent::Read(chunk) => {
                if chunk.len() == 0 {
                    self.phase = Phase::Done;
                    DownloadAction::Finish
                } else {
                    self.phase = Phase::Writing;
                    self.content = Ghost(self.content@ + chunk@);
                    DownloadAction::WriteChunk(chunk)
                }
            },
            DownloadEvent::RequestFailed(detail) | DownloadEvent::ReadFailed(detail) => {
                self.phase = Phase::Failed;
                DownloadAction::Abort(
                    BucketError::ServiceRequestFailure {
                        operation: Operation::Get,
                        bucket: self.bucket.clone(),
                        key: self.key.clone(),
                        detail,
                    },
                )
            },
            DownloadEvent::FileFailed(detail) | DownloadEvent::WriteFailed(detail) => {
                self.phase = Phase::Failed;
                DownloadAction::Abort(
                    BucketError::LocalIoFailure {
                        operation: Operation::Get,
                        path: self.path.clone(),
                        detail,
                    },
                )
            },
        }
    }
}

} // verus!
