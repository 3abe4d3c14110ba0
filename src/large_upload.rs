//! The large-object upload protocol, as a state machine that a driver feeds
//! with events (bytes read, provider answers) and that answers each one with
//! the next step to take.

use crate::digest::{
    sha1_hex, sha1_hex_of, sha256_absorbed, sha256_finish_hex, sha256_hex_of, sha256_start,
    sha256_update, RunningSha256,
};
use vstd::prelude::*;

verus! {

/// Part sizes that the storage provider reports when it authorizes an account.
#[derive(Clone, Copy, Debug, PartialEq, Eq, Structural)]
pub struct PartSizes {
    pub min_part_size: usize,
    pub recommended_part_size: usize,
}

impl PartSizes {
    /// Parts are not empty, and the single-shot limit fits in a `usize`.
    pub open spec fn valid(self) -> bool {
        self.recommended_part_size > 0 && self.recommended_part_size + self.min_part_size
            <= usize::MAX
    }

    /// The largest length that is uploaded in one request.
    pub open spec fn limit(self) -> int {
        self.recommended_part_size + self.min_part_size
    }

    pub fn single_shot_limit(self) -> (r: usize)
        requires
            self.valid(),
        ensures
            r == self.limit(),
    {
        self.recommended_part_size + self.min_part_size
    }
}

/// Whether a source of the given declared length is uploaded in one request.
pub open spec fn is_single_shot(declared_length: int, sizes: PartSizes) -> bool {
    declared_length <= sizes.limit()
}

/// Decides between the single-shot and the multi-part protocol.
pub fn takes_single_shot(declared_length: i64, sizes: PartSizes) -> (r: bool)
    requires
        sizes.valid(),
    ensures
        r == is_single_shot(declared_length as int, sizes),
{
    let limit = sizes.single_shot_limit();
    (declared_length as i128) <= (limit as i128)
}

/// A call to the storage provider, as the protocol asks for it.
pub enum ProviderCall {
    UploadBlob(Seq<u8>),
    StartLargeUpload,
    UploadPart(nat, Seq<u8>),
    FinishLargeUpload(Seq<Seq<char>>),
    CancelLargeUpload,
}

/// The bytes of a sequence of parts, one after the other.
pub open spec fn concat_parts(parts: Seq<Seq<u8>>) -> Seq<u8>
    decreases parts.len(),
{
    if parts.len() == 0 {
        Seq::empty()
    } else {
        concat_parts(parts.drop_last()) + parts.last()
    }
}

/// The first `n` parts all have the recommended size.
pub open spec fn full_parts(parts: Seq<Seq<u8>>, n: int, sizes: PartSizes) -> bool {
    forall|i: int| 0 <= i < n ==> #[trigger] parts[i].len() == sizes.recommended_part_size
}

/// The SHA-1 digest of each part, in order.
pub open spec fn part_digests(parts: Seq<Seq<u8>>) -> Seq<Seq<char>> {
    Seq::new(parts.len(), |i: int| sha1_hex_of(parts[i]))
}

/// Upload calls for the given parts, numbered from one.
pub open spec fn part_calls(parts: Seq<Seq<u8>>) -> Seq<ProviderCall> {
    Seq::new(parts.len(), |i: int| ProviderCall::UploadPart((i + 1) as nat, parts[i]))
}

/// The calls of a multi-part session that has sent the given parts.
pub open spec fn session_calls(parts: Seq<Seq<u8>>) -> Seq<ProviderCall> {
    seq![ProviderCall::StartLargeUpload] + part_calls(parts)
}

/// The calls of a multi-part session that completed with the given parts.
pub open spec fn finished_calls(parts: Seq<Seq<u8>>) -> Seq<ProviderCall> {
    session_calls(parts).push(ProviderCall::FinishLargeUpload(part_digests(parts)))
}

/// Why an upload failed.
#[derive(Clone, Debug, PartialEq, Eq)]
pub enum UploadError {
    /// A provider call failed; the message is the provider's or the transport's.
    Transport(String),
    /// The source ended before a multi-part upload had more than one part:
    /// the declared length overstated the source.
    EndedOnFirstPart,
    /// The part numbers ran out.
    TooManyParts,
    /// Reading the source failed; the message says why.
    ReadFailed(String),
}

/// What the driver reports back after carrying out a step.
pub enum UploadEvent {
    /// Bytes read from the source.
    Bytes(Vec<u8>),
    /// The source is exhausted.
    EndOfSource,
    /// Reading the source failed.
    ReadFailed(String),
    /// The provider opened a multi-part session with this file identifier.
    Started(String),
    /// The last provider call succeeded.
    Acknowledged,
    /// The last provider call failed.
    CallFailed(String),
    /// The cancellation call returned, whatever its outcome.
    Cancelled,
}

/// What the driver is to do next.
pub enum UploadStep {
    /// Read more bytes from the source.
    ReadMore,
    /// Upload the whole content in one request.
    UploadBlob { data: Vec<u8> },
    /// Open a multi-part session.
    StartLargeUpload,
    /// Upload one part of the session.
    UploadPart { file_id: String, part_number: usize, data: Vec<u8>, sha1: String },
    /// Close the session with the ordered part digests.
    FinishLargeUpload { file_id: String, part_sha1s: Vec<String> },
    /// Abandon the session; errors of this call are not reported.
    CancelLargeUpload { file_id: String },
    /// The upload succeeded; the SHA-256 digest of everything sent.
    Complete { sha256: String },
    /// The upload failed.
    Fail { error: UploadError },
}

/// The provider call that a step asks for, if any.
pub open spec fn call_of(step: UploadStep) -> Option<ProviderCall> {
    match step {
        UploadStep::UploadBlob { data } => Some(ProviderCall::UploadBlob(data@)),
        UploadStep::StartLargeUpload => Some(ProviderCall::StartLargeUpload),
        UploadStep::UploadPart { part_number, data, .. } => Some(
            ProviderCall::UploadPart(part_number as nat, data@),
        ),
        UploadStep::FinishLargeUpload { part_sha1s, .. } => Some(
            ProviderCall::FinishLargeUpload(part_sha1s@.map_values(|s: String| s@)),
        ),
        UploadStep::CancelLargeUpload { .. } => Some(ProviderCall::CancelLargeUpload),
        _ => None,
    }
}

#[derive(Clone, Copy, Debug, PartialEq, Eq, Structural)]
pub enum Stage {
    /// Gathering bytes: the whole source, or the current part.
    Reading,
    AwaitingBlob,
    AwaitingStart,
    AwaitingPart,
    AwaitingFinish,
    AwaitingCancel,
    Done,
    Failed,
}

/// What an upload in progress is, seen from outside.
pub struct UploadModel {
    pub sizes: PartSizes,
    pub single: bool,
    pub stage: Stage,
    /// The identifier of the open multi-part session, once the provider gave one.
    pub file_id: Option<Seq<char>>,
    /// Bytes read and not yet handed out as a part.
    pub buffer: Seq<u8>,
    /// Every byte read from the source so far.
    pub read: Seq<u8>,
    /// The parts handed out for upload, in order.
    pub parts: Seq<Seq<u8>>,
    /// The number of the part being gathered or sent.
    pub part_number: nat,
    /// Whether the part being sent is the last one.
    pub last_part: bool,
    /// The error to report once the session is cancelled.
    pub pending: Option<UploadError>,
    /// Every provider call asked for so far, in order.
    pub calls: Seq<ProviderCall>,
}

impl UploadModel {
    /// The states that the protocol can reach.
    pub open spec fn valid(self) -> bool {
        &&& self.sizes.valid()
        &&& self.part_number >= 1
        &&& if self.single {
            &&& self.parts.len() == 0
            &&& self.file_id is None
            &&& match self.stage {
                Stage::Reading => self.calls == Seq::<ProviderCall>::empty() && self.read
                    == self.buffer,
                Stage::AwaitingBlob | Stage::Done => self.calls == seq![
                    ProviderCall::UploadBlob(self.read),
                ],
                Stage::Failed => self.calls == Seq::<ProviderCall>::empty() || self.calls == seq![
                    ProviderCall::UploadBlob(self.read),
                ],
                _ => false,
            }
        } else {
            match self.stage {
                Stage::AwaitingStart => {
                    &&& self.calls == seq![ProviderCall::StartLargeUpload]
                    &&& self.parts.len() == 0
                    &&& self.buffer.len() == 0
                    &&& self.read.len() == 0
                    &&& self.part_number == 1
                    &&& self.file_id is None
                },
                Stage::Reading => {
                    &&& self.file_id is Some
                    &&& self.calls == session_calls(self.parts)
                    &&& self.part_number == self.parts.len() + 1
                    &&& self.read == concat_parts(self.parts) + self.buffer
                    &&& full_parts(self.parts, self.parts.len() as int, self.sizes)
                    &&& self.parts.len() >= 1 ==> self.buffer.len() > self.sizes.min_part_size
                },
                Stage::AwaitingPart => {
                    &&& self.file_id is Some
                    &&& self.parts.len() >= 1
                    &&& self.part_number == self.parts.len()
                    &&& self.calls == session_calls(self.parts)
                    &&& self.read == concat_parts(self.parts) + self.buffer
                    &&& self.last_part ==> self.buffer.len() == 0 && self.parts.len() >= 2
                    &&& full_parts(self.parts, self.parts.len() - 1, self.sizes)
                    &&& self.last_part ==> self.parts.last().len() > self.sizes.min_part_size
                    &&& !self.last_part ==> self.parts.last().len()
                        == self.sizes.recommended_part_size && self.buffer.len()
                        > self.sizes.min_part_size
                },
                Stage::AwaitingFinish | Stage::Done => {
                    &&& self.stage == Stage::AwaitingFinish ==> self.file_id is Some
                    &&& full_parts(self.parts, self.parts.len() - 1, self.sizes)
                    &&& self.parts.last().len() > self.sizes.min_part_size
                    &&& self.parts.len() >= 2
                    &&& self.buffer.len() == 0
                    &&& self.read == concat_parts(self.parts)
                    &&& self.calls == finished_calls(self.parts)
                },
                Stage::AwaitingCancel => {
                    &&& self.file_id is Some
                    &&& self.pending is Some
                    &&& self.calls == session_calls(self.parts).push(
                        ProviderCall::CancelLargeUpload,
                    ) || self.calls == finished_calls(self.parts).push(
                        ProviderCall::CancelLargeUpload,
                    )
                },
                Stage::Failed => {
                    ||| self.calls == seq![ProviderCall::StartLargeUpload]
                    ||| self.calls == session_calls(self.parts).push(
                        ProviderCall::CancelLargeUpload,
                    )
                    ||| self.calls == finished_calls(self.parts).push(
                        ProviderCall::CancelLargeUpload,
                    )
                },
                Stage::AwaitingBlob => false,
            }
        }
    }

    /// The events that the current stage waits for.
    pub open spec fn accepts(self, event: UploadEvent) -> bool {
        match self.stage {
            Stage::Reading => event is Bytes || event is EndOfSource || event is ReadFailed,
            Stage::AwaitingStart => event is Started || event is CallFailed,
            Stage::AwaitingBlob | Stage::AwaitingPart | Stage::AwaitingFinish => event is Acknowledged
                || event is CallFailed,
            Stage::AwaitingCancel => event is Cancelled,
            Stage::Done | Stage::Failed => false,
        }
    }
}

/// The calls after a step that asked for `step`.
pub open spec fn calls_after(calls: Seq<ProviderCall>, step: UploadStep) -> Seq<ProviderCall> {
    match call_of(step) {
        Some(c) => calls.push(c),
        None => calls,
    }
}

/// A step that asks to upload `data` as part `number` of the session `id`.
pub open spec fn is_part_upload(step: UploadStep, id: Seq<char>, number: nat, data: Seq<u8>) -> bool {
    match step {
        UploadStep::UploadPart { file_id, part_number, data: d, sha1 } => {
            &&& file_id@ == id
            &&& part_number == number
            &&& d@ == data
            &&& sha1@ == sha1_hex_of(data)
        },
        _ => false,
    }
}

/// A step that asks to cancel the session `id`.
pub open spec fn is_cancel(step: UploadStep, id: Seq<char>) -> bool {
    match step {
        UploadStep::CancelLargeUpload { file_id } => file_id@ == id,
        _ => false,
    }
}

/// The model after asking to cancel the open session, keeping `error` for
/// the caller.
pub open spec fn cancelled(old: UploadModel, error: UploadError) -> UploadModel {
    UploadModel {
        stage: Stage::AwaitingCancel,
        pending: Some(error),
        calls: old.calls.push(ProviderCall::CancelLargeUpload),
        ..old
    }
}

/// How one event moves an upload from `old` to `new`, answered by `step`.
pub open spec fn step_outcome(
    old: UploadModel,
    event: UploadEvent,
    new: UploadModel,
    step: UploadStep,
) -> bool {
    let id = old.file_id.unwrap_or(Seq::empty());
    match old.stage {
        Stage::Reading => match event {
            UploadEvent::Bytes(d) => {
                let gathered = old.buffer + d@;
                let read = old.read + d@;
                if old.single || gathered.len() <= old.sizes.limit() {
                    &&& step is ReadMore
                    &&& new == (UploadModel { buffer: gathered, read, ..old })
                } else {
                    let part = gathered.take(old.sizes.recommended_part_size as int);
                    &&& is_part_upload(step, id, old.part_number, part)
                    &&& new == (UploadModel {
                        stage: Stage::AwaitingPart,
                        buffer: gathered.skip(old.sizes.recommended_part_size as int),
                        read,
                        parts: old.parts.push(part),
                        last_part: false,
                        calls: old.calls.push(ProviderCall::UploadPart(old.part_number, part)),
                        ..old
                    })
                }
            },
            UploadEvent::EndOfSource => if old.single {
                &&& step matches UploadStep::UploadBlob { data } && data@ == old.read
                &&& new == (UploadModel {
                    stage: Stage::AwaitingBlob,
                    buffer: Seq::empty(),
                    calls: old.calls.push(ProviderCall::UploadBlob(old.read)),
                    ..old
                })
            } else if old.part_number == 1 {
                &&& is_cancel(step, id)
                &&& new == cancelled(old, UploadError::EndedOnFirstPart)
            } else {
                &&& is_part_upload(step, id, old.part_number, old.buffer)
                &&& new == (UploadModel {
                    stage: Stage::AwaitingPart,
                    buffer: Seq::empty(),
                    parts: old.parts.push(old.buffer),
                    last_part: true,
                    calls: old.calls.push(ProviderCall::UploadPart(old.part_number, old.buffer)),
                    ..old
                })
            },
            UploadEvent::ReadFailed(m) => if old.single {
                &&& step == UploadStep::Fail { error: UploadError::ReadFailed(m) }
                &&& new == (UploadModel { stage: Stage::Failed, ..old })
            } else {
                &&& is_cancel(step, id)
                &&& new == cancelled(old, UploadError::ReadFailed(m))
            },
            _ => false,
        },
        Stage::AwaitingStart => match event {
            UploadEvent::Started(file_id) => {
                &&& step is ReadMore
                &&& new == (UploadModel { stage: Stage::Reading, file_id: Some(file_id@), ..old })
            },
            UploadEvent::CallFailed(m) => {
                &&& step == UploadStep::Fail { error: UploadError::Transport(m) }
                &&& new == (UploadModel { stage: Stage::Failed, ..old })
            },
            _ => false,
        },
        Stage::AwaitingBlob | Stage::AwaitingFinish => match event {
            UploadEvent::Acknowledged => {
                &&& step matches UploadStep::Complete { sha256 } && sha256@ == sha256_hex_of(
                    old.read,
                )
                &&& new == (UploadModel { stage: Stage::Done, ..old })
            },
            UploadEvent::CallFailed(m) => if old.single {
                &&& step == UploadStep::Fail { error: UploadError::Transport(m) }
                &&& new == (UploadModel { stage: Stage::Failed, ..old })
            } else {
                &&& is_cancel(step, id)
                &&& new == cancelled(old, UploadError::Transport(m))
            },
            _ => false,
        },
        Stage::AwaitingPart => match event {
            UploadEvent::Acknowledged => if old.last_part {
                &&& step matches UploadStep::FinishLargeUpload { file_id, part_sha1s } && file_id@
                    == id && part_sha1s@.map_values(|s: String| s@) == part_digests(old.parts)
                &&& new == (UploadModel {
                    stage: Stage::AwaitingFinish,
                    calls: old.calls.push(
                        ProviderCall::FinishLargeUpload(part_digests(old.parts)),
                    ),
                    ..old
                })
            } else if old.part_number < usize::MAX {
                &&& step is ReadMore
                &&& new == (UploadModel {
                    stage: Stage::Reading,
                    part_number: old.part_number + 1,
                    ..old
                })
            } else {
                &&& is_cancel(step, id)
                &&& new == cancelled(old, UploadError::TooManyParts)
            },
            UploadEvent::CallFailed(m) => {
                &&& is_cancel(step, id)
                &&& new == cancelled(old, UploadError::Transport(m))
            },
            _ => false,
        },
        Stage::AwaitingCancel => {
            &&& step == UploadStep::Fail { error: old.pending.unwrap() }
            &&& new == (UploadModel { stage: Stage::Failed, pending: None, ..old })
        },
        Stage::Done | Stage::Failed => false,
    }
}

/// One upload in progress: the single-shot or the multi-part protocol.
pub struct LargeUpload {
    sizes: PartSizes,
    single: bool,
    stage: Stage,
    file_id: Option<String>,
    buffer: Vec<u8>,
    whole: RunningSha256,
    part_sha1s: Vec<String>,
    part_number: usize,
    last_part: bool,
    pending: Option<UploadError>,
    read: Ghost<Seq<u8>>,
    parts: Ghost<Seq<Seq<u8>>>,
    calls: Ghost<Seq<ProviderCall>>,
}

impl View for LargeUpload {
    type V = UploadModel;

    closed spec fn view(&self) -> UploadModel {
        UploadModel {
            sizes: self.sizes,
            single: self.single,
            stage: self.stage,
            file_id: match self.file_id {
                Some(id) => Some(id@),
                None => None,
            },
            buffer: self.buffer@,
            read: self.read@,
            parts: self.parts@,
            part_number: self.part_number as nat,
            last_part: self.last_part,
            pending: self.pending,
            calls: self.calls@,
        }
    }
}

impl LargeUpload {
    /// The model is reachable, and the running digests agree with it.
    pub closed spec fn wf(&self) -> bool {
        &&& self@.valid()
        &&& self.stage != Stage::Done ==> sha256_absorbed(self.whole) == self.read@
        &&& (self.stage == Stage::Reading || self.stage == Stage::AwaitingPart || self.stage
            == Stage::AwaitingStart) ==> self.part_sha1s@.map_values(|s: String| s@) == part_digests(self.parts@)
    }

    /// Opens an upload of a source whose declared length is `declared_length`,
    /// and gives the first step.
    pub fn new(declared_length: i64, sizes: PartSizes) -> (r: (LargeUpload, UploadStep))
        requires
            sizes.valid(),
        ensures
            r.0.wf(),
            r.0@.sizes == sizes,
            r.0@.single == is_single_shot(declared_length as int, sizes),
            r.0@.read == Seq::<u8>::empty(),
            r.0@.calls == calls_after(Seq::empty(), r.1),
            r.0@.single ==> r.1 is ReadMore && r.0@.stage == Stage::Reading,
            !r.0@.single ==> r.1 is StartLargeUpload && r.0@.stage == Stage::AwaitingStart,
    {
        let single = takes_single_shot(declared_length, sizes);
        let whole = sha256_start();
        let u = LargeUpload {
            sizes,
            single,
            stage: if single {
                Stage::Reading
            } else {
                Stage::AwaitingStart
            },
            file_id: None,
            buffer: Vec::new(),
            whole,
            part_sha1s: Vec::new(),
            part_number: 1,
            last_part: false,
            pending: None,
            read: Ghost(Seq::empty()),
            parts: Ghost(Seq::empty()),
            calls: Ghost(
                if single {
                    Seq::empty()
                } else {
                    seq![ProviderCall::StartLargeUpload]
                },
            ),
        };
        let step = if single {
            UploadStep::ReadMore
        } else {
            UploadStep::StartLargeUpload
        };
        proof {
            assert(u.part_sha1s@.map_values(|s: String| s@) =~= part_digests(u.parts@));
        }
        (u, step)
    }

    /// The stage the upload is in.
    pub fn stage(&self) -> (r: Stage)
        ensures
            r == self@.stage,
    {
        self.stage
    }

    /// Whether the upload waits for `event`.
    pub fn accepts(&self, event: &UploadEvent) -> (r: bool)
        ensures
            r == self@.accepts(*event),
    {
        match self.stage {
            Stage::Reading => matches!(
                event,
                UploadEvent::Bytes(_) | UploadEvent::EndOfSource | UploadEvent::ReadFailed(_)
            ),
            Stage::AwaitingStart => matches!(event, UploadEvent::Started(_) | UploadEvent::CallFailed(_)),
            Stage::AwaitingBlob | Stage::AwaitingPart | Stage::AwaitingFinish => matches!(
                event,
                UploadEvent::Acknowledged | UploadEvent::CallFailed(_)
            ),
            Stage::AwaitingCancel => matches!(event, UploadEvent::Cancelled),
            Stage::Done | Stage::Failed => false,
        }
    }

    fn session_id(&self) -> (r: String)
        requires
            self.file_id is Some,
        ensures
            r@ == self@.file_id.unwrap(),
    {
        match &self.file_id {
            Some(id) => id.clone(),
            None => String::new(),
        }
    }

    /// Hands out the first `at` buffered bytes as the next part and asks for
    /// their upload.
    fn send_part(&mut self, at: usize, last: bool) -> (r: UploadStep)
        requires
            old(self).wf(),
            !old(self).single,
            old(self).stage == Stage::Reading,
            at <= old(self).buffer@.len(),
            last ==> at == old(self).buffer@.len() && old(self).parts@.len() >= 1,
            !last ==> at == old(self).sizes.recommended_part_size && old(self).buffer@.len()
                > old(self).sizes.limit(),
        ensures
            final(self).wf(),
            final(self)@ == (UploadModel {
                stage: Stage::AwaitingPart,
                parts: old(self)@.parts.push(old(self)@.buffer.take(at as int)),
                buffer: old(self)@.buffer.skip(at as int),
                last_part: last,
                calls: calls_after(old(self)@.calls, r),
                ..old(self)@
            }),
            is_part_upload(
                r,
                old(self)@.file_id.unwrap(),
                old(self)@.part_number,
                old(self)@.buffer.take(at as int),
            ),
    {
        let ghost gathered = self.buffer@;
        let mut data = self.buffer.split_off(at);
        core::mem::swap(&mut data, &mut self.buffer);
        proof {
            assert(data@ =~= gathered.take(at as int));
            assert(self.buffer@ =~= gathered.skip(at as int));
            assert(gathered =~= data@ + self.buffer@);
            assert(self.read@ =~= concat_parts(self.parts@) + data@ + self.buffer@);
        }
        let sha1 = sha1_hex(data.as_slice());
        let ghost d = data@;
        let ghost old_parts = self.parts@;
        let ghost old_sha1s = self.part_sha1s@;
        self.part_sha1s.push(sha1.clone());
        let file_id = self.session_id();
        let step = UploadStep::UploadPart { file_id, part_number: self.part_number, data, sha1 };
        proof {
            let np = old_parts.push(d);
            lemma_concat_push(old_parts, d);
            assert(part_calls(np) =~= part_calls(old_parts).push(
                ProviderCall::UploadPart(np.len() as nat, data@),
            ));
            assert(session_calls(np) =~= session_calls(old_parts).push(
                ProviderCall::UploadPart(np.len() as nat, data@),
            ));
            self.parts@ = np;
            self.calls@ = self.calls@.push(ProviderCall::UploadPart(np.len() as nat, data@));
            let digests = self.part_sha1s@.map_values(|s: String| s@);
            let old_digests = old_sha1s.map_values(|s: String| s@);
            assert(old_digests.len() == old_sha1s.len());
            assert(old_digests.len() == old_parts.len());
            assert(self.part_sha1s@.len() == np.len());
            assert forall|i: int| 0 <= i < np.len() implies #[trigger] digests[i] == part_digests(
                np,
            )[i] by {
                if i < old_parts.len() {
                    assert(old_digests[i] == part_digests(old_parts)[i]);
                } else {
                    assert(self.part_sha1s@[i]@ == sha1@);
                }
            }
            assert(digests =~= part_digests(np));
            assert(self.read@ =~= concat_parts(np) + self.buffer@);
        }
        self.stage = Stage::AwaitingPart;
        self.last_part = last;
        step
    }
}

impl LargeUpload {
    /// Asks to abandon the open session, remembering `error` for the caller.
    fn cancel(&mut self, error: UploadError) -> (r: UploadStep)
        requires
            old(self).wf(),
            !old(self).single,
            old(self).stage == Stage::Reading || old(self).stage == Stage::AwaitingPart
                || old(self).stage == Stage::AwaitingFinish,
        ensures
            final(self).wf(),
            final(self)@ == (UploadModel {
                stage: Stage::AwaitingCancel,
                pending: Some(error),
                calls: calls_after(old(self)@.calls, r),
                ..old(self)@
            }),
            is_cancel(r, old(self)@.file_id.unwrap()),
    {
        let file_id = self.session_id();
        self.pending = Some(error);
        self.stage = Stage::AwaitingCancel;
        proof {
            self.calls@ = self.calls@.push(ProviderCall::CancelLargeUpload);
        }
        UploadStep::CancelLargeUpload { file_id }
    }

    /// The digest of everything read; the running state starts over.
    fn take_whole_digest(&mut self) -> (r: String)
        requires
            old(self).wf(),
            old(self).stage != Stage::Done,
        ensures
            r@ == sha256_hex_of(old(self)@.read),
            final(self)@ == old(self)@,
            final(self).part_sha1s == old(self).part_sha1s,
    {
        let mut h = sha256_start();
        core::mem::swap(&mut h, &mut self.whole);
        sha256_finish_hex(h)
    }

    fn on_bytes(&mut self, d: Vec<u8>) -> (r: UploadStep)
        requires
            old(self).wf(),
            old(self).stage == Stage::Reading,
        ensures
            final(self).wf(),
            final(self)@.sizes == old(self)@.sizes,
            final(self)@.single == old(self)@.single,
            final(self)@.calls == calls_after(old(self)@.calls, r),
            step_outcome(old(self)@, UploadEvent::Bytes(d), final(self)@, r),
    {
        let mut d = d;
        let ghost dv = d@;
        let ghost old_buffer = self.buffer@;
        sha256_update(&mut self.whole, d.as_slice());
        proof {
            self.read@ = self.read@ + dv;
        }
        self.buffer.append(&mut d);
        let limit = self.sizes.single_shot_limit();
        if self.single || self.buffer.len() <= limit {
            proof {
                assert(self.read@ =~= concat_parts(self.parts@) + self.buffer@) by {
                    if !self.single {
                        assert(old(self).read@ == concat_parts(self.parts@) + old_buffer);
                    }
                }
            }
            UploadStep::ReadMore
        } else {
            proof {
                assert(old(self).read@ == concat_parts(self.parts@) + old_buffer);
                assert(self.read@ =~= concat_parts(self.parts@) + self.buffer@);
            }
            self.send_part(self.sizes.recommended_part_size, false)
        }
    }

    fn on_end(&mut self) -> (r: UploadStep)
        requires
            old(self).wf(),
            old(self).stage == Stage::Reading,
        ensures
            final(self).wf(),
            final(self)@.sizes == old(self)@.sizes,
            final(self)@.single == old(self)@.single,
            final(self)@.calls == calls_after(old(self)@.calls, r),
            step_outcome(old(self)@, UploadEvent::EndOfSource, final(self)@, r),
    {
        if self.single {
            let mut data = Vec::new();
            core::mem::swap(&mut data, &mut self.buffer);
            self.stage = Stage::AwaitingBlob;
            proof {
                self.calls@ = self.calls@.push(ProviderCall::UploadBlob(self.read@));
            }
            UploadStep::UploadBlob { data }
        } else if self.part_number == 1 {
            self.cancel(UploadError::EndedOnFirstPart)
        } else {
            proof {
                assert(self.buffer@.skip(self.buffer@.len() as int) =~= Seq::<u8>::empty());
                assert(self.buffer@.take(self.buffer@.len() as int) =~= self.buffer@);
            }
            self.send_part(self.buffer.len(), true)
        }
    }

    fn on_part_acknowledged(&mut self) -> (r: UploadStep)
        requires
            old(self).wf(),
            old(self).stage == Stage::AwaitingPart,
        ensures
            final(self).wf(),
            final(self)@.sizes == old(self)@.sizes,
            final(self)@.single == old(self)@.single,
            final(self)@.calls == calls_after(old(self)@.calls, r),
            step_outcome(old(self)@, UploadEvent::Acknowledged, final(self)@, r),
    {
        if self.last_part {
            let mut part_sha1s = Vec::new();
            core::mem::swap(&mut part_sha1s, &mut self.part_sha1s);
            let file_id = self.session_id();
            self.stage = Stage::AwaitingFinish;
            proof {
                self.calls@ = self.calls@.push(
                    ProviderCall::FinishLargeUpload(part_digests(self.parts@)),
                );
                assert(self.read@ =~= concat_parts(self.parts@));
            }
            UploadStep::FinishLargeUpload { file_id, part_sha1s }
        } else if self.part_number < usize::MAX {
            self.part_number = self.part_number + 1;
            self.stage = Stage::Reading;
            UploadStep::ReadMore
        } else {
            self.cancel(UploadError::TooManyParts)
        }
    }

    /// Takes the driver's report of the last step and gives the next one.
    pub fn step(&mut self, event: UploadEvent) -> (r: UploadStep)
        requires
            old(self).wf(),
            old(self)@.accepts(event),
        ensures
            final(self).wf(),
            final(self)@.sizes == old(self)@.sizes,
            final(self)@.single == old(self)@.single,
            final(self)@.calls == calls_after(old(self)@.calls, r),
            step_outcome(old(self)@, event, final(self)@, r),
    {
        match self.stage {
            Stage::Reading => match event {
                UploadEvent::Bytes(d) => self.on_bytes(d),
                UploadEvent::ReadFailed(message) => {
                    if self.single {
                        self.stage = Stage::Failed;
                        UploadStep::Fail { error: UploadError::ReadFailed(message) }
                    } else {
                        self.cancel(UploadError::ReadFailed(message))
                    }
                },
                _ => self.on_end(),
            },
            Stage::AwaitingStart => match event {
                UploadEvent::Started(file_id) => {
                    self.file_id = Some(file_id);
                    self.stage = Stage::Reading;
                    proof {
                        assert(session_calls(self.parts@) =~= seq![ProviderCall::StartLargeUpload]);
                        assert(self.read@ =~= concat_parts(self.parts@) + self.buffer@);
                        assert(self.part_sha1s@.map_values(|s: String| s@) =~= part_digests(
                            self.parts@,
                        ));
                    }
                    UploadStep::ReadMore
                },
                UploadEvent::CallFailed(message) => {
                    self.stage = Stage::Failed;
                    UploadStep::Fail { error: UploadError::Transport(message) }
                },
                _ => {
                    proof {
                        assert(false);
                    }
                    UploadStep::ReadMore
                },
            },
            Stage::AwaitingBlob | Stage::AwaitingFinish => match event {
                UploadEvent::Acknowledged => {
                    let sha256 = self.take_whole_digest();
                    self.stage = Stage::Done;
                    UploadStep::Complete { sha256 }
                },
                UploadEvent::CallFailed(message) => {
                    if self.single {
                        self.stage = Stage::Failed;
                        UploadStep::Fail { error: UploadError::Transport(message) }
                    } else {
                        self.cancel(UploadError::Transport(message))
                    }
                },
                _ => {
                    proof {
                        assert(false);
                    }
                    UploadStep::ReadMore
                },
            },
            Stage::AwaitingPart => match event {
                UploadEvent::Acknowledged => self.on_part_acknowledged(),
                UploadEvent::CallFailed(message) => self.cancel(UploadError::Transport(message)),
                _ => {
                    proof {
                        assert(false);
                    }
                    UploadStep::ReadMore
                },
            },
            Stage::AwaitingCancel => {
                let mut pending = None;
                core::mem::swap(&mut pending, &mut self.pending);
                self.stage = Stage::Failed;
                match pending {
                    Some(error) => UploadStep::Fail { error },
                    None => UploadStep::Fail { error: UploadError::TooManyParts },
                }
            },
            Stage::Done | Stage::Failed => {
                proof {
                    assert(false);
                }
                UploadStep::ReadMore
            },
        }
    }
}

/// A well-formed upload's model is one the protocol can reach, so the laws
/// below apply to it.
pub proof fn lemma_wf_valid(u: &LargeUpload)
    requires
        u.wf(),
    ensures
        u@.valid(),
{
}

proof fn lemma_concat_push(parts: Seq<Seq<u8>>, p: Seq<u8>)
    ensures
        concat_parts(parts.push(p)) == concat_parts(parts) + p,
{
    assert(parts.push(p).drop_last() =~= parts);
}

} // verus!

verus! {

/// A session that has sent parts holds only the start call and the part
/// uploads, numbered from one: no finish and no cancellation.
proof fn lemma_session_calls_shape(parts: Seq<Seq<u8>>)
    ensures
        session_calls(parts).len() == parts.len() + 1,
        session_calls(parts)[0] == ProviderCall::StartLargeUpload,
        forall|i: int|
            1 <= i <= parts.len() ==> #[trigger] session_calls(parts)[i]
                == ProviderCall::UploadPart(i as nat, parts[i - 1]),
{
}

/// A single-shot upload asks for at most one call, the upload of the whole
/// content, and none of a multi-part session; once done, it asked for exactly
/// that one call, carrying every byte read.
pub proof fn lemma_single_shot_calls(u: UploadModel)
    requires
        u.valid(),
        u.single,
    ensures
        u.calls.len() <= 1,
        forall|i: int| 0 <= i < u.calls.len() ==> #[trigger] u.calls[i] is UploadBlob,
        u.stage == Stage::Done ==> u.calls == seq![ProviderCall::UploadBlob(u.read)],
{
}

/// A multi-part upload that completed asked for exactly: one session start,
/// then the upload of parts 1 to N with N >= 2, in order, then one finish
/// carrying the N part digests in the same order. Every part but the last
/// has the recommended size; the last is longer than the minimum size; the
/// parts joined are every byte read.
pub proof fn lemma_multi_part_calls(u: UploadModel)
    requires
        u.valid(),
        !u.single,
        u.stage == Stage::Done,
    ensures
        u.parts.len() >= 2,
        u.calls.len() == u.parts.len() + 2,
        u.calls[0] == ProviderCall::StartLargeUpload,
        forall|i: int|
            1 <= i <= u.parts.len() ==> #[trigger] u.calls[i] == ProviderCall::UploadPart(
                i as nat,
                u.parts[i - 1],
            ),
        u.calls.last() == ProviderCall::FinishLargeUpload(part_digests(u.parts)),
        part_digests(u.parts).len() == u.parts.len(),
        u.read == concat_parts(u.parts),
        forall|i: int|
            0 <= i < u.parts.len() - 1 ==> #[trigger] u.parts[i].len()
                == u.sizes.recommended_part_size,
        u.parts.last().len() > u.sizes.min_part_size,
{
    lemma_session_calls_shape(u.parts);
    assert forall|i: int| 1 <= i <= u.parts.len() implies #[trigger] u.calls[i]
        == ProviderCall::UploadPart(i as nat, u.parts[i - 1]) by {
        assert(u.calls[i] == session_calls(u.parts)[i]);
    }
}

/// The whole-object digest that a multi-part upload reports is the SHA-256
/// digest of its parts joined in order.
pub proof fn lemma_whole_digest_of_parts(
    old: UploadModel,
    new: UploadModel,
    step: UploadStep,
)
    requires
        old.valid(),
        !old.single,
        old.stage == Stage::AwaitingFinish,
        step_outcome(old, UploadEvent::Acknowledged, new, step),
    ensures
        step matches UploadStep::Complete { sha256 } && sha256@ == sha256_hex_of(
            concat_parts(old.parts),
        ),
{
}

/// A source of exactly the single-shot limit goes in one request; one byte
/// more takes the multi-part protocol.
pub proof fn lemma_single_shot_boundary(sizes: PartSizes)
    requires
        sizes.valid(),
    ensures
        is_single_shot(sizes.limit(), sizes),
        !is_single_shot(sizes.limit() + 1, sizes),
{
}

/// When a part upload fails, the session is cancelled exactly once, never
/// finished, and the caller gets the part's own error, whatever the
/// cancellation call did.
pub proof fn lemma_failed_part_cancels_once(
    old: UploadModel,
    message: String,
    mid: UploadModel,
    cancel: UploadStep,
    new: UploadModel,
    fail: UploadStep,
)
    requires
        old.valid(),
        old.stage == Stage::AwaitingPart,
        step_outcome(old, UploadEvent::CallFailed(message), mid, cancel),
        mid.calls == calls_after(old.calls, cancel),
        step_outcome(mid, UploadEvent::Cancelled, new, fail),
        new.calls == calls_after(mid.calls, fail),
    ensures
        cancel is CancelLargeUpload,
        fail == (UploadStep::Fail { error: UploadError::Transport(message) }),
        new.stage == Stage::Failed,
        new.calls.last() == ProviderCall::CancelLargeUpload,
        forall|i: int| 0 <= i < new.calls.len() - 1 ==> !(#[trigger] new.calls[i] is CancelLargeUpload),
        forall|i: int| 0 <= i < new.calls.len() ==> !(#[trigger] new.calls[i] is FinishLargeUpload),
{
    lemma_session_calls_shape(old.parts);
    assert forall|i: int| 0 <= i < new.calls.len() - 1 implies !(#[trigger] new.calls[i] is CancelLargeUpload)
        && !(new.calls[i] is FinishLargeUpload) by {
        assert(new.calls[i] == session_calls(old.parts)[i]);
    }
}

} // verus!
