//! Where a message ends.
//!
//! The wire carries no length. Bytes are gathered chunk by chunk, and after
//! each chunk that leaves the buffer ending with the terminator byte a full
//! decode is tried: if it succeeds, the message is complete. When the stream
//! closes, one last decode is made of what has been gathered, whatever its
//! last byte, and its result stands.
//!
//! This is a heuristic. It takes a message to be one dictionary, and it
//! relies on no proper prefix of a message decoding by itself; a message of
//! which one does is cut short there. That is how peers of this protocol
//! frame, and it is kept as it is.

use crate::decode::decode_request;
use crate::decode::decoded;
use crate::decode::parsed;
use crate::decode::DecodeError;
use crate::decode::DecodeErrorView;
use crate::protocol::Request;
use crate::protocol::RequestView;
use crate::text::push_all;
use vstd::prelude::*;

verus! {

/// The bytes gathered so far on one connection.
pub struct Framer {
    data: Vec<u8>,
}

impl View for Framer {
    type V = Seq<u8>;

    closed spec fn view(&self) -> Seq<u8> {
        self.data@
    }
}

/// What a chunk leads to. A framer yields at most one request: only
/// `NeedMore` hands it back.
pub enum FrameStep {
    /// No message yet: read on.
    NeedMore(Framer),
    /// The message is complete.
    Complete(Request),
    /// The stream closed on something that is no message.
    Failed(DecodeError),
}

/// What [`FrameStep`] holds, in contracts.
pub enum FrameStepView {
    NeedMore(Seq<u8>),
    Complete(RequestView),
    Failed(DecodeErrorView),
}

impl View for FrameStep {
    type V = FrameStepView;

    open spec fn view(&self) -> FrameStepView {
        match self {
            FrameStep::NeedMore(framer) => FrameStepView::NeedMore(framer@),
            FrameStep::Complete(request) => FrameStepView::Complete(request@),
            FrameStep::Failed(e) => FrameStepView::Failed(e@),
        }
    }
}

/// What `chunk` leads to after `buffered`. An empty chunk is the end of the
/// stream.
pub open spec fn fed(buffered: Seq<u8>, chunk: Seq<u8>) -> FrameStepView {
    if chunk.len() == 0 {
        match parsed(buffered) {
            Ok(request) => FrameStepView::Complete(request),
            Err(e) => FrameStepView::Failed(e),
        }
    } else {
        match decoded(buffered + chunk) {
            Ok(request) => FrameStepView::Complete(request),
            Err(_) => FrameStepView::NeedMore(buffered + chunk),
        }
    }
}

/// What comes of feeding `message` one byte at a time, from byte `from` on,
/// the bytes before it being gathered already.
pub open spec fn fed_bytewise(message: Seq<u8>, from: int) -> FrameStepView
    decreases message.len() - from,
{
    if from < 0 || from >= message.len() {
        FrameStepView::NeedMore(message)
    } else {
        match fed(message.take(from), seq![message[from]]) {
            FrameStepView::NeedMore(_) => fed_bytewise(message, from + 1),
            done => done,
        }
    }
}

impl Framer {
    /// A framer that has gathered nothing.
    pub fn new() -> (framer: Framer)
        ensures
            framer@ == Seq::<u8>::empty(),
    {
        Framer { data: Vec::new() }
    }

    /// The bytes gathered so far.
    pub fn buffered(&self) -> (bytes: &[u8])
        ensures
            bytes@ == self@,
    {
        self.data.as_slice()
    }

    /// Takes the next chunk read from the stream; an empty chunk means that
    /// the stream has closed.
    pub fn feed(self, chunk: &[u8]) -> (step: FrameStep)
        ensures
            step@ == fed(self@, chunk@),
    {
        let mut framer = self;
        if chunk.len() == 0 {
            return match Request::from_bencode(framer.data.as_slice()) {
                Ok(request) => FrameStep::Complete(request),
                Err(e) => FrameStep::Failed(e),
            };
        }
        push_all(&mut framer.data, chunk);
        match decode_request(framer.data.as_slice()) {
            Ok(request) => FrameStep::Complete(request),
            Err(_) => FrameStep::NeedMore(framer),
        }
    }
}

/// Fed one byte at a time, a message is delivered at its first prefix that
/// decodes: with byte `k`, if the first `k` bytes decode and no shorter
/// prefix from `from` on does. Every byte before leaves the framer waiting.
/// In particular a message that decodes, none of whose proper prefixes
/// does, is delivered when its last byte arrives and not before.
pub proof fn bytewise_delivers_at_first_decodable_prefix(message: Seq<u8>, from: int, k: int)
    requires
        0 <= from < k <= message.len(),
        decoded(message.take(k)) is Ok,
        forall|j: int| from < j < k ==> (#[trigger] decoded(message.take(j))) is Err,
    ensures
        forall|j: int|
            from <= j < k - 1 ==> (#[trigger] fed(message.take(j), seq![message[j]])) is NeedMore,
        fed(message.take(k - 1), seq![message[k - 1]]) == FrameStepView::Complete(
            decoded(message.take(k))->Ok_0,
        ),
        fed_bytewise(message, from) == FrameStepView::Complete(decoded(message.take(k))->Ok_0),
    decreases k - from,
{
    assert forall|j: int| from <= j < k implies message.take(j) + seq![message[j]]
        == #[trigger] message.take(j + 1) by {
        assert(message.take(j) + seq![message[j]] =~= message.take(j + 1));
    }
    assert forall|j: int| from <= j < k - 1 implies (#[trigger] fed(
        message.take(j),
        seq![message[j]],
    )) is NeedMore by {
        assert(message.take(j) + seq![message[j]] == message.take(j + 1));
        assert(decoded(message.take(j + 1)) is Err);
    }
    assert(message.take(k - 1) + seq![message[k - 1]] == message.take(k - 1 + 1));
    if from + 1 < k {
        bytewise_delivers_at_first_decodable_prefix(message, from + 1, k);
    }
}

/// Fed one byte at a time, a message none of whose prefixes decodes leaves
/// the framer waiting, with all of it gathered.
pub proof fn bytewise_waits_while_nothing_decodes(message: Seq<u8>, from: int)
    requires
        0 <= from <= message.len(),
        forall|j: int| from < j <= message.len() ==> (#[trigger] decoded(message.take(j))) is Err,
    ensures
        fed_bytewise(message, from) == FrameStepView::NeedMore(message),
    decreases message.len() - from,
{
    if from < message.len() {
        assert(message.take(from) + seq![message[from]] =~= message.take(from + 1));
        bytewise_waits_while_nothing_decodes(message, from + 1);
    }
}

} // verus!
