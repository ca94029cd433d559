//! Frames: how one message is told from the next on a byte stream.
//!
//! A frame is one start marker, the payload as it is, and one end marker.
//! There is no length and no escaping, so a payload that holds the end marker
//! is cut short at that byte when it is read back, and a stream that ends
//! before an end marker holds no frame. The functions here say so exactly.

use crate::packet::PacketError;
use vstd::prelude::*;
use vstd::slice::*;

verus! {

/// The byte that opens a frame.
pub const START: u8 = 2;

/// The byte that closes a frame.
pub const END: u8 = 3;

/// A payload as it travels: start marker, payload, end marker.
pub open spec fn framed(payload: Seq<u8>) -> Seq<u8> {
    seq![START] + payload + seq![END]
}

/// Whether the payload of a frame ends before position `n` of what follows the
/// start marker: the first end marker stands at `n`.
pub open spec fn ends_at(body: Seq<u8>, n: int) -> bool {
    &&& 0 <= n < body.len()
    &&& forall|i: int| 0 <= i < n ==> body[i] != END
    &&& body[n] == END
}

/// Whether what follows the start marker holds an end marker.
pub open spec fn is_closed(body: Seq<u8>) -> bool {
    exists|n: int| ends_at(body, n)
}

/// The payload that is read from what follows the start marker, where that
/// holds an end marker: the bytes before the first one.
pub open spec fn payload_of(body: Seq<u8>) -> Seq<u8> {
    body.take(choose|n: int| ends_at(body, n))
}

/// What reading one frame from the bytes of a stream gives: the payload, or the
/// words of the error. The first byte has to be the start marker, and an end
/// marker has to follow; a stream that ends before either is an error.
pub open spec fn frame_read(stream: Seq<u8>) -> Result<Seq<u8>, Seq<char>> {
    if stream.len() == 0 {
        Err("failed to fill whole buffer"@)
    } else if stream[0] != START {
        Err("Bad Packet"@)
    } else if !is_closed(stream.skip(1)) {
        Err("failed to fill whole buffer"@)
    } else {
        Ok(payload_of(stream.skip(1)))
    }
}

/// A payload ends at one place only.
pub proof fn lemma_ends_once(body: Seq<u8>, n: int, m: int)
    requires
        ends_at(body, n),
        ends_at(body, m),
    ensures
        n == m,
{
    if n < m {
        assert(body[n] != END);
    } else if m < n {
        assert(body[m] != END);
    }
}

/// Where a payload ends at `n`, the payload is the first `n` bytes.
pub proof fn lemma_payload_ends(body: Seq<u8>, n: int)
    requires
        ends_at(body, n),
    ensures
        is_closed(body),
        payload_of(body) == body.take(n),
{
    let m = choose|m: int| ends_at(body, m);
    lemma_ends_once(body, n, m);
}

/// A payload without an end marker is read back from its frame unchanged.
pub proof fn lemma_frame_round_trip(payload: Seq<u8>)
    requires
        forall|i: int| 0 <= i < payload.len() ==> payload[i] != END,
    ensures
        frame_read(framed(payload)) == Ok::<Seq<u8>, Seq<char>>(payload),
{
    let body = payload + seq![END];
    assert(framed(payload).skip(1) =~= body);
    assert(ends_at(body, payload.len() as int));
    lemma_payload_ends(body, payload.len() as int);
    assert(body.take(payload.len() as int) =~= payload);
}

/// A payload with an end marker is read back from its frame cut short before
/// the first one.
pub proof fn lemma_frame_truncates(payload: Seq<u8>, at: int)
    requires
        ends_at(payload, at),
    ensures
        frame_read(framed(payload)) == Ok::<Seq<u8>, Seq<char>>(payload.take(at)),
{
    let body = payload + seq![END];
    assert(framed(payload).skip(1) =~= body);
    assert(ends_at(body, at));
    lemma_payload_ends(body, at);
    assert(body.take(at) =~= payload.take(at));
}

/// A stream that starts a frame and ends before an end marker holds no frame,
/// whatever came after the start marker.
pub proof fn lemma_unclosed_frame_is_refused(stream: Seq<u8>)
    requires
        forall|i: int| 1 <= i < stream.len() ==> stream[i] != END,
    ensures
        frame_read(stream) is Err,
{
    if stream.len() > 0 && stream[0] == START {
        let body = stream.skip(1);
        assert forall|n: int| !ends_at(body, n) by {
            if 0 <= n < body.len() {
                assert(body[n] == stream[n + 1]);
            }
        }
    }
}

/// The bytes to write for a payload: the start marker, the payload, the end
/// marker.
pub fn write_frame(payload: &[u8]) -> (frame: Vec<u8>)
    ensures
        frame@ == framed(payload@),
{
    let mut frame: Vec<u8> = Vec::new();
    frame.push(START);
    frame.extend_from_slice(payload);
    frame.push(END);
    assert(frame@ =~= framed(payload@));
    frame
}

/// What a stream delivered when it was asked for one more byte.
pub enum ReadEvent {
    /// A byte.
    Byte(u8),
    /// Nothing: the stream has ended.
    Closed,
    /// An error, with its words.
    Failed(String),
}

/// A frame that is being read, one byte at a time.
pub struct FrameReader {
    started: bool,
    payload: Vec<u8>,
}

/// What to do after a byte was taken in.
pub enum ReadStep {
    /// The frame is not complete: ask the stream for one more byte.
    More(FrameReader),
    /// The frame is complete, and this is its payload. Read no further.
    Frame(Vec<u8>),
    /// No frame can be read, for this reason. Read no further.
    Fault(PacketError),
}

impl FrameReader {
    #[verifier::type_invariant]
    spec fn inv(self) -> bool {
        &&& forall|i: int| 0 <= i < self.payload@.len() ==> self.payload@[i] != END
        &&& !self.started ==> self.payload@.len() == 0
    }

    /// Whether the start marker has been read.
    pub closed spec fn started(&self) -> bool {
        self.started
    }

    /// The bytes of the payload that have been read.
    pub closed spec fn payload(&self) -> Seq<u8> {
        self.payload@
    }

    /// The bytes of the payload that have been read. None of them is the end
    /// marker, and there are none before the start marker.
    pub fn pending(&self) -> (bytes: &[u8])
        ensures
            bytes@ == self.payload(),
            forall|i: int| 0 <= i < bytes@.len() ==> bytes@[i] != END,
            !self.started() ==> bytes@.len() == 0,
    {
        proof {
            use_type_invariant(self);
        }
        self.payload.as_slice()
    }

    /// A reader that has read nothing.
    pub fn new() -> (reader: Self)
        ensures
            !reader.started(),
            reader.payload() == Seq::<u8>::empty(),
    {
        FrameReader { started: false, payload: Vec::new() }
    }

    /// Takes in what the stream delivered and says what to do next.
    ///
    /// Before the start marker: the start marker opens the frame, and any
    /// other byte is a bad frame. After it: the end marker completes the
    /// frame, and any other byte joins the payload. The end of the stream is
    /// an error before the frame is complete, and an error of the stream is
    /// handed on as it is.
    pub fn accept(self, event: ReadEvent) -> (step: ReadStep)
        ensures
            match event {
                ReadEvent::Failed(words) => step matches ReadStep::Fault(fault) && fault.message
                    == words,
                ReadEvent::Closed => step matches ReadStep::Fault(fault) && fault.message@
                    == "failed to fill whole buffer"@,
                ReadEvent::Byte(byte) => if !self.started() {
                    if byte == START {
                        step matches ReadStep::More(next) && next.started() && next.payload()
                            == Seq::<u8>::empty()
                    } else {
                        step matches ReadStep::Fault(fault) && fault.message@ == "Bad Packet"@
                    }
                } else if byte == END {
                    step matches ReadStep::Frame(payload) && payload@ == self.payload()
                } else {
                    step matches ReadStep::More(next) && next.started() && next.payload()
                        == self.payload().push(byte)
                },
            },
    {
        proof {
            use_type_invariant(&self);
        }
        let FrameReader { started, mut payload } = self;
        match event {
            ReadEvent::Failed(words) => ReadStep::Fault(PacketError { message: words }),
            ReadEvent::Closed => ReadStep::Fault(PacketError::new("failed to fill whole buffer")),
            ReadEvent::Byte(byte) => {
                if !started {
                    if byte == START {
                        ReadStep::More(FrameReader { started: true, payload })
                    } else {
                        ReadStep::Fault(PacketError::new("Bad Packet"))
                    }
                } else if byte == END {
                    ReadStep::Frame(payload)
                } else {
                    payload.push(byte);
                    ReadStep::More(FrameReader { started: true, payload })
                }
            },
        }
    }
}

/// Reads one frame from the bytes of a stream, byte by byte from the first,
/// and gives its payload. Bytes after the end marker are not looked at; bytes
/// that end before one are no frame.
pub fn read_frame(stream: &[u8]) -> (r: Result<Vec<u8>, PacketError>)
    ensures
        match r {
            Ok(payload) => frame_read(stream@) == Ok::<Seq<u8>, Seq<char>>(payload@),
            Err(fault) => frame_read(stream@) == Err::<Seq<u8>, Seq<char>>(fault.message@),
        },
{
    let mut reader = FrameReader::new();
    let mut i: usize = 0;
    while i < stream.len()
        invariant
            i <= stream.len(),
            reader.started() == (i > 0),
            i > 0 ==> stream@[0] == START && reader.payload() == stream@.subrange(1, i as int),
            forall|j: int| 1 <= j < i ==> stream@[j] != END,
        decreases stream.len() - i,
    {
        let ghost before = reader.payload();
        match reader.accept(ReadEvent::Byte(stream[i])) {
            ReadStep::More(next) => {
                reader = next;
                proof {
                    if i > 0 {
                        assert(stream@.subrange(1, i as int + 1) =~= before.push(stream@[i as int]));
                    } else {
                        assert(stream@.subrange(1, 1) =~= Seq::<u8>::empty());
                    }
                }
            },
            ReadStep::Frame(payload) => {
                proof {
                    let body = stream@.skip(1);
                    assert(ends_at(body, i as int - 1)) by {
                        assert forall|j: int| 0 <= j < i as int - 1 implies body[j] != END by {
                            assert(body[j] == before[j]);
                        }
                    }
                    lemma_payload_ends(body, i as int - 1);
                    assert(body.take(i as int - 1) =~= payload@);
                }
                return Ok(payload);
            },
            ReadStep::Fault(fault) => {
                return Err(fault);
            },
        }
        i += 1;
    }
    proof {
        lemma_unclosed_frame_is_refused(stream@);
    }
    match reader.accept(ReadEvent::Closed) {
        ReadStep::Fault(fault) => Err(fault),
        _ => vstd::pervasive::unreached(),
    }
}

} // verus!
