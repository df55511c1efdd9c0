//! Chunked file transfer over one stream.
//!
//! The sending side reads a file into a buffer of `MTU_SIZE` bytes, writes
//! each chunk that was read and stops at the first empty read (end of file).
//! The receiving side adds up the sizes of the chunks that arrive until the
//! stream ends.  Both sides are state machines: the caller performs the I/O
//! and hands the outcome of each read to `on_read`, which says what to do
//! next.
use vstd::prelude::*;

use crate::MTU_SIZE;

verus! {

/// Sum of a sequence of chunk sizes.
pub open spec fn total(sizes: Seq<usize>) -> nat
    decreases sizes.len(),
{
    if sizes.len() == 0 {
        0
    } else {
        sizes[0] as nat + total(sizes.drop_first())
    }
}

// ---------------------------------------------------------------------------
// Sending side
// ---------------------------------------------------------------------------

/// What the sender asks its caller to do after a read from the file.
#[derive(PartialEq, Eq, Structural, Debug, Clone, Copy)]
pub enum SendAction {
    /// Write the first `len` bytes of the read buffer to the stream, then
    /// pause for `pause_micros` microseconds.
    Write { len: usize, pause_micros: u64 },
    /// The file is exhausted: leave the loop, and finish the stream first
    /// when `close_stream` is set.
    Finish { close_stream: bool },
}

/// Abstract state of a sender.
pub struct SenderView {
    pub file_len: u64,
    pub transferred: nat,
    pub pause_micros: u64,
    pub close_stream: bool,
    pub finished: bool,
}

/// One step of the sender on a read of `read_len` bytes.
pub open spec fn send_step(s: SenderView, read_len: usize) -> (SenderView, SendAction) {
    if s.finished || read_len == 0 {
        (SenderView { finished: true, ..s }, SendAction::Finish { close_stream: s.close_stream })
    } else {
        (
            SenderView { transferred: s.transferred + read_len as nat, ..s },
            SendAction::Write { len: read_len, pause_micros: s.pause_micros },
        )
    }
}

/// The state reached after a sequence of reads.
pub open spec fn send_run(s: SenderView, reads: Seq<usize>) -> SenderView
    decreases reads.len(),
{
    if reads.len() == 0 {
        s
    } else {
        send_run(send_step(s, reads[0]).0, reads.drop_first())
    }
}

/// The actions answered to a sequence of reads.
pub open spec fn send_actions(s: SenderView, reads: Seq<usize>) -> Seq<SendAction>
    decreases reads.len(),
{
    if reads.len() == 0 {
        Seq::empty()
    } else {
        seq![send_step(s, reads[0]).1] + send_actions(send_step(s, reads[0]).0, reads.drop_first())
    }
}

/// The sizes of the writes among a sequence of actions.
pub open spec fn written_sizes(actions: Seq<SendAction>) -> Seq<usize>
    decreases actions.len(),
{
    if actions.len() == 0 {
        Seq::empty()
    } else {
        match actions[0] {
            SendAction::Write { len, .. } => seq![len] + written_sizes(actions.drop_first()),
            SendAction::Finish { .. } => written_sizes(actions.drop_first()),
        }
    }
}

/// The reads that come before the first empty one.
pub open spec fn before_end(reads: Seq<usize>) -> Seq<usize>
    decreases reads.len(),
{
    if reads.len() == 0 || reads[0] == 0 {
        Seq::empty()
    } else {
        seq![reads[0]] + before_end(reads.drop_first())
    }
}

/// Sender of one file over one stream.
pub struct Sender {
    file_len: u64,
    transferred: usize,
    pause_micros: u64,
    close_stream: bool,
    finished: bool,
}

impl View for Sender {
    type V = SenderView;

    closed spec fn view(&self) -> SenderView {
        SenderView {
            file_len: self.file_len,
            transferred: self.transferred as nat,
            pause_micros: self.pause_micros,
            close_stream: self.close_stream,
            finished: self.finished,
        }
    }
}

/// Pause after each chunk written by the stand-alone client.
pub const CLIENT_CHUNK_PAUSE_MICROS: u64 = 100;

impl Sender {
    /// A sender for a file of `file_len` bytes.
    pub fn new(file_len: u64, pause_micros: u64, close_stream: bool) -> (s: Sender)
        ensures
            s@ == (SenderView {
                file_len,
                transferred: 0,
                pause_micros,
                close_stream,
                finished: false,
            }),
    {
        Sender { file_len, transferred: 0, pause_micros, close_stream, finished: false }
    }

    /// The sender of the stand-alone client: it pauses after every chunk
    /// and finishes the stream at the end of the file.
    pub fn for_client(file_len: u64) -> (s: Sender)
        ensures
            s@ == (SenderView {
                file_len,
                transferred: 0,
                pause_micros: CLIENT_CHUNK_PAUSE_MICROS,
                close_stream: true,
                finished: false,
            }),
    {
        Sender::new(file_len, CLIENT_CHUNK_PAUSE_MICROS, true)
    }

    /// The sender of a peer-to-peer transfer: no pause, and the stream is
    /// left to be closed when it is dropped.
    pub fn for_peer(file_len: u64) -> (s: Sender)
        ensures
            s@ == (SenderView {
                file_len,
                transferred: 0,
                pause_micros: 0,
                close_stream: false,
                finished: false,
            }),
    {
        Sender::new(file_len, 0, false)
    }

    /// Number of bytes written so far.
    pub fn transferred(&self) -> (n: usize)
        ensures
            n == self@.transferred,
    {
        self.transferred
    }

    /// Length of the file, as its metadata gave it.
    pub fn file_len(&self) -> (n: u64)
        ensures
            n == self@.file_len,
    {
        self.file_len
    }

    /// Whether the end of the file has been reached.
    pub fn is_finished(&self) -> (b: bool)
        ensures
            b == self@.finished,
    {
        self.finished
    }

    /// Handle a read of `read_len` bytes into the buffer of `MTU_SIZE`
    /// bytes; a read of 0 bytes is the end of the file.
    pub fn on_read(&mut self, read_len: usize) -> (action: SendAction)
        requires
            read_len <= MTU_SIZE,
            old(self)@.transferred + read_len <= usize::MAX,
        ensures
            (final(self)@, action) == send_step(old(self)@, read_len),
    {
        if self.finished || read_len == 0 {
            self.finished = true;
            SendAction::Finish { close_stream: self.close_stream }
        } else {
            self.transferred = self.transferred + read_len;
            SendAction::Write { len: read_len, pause_micros: self.pause_micros }
        }
    }
}

/// Once a sender has reached the end of the file it stays there: whatever
/// is read afterwards, its state does not change and every answer is to
/// finish.
pub proof fn lemma_sender_finished_absorbs(s: SenderView, reads: Seq<usize>)
    requires
        s.finished,
    ensures
        send_run(s, reads) == s,
        forall|i: int|
            0 <= i < reads.len() ==> #[trigger] send_actions(s, reads)[i] == (SendAction::Finish {
                close_stream: s.close_stream,
            }),
        send_actions(s, reads).len() == reads.len(),
    decreases reads.len(),
{
    if reads.len() > 0 {
        let rest = reads.drop_first();
        assert(send_step(s, reads[0]).0 == s);
        lemma_sender_finished_absorbs(s, rest);
        let acts = send_actions(s, reads);
        assert(acts == seq![SendAction::Finish { close_stream: s.close_stream }] + send_actions(
            s,
            rest,
        ));
        assert forall|i: int| 0 <= i < reads.len() implies #[trigger] acts[i] == (
        SendAction::Finish { close_stream: s.close_stream }) by {
            if i > 0 {
                assert(acts[i] == send_actions(s, rest)[i - 1]);
            }
        }
    }
}

/// What a sender writes is exactly what was read before the first empty
/// read, in order, and the count of bytes it reports is the sum of those
/// reads; it has finished exactly when an empty read occurred.
pub proof fn lemma_sender_writes_what_was_read(s: SenderView, reads: Seq<usize>)
    requires
        !s.finished,
    ensures
        written_sizes(send_actions(s, reads)) == before_end(reads),
        send_run(s, reads).transferred == s.transferred + total(before_end(reads)),
        send_run(s, reads).finished <==> reads.contains(0),
        send_run(s, reads).file_len == s.file_len,
    decreases reads.len(),
{
    if reads.len() > 0 {
        let rest = reads.drop_first();
        let (next, act) = send_step(s, reads[0]);
        let acts = send_actions(s, reads);
        assert(acts == seq![act] + send_actions(next, rest));
        assert(acts.drop_first() == send_actions(next, rest));
        if reads[0] == 0 {
            lemma_sender_finished_absorbs(next, rest);
            lemma_no_writes_when_all_finish(send_actions(next, rest), next.close_stream);
            assert(reads.contains(0)) by {
                assert(reads[0] == 0);
            }
        } else {
            lemma_sender_writes_what_was_read(next, rest);
            let be = before_end(reads);
            assert(be == seq![reads[0]] + before_end(rest));
            assert(be.drop_first() == before_end(rest));
            assert(written_sizes(acts) == seq![reads[0]] + written_sizes(send_actions(next, rest)));
            assert(reads.contains(0) <==> rest.contains(0)) by {
                if reads.contains(0) {
                    let j = choose|j: int| 0 <= j < reads.len() && reads[j] == 0;
                    assert(j > 0);
                    assert(rest[j - 1] == 0);
                }
                if rest.contains(0) {
                    let j = choose|j: int| 0 <= j < rest.len() && rest[j] == 0;
                    assert(reads[j + 1] == 0);
                }
            }
        }
    }
}

/// A sender keeps how it was built: whatever is read, its file length,
/// its pause and whether it finishes the stream never change, every write
/// it asks for pauses as it was built to, and every finish it asks for
/// closes the stream exactly when it was built to.
pub proof fn lemma_sender_keeps_its_configuration(s: SenderView, reads: Seq<usize>)
    ensures
        send_run(s, reads).close_stream == s.close_stream,
        send_run(s, reads).pause_micros == s.pause_micros,
        send_run(s, reads).file_len == s.file_len,
        send_actions(s, reads).len() == reads.len(),
        forall|i: int|
            0 <= i < reads.len() ==> match #[trigger] send_actions(s, reads)[i] {
                SendAction::Finish { close_stream } => close_stream == s.close_stream,
                SendAction::Write { pause_micros, .. } => pause_micros == s.pause_micros,
            },
    decreases reads.len(),
{
    if reads.len() > 0 {
        let rest = reads.drop_first();
        let (next, act) = send_step(s, reads[0]);
        lemma_sender_keeps_its_configuration(next, rest);
        let acts = send_actions(s, reads);
        assert(acts == seq![act] + send_actions(next, rest));
        assert forall|i: int| 0 <= i < reads.len() implies match #[trigger] acts[i] {
            SendAction::Finish { close_stream } => close_stream == s.close_stream,
            SendAction::Write { pause_micros, .. } => pause_micros == s.pause_micros,
        } by {
            if i > 0 {
                assert(acts[i] == send_actions(next, rest)[i - 1]);
            }
        }
    }
}

/// On one read, a sender asks to finish exactly when it had already
/// finished or the read was empty (end of file), and otherwise asks to
/// write exactly the bytes that were read.
pub proof fn lemma_sender_answer(s: SenderView, read_len: usize)
    ensures
        (send_step(s, read_len).1 is Finish) <==> (s.finished || read_len == 0),
        send_step(s, read_len).1 matches SendAction::Write { len, .. } ==> len == read_len,
        send_step(s, read_len).0.finished <==> (send_step(s, read_len).1 is Finish),
{
}

/// A run of finishing answers contains no write.
proof fn lemma_no_writes_when_all_finish(actions: Seq<SendAction>, close_stream: bool)
    requires
        forall|i: int|
            0 <= i < actions.len() ==> #[trigger] actions[i] == (SendAction::Finish {
                close_stream,
            }),
    ensures
        written_sizes(actions) == Seq::<usize>::empty(),
    decreases actions.len(),
{
    if actions.len() > 0 {
        let rest = actions.drop_first();
        assert forall|i: int| 0 <= i < rest.len() implies #[trigger] rest[i] == (
        SendAction::Finish { close_stream }) by {
            assert(rest[i] == actions[i + 1]);
        }
        assert(actions[0] == SendAction::Finish { close_stream });
        lemma_no_writes_when_all_finish(rest, close_stream);
    }
}

// ---------------------------------------------------------------------------
// Receiving side
// ---------------------------------------------------------------------------

/// What the receiver asks its caller to do after a read from the stream.
#[derive(PartialEq, Eq, Structural, Debug, Clone, Copy)]
pub enum ReceiveAction {
    /// Read the next chunk.
    Continue,
    /// The stream has ended: leave the loop and report the total.
    Stop,
}

/// Abstract state of a receiver.
pub struct ReceiverView {
    pub received: nat,
    pub empty_read_ends: bool,
    pub done: bool,
}

/// One step of the receiver.  `chunk` is the size of the chunk that was
/// read, or `None` when the stream reported its end (or failed).
pub open spec fn receive_step(s: ReceiverView, chunk: Option<usize>) -> (ReceiverView, ReceiveAction) {
    match chunk {
        Some(n) if !s.done && !(n == 0 && s.empty_read_ends) => (
            ReceiverView { received: s.received + n as nat, ..s },
            ReceiveAction::Continue,
        ),
        _ => (ReceiverView { done: true, ..s }, ReceiveAction::Stop),
    }
}

/// The state reached after a sequence of reads.
pub open spec fn receive_run(s: ReceiverView, chunks: Seq<Option<usize>>) -> ReceiverView
    decreases chunks.len(),
{
    if chunks.len() == 0 {
        s
    } else {
        receive_run(receive_step(s, chunks[0]).0, chunks.drop_first())
    }
}

/// Whether a read ends the stream for a receiver.
pub open spec fn ends_stream(chunk: Option<usize>, empty_read_ends: bool) -> bool {
    match chunk {
        None => true,
        Some(n) => n == 0 && empty_read_ends,
    }
}

/// The sizes of the chunks that arrive before the stream ends.
pub open spec fn chunks_before_end(chunks: Seq<Option<usize>>, empty_read_ends: bool) -> Seq<usize>
    decreases chunks.len(),
{
    if chunks.len() == 0 || ends_stream(chunks[0], empty_read_ends) {
        Seq::empty()
    } else {
        seq![chunks[0]->Some_0] + chunks_before_end(chunks.drop_first(), empty_read_ends)
    }
}

/// Receiver of one stream.
pub struct Receiver {
    received: usize,
    empty_read_ends: bool,
    done: bool,
}

impl View for Receiver {
    type V = ReceiverView;

    closed spec fn view(&self) -> ReceiverView {
        ReceiverView {
            received: self.received as nat,
            empty_read_ends: self.empty_read_ends,
            done: self.done,
        }
    }
}

impl Receiver {
    /// The receiver of the QUIC server: the stream ends when the peer
    /// finishes it or reading fails; an empty chunk is counted like any other.
    pub fn for_server() -> (r: Receiver)
        ensures
            r@ == (ReceiverView { received: 0, empty_read_ends: false, done: false }),
    {
        Receiver { received: 0, empty_read_ends: false, done: false }
    }

    /// The receiver of a peer-to-peer stream: a read of 0 bytes ends it.
    pub fn for_peer() -> (r: Receiver)
        ensures
            r@ == (ReceiverView { received: 0, empty_read_ends: true, done: false }),
    {
        Receiver { received: 0, empty_read_ends: true, done: false }
    }

    /// Number of bytes received so far.
    pub fn received(&self) -> (n: usize)
        ensures
            n == self@.received,
    {
        self.received
    }

    /// Whether the stream has ended.
    pub fn is_done(&self) -> (b: bool)
        ensures
            b == self@.done,
    {
        self.done
    }

    /// Handle the outcome of one read.
    pub fn on_read(&mut self, chunk: Option<usize>) -> (action: ReceiveAction)
        requires
            chunk matches Some(n) ==> old(self)@.received + n <= usize::MAX,
        ensures
            (final(self)@, action) == receive_step(old(self)@, chunk),
    {
        match chunk {
            Some(n) => {
                if !self.done && !(n == 0 && self.empty_read_ends) {
                    self.received = self.received + n;
                    ReceiveAction::Continue
                } else {
                    self.done = true;
                    ReceiveAction::Stop
                }
            },
            None => {
                self.done = true;
                ReceiveAction::Stop
            },
        }
    }
}

/// The total a receiver reports is the sum of the chunks that arrived
/// before the stream ended; later reads change nothing.
pub proof fn lemma_receiver_counts_what_arrived(s: ReceiverView, chunks: Seq<Option<usize>>)
    requires
        !s.done,
    ensures
        receive_run(s, chunks).received == s.received + total(
            chunks_before_end(chunks, s.empty_read_ends),
        ),
        receive_run(s, chunks).done <==> exists|i: int|
            0 <= i < chunks.len() && ends_stream(#[trigger] chunks[i], s.empty_read_ends),
    decreases chunks.len(),
{
    if chunks.len() > 0 {
        let rest = chunks.drop_first();
        let next = receive_step(s, chunks[0]).0;
        if ends_stream(chunks[0], s.empty_read_ends) {
            lemma_receiver_done_absorbs(next, rest);
            assert(ends_stream(chunks[0], s.empty_read_ends));
        } else {
            lemma_receiver_counts_what_arrived(next, rest);
            let cb = chunks_before_end(chunks, s.empty_read_ends);
            assert(cb.drop_first() == chunks_before_end(rest, s.empty_read_ends));
            assert((exists|i: int|
                0 <= i < chunks.len() && ends_stream(#[trigger] chunks[i], s.empty_read_ends))
                <==> (exists|i: int|
                0 <= i < rest.len() && ends_stream(#[trigger] rest[i], s.empty_read_ends))) by {
                if exists|i: int|
                    0 <= i < chunks.len() && ends_stream(#[trigger] chunks[i], s.empty_read_ends) {
                    let i = choose|i: int|
                        0 <= i < chunks.len() && ends_stream(
                            #[trigger] chunks[i],
                            s.empty_read_ends,
                        );
                    assert(i > 0);
                    assert(rest[i - 1] == chunks[i]);
                }
                if exists|i: int|
                    0 <= i < rest.len() && ends_stream(#[trigger] rest[i], s.empty_read_ends) {
                    let i = choose|i: int|
                        0 <= i < rest.len() && ends_stream(#[trigger] rest[i], s.empty_read_ends);
                    assert(chunks[i + 1] == rest[i]);
                }
            }
        }
    }
}

/// A receiver that has not seen the end of its stream stops exactly on the
/// read that ends it (the end of the stream, or an empty read when empty
/// reads end it) and asks for the next chunk after any other read; it
/// stops exactly when it is done afterwards.
pub proof fn lemma_receiver_stops_only_at_end(s: ReceiverView, chunk: Option<usize>)
    ensures
        !s.done ==> ((receive_step(s, chunk).1 == ReceiveAction::Stop) <==> ends_stream(
            chunk,
            s.empty_read_ends,
        )),
        (receive_step(s, chunk).1 == ReceiveAction::Stop) <==> receive_step(s, chunk).0.done,
        receive_step(s, chunk).0.empty_read_ends == s.empty_read_ends,
        s.done ==> receive_step(s, chunk).1 == ReceiveAction::Stop,
{
}

/// Once a receiver has seen the end of its stream, no read changes it.
pub proof fn lemma_receiver_done_absorbs(s: ReceiverView, chunks: Seq<Option<usize>>)
    requires
        s.done,
    ensures
        receive_run(s, chunks) == s,
    decreases chunks.len(),
{
    if chunks.len() > 0 {
        assert(receive_step(s, chunks[0]).0 == s);
        lemma_receiver_done_absorbs(s, chunks.drop_first());
    }
}

// ---------------------------------------------------------------------------
// Both sides together
// ---------------------------------------------------------------------------

/// The reads a receiver makes of a stream that carried chunks of these
/// sizes.
pub open spec fn as_received(sizes: Seq<usize>) -> Seq<Option<usize>> {
    sizes.map_values(|n: usize| Some(n))
}

/// The read by which a receiver learns that its stream ended: the end of
/// the stream for the server, an empty read for a peer.
pub open spec fn end_of_stream(empty_read_ends: bool) -> Option<usize> {
    if empty_read_ends {
        Some(0)
    } else {
        None
    }
}

proof fn lemma_before_end_nonempty(reads: Seq<usize>)
    ensures
        forall|i: int| 0 <= i < before_end(reads).len() ==> #[trigger] before_end(reads)[i] != 0,
    decreases reads.len(),
{
    if reads.len() > 0 && reads[0] != 0 {
        let rest = reads.drop_first();
        lemma_before_end_nonempty(rest);
        let be = before_end(reads);
        assert forall|i: int| 0 <= i < be.len() implies #[trigger] be[i] != 0 by {
            if i > 0 {
                assert(be[i] == before_end(rest)[i - 1]);
            }
        }
    }
}

proof fn lemma_chunks_read_back(sizes: Seq<usize>, empty_read_ends: bool)
    requires
        forall|i: int| 0 <= i < sizes.len() ==> #[trigger] sizes[i] != 0,
    ensures
        chunks_before_end(as_received(sizes).push(end_of_stream(empty_read_ends)), empty_read_ends)
            == sizes,
        ends_stream(end_of_stream(empty_read_ends), empty_read_ends),
    decreases sizes.len(),
{
    let stream = as_received(sizes).push(end_of_stream(empty_read_ends));
    if sizes.len() == 0 {
        assert(stream[0] == end_of_stream(empty_read_ends));
    } else {
        let rest = sizes.drop_first();
        assert forall|i: int| 0 <= i < rest.len() implies #[trigger] rest[i] != 0 by {
            assert(rest[i] == sizes[i + 1]);
        }
        lemma_chunks_read_back(rest, empty_read_ends);
        assert(stream[0] == Some(sizes[0]));
        assert(stream.drop_first() == as_received(rest).push(end_of_stream(empty_read_ends)));
    }
}

/// A receiver that reads back, chunk by chunk, what a sender wrote, and
/// then the end of the stream, reports the byte count the sender reports,
/// and has ended.
pub proof fn lemma_receiver_counts_what_sender_wrote(
    s: SenderView,
    r: ReceiverView,
    reads: Seq<usize>,
)
    requires
        !s.finished,
        s.transferred == 0,
        !r.done,
        r.received == 0,
    ensures
        ({
            let stream = as_received(written_sizes(send_actions(s, reads))).push(
                end_of_stream(r.empty_read_ends),
            );
            &&& receive_run(r, stream).received == send_run(s, reads).transferred
            &&& receive_run(r, stream).done
        }),
{
    lemma_sender_writes_what_was_read(s, reads);
    let sizes = before_end(reads);
    lemma_before_end_nonempty(reads);
    lemma_chunks_read_back(sizes, r.empty_read_ends);
    let stream = as_received(sizes).push(end_of_stream(r.empty_read_ends));
    lemma_receiver_counts_what_arrived(r, stream);
    assert(ends_stream(stream[stream.len() - 1], r.empty_read_ends));
}

} // verus!
