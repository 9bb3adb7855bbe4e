//! The streaming sink that synthesized audio is pushed through.
//!
//! The sink is fed zero or more chunks of encoded audio and then one
//! end-of-stream event. It decides, for each event, the effect to perform on
//! the outside: a file sink appends each chunk as it comes and flushes at the
//! end; a playback sink keeps every chunk in memory and, at the end, plays the
//! whole clip once, or does nothing at all when no byte came.
//!
//! A file sink overwrites an existing file without asking; a failure in the
//! middle of a stream leaves what was written or played so far as it is.

use vstd::prelude::*;

verus! {

broadcast use Seq::lemma_flatten_push;

/// Where the synthesized audio goes.
#[derive(Clone, Copy, Debug, PartialEq, Eq, Structural)]
pub enum Destination {
    /// Into a file, created or truncated.
    File,
    /// Out of the default audio device.
    Playback,
}

/// What the outside must do after the sink took an event.
#[derive(Debug)]
pub enum SinkAction {
    /// Append these bytes to the file, as they are.
    Write(Vec<u8>),
    /// Flush what the file's writer still buffers.
    Flush,
    /// Decode these bytes as one clip and play it to its end.
    Play(Vec<u8>),
    /// Nothing: the bytes are kept, or there is nothing to play.
    Idle,
}

/// The model of a `SinkAction`.
pub enum SinkEffect {
    Write(Seq<u8>),
    Flush,
    Play(Seq<u8>),
    Idle,
}

impl View for SinkAction {
    type V = SinkEffect;

    open spec fn view(&self) -> SinkEffect {
        match self {
            SinkAction::Write(b) => SinkEffect::Write(b@),
            SinkAction::Flush => SinkEffect::Flush,
            SinkAction::Play(b) => SinkEffect::Play(b@),
            SinkAction::Idle => SinkEffect::Idle,
        }
    }
}

/// The effect of one event on a sink for `dest` that has taken the bytes
/// `received` so far: `Some` holds a chunk, `None` ends the stream.
pub open spec fn step_effect(dest: Destination, received: Seq<u8>, event: Option<Seq<u8>>) -> SinkEffect {
    match (dest, event) {
        (Destination::File, Some(chunk)) => SinkEffect::Write(chunk),
        (Destination::File, None) => SinkEffect::Flush,
        (Destination::Playback, Some(_)) => SinkEffect::Idle,
        (Destination::Playback, None) => if received.len() == 0 {
            SinkEffect::Idle
        } else {
            SinkEffect::Play(received)
        },
    }
}

/// The effects of feeding `chunks`, in order, to a fresh sink for `dest`.
pub open spec fn chunk_effects(dest: Destination, chunks: Seq<Seq<u8>>) -> Seq<SinkEffect>
    decreases chunks.len(),
{
    if chunks.len() == 0 {
        Seq::empty()
    } else {
        chunk_effects(dest, chunks.drop_last()).push(
            step_effect(dest, chunks.drop_last().flatten(), Some(chunks.last())),
        )
    }
}

/// The effects of a whole stream: `chunks` in order, then its end.
pub open spec fn stream_effects(dest: Destination, chunks: Seq<Seq<u8>>) -> Seq<SinkEffect> {
    chunk_effects(dest, chunks).push(step_effect(dest, chunks.flatten(), None))
}

/// The bytes that `effects` append to a file, in order.
pub open spec fn written(effects: Seq<SinkEffect>) -> Seq<u8>
    decreases effects.len(),
{
    if effects.len() == 0 {
        Seq::empty()
    } else {
        let before = written(effects.drop_last());
        match effects.last() {
            SinkEffect::Write(b) => before + b,
            _ => before,
        }
    }
}

/// How many clips `effects` play.
pub open spec fn play_count(effects: Seq<SinkEffect>) -> nat
    decreases effects.len(),
{
    if effects.len() == 0 {
        0
    } else {
        let before = play_count(effects.drop_last());
        match effects.last() {
            SinkEffect::Play(_) => before + 1,
            _ => before,
        }
    }
}

/// Appends the bytes of `src` to `dst`, in order.
fn append_bytes(dst: &mut Vec<u8>, src: &[u8])
    ensures
        final(dst)@ == old(dst)@ + src@,
{
    let mut i: usize = 0;
    while i < src.len()
        invariant
            0 <= i <= src@.len(),
            dst@ == old(dst)@ + src@.take(i as int),
        decreases src@.len() - i,
    {
        dst.push(src[i]);
        i = i + 1;
        assert(src@.take(i as int) =~= src@.take(i - 1).push(src@[i - 1]));
    }
    assert(src@.take(src@.len() as int) =~= src@);
}

/// A sink for one stream of synthesized audio.
pub struct OutputSink {
    destination: Destination,
    buffer: Vec<u8>,
    received: Ghost<Seq<u8>>,
    ended: bool,
}

impl OutputSink {
    /// Where this sink sends its audio.
    pub closed spec fn destination_spec(&self) -> Destination {
        self.destination
    }

    /// Every byte that the sink has taken, in order.
    pub closed spec fn received(&self) -> Seq<u8> {
        self.received@
    }

    /// Whether the stream has ended.
    pub closed spec fn ended(&self) -> bool {
        self.ended
    }

    /// A playback sink holds exactly what it received; a file sink holds
    /// nothing back.
    pub closed spec fn wf(&self) -> bool {
        match self.destination {
            Destination::Playback => self.buffer@ == self.received@,
            Destination::File => self.buffer@.len() == 0,
        }
    }

    /// A sink for `destination` that has taken nothing yet.
    pub fn new(destination: Destination) -> (r: OutputSink)
        ensures
            r.wf(),
            r.destination_spec() == destination,
            r.received() == Seq::<u8>::empty(),
            !r.ended(),
    {
        OutputSink { destination, buffer: Vec::new(), received: Ghost(Seq::empty()), ended: false }
    }

    /// Where this sink sends its audio.
    pub fn destination(&self) -> (r: Destination)
        ensures
            r == self.destination_spec(),
    {
        self.destination
    }

    /// Whether the stream has ended.
    pub fn is_ended(&self) -> (r: bool)
        ensures
            r == self.ended(),
    {
        self.ended
    }

    /// Takes one event of the stream, a chunk or (`None`) its end, and says
    /// what the outside must do with it.
    pub fn accept(&mut self, chunk: Option<&[u8]>) -> (r: SinkAction)
        requires
            old(self).wf(),
            !old(self).ended(),
        ensures
            final(self).wf(),
            final(self).destination_spec() == old(self).destination_spec(),
            r@ == step_effect(
                old(self).destination_spec(),
                old(self).received(),
                match chunk {
                    Some(c) => Some(c@),
                    None => None,
                },
            ),
            final(self).received() == match chunk {
                Some(c) => old(self).received() + c@,
                None => old(self).received(),
            },
            final(self).ended() == chunk.is_none(),
    {
        match chunk {
            Some(data) => {
                self.received = Ghost(self.received@ + data@);
                match self.destination {
                    Destination::File => {
                        let mut bytes: Vec<u8> = Vec::new();
                        append_bytes(&mut bytes, data);
                        assert(bytes@ =~= data@);
                        SinkAction::Write(bytes)
                    },
                    Destination::Playback => {
                        append_bytes(&mut self.buffer, data);
                        SinkAction::Idle
                    },
                }
            },
            None => {
                self.ended = true;
                match self.destination {
                    Destination::File => SinkAction::Flush,
                    Destination::Playback => {
                        if self.buffer.len() == 0 {
                            SinkAction::Idle
                        } else {
                            SinkAction::Play(self.buffer.clone())
                        }
                    },
                }
            },
        }
    }
}

/// Feeding chunks to a file sink appends each of them, and plays nothing.
proof fn lemma_file_chunks(chunks: Seq<Seq<u8>>)
    ensures
        written(chunk_effects(Destination::File, chunks)) == chunks.flatten(),
        play_count(chunk_effects(Destination::File, chunks)) == 0,
    decreases chunks.len(),
{
    if chunks.len() > 0 {
        lemma_file_chunks(chunks.drop_last());
        assert(chunks.drop_last().push(chunks.last()) =~= chunks);
        let e = chunk_effects(Destination::File, chunks);
        assert(e.drop_last() =~= chunk_effects(Destination::File, chunks.drop_last()));
    }
}

/// Feeding chunks to a playback sink only keeps them.
proof fn lemma_playback_chunks(chunks: Seq<Seq<u8>>)
    ensures
        chunk_effects(Destination::Playback, chunks).len() == chunks.len(),
        forall|i: int|
            0 <= i < chunks.len() ==> #[trigger] chunk_effects(Destination::Playback, chunks)[i]
                == SinkEffect::Idle,
        written(chunk_effects(Destination::Playback, chunks)) == Seq::<u8>::empty(),
        play_count(chunk_effects(Destination::Playback, chunks)) == 0,
    decreases chunks.len(),
{
    if chunks.len() > 0 {
        lemma_playback_chunks(chunks.drop_last());
        let e = chunk_effects(Destination::Playback, chunks);
        assert(e.drop_last() =~= chunk_effects(Destination::Playback, chunks.drop_last()));
    }
}

/// A file sink writes, over a whole stream, exactly the concatenation of the
/// chunks it was fed, ends with a flush, and plays nothing.
pub proof fn lemma_file_stream_writes_all(chunks: Seq<Seq<u8>>)
    ensures
        written(stream_effects(Destination::File, chunks)) == chunks.flatten(),
        stream_effects(Destination::File, chunks).last() == SinkEffect::Flush,
        play_count(stream_effects(Destination::File, chunks)) == 0,
{
    lemma_file_chunks(chunks);
    let e = stream_effects(Destination::File, chunks);
    assert(e.drop_last() =~= chunk_effects(Destination::File, chunks));
}

/// How a stream is cut into chunks does not change what a file sink writes:
/// any two splits of the same bytes write the same file as one unsplit chunk.
pub proof fn lemma_file_split_irrelevant(a: Seq<Seq<u8>>, b: Seq<Seq<u8>>)
    requires
        a.flatten() == b.flatten(),
    ensures
        written(stream_effects(Destination::File, a)) == written(
            stream_effects(Destination::File, b),
        ),
        written(stream_effects(Destination::File, a)) == written(
            stream_effects(Destination::File, seq![a.flatten()]),
        ),
{
    lemma_file_stream_writes_all(a);
    lemma_file_stream_writes_all(b);
    lemma_file_stream_writes_all(seq![a.flatten()]);
    seq![a.flatten()].lemma_flatten_one_element();
}

/// A playback sink that received no byte touches no device: every effect of
/// its stream is idle.
pub proof fn lemma_playback_silent_without_bytes(chunks: Seq<Seq<u8>>)
    requires
        chunks.flatten().len() == 0,
    ensures
        forall|i: int|
            0 <= i < stream_effects(Destination::Playback, chunks).len()
                ==> #[trigger] stream_effects(Destination::Playback, chunks)[i] == SinkEffect::Idle,
        play_count(stream_effects(Destination::Playback, chunks)) == 0,
{
    lemma_playback_chunks(chunks);
    let e = stream_effects(Destination::Playback, chunks);
    assert(e.drop_last() =~= chunk_effects(Destination::Playback, chunks));
}

/// A playback sink that received bytes plays exactly one clip, at the end of
/// the stream, made of every byte it received in order, and writes nothing.
pub proof fn lemma_playback_plays_once(chunks: Seq<Seq<u8>>)
    requires
        chunks.flatten().len() > 0,
    ensures
        play_count(stream_effects(Destination::Playback, chunks)) == 1,
        stream_effects(Destination::Playback, chunks).last() == SinkEffect::Play(chunks.flatten()),
        written(stream_effects(Destination::Playback, chunks)) == Seq::<u8>::empty(),
{
    lemma_playback_chunks(chunks);
    let e = stream_effects(Destination::Playback, chunks);
    assert(e.drop_last() =~= chunk_effects(Destination::Playback, chunks));
}

} // verus!
