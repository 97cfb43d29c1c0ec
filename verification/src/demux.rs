//! The stream demultiplexer.
//!
//! The remote program's single channel delivers tagged chunks: plain data
//! carries the binary protocol, extension-tag-1 data carries free-text
//! status lines, and an end marker closes the channel. The demultiplexer
//! routes each chunk to one of two queues — never reordering chunks of the
//! same tag — and, on the end marker, queues one zero-length chunk on the
//! protocol side as the EOF sentinel. Each queue is read through a
//! [`DemuxedStream`], which first drains a carry-over buffer of bytes left
//! from an earlier chunk and only then opens the next queued chunk, keeping
//! whatever the reader did not ask for.
//!
//! The carry-over buffer is a `BytesMut` of the codec crate; the few
//! operations the stream needs from it are taken on trust against that
//! crate's documentation, and everything around them is verified.

use asynchronous_codec::BytesMut;
use vstd::prelude::*;

verus! {

#[verifier::external_type_specification]
#[verifier::external_body]
pub struct ExBytesMut(BytesMut);

/// The bytes a carry-over buffer holds, in order.
pub uninterp spec fn bytes_view(b: BytesMut) -> Seq<u8>;

/// Relies on bytes::BytesMut::new: a freshly created buffer is empty.
#[verifier::external_body]
fn bytes_new() -> (r: BytesMut)
    ensures
        bytes_view(r) == Seq::<u8>::empty(),
{
    BytesMut::new()
}

/// Relies on bytes::BytesMut::len: the number of bytes the buffer holds.
#[verifier::external_body]
fn bytes_len(b: &BytesMut) -> (r: usize)
    ensures
        r == bytes_view(*b).len(),
{
    b.len()
}

/// Relies on `From<&[u8]>` for bytes::BytesMut: the buffer holds a copy of
/// the slice.
#[verifier::external_body]
fn bytes_from_slice(v: &[u8]) -> (r: BytesMut)
    ensures
        bytes_view(r) == v@,
{
    BytesMut::from(v)
}

/// Relies on bytes::BytesMut::split_to: afterwards the buffer holds the
/// bytes from `at` on, and the returned buffer holds the first `at` bytes.
/// `split_to` panics when `at` exceeds the length, so that is excluded here.
#[verifier::external_body]
fn bytes_split_to(b: &mut BytesMut, at: usize) -> (r: BytesMut)
    requires
        at <= bytes_view(*old(b)).len(),
    ensures
        bytes_view(r) == bytes_view(*old(b)).take(at as int),
        bytes_view(*final(b)) == bytes_view(*old(b)).skip(at as int),
{
    b.split_to(at)
}

/// Relies on `AsRef<[u8]>` for bytes::BytesMut: the slice view is the
/// buffer's bytes, copied out here into a plain vector.
#[verifier::external_body]
fn bytes_to_vec(b: &BytesMut) -> (r: Vec<u8>)
    ensures
        r@ == bytes_view(*b),
{
    b.as_ref().to_vec()
}

/// One delivery from the remote channel, as the demultiplexer sees it.
pub enum ChannelEvent {
    /// Plain data: bytes of the binary protocol stream.
    Data { data: Vec<u8> },
    /// Extended data: extension tag 1 carries status text; any other tag is
    /// a surprise and is dropped.
    ExtendedData { ext: u32, data: Vec<u8> },
    /// The remote end finished its output cleanly.
    Eof,
    /// The channel went away without an end marker.
    Closed,
    /// A channel message of no interest to the demultiplexer.
    Other,
}

/// One of the two demultiplexed byte sources: an ordered queue of chunks
/// not yet opened, a carry-over buffer of bytes from the chunk a reader
/// last opened, and whether the channel behind it has ended.
pub struct DemuxedStream {
    carry: BytesMut,
    queue: Vec<Vec<u8>>,
    closed: bool,
}

impl DemuxedStream {
    /// Bytes already pulled from the channel but not yet delivered to a
    /// reader, from the chunk opened last.
    pub closed spec fn carry_bytes(self) -> Seq<u8> {
        bytes_view(self.carry)
    }

    /// The queued chunks, oldest first.
    pub closed spec fn chunks(self) -> Seq<Seq<u8>> {
        self.queue@.map_values(|v: Vec<u8>| v@)
    }

    /// Whether the channel behind this stream has ended.
    pub closed spec fn is_closed(self) -> bool {
        self.closed
    }

    /// Every undelivered byte of this stream, in delivery order.
    pub open spec fn stream_bytes(self) -> Seq<u8> {
        self.carry_bytes() + self.chunks().flatten()
    }

    /// How many bytes one read request for `want` bytes delivers: all it can
    /// from the carry-over buffer, then — only if the request is still not
    /// satisfied — from the next queued chunk alone.
    pub open spec fn read_len(self, want: nat) -> nat {
        let from_carry = if want <= self.carry_bytes().len() {
            want
        } else {
            self.carry_bytes().len()
        };
        if from_carry < want && self.chunks().len() > 0 {
            let rest = (want - from_carry) as nat;
            from_carry + if rest <= self.chunks()[0].len() {
                rest
            } else {
                self.chunks()[0].len()
            }
        } else {
            from_carry
        }
    }

    /// An empty stream whose channel is still open.
    pub fn new() -> (r: DemuxedStream)
        ensures
            r.carry_bytes() == Seq::<u8>::empty(),
            r.chunks() == Seq::<Seq<u8>>::empty(),
            !r.is_closed(),
    {
        let r = DemuxedStream { carry: bytes_new(), queue: Vec::new(), closed: false };
        proof {
            assert(r.chunks() =~= Seq::<Seq<u8>>::empty());
        }
        r
    }

    /// Reads up to `want` bytes: the carry-over buffer first, then at most
    /// one queued chunk, whose unread tail replaces the carry-over buffer.
    ///
    /// `None` means no data is here yet on a still-open stream. `Some` hands
    /// over the next bytes of the stream in order; a zero-length `Some` on a
    /// request for more is the end of the stream — either the queued EOF
    /// sentinel chunk or a closed channel with nothing left.
    pub fn read(&mut self, want: usize) -> (r: Option<Vec<u8>>)
        ensures
            final(self).is_closed() == old(self).is_closed(),
            match r {
                None => {
                    &&& final(self).carry_bytes() == old(self).carry_bytes()
                    &&& final(self).chunks() == old(self).chunks()
                    &&& old(self).stream_bytes().len() == 0
                    &&& old(self).chunks().len() == 0
                    &&& !old(self).is_closed()
                    &&& want > 0
                },
                Some(data) => {
                    &&& data@.len() == old(self).read_len(want as nat)
                    &&& data@ == old(self).stream_bytes().take(data@.len() as int)
                    &&& final(self).stream_bytes() == old(self).stream_bytes().skip(
                        data@.len() as int,
                    )
                    &&& (old(self).is_closed() || old(self).chunks().len() > 0 || data@.len()
                        > 0 || want == 0)
                },
            },
    {
        let clen = bytes_len(&self.carry);
        let take1 = if want < clen {
            want
        } else {
            clen
        };
        let first = bytes_split_to(&mut self.carry, take1);
        let mut out = bytes_to_vec(&first);
        proof {
            broadcast use vstd::seq_lib::group_seq_properties;

        }
        if out.len() < want {
            if self.queue.len() > 0 {
                proof {
                    assert(old(self).chunks() =~= self.chunks());
                    assert(self.chunks().flatten() =~= self.chunks()[0] + self.chunks(
                    ).drop_first().flatten());
                }
                let chunk = self.queue.remove(0);
                let clen2 = chunk.len();
                let rest = want - out.len();
                let take2 = if rest < clen2 {
                    rest
                } else {
                    clen2
                };
                let mut fresh = bytes_from_slice(chunk.as_slice());
                let second = bytes_split_to(&mut fresh, take2);
                self.carry = fresh;
                let mut tail = bytes_to_vec(&second);
                out.append(&mut tail);
                proof {
                    assert(self.chunks() =~= old(self).chunks().drop_first());
                    assert(out@ =~= old(self).stream_bytes().take(out@.len() as int));
                    assert(self.stream_bytes() =~= old(self).stream_bytes().skip(
                        out@.len() as int,
                    ));
                }
                Some(out)
            } else {
                proof {
                    assert(self.chunks() =~= old(self).chunks());
                    assert(old(self).chunks().flatten() =~= Seq::<u8>::empty());
                    assert(out@ =~= old(self).stream_bytes().take(out@.len() as int));
                    assert(self.stream_bytes() =~= old(self).stream_bytes().skip(
                        out@.len() as int,
                    ));
                }
                if self.closed || out.len() > 0 {
                    Some(out)
                } else {
                    None
                }
            }
        } else {
            proof {
                assert(self.chunks() =~= old(self).chunks());
                assert(out@ =~= old(self).stream_bytes().take(out@.len() as int));
                assert(self.stream_bytes() =~= old(self).stream_bytes().skip(out@.len() as int));
            }
            Some(out)
        }
    }
}

/// The demultiplexer: both streams, and whether the channel has ended.
pub struct Demux {
    /// The binary protocol stream (the remote program's standard output).
    pub protocol: DemuxedStream,
    /// The free-text status stream (the remote program's standard error).
    pub status: DemuxedStream,
}

impl Demux {
    /// Whether the channel behind the streams has ended.
    pub open spec fn is_finished(self) -> bool {
        self.protocol.is_closed()
    }

    /// A demultiplexer for a channel that has produced nothing yet.
    pub fn new() -> (r: Demux)
        ensures
            r.protocol.carry_bytes() == Seq::<u8>::empty(),
            r.protocol.chunks() == Seq::<Seq<u8>>::empty(),
            !r.protocol.is_closed(),
            r.status.carry_bytes() == Seq::<u8>::empty(),
            r.status.chunks() == Seq::<Seq<u8>>::empty(),
            !r.status.is_closed(),
    {
        Demux { protocol: DemuxedStream::new(), status: DemuxedStream::new() }
    }

    /// Routes one channel delivery: plain data to the protocol queue,
    /// extension-1 data to the status queue, in arrival order. The end
    /// marker queues the zero-length EOF sentinel on the protocol side and
    /// closes both streams. A surprise extension tag is dropped and handed
    /// back for the caller to log.
    pub fn push_event(&mut self, ev: ChannelEvent) -> (surprise: Option<u32>)
        ensures
            final(self).protocol.carry_bytes() == old(self).protocol.carry_bytes(),
            final(self).status.carry_bytes() == old(self).status.carry_bytes(),
            match ev {
                ChannelEvent::Data { data } => {
                    &&& final(self).protocol.chunks() == old(self).protocol.chunks().push(data@)
                    &&& final(self).status.chunks() == old(self).status.chunks()
                    &&& final(self).protocol.is_closed() == old(self).protocol.is_closed()
                    &&& final(self).status.is_closed() == old(self).status.is_closed()
                    &&& surprise is None
                },
                ChannelEvent::ExtendedData { ext, data } => {
                    &&& (ext == 1 ==> final(self).status.chunks() == old(
                        self,
                    ).status.chunks().push(data@) && final(self).protocol.chunks() == old(
                        self,
                    ).protocol.chunks())
                    &&& (ext != 1 ==> *final(self) == *old(self))
                    &&& final(self).protocol.is_closed() == old(self).protocol.is_closed()
                    &&& final(self).status.is_closed() == old(self).status.is_closed()
                    &&& surprise == if ext != 1 {
                        Some(ext)
                    } else {
                        None::<u32>
                    }
                },
                ChannelEvent::Eof => {
                    &&& final(self).protocol.chunks() == old(self).protocol.chunks().push(
                        Seq::<u8>::empty(),
                    )
                    &&& final(self).status.chunks() == old(self).status.chunks()
                    &&& final(self).protocol.is_closed()
                    &&& final(self).status.is_closed()
                    &&& surprise is None
                },
                ChannelEvent::Closed => {
                    &&& final(self).protocol.chunks() == old(self).protocol.chunks()
                    &&& final(self).status.chunks() == old(self).status.chunks()
                    &&& final(self).protocol.is_closed()
                    &&& final(self).status.is_closed()
                    &&& surprise is None
                },
                ChannelEvent::Other => {
                    &&& *final(self) == *old(self)
                    &&& surprise is None
                },
            },
    {
        match ev {
            ChannelEvent::Data { data } => {
                let ghost before = self.protocol.chunks();
                self.protocol.queue.push(data);
                proof {
                    assert(self.protocol.chunks() =~= before.push(
                        self.protocol.queue@.last()@,
                    ));
                }
                None
            },
            ChannelEvent::ExtendedData { ext, data } => {
                if ext == 1 {
                    let ghost before = self.status.chunks();
                    self.status.queue.push(data);
                    proof {
                        assert(self.status.chunks() =~= before.push(self.status.queue@.last()@));
                    }
                    None
                } else {
                    Some(ext)
                }
            },
            ChannelEvent::Eof => {
                let ghost before = self.protocol.chunks();
                self.protocol.queue.push(Vec::new());
                self.protocol.closed = true;
                self.status.closed = true;
                proof {
                    assert(self.protocol.chunks() =~= before.push(Seq::<u8>::empty()));
                }
                None
            },
            ChannelEvent::Closed => {
                self.protocol.closed = true;
                self.status.closed = true;
                None
            },
            ChannelEvent::Other => None,
        }
    }
}

} // verus!
