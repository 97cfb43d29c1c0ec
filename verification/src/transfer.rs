//! Cancellable chunked image transfer.
//!
//! The boot image goes out as fixed-size `FastbootDownload` messages, the
//! last data chunk possibly shorter, followed by one zero-length
//! `FastbootDownload` message as the transfer-complete sentinel. Before each
//! data chunk the shared cancellation flag is consulted; when it is set the
//! transfer stops at once, sending nothing further — in particular no
//! sentinel, which is how the receiver tells an abandoned transfer from a
//! finished one. A progress percentage is reported only when its integer
//! value changes, so reports are few and strictly increasing.

use crate::codec::frame_bytes;
use crate::flag::CancelFlag;
use crate::gate::send_ack;
use crate::gate::send_msg;
use crate::gate::WriteGate;
use crate::msgs::Sk8brdMsgs;
use vstd::prelude::*;
use vstd::slice::slice_subrange;

verus! {

/// Size of one data chunk of the image.
pub const CHUNK_SIZE: usize = 2048;

/// How many data chunks an image of `n` bytes needs: `n / CHUNK_SIZE`,
/// rounded up. An empty image needs none.
pub open spec fn num_chunks(n: nat) -> nat {
    (n + (CHUNK_SIZE - 1) as nat) / (CHUNK_SIZE as nat)
}

/// How many image bytes the first `k` chunks carry.
pub open spec fn sent_after(n: nat, k: nat) -> nat {
    if k * (CHUNK_SIZE as nat) <= n {
        k * (CHUNK_SIZE as nat)
    } else {
        n
    }
}

/// The payload of data chunk `i` of the image.
pub open spec fn chunk_at(image: Seq<u8>, i: nat) -> Seq<u8> {
    image.subrange(sent_after(image.len(), i) as int, sent_after(image.len(), i + 1) as int)
}

/// The payloads of the first `k` data chunks, in order.
pub open spec fn chunk_payloads(image: Seq<u8>, k: nat) -> Seq<Seq<u8>>
    decreases k,
{
    if k == 0 {
        Seq::empty()
    } else {
        chunk_payloads(image, (k - 1) as nat).push(chunk_at(image, (k - 1) as nat))
    }
}

/// The first `k` data chunks reassembled: what the receiver has after them.
pub open spec fn concat_chunks(image: Seq<u8>, k: nat) -> Seq<u8>
    decreases k,
{
    if k == 0 {
        Seq::empty()
    } else {
        concat_chunks(image, (k - 1) as nat) + chunk_at(image, (k - 1) as nat)
    }
}

/// The payloads of a whole transfer: every data chunk, then the zero-length
/// sentinel.
pub open spec fn transfer_msgs(image: Seq<u8>) -> Seq<Seq<u8>> {
    chunk_payloads(image, num_chunks(image.len())).push(Seq::empty())
}

/// The wire bytes of a sequence of `FastbootDownload` messages.
pub open spec fn download_frames(payloads: Seq<Seq<u8>>) -> Seq<u8>
    decreases payloads.len(),
{
    if payloads.len() == 0 {
        Seq::empty()
    } else {
        download_frames(payloads.drop_last()) + frame_bytes(
            Sk8brdMsgs::MsgFastbootDownload.spec_id(),
            payloads.last(),
        )
    }
}

/// The wire bytes of the first `k` data chunks.
pub open spec fn chunk_frames(image: Seq<u8>, k: nat) -> Seq<u8> {
    download_frames(chunk_payloads(image, k))
}

/// The wire bytes of a whole transfer: every data chunk, then the
/// zero-length sentinel message.
pub open spec fn transfer_frames(image: Seq<u8>) -> Seq<u8> {
    download_frames(transfer_msgs(image))
}

/// Integer percentage of `b` bytes out of `n`.
pub open spec fn spec_percent(b: nat, n: nat) -> nat
    recommends
        n > 0,
{
    100 * b / n
}

/// How many whole chunks a well-formed transfer with `b` bytes sent out of
/// `n` has behind it.
pub open spec fn chunks_done(n: nat, b: nat) -> nat {
    if b == n {
        num_chunks(n)
    } else {
        b / (CHUNK_SIZE as nat)
    }
}

/// The percentage that a well-formed transfer state remembers after `k`
/// chunks: the one computed just before the most recent chunk went out.
pub open spec fn remembered_percent(n: nat, k: nat) -> nat {
    if k == 0 {
        0
    } else {
        spec_percent(sent_after(n, (k - 1) as nat), n)
    }
}

/// Running state of one image transfer.
pub struct TransferProgress {
    /// Image bytes sent so far.
    pub bytes_sent: usize,
    /// The percentage computed on the previous chunk, whether or not it was
    /// reported; a new report goes out only when the value moves.
    pub last_percent: usize,
}

/// What a transfer state must satisfy against an image of `n` bytes: the
/// byte count sits on a chunk boundary (or at the end), and the remembered
/// percentage is the one of the chunk before.
pub open spec fn wf_progress(st: TransferProgress, n: nat) -> bool {
    &&& st.bytes_sent <= n
    &&& st.bytes_sent == sent_after(n, chunks_done(n, st.bytes_sent as nat))
    &&& st.last_percent == remembered_percent(n, chunks_done(n, st.bytes_sent as nat))
}

impl TransferProgress {
    /// The state before any chunk has gone out.
    pub fn new() -> (r: TransferProgress)
        ensures
            r.bytes_sent == 0,
            r.last_percent == 0,
            forall|n: nat| wf_progress(r, n),
    {
        let r = TransferProgress { bytes_sent: 0, last_percent: 0 };
        proof {
            assert forall|n: nat| wf_progress(r, n) by {
                lemma_zero_state(n);
            }
        }
        r
    }
}

/// What one step of the transfer did.
pub enum TransferStep {
    /// One data chunk went out; `percent` carries a progress report when the
    /// integer percentage moved since the last chunk.
    Chunk { percent: Option<usize> },
    /// All data was already out, so the zero-length sentinel went out.
    Finished,
    /// The cancellation flag was set: nothing was sent, nothing changed.
    Stopped,
}

/// How a whole transfer ended.
#[derive(Debug, PartialEq, Eq, Structural)]
pub enum TransferOutcome {
    /// Every chunk and the sentinel went out.
    Completed,
    /// The cancellation flag stopped the transfer; no sentinel went out.
    Cancelled,
}

/// Facts about the state with nothing sent yet.
proof fn lemma_zero_state(n: nat)
    ensures
        chunks_done(n, 0) == 0,
        sent_after(n, 0) == 0,
        n == 0 ==> num_chunks(n) == 0,
{
    let c = CHUNK_SIZE as nat;
    assert(0nat * c == 0) by (nonlinear_arith);
    assert(0nat / c == 0) by (nonlinear_arith)
        requires
            c > 0,
    ;
    if n == 0 {
        assert(((c - 1) as nat) / c == 0) by (nonlinear_arith)
            requires
                c == 2048,
        ;
    }
}

/// One chunk boundary to the next: `sent_after` grows, stays within the
/// image, and steps by a whole chunk until the tail.
proof fn lemma_sent_after_mono(n: nat, k: nat)
    ensures
        sent_after(n, k) <= sent_after(n, k + 1),
        sent_after(n, k) <= n,
        sent_after(n, k + 1) <= n,
{
    let c = CHUNK_SIZE as nat;
    assert(k * c <= (k + 1) * c) by (nonlinear_arith);
}

/// A step in the middle of the data: `b` bytes sent, short of `n`, sit on a
/// whole-chunk boundary, and the next chunk moves the count to the next
/// boundary (or the end), keeping the chunk count in step.
proof fn lemma_mid_step(n: nat, b: nat)
    requires
        b < n,
        b == sent_after(n, chunks_done(n, b)),
    ensures
        b == chunks_done(n, b) * (CHUNK_SIZE as nat),
        chunks_done(n, b) < num_chunks(n),
        sent_after(n, chunks_done(n, b) + 1) == if b + CHUNK_SIZE <= n {
            b + CHUNK_SIZE
        } else {
            n as int
        },
        chunks_done(n, sent_after(n, chunks_done(n, b) + 1)) == chunks_done(n, b) + 1,
        sent_after(n, chunks_done(n, b)) == b,
{
    let c = CHUNK_SIZE as nat;
    let k = chunks_done(n, b);
    assert(k == b / c);
    assert(b == k * c) by (nonlinear_arith)
        requires
            b < n,
            k == b / c,
            c == 2048,
            b == if k * c <= n {
                k * c
            } else {
                n
            },
    ;
    assert(k < num_chunks(n) && (k + 1) * c == k * c + c) by (nonlinear_arith)
        requires
            b == k * c,
            b < n,
            c == 2048,
            num_chunks(n) == ((n + c - 1) as nat) / c,
    ;
    let b2 = sent_after(n, k + 1);
    if b + c <= n {
        assert(b2 == b + c);
        if b2 == n {
            assert(num_chunks(n) == k + 1) by (nonlinear_arith)
                requires
                    n == (k + 1) * c,
                    c == 2048,
                    num_chunks(n) == ((n + c - 1) as nat) / c,
            ;
        } else {
            assert(b2 / c == k + 1) by (nonlinear_arith)
                requires
                    b2 == (k + 1) * c,
                    c == 2048,
            ;
        }
    } else {
        assert(b2 == n);
        assert(num_chunks(n) == k + 1) by (nonlinear_arith)
            requires
                b == k * c,
                b < n,
                n < b + c,
                c == 2048,
                num_chunks(n) == ((n + c - 1) as nat) / c,
        ;
    }
}

/// The integer percentage never moves backwards as bytes accumulate, and
/// never exceeds one hundred.
pub proof fn lemma_percent_monotone(n: nat, b1: nat, b2: nat)
    requires
        b1 <= b2,
        b2 <= n,
        n > 0,
    ensures
        spec_percent(b1, n) <= spec_percent(b2, n),
        spec_percent(b2, n) <= 100,
{
    assert(100 * b1 / n <= 100 * b2 / n && 100 * b2 / n <= 100) by (nonlinear_arith)
        requires
            b1 <= b2,
            b2 <= n,
            n > 0,
    ;
}

/// Progress de-duplication across a run: the percentage a transfer state
/// remembers never decreases from one chunk to a later one. Since a report
/// goes out only when the fresh percentage differs from — and hence, by
/// [`lemma_percent_monotone`], exceeds — the remembered one, every report is
/// strictly above every earlier report: each distinct percentage is reported
/// at most once, in increasing order.
pub proof fn lemma_remembered_percent_monotone(n: nat, k1: nat, k2: nat)
    requires
        k1 <= k2,
        n > 0,
    ensures
        remembered_percent(n, k1) <= remembered_percent(n, k2),
{
    if k1 > 0 {
        let c = CHUNK_SIZE as nat;
        let a = (k1 - 1) as nat;
        let b = (k2 - 1) as nat;
        assert(a * c <= b * c) by (nonlinear_arith)
            requires
                a <= b,
        ;
        lemma_percent_monotone(n, sent_after(n, a), sent_after(n, b));
    }
}

/// Sends the next piece of the transfer, or stops on cancellation.
///
/// One call makes at most one send: the next data chunk while image bytes
/// remain and the flag was clear, the zero-length sentinel once all data is
/// out, and nothing at all when the flag was set with data still to go. A
/// progress value is handed back exactly when the integer percentage moved,
/// and it strictly exceeds everything reported before — each distinct
/// percentage is reported at most once, in increasing order.
pub fn transfer_step(
    gate: &mut WriteGate,
    image: &[u8],
    st: &mut TransferProgress,
    cancelled: bool,
) -> (r: TransferStep)
    requires
        wf_progress(*old(st), image@.len()),
    ensures
        wf_progress(*final(st), image@.len()),
        final(st).bytes_sent >= old(st).bytes_sent,
        final(st).last_percent >= old(st).last_percent,
        old(st).bytes_sent == image@.len() ==> (r is Finished && *final(st) == *old(st) && final(gate).transcript() == old(gate).transcript() + frame_bytes(
            Sk8brdMsgs::MsgFastbootDownload.spec_id(),
            Seq::empty(),
        )),
        old(st).bytes_sent < image@.len() && cancelled ==> (r is Stopped && *final(st) == *old(st)
            && final(gate).transcript() == old(gate).transcript()),
        old(st).bytes_sent < image@.len() && !cancelled ==> {
            let n = image@.len();
            let k = chunks_done(n, old(st).bytes_sent as nat);
            let p = spec_percent(old(st).bytes_sent as nat, n);
            &&& r is Chunk
            &&& final(gate).transcript() == old(gate).transcript() + frame_bytes(
                Sk8brdMsgs::MsgFastbootDownload.spec_id(),
                chunk_at(image@, k),
            )
            &&& final(st).bytes_sent == sent_after(n, k + 1)
            &&& final(st).bytes_sent > old(st).bytes_sent
            &&& final(st).last_percent == p
            &&& (r matches TransferStep::Chunk { percent } ==> percent == if p != old(st).last_percent as nat {
                Some(p as usize)
            } else {
                None::<usize>
            })
            &&& (r matches TransferStep::Chunk { percent } ==> (percent matches Some(q) ==> q
                > old(st).last_percent))
        },
{
    let n = image.len();
    if st.bytes_sent == n {
        send_ack(gate, Sk8brdMsgs::MsgFastbootDownload);
        return TransferStep::Finished;
    }
    if cancelled {
        return TransferStep::Stopped;
    }
    proof {
        lemma_mid_step(n as nat, st.bytes_sent as nat);
        lemma_percent_monotone(n as nat, st.bytes_sent as nat, st.bytes_sent as nat);
    }
    let percent_wide: u128 = (st.bytes_sent as u128) * 100 / (n as u128);
    assert(percent_wide == spec_percent(st.bytes_sent as nat, n as nat));
    let percent: usize = percent_wide as usize;
    let start = st.bytes_sent;
    let end = if n - start < CHUNK_SIZE {
        n
    } else {
        start + CHUNK_SIZE
    };
    let chunk = slice_subrange(image, start, end);
    proof {
        let k = chunks_done(n as nat, st.bytes_sent as nat);
        assert(chunk@ =~= chunk_at(image@, k));
        if k > 0 {
            lemma_sent_after_mono(n as nat, (k - 1) as nat);
            lemma_percent_monotone(
                n as nat,
                sent_after(n as nat, (k - 1) as nat),
                st.bytes_sent as nat,
            );
        }
    }
    send_msg(gate, Sk8brdMsgs::MsgFastbootDownload, chunk);
    let report = if percent != st.last_percent {
        Some(percent)
    } else {
        None
    };
    st.last_percent = percent;
    st.bytes_sent = end;
    TransferStep::Chunk { percent: report }
}

/// Streams the whole boot image through the write gate, checking the shared
/// cancellation flag once per chunk.
///
/// Either the transfer runs to completion — every data chunk in order, then
/// the zero-length sentinel — or cancellation stops it after some whole
/// number of data chunks with no sentinel, so the receiver can tell the two
/// apart. With the flag set before the first chunk of a non-empty image,
/// nothing at all is sent.
pub fn send_image(gate: &mut WriteGate, buf: &[u8], quit: &CancelFlag) -> (r: TransferOutcome)
    ensures
        r is Completed ==> final(gate).transcript() == old(gate).transcript() + transfer_frames(
            buf@,
        ),
        r is Cancelled ==> exists|k: nat|
            k < num_chunks(buf@.len()) && final(gate).transcript() == old(gate).transcript()
                + #[trigger] chunk_frames(buf@, k),
{
    let mut st = TransferProgress::new();
    loop
        invariant
            wf_progress(st, buf@.len()),
            gate.transcript() == old(gate).transcript() + chunk_frames(
                buf@,
                chunks_done(buf@.len(), st.bytes_sent as nat),
            ),
        decreases buf@.len() - st.bytes_sent,
    {
        let ghost k_before = chunks_done(buf@.len(), st.bytes_sent as nat);
        let cancelled = quit.is_set();
        match transfer_step(gate, buf, &mut st, cancelled) {
            TransferStep::Chunk { percent: _ } => {
                proof {
                    let k_now = chunks_done(buf@.len(), st.bytes_sent as nat);
                    assert(k_now == k_before + 1);
                    assert(chunk_payloads(buf@, k_now).drop_last() =~= chunk_payloads(
                        buf@,
                        k_before,
                    ));
                    assert(gate.transcript() =~= old(gate).transcript() + chunk_frames(
                        buf@,
                        k_now,
                    ));
                }
            },
            TransferStep::Finished => {
                proof {
                    assert(transfer_msgs(buf@).drop_last() =~= chunk_payloads(
                        buf@,
                        num_chunks(buf@.len()),
                    ));
                    assert(gate.transcript() =~= old(gate).transcript() + transfer_frames(buf@));
                }
                return TransferOutcome::Completed;
            },
            TransferStep::Stopped => {
                proof {
                    assert(k_before < num_chunks(buf@.len()) && gate.transcript() == old(gate).transcript() + chunk_frames(buf@, k_before));
                }
                return TransferOutcome::Cancelled;
            },
        }
    }
}

/// The first `k` chunk payloads are exactly the first `sent_after(n, k)`
/// bytes of the image, reassembled in order.
proof fn lemma_chunks_reassemble(image: Seq<u8>, k: nat)
    ensures
        concat_chunks(image, k) == image.take(sent_after(image.len(), k) as int),
    decreases k,
{
    let n = image.len();
    if k == 0 {
        lemma_zero_state(n);
        assert(concat_chunks(image, 0) =~= image.take(0));
    } else {
        lemma_chunks_reassemble(image, (k - 1) as nat);
        lemma_sent_after_mono(n, (k - 1) as nat);
        let s1 = sent_after(n, (k - 1) as nat) as int;
        let s2 = sent_after(n, k) as int;
        assert(image.take(s1) + image.subrange(s1, s2) =~= image.take(s2));
    }
}

/// Image-transfer completeness: a full transfer of an `n`-byte image makes
/// exactly `num_chunks(n) + 1` `FastbootDownload` sends — the data chunks
/// and the terminating zero-length sentinel — and the data chunks together
/// carry every image byte exactly once, in order.
pub proof fn lemma_image_transfer_completeness(image: Seq<u8>)
    ensures
        transfer_msgs(image).len() == num_chunks(image.len()) + 1,
        transfer_msgs(image).last() == Seq::<u8>::empty(),
        forall|i: int|
            0 <= i < num_chunks(image.len()) ==> transfer_msgs(image)[i] == chunk_at(
                image,
                i as nat,
            ),
        concat_chunks(image, num_chunks(image.len())) == image,
{
    let n = image.len();
    lemma_payload_count(image, num_chunks(n));
    lemma_chunks_reassemble(image, num_chunks(n));
    let c = CHUNK_SIZE as nat;
    assert(num_chunks(n) * c >= n) by (nonlinear_arith)
        requires
            c == 2048,
            num_chunks(n) == ((n + c - 1) as nat) / c,
    ;
    assert(sent_after(n, num_chunks(n)) == n);
    assert(image.take(n as int) =~= image);
}

/// There are as many chunk payloads as chunks, and payload `i` is chunk `i`.
proof fn lemma_payload_count(image: Seq<u8>, k: nat)
    ensures
        chunk_payloads(image, k).len() == k,
        forall|i: int| 0 <= i < k ==> chunk_payloads(image, k)[i] == chunk_at(image, i as nat),
    decreases k,
{
    if k > 0 {
        lemma_payload_count(image, (k - 1) as nat);
    }
}

} // verus!
