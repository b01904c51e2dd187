//! Transaction framing of the panel's command protocol.
use vstd::prelude::*;

verus! {

/// Opcode of a command whose data phase uses one data line.
pub const OPCODE_SINGLE: u8 = 0x02;

/// Opcode of a command whose data phase uses four data lines.
pub const OPCODE_QUAD: u8 = 0x32;

/// Width in bits of the address field, which carries the command byte.
pub const ADDR_BITS: u8 = 24;

/// Width of the data phase of a transaction.
#[derive(Clone, Copy, Debug, PartialEq, Eq, Structural)]
pub enum DataPhase {
    Single,
    Quad,
}

/// Direction of a transaction: payload written, or no data phase at all.
#[derive(Clone, Copy, Debug, PartialEq, Eq, Structural)]
pub enum TransferMode {
    WriteOnly,
    NoData,
}

/// One complete bus exchange with the panel controller.
///
/// The address phase is always single-wide and `ADDR_BITS` long.
#[derive(Clone, Debug, PartialEq, Eq)]
pub struct Transaction {
    pub opcode: u8,
    pub addr: u32,
    pub data_phase: DataPhase,
    pub mode: TransferMode,
    pub dummy_cycles: u8,
    pub payload: Vec<u8>,
}

/// Mathematical value of a `Transaction`.
pub struct TransactionView {
    pub opcode: u8,
    pub addr: u32,
    pub data_phase: DataPhase,
    pub mode: TransferMode,
    pub dummy_cycles: u8,
    pub payload: Seq<u8>,
}

impl View for Transaction {
    type V = TransactionView;

    open spec fn view(&self) -> TransactionView {
        TransactionView {
            opcode: self.opcode,
            addr: self.addr,
            data_phase: self.data_phase,
            mode: self.mode,
            dummy_cycles: self.dummy_cycles,
            payload: self.payload@,
        }
    }
}

/// The transaction that sends command byte `cmd` with payload `data`:
/// the command sits in bits 8 to 15 of the address field, and a command
/// without payload is marked as having no data phase.
pub open spec fn command(phase: DataPhase, cmd: u8, data: Seq<u8>) -> TransactionView {
    TransactionView {
        opcode: if phase == DataPhase::Single { OPCODE_SINGLE } else { OPCODE_QUAD },
        addr: (cmd as u32) << 8u32,
        data_phase: phase,
        mode: if data.len() == 0 { TransferMode::NoData } else { TransferMode::WriteOnly },
        dummy_cycles: 0,
        payload: data,
    }
}

/// The views of a sequence of transactions.
pub open spec fn frames(ts: Seq<Transaction>) -> Seq<TransactionView> {
    ts.map_values(|t: Transaction| t@)
}

/// Big-endian bytes of a 16-bit value.
pub open spec fn be_bytes(v: u16) -> Seq<u8> {
    seq![(v / 256) as u8, (v % 256) as u8]
}

/// Big-endian bytes of each value of `vs`, concatenated in order.
pub open spec fn pixel_bytes(vs: Seq<u16>) -> Seq<u8>
    decreases vs.len(),
{
    if vs.len() == 0 {
        Seq::empty()
    } else {
        pixel_bytes(vs.drop_last()) + be_bytes(vs.last())
    }
}

/// Builds a command whose data phase is single-wide.
pub fn send_cmd(cmd: u8, data: Vec<u8>) -> (t: Transaction)
    ensures
        t@ == command(DataPhase::Single, cmd, data@),
{
    frame(DataPhase::Single, cmd, data)
}

/// Builds a command whose data phase is quad-wide.
pub fn send_cmd_114(cmd: u8, data: Vec<u8>) -> (t: Transaction)
    ensures
        t@ == command(DataPhase::Quad, cmd, data@),
{
    frame(DataPhase::Quad, cmd, data)
}

fn frame(phase: DataPhase, cmd: u8, data: Vec<u8>) -> (t: Transaction)
    ensures
        t@ == command(phase, cmd, data@),
{
    let opcode = match phase {
        DataPhase::Single => OPCODE_SINGLE,
        DataPhase::Quad => OPCODE_QUAD,
    };
    let mode = if data.len() == 0 {
        TransferMode::NoData
    } else {
        TransferMode::WriteOnly
    };
    Transaction { opcode, addr: (cmd as u32) << 8u32, data_phase: phase, mode, dummy_cycles: 0, payload: data }
}

/// Big-endian bytes of a 16-bit value.
pub fn to_be_bytes(v: u16) -> (r: Vec<u8>)
    ensures
        r@ == be_bytes(v),
{
    let r = vec![(v / 256) as u8, (v % 256) as u8];
    assert(r@ =~= be_bytes(v));
    r
}

/// Big-endian bytes of each of the first `n` values of `vs`, in order.
pub fn encode_pixels(vs: &[u16], n: usize) -> (r: Vec<u8>)
    requires
        n <= vs@.len(),
    ensures
        r@ == pixel_bytes(vs@.take(n as int)),
{
    let mut r: Vec<u8> = Vec::new();
    let mut i: usize = 0;
    while i < n
        invariant
            i <= n <= vs.len(),
            r@ == pixel_bytes(vs@.take(i as int)),
        decreases vs.len() - i,
    {
        let v = vs[i];
        r.push((v / 256) as u8);
        r.push((v % 256) as u8);
        assert(vs@.take(i + 1).drop_last() =~= vs@.take(i as int));
        i += 1;
        assert(r@ =~= pixel_bytes(vs@.take(i as int)));
    }
    r
}


/// Command byte that continues a pixel-memory write.
pub const MEMORY_WRITE_CONTINUE: u8 = 0x3C;

/// Largest payload, in bytes, of one pixel-data transaction: a full
/// landscape frame at one byte per pixel, the size of the staging buffer.
pub const FLUSH_BYTES: usize = 536 * 240;

/// Number of pixel-data transactions needed for `n` payload bytes.
pub open spec fn chunk_count(n: nat) -> nat {
    if n == 0 {
        0
    } else {
        ((n - 1) as nat / (FLUSH_BYTES as nat) + 1) as nat
    }
}

/// Bytes of `b` carried by the `i`-th pixel-data transaction.
pub open spec fn chunk(b: Seq<u8>, i: int) -> Seq<u8> {
    let start = i * FLUSH_BYTES;
    let end = if start + FLUSH_BYTES <= b.len() { start + FLUSH_BYTES } else { b.len() as int };
    b.subrange(start, end)
}

/// The pixel-data transactions that stream `b`: consecutive quad-wide
/// memory-write-continue commands, each full but the last.
pub open spec fn stream_frames(b: Seq<u8>) -> Seq<TransactionView> {
    Seq::new(chunk_count(b.len()), |i: int| command(DataPhase::Quad, MEMORY_WRITE_CONTINUE, chunk(b, i)))
}

/// Payloads of a sequence of transactions, concatenated in order.
pub open spec fn payload_concat(fs: Seq<TransactionView>) -> Seq<u8>
    decreases fs.len(),
{
    if fs.len() == 0 {
        Seq::empty()
    } else {
        fs[0].payload + payload_concat(fs.skip(1))
    }
}

/// Splits `b` into the pixel-data transactions that stream it.
pub fn stream_pixels(b: &Vec<u8>) -> (r: Vec<Transaction>)
    ensures
        frames(r@) == stream_frames(b@),
{
    let len = b.len();
    let count: usize = if len == 0 { 0 } else { (len - 1) / FLUSH_BYTES + 1 };
    assert(count == chunk_count(len as nat));
    let mut r: Vec<Transaction> = Vec::new();
    let mut k: usize = 0;
    while k < count
        invariant
            count == chunk_count(len as nat),
            len == b@.len(),
            k <= count,
            r@.len() == k,
            forall|i: int| 0 <= i < k ==> #[trigger] r@[i]@ == command(DataPhase::Quad, MEMORY_WRITE_CONTINUE, chunk(b@, i)),
        decreases count - k,
    {
        assert(k * FLUSH_BYTES < len) by (nonlinear_arith)
            requires k < count, count == (len - 1) / (FLUSH_BYTES as int) + 1, len > 0;
        let start = k * FLUSH_BYTES;
        let end = if len - start >= FLUSH_BYTES { start + FLUSH_BYTES } else { len };
        let mut part: Vec<u8> = Vec::new();
        let mut j = start;
        while j < end
            invariant
                start <= j <= end <= len == b@.len(),
                part@ == b@.subrange(start as int, j as int),
            decreases end - j,
        {
            part.push(b[j]);
            j += 1;
            assert(part@ =~= b@.subrange(start as int, j as int));
        }
        assert(part@ == chunk(b@, k as int));
        r.push(send_cmd_114(MEMORY_WRITE_CONTINUE, part));
        k += 1;
    }
    assert(frames(r@) =~= stream_frames(b@));
    r
}

/// Pixel bytes are two per value.
pub proof fn lemma_pixel_bytes_len(vs: Seq<u16>)
    ensures
        pixel_bytes(vs).len() == 2 * vs.len(),
    decreases vs.len(),
{
    if vs.len() > 0 {
        lemma_pixel_bytes_len(vs.drop_last());
    }
}

/// Streaming a byte sequence carries exactly that sequence, in order, and
/// no transaction carries more than `FLUSH_BYTES` bytes.
pub proof fn lemma_stream_carries_bytes(b: Seq<u8>)
    ensures
        payload_concat(stream_frames(b)) == b,
        forall|i: int| 0 <= i < stream_frames(b).len() ==>
            0 < (#[trigger] stream_frames(b)[i]).payload.len() <= FLUSH_BYTES,
    decreases b.len(),
{
    let fs = stream_frames(b);
    if b.len() == 0 {
        assert(fs.len() == 0);
        assert(payload_concat(fs) =~= b);
    } else {
        let f = FLUSH_BYTES as int;
        let rest = b.skip(f);
        if b.len() <= f {
            assert(chunk_count(b.len()) == 1);
            assert(fs.skip(1).len() == 0);
            assert(payload_concat(fs.skip(1)) == Seq::<u8>::empty());
            assert(fs[0].payload =~= b);
            assert(payload_concat(fs) == fs[0].payload + payload_concat(fs.skip(1)));
            assert(payload_concat(fs) =~= b);
        } else {
            lemma_stream_carries_bytes(rest);
            assert(chunk_count(b.len()) == chunk_count(rest.len()) + 1) by {
                assert((b.len() - 1) as nat / (FLUSH_BYTES as nat) == (rest.len() - 1) as nat / (FLUSH_BYTES as nat) + 1);
            }
            assert forall|i: int| 0 <= i < fs.skip(1).len() implies fs.skip(1)[i] == stream_frames(rest)[i] by {
                assert(chunk(b, i + 1) =~= chunk(rest, i));
            }
            assert(fs.skip(1) =~= stream_frames(rest));
            assert(fs.len() > 0);
            assert(fs[0].payload =~= b.take(f));
            assert(payload_concat(fs) == fs[0].payload + payload_concat(fs.skip(1)));
            assert(b.take(f) + rest =~= b);
        }
        assert forall|i: int| 0 <= i < fs.len() implies 0 < (#[trigger] fs[i]).payload.len() <= FLUSH_BYTES by {
            assert(i * f < b.len()) by (nonlinear_arith)
                requires 0 <= i < fs.len(), fs.len() == (b.len() - 1) / f + 1, b.len() > 0, f > 0;
        }
    }
}

} // verus!
