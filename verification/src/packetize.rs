//! Framing of a JPEG stream into the 1024-byte HID reports of the bulk interface.
//!
//! Every report starts with a 4-byte header. The first report carries
//! `08 <chunk_count> 00 80`; the continuation report `i` carries `08 <i> 00 00`.
//! The remaining 1020 bytes hold the next slice of the JPEG stream, padded with
//! zeros in the last report.

use vstd::prelude::*;

use crate::protocol::{HID_PACKET_LEN, HID_PAYLOAD_LEN, MAX_SYNTHETIC_CHUNKS};

verus! {

/// Why a JPEG stream could not be framed into reports.
#[derive(Debug, Clone, Copy, PartialEq, Eq, Structural)]
pub enum PacketizeError {
    /// The stream holds no byte at all.
    EmptyPayload,
    /// The stream needs `chunks` reports, more than an upload may use.
    TooManyChunks { chunks: usize },
}

/// Number of reports needed for `len` payload bytes: `ceil(len / 1020)`.
pub open spec fn chunk_count(len: nat) -> nat {
    ((len + HID_PAYLOAD_LEN - 1) / (HID_PAYLOAD_LEN as int)) as nat
}

/// The 4-byte transport header of report `index` in an upload of `count` reports.
pub open spec fn packet_header(index: nat, count: nat) -> Seq<u8> {
    if index == 0 {
        seq![0x08u8, count as u8, 0x00u8, 0x80u8]
    } else {
        seq![0x08u8, index as u8, 0x00u8, 0x00u8]
    }
}

/// The 1020 payload bytes of report `index`: the slice of `bytes` that starts at
/// `index * 1020`, padded with zeros past the end of the stream.
pub open spec fn packet_body(bytes: Seq<u8>, index: nat) -> Seq<u8> {
    Seq::new(
        HID_PAYLOAD_LEN as nat,
        |j: int|
            if index * HID_PAYLOAD_LEN + j < bytes.len() {
                bytes[index * HID_PAYLOAD_LEN + j]
            } else {
                0u8
            },
    )
}

/// The full report `index` of the upload of `bytes`.
pub open spec fn packet_spec(bytes: Seq<u8>, index: nat) -> Seq<u8> {
    packet_header(index, chunk_count(bytes.len())) + packet_body(bytes, index)
}

/// All reports of the upload of `bytes`, in sending order.
pub open spec fn packets_spec(bytes: Seq<u8>) -> Seq<Seq<u8>> {
    Seq::new(chunk_count(bytes.len()), |i: int| packet_spec(bytes, i as nat))
}

/// Whether `bytes` can be sent as one upload.
pub open spec fn packetizable(bytes: Seq<u8>) -> bool {
    0 < bytes.len() && chunk_count(bytes.len()) <= MAX_SYNTHETIC_CHUNKS
}

/// The payload stream a receiver reads back: the reports with their 4-byte
/// headers removed, concatenated in order.
pub open spec fn payload_stream(packets: Seq<Seq<u8>>) -> Seq<u8>
    decreases packets.len(),
{
    if packets.len() == 0 {
        Seq::empty()
    } else {
        payload_stream(packets.drop_last()) + packets.last().skip(4)
    }
}

/// Splits a JPEG stream into the HID reports of one upload.
///
/// Fails on an empty stream, and on a stream that needs more than
/// `MAX_SYNTHETIC_CHUNKS` reports.
pub fn packetize_jpeg(bytes: &[u8]) -> (result: Result<Vec<[u8; HID_PACKET_LEN]>, PacketizeError>)
    ensures
        bytes@.len() == 0 ==> result == Err::<Vec<[u8; HID_PACKET_LEN]>, _>(
            PacketizeError::EmptyPayload,
        ),
        bytes@.len() > 0 && chunk_count(bytes@.len()) > MAX_SYNTHETIC_CHUNKS ==> result == Err::<
            Vec<[u8; HID_PACKET_LEN]>,
            _,
        >(PacketizeError::TooManyChunks { chunks: chunk_count(bytes@.len()) as usize }),
        packetizable(bytes@) <==> result is Ok,
        result matches Ok(packets) ==> {
            &&& packets@.len() == chunk_count(bytes@.len())
            &&& forall|i: int|
                0 <= i < packets@.len() ==> (#[trigger] packets@[i])@ == packet_spec(
                    bytes@,
                    i as nat,
                )
        },
{
    let len = bytes.len();
    if len == 0 {
        return Err(PacketizeError::EmptyPayload);
    }
    let chunks: usize = len / HID_PAYLOAD_LEN + if len % HID_PAYLOAD_LEN == 0 {
        0
    } else {
        1
    };
    assert(chunks == chunk_count(len as nat));
    if chunks > MAX_SYNTHETIC_CHUNKS {
        return Err(PacketizeError::TooManyChunks { chunks });
    }
    let mut packets: Vec<[u8; HID_PACKET_LEN]> = Vec::new();
    let mut index: usize = 0;
    while index < chunks
        invariant
            len == bytes@.len(),
            0 < len,
            chunks == chunk_count(len as nat),
            chunks <= MAX_SYNTHETIC_CHUNKS,
            index <= chunks,
            packets@.len() == index,
            forall|i: int|
                0 <= i < index ==> (#[trigger] packets@[i])@ == packet_spec(bytes@, i as nat),
        decreases chunks - index,
    {
        let mut packet = [0u8; HID_PACKET_LEN];
        packet[0] = 0x08;
        if index == 0 {
            packet[1] = chunks as u8;
            packet[3] = 0x80;
        } else {
            packet[1] = index as u8;
        }
        let start: usize = index * HID_PAYLOAD_LEN;
        let end: usize = if len - start < HID_PAYLOAD_LEN {
            len
        } else {
            start + HID_PAYLOAD_LEN
        };
        let mut j: usize = 0;
        while start + j < end
            invariant
                len == bytes@.len(),
                start == index * HID_PAYLOAD_LEN,
                start < len,
                end <= len,
                end <= start + HID_PAYLOAD_LEN,
                end == len || end == start + HID_PAYLOAD_LEN,
                start + j <= end,
                index < chunks,
                chunks == chunk_count(len as nat),
                chunks <= MAX_SYNTHETIC_CHUNKS,
                packet@.len() == HID_PACKET_LEN,
                forall|k: int|
                    0 <= k < 4 ==> #[trigger] packet@[k] == packet_header(
                        index as nat,
                        chunks as nat,
                    )[k],
                forall|k: int|
                    0 <= k < j ==> #[trigger] packet@[4 + k] == bytes@[start + k],
                forall|k: int| j <= k < HID_PAYLOAD_LEN ==> #[trigger] packet@[4 + k] == 0u8,
            decreases end - (start + j),
        {
            packet[4 + j] = bytes[start + j];
            j = j + 1;
        }
        assert forall|k: int| 0 <= k < HID_PACKET_LEN implies #[trigger] packet@[k] == packet_spec(
            bytes@,
            index as nat,
        )[k] by {
            if k >= 4 {
                assert(packet@[4 + (k - 4)] == packet@[k]);
            }
        }
        assert(packet@ =~= packet_spec(bytes@, index as nat));
        packets.push(packet);
        index = index + 1;
    }
    Ok(packets)
}

/// The first `n` reports carry exactly the first `n * 1020` bytes of the
/// stream, zero-padded past its end.
proof fn lemma_payload_prefix(bytes: Seq<u8>, n: nat)
    requires
        n <= chunk_count(bytes.len()),
    ensures
        payload_stream(packets_spec(bytes).take(n as int)) == Seq::new(
            (n * HID_PAYLOAD_LEN) as nat,
            |k: int|
                if k < bytes.len() {
                    bytes[k]
                } else {
                    0u8
                },
        ),
    decreases n,
{
    let ps = packets_spec(bytes).take(n as int);
    let expected = Seq::new(
        (n * HID_PAYLOAD_LEN) as nat,
        |k: int|
            if k < bytes.len() {
                bytes[k]
            } else {
                0u8
            },
    );
    if n == 0 {
        assert(payload_stream(ps) =~= expected);
    } else {
        assert(ps.drop_last() =~= packets_spec(bytes).take(n - 1));
        lemma_payload_prefix(bytes, (n - 1) as nat);
        let last = packet_spec(bytes, (n - 1) as nat);
        assert(ps.last() == last);
        assert(last.skip(4) =~= packet_body(bytes, (n - 1) as nat));
        assert(payload_stream(ps) =~= expected);
    }
}

/// Reading the payload of every report of an upload back in order yields the
/// stream followed only by zero padding: no byte is lost, reordered
/// or duplicated.
pub proof fn lemma_payload_roundtrip(bytes: Seq<u8>)
    requires
        0 < bytes.len(),
    ensures
        payload_stream(packets_spec(bytes)).len() == chunk_count(bytes.len()) * HID_PAYLOAD_LEN,
        payload_stream(packets_spec(bytes)).take(bytes.len() as int) == bytes,
        forall|k: int|
            bytes.len() <= k < payload_stream(packets_spec(bytes)).len() ==> #[trigger] payload_stream(
                packets_spec(bytes),
            )[k] == 0u8,
{
    let n = chunk_count(bytes.len());
    assert(packets_spec(bytes).take(n as int) =~= packets_spec(bytes));
    lemma_payload_prefix(bytes, n);
    assert(payload_stream(packets_spec(bytes)).take(bytes.len() as int) =~= bytes);
}

/// The chunk count is the least number of reports whose payload area holds the
/// whole stream, and the first header announces it.
pub proof fn lemma_chunk_count_is_minimal(bytes: Seq<u8>)
    requires
        packetizable(bytes),
    ensures
        (chunk_count(bytes.len()) - 1) * HID_PAYLOAD_LEN < bytes.len(),
        bytes.len() <= chunk_count(bytes.len()) * HID_PAYLOAD_LEN,
        packets_spec(bytes)[0][1] as nat == packets_spec(bytes).len(),
        forall|i: int|
            1 <= i < packets_spec(bytes).len() ==> (#[trigger] packets_spec(bytes)[i])[1] as int
                == i,
{
}

} // verus!
