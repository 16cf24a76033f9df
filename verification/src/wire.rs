//! The shared record layout: the fixed-width byte image of an audit record
//! that crosses the ring buffer, and its parser.

use vstd::prelude::*;

use crate::event::{SuidEvent, PATH_CAP};

verus! {

/// Total width of one record on the wire: the path buffer, two 32-bit
/// identifiers, and the one-byte verdict flag.
pub const EVENT_WIRE_LEN: usize = 4096 + 4 + 4 + 1;

/// The little-endian bytes of a 32-bit identifier.
pub open spec fn spec_u32_bytes(x: u32) -> Seq<u8> {
    let b0 = x as int % 256;
    let r1 = x as int / 256;
    let b1 = r1 % 256;
    let r2 = r1 / 256;
    let b2 = r2 % 256;
    let b3 = r2 / 256;
    seq![b0 as u8, b1 as u8, b2 as u8, b3 as u8]
}

/// The 32-bit identifier held by four little-endian bytes.
pub open spec fn spec_u32_le(b: Seq<u8>) -> u32
    recommends
        b.len() == 4,
{
    (b[0] + b[1] * 0x100 + b[2] * 0x10000 + b[3] * 0x1000000) as u32
}

/// Reading back the four bytes of an identifier gives the identifier.
pub proof fn lemma_u32_le_round_trip(x: u32)
    ensures
        spec_u32_bytes(x).len() == 4,
        spec_u32_le(spec_u32_bytes(x)) == x,
{
    let b0 = x as int % 256;
    let r1 = x as int / 256;
    let b1 = r1 % 256;
    let r2 = r1 / 256;
    let b2 = r2 % 256;
    let b3 = r2 / 256;
    assert(x as int == b0 + 256 * r1);
    assert(r1 == b1 + 256 * r2);
    assert(r2 == b2 + 256 * b3);
    assert(x as int == b0 + 256 * b1 + 65536 * b2 + 16777216 * b3);
}

/// The byte image of one record: path bytes, uid, gid, verdict flag.
pub open spec fn spec_event_bytes(ev: SuidEvent) -> Seq<u8> {
    ev.path@ + spec_u32_bytes(ev.uid) + spec_u32_bytes(ev.gid) + seq![
        if ev.denied {
            1u8
        } else {
            0u8
        },
    ]
}

fn push_u32_le(out: &mut Vec<u8>, x: u32)
    ensures
        final(out)@ == old(out)@ + spec_u32_bytes(x),
{
    out.push((x % 256) as u8);
    out.push(((x / 256) % 256) as u8);
    out.push(((x / 256) / 256 % 256) as u8);
    out.push((((x / 256) / 256) / 256) as u8);
    proof {
        assert(out@ =~= old(out)@ + spec_u32_bytes(x));
    }
}

fn read_u32_le(bytes: &[u8], off: usize) -> (x: u32)
    requires
        off + 4 <= bytes@.len(),
    ensures
        x == spec_u32_le(bytes@.subrange(off as int, off as int + 4)),
{
    let b0 = bytes[off] as u32;
    let b1 = bytes[off + 1] as u32;
    let b2 = bytes[off + 2] as u32;
    let b3 = bytes[off + 3] as u32;
    b0 + b1 * 0x100 + b2 * 0x10000 + b3 * 0x1000000
}

/// Lay one record out as bytes, exactly as it crosses the ring buffer.
pub fn encode_event(ev: &SuidEvent) -> (out: Vec<u8>)
    requires
        ev.wf(),
    ensures
        out@ == spec_event_bytes(*ev),
        out@.len() == EVENT_WIRE_LEN,
{
    let mut out: Vec<u8> = Vec::new();
    let mut i: usize = 0;
    while i < PATH_CAP
        invariant
            0 <= i <= PATH_CAP,
            ev.path@.len() == PATH_CAP,
            out@ == ev.path@.subrange(0, i as int),
        decreases PATH_CAP - i,
    {
        out.push(ev.path[i]);
        proof {
            assert(out@ =~= ev.path@.subrange(0, i + 1 as int));
        }
        i = i + 1;
    }
    proof {
        assert(out@ =~= ev.path@);
    }
    push_u32_le(&mut out, ev.uid);
    push_u32_le(&mut out, ev.gid);
    if ev.denied {
        out.push(1u8);
    } else {
        out.push(0u8);
    }
    proof {
        assert(out@ =~= spec_event_bytes(*ev));
    }
    out
}

/// Read one record back off a raw buffer, as the consumer does: `None` when
/// the buffer is too short to hold a whole record.
pub fn parse_event(bytes: &[u8]) -> (r: Option<SuidEvent>)
    ensures
        match r {
            None => bytes@.len() < EVENT_WIRE_LEN,
            Some(ev) => {
                &&& bytes@.len() >= EVENT_WIRE_LEN
                &&& ev.wf()
                &&& ev.path@ == bytes@.subrange(0, PATH_CAP as int)
                &&& ev.uid == spec_u32_le(
                    bytes@.subrange(PATH_CAP as int, PATH_CAP as int + 4),
                )
                &&& ev.gid == spec_u32_le(
                    bytes@.subrange(PATH_CAP as int + 4, PATH_CAP as int + 8),
                )
                &&& ev.denied == (bytes@[PATH_CAP as int + 8] != 0)
            },
        },
{
    if bytes.len() < EVENT_WIRE_LEN {
        return None;
    }
    let mut path: Vec<u8> = Vec::new();
    let mut i: usize = 0;
    while i < PATH_CAP
        invariant
            0 <= i <= PATH_CAP,
            bytes@.len() >= EVENT_WIRE_LEN,
            path@ == bytes@.subrange(0, i as int),
        decreases PATH_CAP - i,
    {
        path.push(bytes[i]);
        proof {
            assert(path@ =~= bytes@.subrange(0, i + 1 as int));
        }
        i = i + 1;
    }
    let uid = read_u32_le(bytes, PATH_CAP);
    let gid = read_u32_le(bytes, PATH_CAP + 4);
    let denied = bytes[PATH_CAP + 8] != 0;
    Some(SuidEvent { path, uid, gid, denied })
}

/// Round trip: parsing the byte image of a well-formed record gives back
/// exactly the fields that were laid out.
pub proof fn lemma_event_round_trip(ev: SuidEvent)
    requires
        ev.wf(),
    ensures
        spec_event_bytes(ev).len() == EVENT_WIRE_LEN,
        spec_event_bytes(ev).subrange(0, PATH_CAP as int) == ev.path@,
        spec_u32_le(spec_event_bytes(ev).subrange(PATH_CAP as int, PATH_CAP as int + 4))
            == ev.uid,
        spec_u32_le(
            spec_event_bytes(ev).subrange(PATH_CAP as int + 4, PATH_CAP as int + 8),
        ) == ev.gid,
        (spec_event_bytes(ev)[PATH_CAP as int + 8] != 0) == ev.denied,
{
    let bytes = spec_event_bytes(ev);
    assert(bytes.subrange(0, PATH_CAP as int) =~= ev.path@);
    assert(bytes.subrange(PATH_CAP as int, PATH_CAP as int + 4) =~= spec_u32_bytes(ev.uid));
    assert(bytes.subrange(PATH_CAP as int + 4, PATH_CAP as int + 8) =~= spec_u32_bytes(
        ev.gid,
    ));
    lemma_u32_le_round_trip(ev.uid);
    lemma_u32_le_round_trip(ev.gid);
}

} // verus!
