//! Framing of encoded values at the boundary: whether a byte buffer holds
//! exactly one complete, well-formed encoded value.

use vstd::prelude::*;
use vstd::string::StringExecFns;
use crate::error::BindError;

verus! {

/// Big-endian 16-bit integer at `i`.
pub open spec fn be16(b: Seq<u8>, i: int) -> nat {
    (b[i] as nat) * 256 + (b[i + 1] as nat)
}

/// Big-endian 32-bit integer at `i`.
pub open spec fn be32(b: Seq<u8>, i: int) -> nat {
    (((b[i] as nat) * 256 + (b[i + 1] as nat)) * 256 + (b[i + 2] as nat)) * 256 + (b[i + 3] as nat)
}

/// The item whose marker byte is at `pos` in an encoded value: how many
/// bytes it occupies itself (marker, length fields and raw payload), and how
/// many nested values follow it (array elements, or map keys and values).
/// `None` for the reserved marker, or when the length field runs past the end.
pub open spec fn item_at(b: Seq<u8>, pos: int) -> Option<(nat, nat)> {
    let m = b[pos];
    let n = b.len();
    if m <= 0x7f || m >= 0xe0 || m == 0xc0 || m == 0xc2 || m == 0xc3 {
        Some((1, 0))
    } else if m <= 0x8f {
        Some((1, 2 * ((m - 0x80) as nat)))
    } else if m <= 0x9f {
        Some((1, (m - 0x90) as nat))
    } else if m <= 0xbf {
        Some((1 + ((m - 0xa0) as nat), 0))
    } else if m == 0xc1 {
        None
    } else if m == 0xca || m == 0xce || m == 0xd2 {
        Some((5, 0))
    } else if m == 0xcb || m == 0xcf || m == 0xd3 {
        Some((9, 0))
    } else if m == 0xcc || m == 0xd0 {
        Some((2, 0))
    } else if m == 0xcd || m == 0xd1 {
        Some((3, 0))
    } else if m == 0xd4 {
        Some((3, 0))
    } else if m == 0xd5 {
        Some((4, 0))
    } else if m == 0xd6 {
        Some((6, 0))
    } else if m == 0xd7 {
        Some((10, 0))
    } else if m == 0xd8 {
        Some((18, 0))
    } else if m == 0xc4 || m == 0xc7 || m == 0xd9 {
        // one length byte; ext8 adds a type byte
        if pos + 1 >= n {
            None
        } else {
            Some(((if m == 0xc7 { 3nat } else { 2nat }) + (b[pos + 1] as nat), 0))
        }
    } else if m == 0xc5 || m == 0xc8 || m == 0xda || m == 0xdc || m == 0xde {
        // two length bytes
        if pos + 2 >= n {
            None
        } else if m == 0xdc {
            Some((3, be16(b, pos + 1)))
        } else if m == 0xde {
            Some((3, 2 * be16(b, pos + 1)))
        } else {
            Some(((if m == 0xc8 { 4nat } else { 3nat }) + be16(b, pos + 1), 0))
        }
    } else {
        // 0xc6, 0xc9, 0xdb, 0xdd, 0xdf: four length bytes
        if pos + 4 >= n {
            None
        } else if m == 0xdd {
            Some((5, be32(b, pos + 1)))
        } else if m == 0xdf {
            Some((5, 2 * be32(b, pos + 1)))
        } else {
            Some(((if m == 0xc9 { 6nat } else { 5nat }) + be32(b, pos + 1), 0))
        }
    }
}

/// Where `pending` consecutive encoded values starting at `pos` end, or
/// `None` when the bytes run out or hold a malformed item first.
pub open spec fn values_end(b: Seq<u8>, pos: nat, pending: nat) -> Option<nat>
    decreases b.len() - pos,
{
    if pending == 0 {
        Some(pos)
    } else if pos >= b.len() {
        None
    } else {
        match item_at(b, pos as int) {
            None => None,
            Some((size, nested)) => if pos + size > b.len() || size == 0 {
                None
            } else {
                values_end(b, pos + size, (pending - 1 + nested) as nat)
            },
        }
    }
}

/// `b` holds exactly one complete encoded value and nothing after it.
pub open spec fn is_one_value(b: Seq<u8>) -> bool {
    values_end(b, 0, 1) == Some(b.len())
}

/// More values pending than bytes left can never complete.
proof fn lemma_too_many_pending(b: Seq<u8>, pos: nat, pending: nat)
    requires
        pos <= b.len(),
        pending > b.len() - pos,
    ensures
        values_end(b, pos, pending) is None,
    decreases b.len() - pos,
{
    if pos < b.len() {
        match item_at(b, pos as int) {
            None => {},
            Some((size, nested)) => {
                if !(pos + size > b.len() || size == 0) {
                    lemma_too_many_pending(b, pos + size, (pending - 1 + nested) as nat);
                }
            },
        }
    }
}

/// Where values end lies within the bytes.
proof fn lemma_end_in_bounds(b: Seq<u8>, pos: nat, pending: nat)
    requires
        pos <= b.len(),
    ensures
        values_end(b, pos, pending) matches Some(e) ==> pos <= e <= b.len(),
    decreases b.len() - pos,
{
    if pending > 0 && pos < b.len() {
        match item_at(b, pos as int) {
            None => {},
            Some((size, nested)) => {
                if !(pos + size > b.len() || size == 0) {
                    lemma_end_in_bounds(b, pos + size, (pending - 1 + nested) as nat);
                }
            },
        }
    }
}

fn item_at_exec(b: &[u8], pos: usize) -> (r: Option<(u64, u64)>)
    requires
        pos < b@.len(),
    ensures
        match item_at(b@, pos as int) {
            None => r is None,
            Some((size, nested)) => r == Some((size as u64, nested as u64)),
        },
{
    let m = b[pos];
    let n = b.len();
    if m <= 0x7f || m >= 0xe0 || m == 0xc0 || m == 0xc2 || m == 0xc3 {
        Some((1, 0))
    } else if m <= 0x8f {
        Some((1, 2 * ((m - 0x80) as u64)))
    } else if m <= 0x9f {
        Some((1, (m - 0x90) as u64))
    } else if m <= 0xbf {
        Some((1 + ((m - 0xa0) as u64), 0))
    } else if m == 0xc1 {
        None
    } else if m == 0xca || m == 0xce || m == 0xd2 {
        Some((5, 0))
    } else if m == 0xcb || m == 0xcf || m == 0xd3 {
        Some((9, 0))
    } else if m == 0xcc || m == 0xd0 {
        Some((2, 0))
    } else if m == 0xcd || m == 0xd1 {
        Some((3, 0))
    } else if m == 0xd4 {
        Some((3, 0))
    } else if m == 0xd5 {
        Some((4, 0))
    } else if m == 0xd6 {
        Some((6, 0))
    } else if m == 0xd7 {
        Some((10, 0))
    } else if m == 0xd8 {
        Some((18, 0))
    } else if m == 0xc4 || m == 0xc7 || m == 0xd9 {
        if pos + 1 >= n {
            None
        } else {
            let extra: u64 = if m == 0xc7 { 3 } else { 2 };
            Some((extra + b[pos + 1] as u64, 0))
        }
    } else if m == 0xc5 || m == 0xc8 || m == 0xda || m == 0xdc || m == 0xde {
        if n - pos <= 2 {
            None
        } else {
            let len: u64 = (b[pos + 1] as u64) * 256 + (b[pos + 2] as u64);
            if m == 0xdc {
                Some((3, len))
            } else if m == 0xde {
                Some((3, 2 * len))
            } else {
                let extra: u64 = if m == 0xc8 { 4 } else { 3 };
                Some((extra + len, 0))
            }
        }
    } else {
        if n - pos <= 4 {
            None
        } else {
            let len: u64 = (((b[pos + 1] as u64) * 256 + (b[pos + 2] as u64)) * 256 + (b[pos
                + 3] as u64)) * 256 + (b[pos + 4] as u64);
            if m == 0xdd {
                Some((5, len))
            } else if m == 0xdf {
                Some((5, 2 * len))
            } else {
                let extra: u64 = if m == 0xc9 { 6 } else { 5 };
                Some((extra + len, 0))
            }
        }
    }
}

/// Where the encoded value that starts at `start` ends, or `None` when the
/// bytes from `start` do not hold a complete, well-formed value.
pub fn encoded_value_end(bytes: &[u8], start: usize) -> (r: Option<usize>)
    requires
        start <= bytes@.len(),
    ensures
        match values_end(bytes@, start as nat, 1) {
            None => r is None,
            Some(e) => r == Some(e as usize),
        },
{
    let n = bytes.len();
    let mut pos: usize = start;
    let mut pending: usize = 1;
    if pos >= n {
        return None;
    }
    while pending > 0
        invariant
            start <= pos <= n,
            n == bytes@.len(),
            pending <= n - pos,
            values_end(bytes@, pos as nat, pending as nat) == values_end(bytes@, start as nat, 1),
        decreases n - pos,
    {
        let item = item_at_exec(bytes, pos);
        match item {
            None => {
                return None;
            },
            Some((size, nested)) => {
                if size > (n - pos) as u64 {
                    return None;
                }
                let next = pos + size as usize;
                let left = n - next;
                // the pending count after this item is pending - 1 + nested
                if nested > left as u64 || pending - 1 > left - nested as usize {
                    proof {
                        lemma_too_many_pending(
                            bytes@,
                            next as nat,
                            (pending - 1 + nested) as nat,
                        );
                    }
                    return None;
                }
                pos = next;
                pending = pending - 1 + nested as usize;
            },
        }
    }
    Some(pos)
}

/// Whether `bytes` holds exactly one complete encoded value.
pub fn is_complete_value(bytes: &[u8]) -> (r: bool)
    ensures
        r == is_one_value(bytes@),
{
    proof {
        lemma_end_in_bounds(bytes@, 0, 1);
    }
    match encoded_value_end(bytes, 0) {
        None => false,
        Some(e) => e == bytes.len(),
    }
}

/// Checks a payload crossing the boundary before it is decoded: anything
/// but exactly one complete encoded value is a decode error.
pub fn check_payload(bytes: &[u8]) -> (r: Result<(), BindError>)
    ensures
        r is Ok <==> is_one_value(bytes@),
        r matches Err(e) ==> (e matches BindError::Decode { context } && context@
            == malformed_text()),
{
    if is_complete_value(bytes) {
        Ok(())
    } else {
        Err(BindError::Decode { context: String::from_str("incomplete or malformed encoded value") })
    }
}

/// The context text of a payload that is not one complete encoded value.
pub open spec fn malformed_text() -> Seq<char> {
    "incomplete or malformed encoded value"@
}

} // verus!
