//! Byte order and address width of a process, and the check that the
//! controller and its target agree on both.

use crate::error::ProcessRemoteError;
use vstd::prelude::*;

verus! {

/// The order in which a process stores the bytes of a multi-byte value.
#[derive(Clone, Copy, Debug, PartialEq, Eq, Structural)]
pub enum ByteOrder {
    /// The order is unknown.
    Invalid,
    /// Most significant byte first.
    Big,
    /// Mixed order of some historic machines.
    Pdp,
    /// Least significant byte first.
    Little,
}

/// How a process lays out raw memory: its byte order and the width of its
/// addresses in bytes.
#[derive(Clone, Copy, Debug, PartialEq, Eq, Structural)]
pub struct Layout {
    pub byte_order: ByteOrder,
    pub address_width: u32,
}

/// The value whose in-memory bytes reveal the controller's byte order.
pub const ORDER_PROBE: u16 = 0x0102;

/// The two bytes of `value`, least significant first.
pub open spec fn little_endian_pair(value: u16) -> Seq<u8> {
    seq![(value % 256) as u8, (value / 256) as u8]
}

/// The two bytes of `value`, most significant first.
pub open spec fn big_endian_pair(value: u16) -> Seq<u8> {
    seq![(value / 256) as u8, (value % 256) as u8]
}

/// The byte order that the in-memory bytes of [`ORDER_PROBE`] stand for.
pub open spec fn order_of_probe(bytes: Seq<u8>) -> ByteOrder {
    if bytes == little_endian_pair(ORDER_PROBE) {
        ByteOrder::Little
    } else if bytes == big_endian_pair(ORDER_PROBE) {
        ByteOrder::Big
    } else {
        ByteOrder::Invalid
    }
}

/// The outcome of comparing a target's layout with the controller's: the
/// byte order is compared first, the address width second.
pub open spec fn compatibility(target: Layout, host: Layout) -> Result<(), ProcessRemoteError> {
    if target.byte_order != host.byte_order {
        Err(ProcessRemoteError::ByteOrderMismatch)
    } else if target.address_width != host.address_width {
        Err(ProcessRemoteError::PointerSizeMismatch)
    } else {
        Ok(())
    }
}

/// Calls `bytemuck::bytes_of` on a `u16` and copies the slice it returns.
/// Trusted: the slice holds the two bytes of the value as this machine
/// stores them, which is one of the two orders that Rust targets have.
#[verifier::external_body]
fn native_bytes(value: u16) -> (bytes: Vec<u8>)
    ensures
        bytes@ == little_endian_pair(value) || bytes@ == big_endian_pair(value),
{
    bytemuck::bytes_of(&value).to_vec()
}

/// Reads a byte order off the in-memory bytes of [`ORDER_PROBE`].
pub fn byte_order_of_probe(bytes: &[u8]) -> (order: ByteOrder)
    ensures
        order == order_of_probe(bytes@),
{
    if bytes.len() != 2 {
        assert(little_endian_pair(ORDER_PROBE).len() == 2);
        assert(big_endian_pair(ORDER_PROBE).len() == 2);
        return ByteOrder::Invalid;
    }
    let first: u8 = bytes[0];
    let second: u8 = bytes[1];
    if first == 0x02 && second == 0x01 {
        assert(bytes@ =~= little_endian_pair(ORDER_PROBE));
        ByteOrder::Little
    } else if first == 0x01 && second == 0x02 {
        assert(bytes@ =~= big_endian_pair(ORDER_PROBE));
        assert(little_endian_pair(ORDER_PROBE)[0] == 0x02);
        ByteOrder::Big
    } else {
        assert(little_endian_pair(ORDER_PROBE)[0] == 0x02);
        assert(little_endian_pair(ORDER_PROBE)[1] == 0x01);
        assert(big_endian_pair(ORDER_PROBE)[0] == 0x01);
        assert(big_endian_pair(ORDER_PROBE)[1] == 0x02);
        ByteOrder::Invalid
    }
}

/// The byte order of the controller itself, found by looking at how it
/// stores [`ORDER_PROBE`].
pub fn current_byte_order() -> (order: ByteOrder)
    ensures
        order == ByteOrder::Little || order == ByteOrder::Big,
{
    let bytes: Vec<u8> = native_bytes(ORDER_PROBE);
    let order: ByteOrder = byte_order_of_probe(bytes.as_slice());
    proof {
        assert(little_endian_pair(ORDER_PROBE)[0] == 0x02);
        assert(big_endian_pair(ORDER_PROBE)[0] == 0x01);
    }
    order
}

/// The controller's own layout.
pub fn host_layout() -> (host: Layout)
    ensures
        host.byte_order == ByteOrder::Little || host.byte_order == ByteOrder::Big,
        host.address_width as nat == vstd::layout::size_of::<usize>(),
        host.address_width == 4 || host.address_width == 8,
{
    broadcast use vstd::layout::layout_of_primitives;

    let width: usize = core::mem::size_of::<usize>();
    Layout { byte_order: current_byte_order(), address_width: width as u32 }
}

/// Compares the layout that a target reports with the controller's own.
/// Nothing read from the target may be interpreted unless this returns `Ok`.
pub fn check_compatibility(target: Layout, host: Layout) -> (outcome: Result<
    (),
    ProcessRemoteError,
>)
    ensures
        outcome == compatibility(target, host),
{
    if target.byte_order != host.byte_order {
        Err(ProcessRemoteError::ByteOrderMismatch)
    } else if target.address_width != host.address_width {
        Err(ProcessRemoteError::PointerSizeMismatch)
    } else {
        Ok(())
    }
}

/// A target whose address width equals the controller's is accepted exactly
/// when the two byte orders are equal, and two different byte orders are
/// always rejected as a byte order mismatch.
pub proof fn law_byte_order_decides(target: Layout, host: Layout)
    ensures
        target.byte_order != host.byte_order ==> compatibility(target, host) == Err::<
            (),
            ProcessRemoteError,
        >(ProcessRemoteError::ByteOrderMismatch),
        target.address_width == host.address_width ==> (compatibility(target, host) is Ok
            <==> target.byte_order == host.byte_order),
        compatibility(target, host) is Ok <==> target == host,
{
}

} // verus!
