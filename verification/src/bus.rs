//! The address bus and the device capability.
//!
//! A bus device is any memory-mapped participant: it answers whether it
//! covers an address for reading or writing, and performs single-byte
//! reads and writes. The bus owns an ordered list of registered devices;
//! registration order decides read-dispatch priority (first match wins)
//! and the order of write fan-out (every match is written).

use vstd::prelude::*;

verus! {

/// A location on the sixteen-bit address bus: the full range 0..=0xFFFF.
pub type Address = u16;

/// The unit of storage and transfer on the bus.
pub type Data = u8;

/// The capability of a memory-mapped participant.
///
/// The three spec functions form the device's model: which addresses it
/// covers for reading and for writing, and the byte visible at each
/// address. `do_write` is specified relationally through
/// [`device_write_rel`]: it stores the byte at the written address and
/// leaves every other observation unchanged, so a write followed by a
/// read of the same address returns the written byte.
pub trait BusDevice: Sized {
    /// Whether the device covers `address` for reading.
    spec fn readable_for(&self, address: Address) -> bool;

    /// Whether the device covers `address` for writing.
    spec fn writable_for(&self, address: Address) -> bool;

    /// The byte the device shows at `address`; meaningful where
    /// `readable_for(address)` holds.
    spec fn value_at(&self, address: Address) -> Data;

    fn is_readable_for(&self, address: Address) -> (r: bool)
        ensures
            r == self.readable_for(address),
    ;

    fn is_writable_for(&self, address: Address) -> (r: bool)
        ensures
            r == self.writable_for(address),
    ;

    fn do_read(&self, address: Address) -> (r: Data)
        requires
            self.readable_for(address),
        ensures
            r == self.value_at(address),
    ;

    fn do_write(&mut self, address: Address, data: Data)
        requires
            old(self).writable_for(address),
        ensures
            final(self).value_at(address) == data,
            forall|a: Address|
                a != address ==> #[trigger] final(self).value_at(a) == old(self).value_at(a),
            forall|a: Address|
                #[trigger] final(self).readable_for(a) == old(self).readable_for(a),
            forall|a: Address|
                #[trigger] final(self).writable_for(a) == old(self).writable_for(a),
    ;
}

/// How a single write at `address` changes one device: the written
/// address now shows `data`, every other address shows what it showed
/// before, and the covered ranges do not move.
pub open spec fn device_write_rel<D: BusDevice>(
    pre: D,
    post: D,
    address: Address,
    data: Data,
) -> bool {
    &&& post.value_at(address) == data
    &&& forall|a: Address| a != address ==> #[trigger] post.value_at(a) == pre.value_at(a)
    &&& forall|a: Address| #[trigger] post.readable_for(a) == pre.readable_for(a)
    &&& forall|a: Address| #[trigger] post.writable_for(a) == pre.writable_for(a)
}

/// The byte a read of `address` returns when dispatch starts at device
/// `i`: the value of the first device from `i` on that covers the
/// address, or 0 once the list is exhausted (a floating bus, not an
/// error).
pub open spec fn bus_read_from<D: BusDevice>(devices: Seq<D>, address: Address, i: int) -> Data
    decreases devices.len() - i,
{
    if i < 0 || i >= devices.len() {
        0
    } else if devices[i].readable_for(address) {
        devices[i].value_at(address)
    } else {
        bus_read_from(devices, address, i + 1)
    }
}

/// The byte a bus read of `address` returns: first match in registration
/// order, 0 when no registered device covers the address.
pub open spec fn spec_bus_read<D: BusDevice>(devices: Seq<D>, address: Address) -> Data {
    bus_read_from(devices, address, 0)
}

/// How a bus write at `address` changes the device list: every device
/// that covers the address for writing takes the byte (fan-out), every
/// other device is untouched, and no device joins or leaves.
pub open spec fn bus_write_rel<D: BusDevice>(
    pre: Seq<D>,
    post: Seq<D>,
    address: Address,
    data: Data,
) -> bool {
    &&& post.len() == pre.len()
    &&& forall|i: int|
        0 <= i < pre.len() && !(#[trigger] pre[i].writable_for(address)) ==> post[i] == pre[i]
    &&& forall|i: int|
        0 <= i < pre.len() && (#[trigger] pre[i].writable_for(address)) ==> device_write_rel(
            pre[i],
            post[i],
            address,
            data,
        )
}

/// Routes reads and writes by address to an ordered collection of
/// devices.
pub trait Bus<D: BusDevice>: Sized {
    /// The registered devices, in registration order.
    spec fn devices(&self) -> Seq<D>;

    /// First-match read: the first registered device covering `address`
    /// answers; with no match the read returns 0.
    fn read(&self, address: Address) -> (r: Data)
        ensures
            r == spec_bus_read(self.devices(), address),
    ;

    /// Fan-out write: every registered device covering `address` takes
    /// the byte; with no match the write changes nothing.
    fn write(&mut self, address: Address, data: Data)
        ensures
            bus_write_rel(old(self).devices(), final(self).devices(), address, data),
            (forall|i: int|
                0 <= i < old(self).devices().len() ==> !(#[trigger] old(self).devices()[i]
                    .writable_for(address))) ==> final(self).devices() == old(self).devices(),
    ;

    /// Appends `device` to the registration list. No de-duplication and
    /// no overlap validation: overlap is resolved by order.
    fn register_device(&mut self, device: D)
        ensures
            final(self).devices() == old(self).devices().push(device),
    ;
}

/// A bus that owns its devices in a vector, in registration order.
pub struct SimpleBus<D: BusDevice> {
    pub registered: Vec<D>,
}

impl<D: BusDevice> Bus<D> for SimpleBus<D> {
    open spec fn devices(&self) -> Seq<D> {
        self.registered@
    }

    #[verifier::loop_isolation(false)]
    fn read(&self, address: Address) -> (r: Data) {
        let n = self.registered.len();
        let mut i: usize = 0;
        while i < n
            invariant
                n == self.registered@.len(),
                0 <= i <= n,
                forall|j: int| 0 <= j < i ==> !(#[trigger] self.registered@[j].readable_for(
                    address,
                )),
            decreases n - i,
        {
            let d = &self.registered[i];
            if d.is_readable_for(address) {
                let r = d.do_read(address);
                proof {
                    lemma_bus_read_prefix(self.registered@, address, i as int);
                }
                return r;
            }
            i += 1;
        }
        proof {
            lemma_bus_read_prefix(self.registered@, address, n as int);
        }
        0
    }

    #[verifier::loop_isolation(false)]
    fn write(&mut self, address: Address, data: Data) {
        let ghost pre: Seq<D> = self.registered@;
        let n = self.registered.len();
        let mut i: usize = 0;
        while i < n
            invariant
                self.registered@.len() == pre.len(),
                0 <= i <= n,
                forall|j: int| i <= j < pre.len() ==> #[trigger] self.registered@[j] == pre[j],
                forall|j: int|
                    0 <= j < i && !(#[trigger] pre[j].writable_for(address))
                        ==> self.registered@[j] == pre[j],
                forall|j: int|
                    0 <= j < i && (#[trigger] pre[j].writable_for(address)) ==> device_write_rel(
                        pre[j],
                        self.registered@[j],
                        address,
                        data,
                    ),
            decreases n - i,
        {
            let ghost before: Seq<D> = self.registered@;
            let writable = {
                let d = &self.registered[i];
                d.is_writable_for(address)
            };
            if writable {
                let mut d = self.registered.remove(i);
                d.do_write(address, data);
                self.registered.insert(i, d);
                proof {
                    assert(self.registered@ =~= before.update(i as int, d));
                }
            }
            i += 1;
        }
        proof {
            if forall|j: int| 0 <= j < pre.len() ==> !(#[trigger] pre[j].writable_for(address)) {
                assert forall|j: int| 0 <= j < pre.len() implies self.registered@[j] == pre[j] by {
                    assert(!pre[j].writable_for(address));
                }
                assert(self.registered@ =~= pre);
            }
        }
    }

    fn register_device(&mut self, device: D) {
        self.registered.push(device);
    }
}

/// Dispatch that has passed the first `i` devices without a match
/// returns what dispatch over the whole list returns.
proof fn lemma_bus_read_prefix<D: BusDevice>(devices: Seq<D>, address: Address, i: int)
    requires
        0 <= i <= devices.len(),
        forall|j: int| 0 <= j < i ==> !(#[trigger] devices[j].readable_for(address)),
    ensures
        spec_bus_read(devices, address) == bus_read_from(devices, address, i),
    decreases i,
{
    if i > 0 {
        lemma_bus_read_prefix(devices, address, i - 1);
    }
}

/// Bus miss on read: an address no registered device covers reads as 0.
pub proof fn lemma_bus_read_miss<D: BusDevice>(devices: Seq<D>, address: Address)
    requires
        forall|i: int| 0 <= i < devices.len() ==> !(#[trigger] devices[i].readable_for(address)),
    ensures
        spec_bus_read(devices, address) == 0,
{
    lemma_bus_read_prefix(devices, address, devices.len() as int);
}

/// Write fan-out meets read first-match: when the first device covering
/// `address` for reading (device `i`, with no earlier match) also covers
/// it for writing, a bus write of `data` at `address` followed by a bus
/// read of `address` returns `data`.
pub proof fn lemma_bus_write_then_read<D: BusDevice>(
    pre: Seq<D>,
    post: Seq<D>,
    i: int,
    address: Address,
    data: Data,
)
    requires
        bus_write_rel(pre, post, address, data),
        0 <= i < pre.len(),
        forall|j: int| 0 <= j < i ==> !(#[trigger] pre[j].readable_for(address)),
        pre[i].readable_for(address),
        pre[i].writable_for(address),
    ensures
        spec_bus_read(post, address) == data,
{
    assert forall|j: int| 0 <= j < i implies !(#[trigger] post[j].readable_for(address)) by {
        if pre[j].writable_for(address) {
            assert(device_write_rel(pre[j], post[j], address, data));
        }
    }
    lemma_bus_read_prefix(post, address, i);
    assert(device_write_rel(pre[i], post[i], address, data));
}

} // verus!
