//! Parameters of the events that tell of connections: what follows the
//! header of the event.

use vstd::prelude::*;
use smallvec::SmallVec;
use crate::codec::UnpackerView;
use crate::hci::conn::{duration_10ms, duration_1250us, ConnHandle};
use crate::hci::consts::{EventCode, Role, Status};
use crate::hci::event::{Event, EventType, EventView, SubeventCode};
use crate::le::{Addr, RawAddr};

verus! {

/// The six bytes of a device address that `p` begins with, or six zeros
/// where `p` holds fewer.
pub open spec fn spec_addr(p: UnpackerView) -> Seq<u8> {
    if p.has(6) {
        p.bytes.take(6)
    } else {
        Seq::new(6, |i: int| 0u8)
    }
}

/// The clock accuracy in parts per million that the code `v` stands for, or
/// zero for a code that stands for none.
pub open spec fn spec_clock_accuracy(v: u8) -> u16 {
    match v {
        0x00 => 500,
        0x01 => 250,
        0x02 => 150,
        0x03 => 100,
        0x04 => 75,
        0x05 => 50,
        0x06 => 30,
        0x07 => 20,
        _ => 0,
    }
}

/// Returns the clock accuracy in parts per million that the code `v` stands
/// for.
#[verifier::when_used_as_spec(spec_clock_accuracy)]
pub fn clock_accuracy(v: u8) -> (r: u16)
    ensures
        r == spec_clock_accuracy(v),
{
    match v {
        0x00 => 500,
        0x01 => 250,
        0x02 => 150,
        0x03 => 100,
        0x04 => 75,
        0x05 => 50,
        0x06 => 30,
        0x07 => 20,
        _ => 0,
    }
}

/// `HCI_LE_Connection_Complete` and `HCI_LE_Enhanced_Connection_Complete` event
/// parameters. The interval and the timeout are in microseconds.
#[derive(Clone, Copy, Debug)]
pub struct LeConnectionComplete {
    pub status: Status,
    pub handle: ConnHandle,
    pub role: Role,
    pub peer_addr: Addr,
    pub local_rpa: RawAddr,
    pub peer_rpa: RawAddr,
    pub conn_interval: u64,
    pub peripheral_latency: u16,
    pub supervision_timeout: u64,
    pub central_clock_accuracy: u16,
}

impl LeConnectionComplete {
    /// Whether the event is one of the two that tell of an LE connection.
    pub open spec fn spec_matches(typ: EventType) -> bool {
        typ == EventType::Le(SubeventCode::ConnectionComplete) || typ == EventType::Le(
            SubeventCode::EnhancedConnectionComplete,
        )
    }

    /// The parameters of the event `e` from the connection interval on: they
    /// follow the role, the type of the peer address, and the peer address,
    /// and in the enhanced event the two resolvable private addresses.
    pub open spec fn spec_tail(e: EventView) -> UnpackerView {
        let p = e.params.advance(1).advance(1).advance(6);
        if e.typ == EventType::Le(SubeventCode::EnhancedConnectionComplete) {
            p.advance(6).advance(6)
        } else {
            p
        }
    }

    /// What is left of the parameters of the event `e`.
    pub open spec fn spec_rest(e: EventView) -> UnpackerView {
        LeConnectionComplete::spec_tail(e).advance(2).advance(2).advance(2).advance(1)
    }

    /// Whether the event `e` holds the parameters of a connection: it is one
    /// of the two events, its role is one of the two roles, and the type of
    /// its peer address is one of the four types.
    pub open spec fn spec_valid(e: EventView) -> bool {
        &&& LeConnectionComplete::spec_matches(e.typ)
        &&& Role::spec_from_raw(e.params.value(1) as u8).is_some()
        &&& e.params.advance(1).value(1) <= 3
    }

    /// Returns whether events of type `typ` tell of an LE connection.
    #[verifier::when_used_as_spec(spec_matches)]
    pub fn matches(typ: EventType) -> (r: bool)
        ensures
            r == LeConnectionComplete::spec_matches(typ),
    {
        matches!(
            typ,
            EventType::Le(SubeventCode::ConnectionComplete | SubeventCode::EnhancedConnectionComplete)
        )
    }

    /// Reads the parameters of a connection from the event `e`. It returns
    /// `None` where the event holds none. An event of another type is left as
    /// it is; of any other, all parameters are read.
    pub fn from(e: &mut Event) -> (r: Option<LeConnectionComplete>)
        ensures
            r.is_some() == LeConnectionComplete::spec_valid(old(e)@),
            final(e)@ == if LeConnectionComplete::spec_matches(old(e)@.typ) {
                EventView { params: LeConnectionComplete::spec_rest(old(e)@), ..old(e)@ }
            } else {
                old(e)@
            },
            r matches Some(c) ==> {
                let v = old(e)@;
                let p = v.params;
                let tail = LeConnectionComplete::spec_tail(v);
                let enhanced = v.typ == EventType::Le(SubeventCode::EnhancedConnectionComplete);
                &&& c.status == v.status
                &&& c.handle.raw() == v.handle
                &&& Some(c.role) == Role::spec_from_raw(p.value(1) as u8)
                &&& c.peer_addr.is_random() == (p.advance(1).value(1) % 2 == 1)
                &&& c.peer_addr.raw()@ == spec_addr(p.advance(1).advance(1))
                &&& c.local_rpa@ == if enhanced {
                    spec_addr(p.advance(1).advance(1).advance(6))
                } else {
                    Seq::new(6, |i: int| 0u8)
                }
                &&& c.peer_rpa@ == if enhanced {
                    spec_addr(p.advance(1).advance(1).advance(6).advance(6))
                } else {
                    Seq::new(6, |i: int| 0u8)
                }
                &&& c.conn_interval == tail.value(2) * 1250
                &&& c.peripheral_latency == tail.advance(2).value(2)
                &&& c.supervision_timeout == tail.advance(2).advance(2).value(2) * 10_000
                &&& c.central_clock_accuracy == spec_clock_accuracy(
                    tail.advance(2).advance(2).advance(2).value(1) as u8,
                )
            },
    {
        let typ = e.typ();
        if !LeConnectionComplete::matches(typ) {
            return None;
        }
        let role = Role::from_raw(e.params.u8());
        let peer_type = e.params.u8();
        let peer_raw = e.addr();
        let (local_rpa, peer_rpa) = match typ {
            EventType::Le(SubeventCode::EnhancedConnectionComplete) => {
                let a = e.addr();
                let b = e.addr();
                (a, b)
            },
            _ => (RawAddr::default(), RawAddr::default()),
        };
        let conn_interval = duration_1250us(e.params.u16());
        let peripheral_latency = e.params.u16();
        let supervision_timeout = duration_10ms(e.params.u16());
        let central_clock_accuracy = clock_accuracy(e.params.u8());
        let role = match role {
            Some(r) => r,
            None => {
                return None;
            },
        };
        let peer_addr = match Addr::peer(peer_type, peer_raw) {
            Some(a) => a,
            None => {
                return None;
            },
        };
        Some(
            LeConnectionComplete {
                status: e.status(),
                handle: ConnHandle::new(e.handle),
                role,
                peer_addr,
                local_rpa,
                peer_rpa,
                conn_interval,
                peripheral_latency,
                supervision_timeout,
                central_clock_accuracy,
            },
        )
    }
}

/// `HCI_Disconnection_Complete` event parameters.
#[derive(Clone, Copy, Debug)]
pub struct DisconnectionComplete {
    pub status: Status,
    pub handle: ConnHandle,
    pub reason: Status,
}

impl DisconnectionComplete {
    /// Returns whether events with the code `c` tell of a disconnection.
    pub fn matches(c: EventCode) -> (r: bool)
        ensures
            r == (c == EventCode::DisconnectionComplete),
    {
        matches!(c, EventCode::DisconnectionComplete)
    }

    /// Reads the parameters of a disconnection from the event `e`. It
    /// returns `None`, and leaves the event as it is, where the event has no
    /// valid connection handle.
    pub fn unpack(e: &mut Event) -> (r: Option<DisconnectionComplete>)
        ensures
            r.is_some() == old(e)@.conn_handle().is_some(),
            r.is_none() ==> final(e)@ == old(e)@,
            r matches Some(d) ==> d.status == old(e)@.status && Some(d.handle.raw()) == old(
                e,
            )@.conn_handle() && d.reason == Status::spec_from_raw(old(e)@.params.value(1) as u8)
                && final(e)@ == (EventView { params: old(e)@.params.advance(1), ..old(e)@ }),
    {
        let handle = match e.conn_handle() {
            Some(h) => h,
            None => {
                return None;
            },
        };
        let reason = Status::from_raw(e.params.u8());
        Some(DisconnectionComplete { status: e.status(), handle, reason })
    }
}

/// `HCI_Number_Of_Completed_Packets` event parameters: for each connection,
/// its handle and the number of packets that the controller has completed. The
/// pairs are held in a vector of the `smallvec` crate, which Verus does not
/// read.
#[verifier::external_body]
pub struct NumberOfCompletedPackets {
    v: SmallVec<[(u16, u16); 4]>,
}

/// The pairs of connection handle and number of packets that the parameters
/// hold, in their order.
pub uninterp spec fn completed(p: NumberOfCompletedPackets) -> Seq<(u16, u16)>;

/// Creates the parameters without pairs, with `SmallVec::with_capacity`: the
/// vector holds no item, whatever the capacity.
#[verifier::external_body]
fn completed_with_capacity(n: usize) -> (r: NumberOfCompletedPackets)
    ensures
        completed(r) == Seq::<(u16, u16)>::empty(),
{
    NumberOfCompletedPackets { v: SmallVec::with_capacity(n) }
}

/// Appends a pair with `SmallVec::push`: the vector then holds the pairs that
/// it held, and the new pair after them.
#[verifier::external_body]
fn completed_push(p: &mut NumberOfCompletedPackets, pair: (u16, u16))
    ensures
        completed(*final(p)) == completed(*old(p)).push(pair),
{
    p.v.push(pair);
}

/// Returns the number of pairs with `SmallVec::len`.
#[verifier::external_body]
fn completed_len(p: &NumberOfCompletedPackets) -> (r: usize)
    ensures
        r == completed(*p).len(),
{
    p.v.len()
}

/// Returns the pair at index `i` by indexing the vector, which hands out the
/// item at that place.
#[verifier::external_body]
fn completed_at(p: &NumberOfCompletedPackets, i: usize) -> (r: (u16, u16))
    requires
        i < completed(*p).len(),
    ensures
        r == completed(*p)[i as int],
{
    p.v[i]
}

/// The pairs among the next `n` pairs of `p` that have a valid connection
/// handle.
pub open spec fn spec_completed(p: UnpackerView, n: nat) -> Seq<(u16, u16)>
    decreases n,
{
    if n == 0 {
        Seq::empty()
    } else {
        let h = p.value(2) as u16;
        let c = p.advance(2).value(2) as u16;
        let rest = spec_completed(p.advance(2).advance(2), (n - 1) as nat);
        if h >> 12 == 0 {
            seq![(h, c)] + rest
        } else {
            rest
        }
    }
}

/// What is left of `p` after `n` pairs.
pub open spec fn spec_completed_rest(p: UnpackerView, n: nat) -> UnpackerView
    decreases n,
{
    if n == 0 {
        p
    } else {
        spec_completed_rest(p.advance(2).advance(2), (n - 1) as nat)
    }
}

impl NumberOfCompletedPackets {
    /// Returns whether events with the code `c` tell the number of completed
    /// packets.
    pub fn matches(c: EventCode) -> (r: bool)
        ensures
            r == (c == EventCode::NumberOfCompletedPackets),
    {
        matches!(c, EventCode::NumberOfCompletedPackets)
    }

    /// Reads the parameters from the event `e`: the number of pairs, and the
    /// pairs, of which those with a valid connection handle are kept.
    pub fn unpack(e: &mut Event) -> (r: NumberOfCompletedPackets)
        ensures
            completed(r) == spec_completed(
                old(e)@.params.advance(1),
                old(e)@.params.value(1),
            ),
            final(e)@ == (EventView {
                params: spec_completed_rest(old(e)@.params.advance(1), old(e)@.params.value(1)),
                ..old(e)@
            }),
    {
        let n = e.params.u8() as usize;
        let mut v = completed_with_capacity(n);
        let ghost start = e@.params;
        let mut i: usize = 0;
        while i < n
            invariant
                i <= n,
                e@ == (EventView { params: e@.params, ..old(e)@ }),
                completed(v) + spec_completed(e@.params, (n - i) as nat) == spec_completed(
                    start,
                    n as nat,
                ),
                spec_completed_rest(e@.params, (n - i) as nat) == spec_completed_rest(
                    start,
                    n as nat,
                ),
            decreases n - i,
        {
            let ghost before = completed(v);
            let ghost p = e@.params;
            let h = e.params.u16();
            let c = e.params.u16();
            if ConnHandle::new(h).is_valid() {
                completed_push(&mut v, (h, c));
            }
            proof {
                let rest = spec_completed(p.advance(2).advance(2), (n - i - 1) as nat);
                if h >> 12 == 0 {
                    assert(before.push((h, c)) + rest =~= before + (seq![(h, c)] + rest));
                }
            }
            i += 1;
        }
        assert(completed(v) + Seq::<(u16, u16)>::empty() =~= completed(v));
        v
    }

    /// Returns the number of pairs.
    pub fn len(&self) -> (r: usize)
        ensures
            r == completed(*self).len(),
    {
        completed_len(self)
    }

    /// Returns the pair at index `i`: the connection handle and the number of
    /// packets. It returns `None` where there is no such pair.
    pub fn get(&self, i: usize) -> (r: Option<(ConnHandle, u16)>)
        ensures
            r.is_some() == (i < completed(*self).len()),
            r matches Some(pair) ==> (pair.0.raw(), pair.1) == completed(*self)[i as int],
    {
        if i < completed_len(self) {
            let (h, c) = completed_at(self, i);
            Some((ConnHandle::new(h), c))
        } else {
            None
        }
    }
}

} // verus!
