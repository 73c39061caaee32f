//! HCI commands: the parameters of each command as bytes, and the return
//! parameters of the commands that have any.

use vstd::prelude::*;
use crate::codec::{
    le_seq, lemma_le_nat_of_le_seq, lemma_le_nat_one, lemma_le_seq_len, lemma_pow256_values,
    Packer, UnpackerView, HCI_PARAM_LIM,
};
use crate::crypto::LTK;
use crate::hci::conn::{ticks_10ms, ticks_1250us, ticks_625us, AdvHandle, ConnHandle};
use crate::hci::consts::{
    AdvAddrType, AdvChanMap, AdvDataOp, AdvFilterPolicy, AdvPhy, AdvProp, EventMask, Opcode, Status,
};
use crate::hci::event::{Event, EventView, SubeventCode};
use crate::le::{Addr, RawAddr, TxPower};

verus! {

/// One parameter of a command, by the way it is written.
pub enum Field {
    U8(u8),
    U16(u16),
    U24(u32),
    U64(u64),
    U128(u128),
    I8(i8),
    Bool(bool),
    Bytes(Seq<u8>),
}

impl Field {
    /// Whether the parameter can be written: three bytes hold a value below
    /// `2^24`.
    pub open spec fn ok(self) -> bool {
        self matches Field::U24(v) ==> v < 0x100_0000
    }

    /// The bytes of the parameter.
    pub open spec fn bytes(self) -> Seq<u8> {
        match self {
            Field::U8(v) => seq![v],
            Field::U16(v) => le_seq(v as nat, 2),
            Field::U24(v) => le_seq(v as nat, 3),
            Field::U64(v) => le_seq(v as nat, 8),
            Field::U128(v) => le_seq(v as nat, 16),
            Field::I8(v) => seq![v as u8],
            Field::Bool(v) => seq![if v { 1u8 } else { 0u8 }],
            Field::Bytes(v) => v,
        }
    }

    /// The number of bytes of the parameter.
    pub open spec fn len(self) -> nat {
        match self {
            Field::U8(_) | Field::I8(_) | Field::Bool(_) => 1,
            Field::U16(_) => 2,
            Field::U24(_) => 3,
            Field::U64(_) => 8,
            Field::U128(_) => 16,
            Field::Bytes(v) => v.len(),
        }
    }

    /// A parameter of the same kind and length as this one, read from `p`,
    /// and what is left of `p`.
    pub open spec fn read(self, p: UnpackerView) -> (Field, UnpackerView) {
        (
            match self {
                Field::U8(_) => Field::U8(p.value(1) as u8),
                Field::U16(_) => Field::U16(p.value(2) as u16),
                Field::U24(_) => Field::U24(p.value(3) as u32),
                Field::U64(_) => Field::U64(p.value(8) as u64),
                Field::U128(_) => Field::U128(p.value(16) as u128),
                Field::I8(_) => Field::I8((p.value(1) as u8) as i8),
                Field::Bool(_) => Field::Bool(p.value(1) != 0),
                Field::Bytes(v) => Field::Bytes(
                    if p.has(v.len()) {
                        p.bytes.take(v.len() as int)
                    } else {
                        Seq::new(v.len(), |i: int| 0u8)
                    },
                ),
            },
            p.advance(self.len()),
        )
    }

    /// The number of bytes of a parameter is the length of its bytes.
    pub proof fn lemma_len(self)
        ensures
            self.bytes().len() == self.len(),
    {
        match self {
            Field::U16(v) => lemma_le_seq_len(v as nat, 2),
            Field::U24(v) => lemma_le_seq_len(v as nat, 3),
            Field::U64(v) => lemma_le_seq_len(v as nat, 8),
            Field::U128(v) => lemma_le_seq_len(v as nat, 16),
            _ => {},
        }
    }

    /// A parameter that is read from its own bytes is the parameter, and
    /// what follows the bytes is left.
    pub proof fn lemma_round_trip(self, rest: Seq<u8>, ok: bool)
        requires
            self.ok(),
        ensures
            self.read(UnpackerView { bytes: self.bytes() + rest, ok }) == (
                self,
                UnpackerView { bytes: rest, ok },
            ),
    {
        lemma_pow256_values();
        let p = UnpackerView { bytes: self.bytes() + rest, ok };
        self.lemma_len();
        assert(p.bytes.take(self.len() as int) =~= self.bytes());
        assert(p.bytes.skip(self.len() as int) =~= rest);
        match self {
            Field::U8(v) => {
                lemma_le_nat_one(v);
            },
            Field::U16(v) => lemma_le_nat_of_le_seq(v as nat, 2),
            Field::U24(v) => lemma_le_nat_of_le_seq(v as nat, 3),
            Field::U64(v) => lemma_le_nat_of_le_seq(v as nat, 8),
            Field::U128(v) => lemma_le_nat_of_le_seq(v as nat, 16),
            Field::I8(v) => {
                lemma_le_nat_one(v as u8);
                assert((v as u8) as i8 == v) by (bit_vector);
            },
            Field::Bool(v) => {
                lemma_le_nat_one(if v { 1u8 } else { 0u8 });
            },
            Field::Bytes(v) => {},
        }
    }
}

/// The bytes of the parameters `fs`, one after the other.
pub open spec fn block_bytes(fs: Seq<Field>) -> Seq<u8>
    decreases fs.len(),
{
    if fs.len() == 0 {
        Seq::empty()
    } else {
        fs[0].bytes() + block_bytes(fs.drop_first())
    }
}

/// Parameters of the same kinds and lengths as `like`, read from `p` one
/// after the other, and what is left of `p`.
pub open spec fn read_block(like: Seq<Field>, p: UnpackerView) -> (Seq<Field>, UnpackerView)
    decreases like.len(),
{
    if like.len() == 0 {
        (Seq::empty(), p)
    } else {
        let (f, p1) = like[0].read(p);
        let (rest, p2) = read_block(like.drop_first(), p1);
        (seq![f] + rest, p2)
    }
}

/// The parameters of a command that are read from their own bytes are the
/// parameters, and what follows the bytes is left.
pub proof fn lemma_block_round_trip(fs: Seq<Field>, rest: Seq<u8>, ok: bool)
    requires
        forall|i: int| 0 <= i < fs.len() ==> (#[trigger] fs[i]).ok(),
    ensures
        read_block(fs, UnpackerView { bytes: block_bytes(fs) + rest, ok }) == (
            fs,
            UnpackerView { bytes: rest, ok },
        ),
    decreases fs.len(),
{
    if fs.len() > 0 {
        let tail = fs.drop_first();
        let mid = block_bytes(tail) + rest;
        assert(block_bytes(fs) + rest =~= fs[0].bytes() + mid);
        fs[0].lemma_round_trip(mid, ok);
        assert forall|i: int| 0 <= i < tail.len() implies (#[trigger] tail[i]).ok() by {
            assert(tail[i] == fs[i + 1]);
        }
        lemma_block_round_trip(tail, rest, ok);
        assert(seq![fs[0]] + tail =~= fs);
    } else {
        assert(block_bytes(fs) + rest =~= rest);
    }
}

/// The bytes of parameters with one more parameter at their end.
pub proof fn lemma_block_push(fs: Seq<Field>, f: Field)
    ensures
        block_bytes(fs.push(f)) == block_bytes(fs) + f.bytes(),
    decreases fs.len(),
{
    if fs.len() == 0 {
        assert(fs.push(f).drop_first() =~= Seq::<Field>::empty());
        assert(block_bytes(fs.push(f).drop_first()) =~= Seq::<u8>::empty());
        assert(fs.push(f)[0] == f);
        assert(block_bytes(fs) =~= Seq::<u8>::empty());
        assert(f.bytes() + Seq::<u8>::empty() =~= Seq::<u8>::empty() + f.bytes());
    } else {
        lemma_block_push(fs.drop_first(), f);
        assert(fs.push(f).drop_first() =~= fs.drop_first().push(f));
        assert(fs.push(f)[0] == fs[0]);
        assert(fs[0].bytes() + (block_bytes(fs.drop_first()) + f.bytes()) =~= (fs[0].bytes()
            + block_bytes(fs.drop_first())) + f.bytes());
    }
}

/// HCI command: the opcode and the parameters, which are at most 255 bytes.
#[derive(Debug)]
pub struct Command {
    opcode: Opcode,
    params: Vec<u8>,
}

impl Command {
    #[verifier::type_invariant]
    spec fn inv(self) -> bool {
        self.params@.len() <= HCI_PARAM_LIM
    }

    /// The opcode of the command.
    pub closed spec fn spec_opcode(&self) -> Opcode {
        self.opcode
    }

    /// The parameters of the command.
    pub closed spec fn spec_params(&self) -> Seq<u8> {
        self.params@
    }

    /// The bytes of the command on the wire: the opcode, the number of the
    /// bytes of the parameters, and the parameters.
    pub open spec fn spec_packet(&self) -> Seq<u8> {
        le_seq(self.spec_opcode().raw() as nat, 2) + seq![self.spec_params().len() as u8]
            + self.spec_params()
    }

    /// Returns the opcode of the command.
    #[verifier::when_used_as_spec(spec_opcode)]
    pub fn opcode(&self) -> (r: Opcode)
        ensures
            r == self.spec_opcode(),
    {
        self.opcode
    }

    /// Returns the parameters of the command.
    pub fn params(&self) -> (r: &[u8])
        ensures
            r@ == self.spec_params(),
            r@.len() <= HCI_PARAM_LIM,
    {
        proof {
            use_type_invariant(self);
        }
        self.params.as_slice()
    }

    /// Returns the bytes of the command on the wire.
    pub fn packet(&self) -> (r: Vec<u8>)
        ensures
            r@ == self.spec_packet(),
            r@.len() == 3 + self.spec_params().len(),
    {
        proof {
            use_type_invariant(self);
            lemma_le_seq_len(self.opcode.raw() as nat, 2);
        }
        let p = Packer::new(258).u16(self.opcode.raw()).u8(self.params.len() as u8).put(
            self.params.as_slice(),
        );
        assert(p@ =~= self.spec_packet());
        p.into_vec()
    }
}

/// The parameters of a command while they are written.
struct Block {
    p: Packer,
    fs: Ghost<Seq<Field>>,
}

impl Block {
    /// Whether the bytes written are those of the parameters.
    spec fn wf(&self) -> bool {
        self.p@ == block_bytes(self.fs@) && self.p.lim() == HCI_PARAM_LIM
    }

    fn new() -> (r: Block)
        ensures
            r.wf(),
            r.fs@ == Seq::<Field>::empty(),
            r.p@.len() == 0,
    {
        Block { p: Packer::hci(), fs: Ghost(Seq::empty()) }
    }

    fn u8(self, v: u8) -> (r: Block)
        requires
            self.wf(),
            self.p@.len() + 1 <= HCI_PARAM_LIM,
        ensures
            r.wf(),
            r.fs@ == self.fs@.push(Field::U8(v)),
            r.p@.len() == self.p@.len() + 1,
    {
        proof {
            lemma_block_push(self.fs@, Field::U8(v));
        }
        let p = self.p.u8(v);
        assert(p@ =~= self.p@ + Field::U8(v).bytes());
        Block { p, fs: Ghost(self.fs@.push(Field::U8(v))) }
    }

    fn i8(self, v: i8) -> (r: Block)
        requires
            self.wf(),
            self.p@.len() + 1 <= HCI_PARAM_LIM,
        ensures
            r.wf(),
            r.fs@ == self.fs@.push(Field::I8(v)),
            r.p@.len() == self.p@.len() + 1,
    {
        proof {
            lemma_block_push(self.fs@, Field::I8(v));
        }
        let p = self.p.i8(v);
        assert(p@ =~= self.p@ + Field::I8(v).bytes());
        Block { p, fs: Ghost(self.fs@.push(Field::I8(v))) }
    }

    fn bool(self, v: bool) -> (r: Block)
        requires
            self.wf(),
            self.p@.len() + 1 <= HCI_PARAM_LIM,
        ensures
            r.wf(),
            r.fs@ == self.fs@.push(Field::Bool(v)),
            r.p@.len() == self.p@.len() + 1,
    {
        proof {
            lemma_block_push(self.fs@, Field::Bool(v));
        }
        let p = self.p.bool(v);
        assert(p@ =~= self.p@ + Field::Bool(v).bytes());
        Block { p, fs: Ghost(self.fs@.push(Field::Bool(v))) }
    }

    fn u16(self, v: u16) -> (r: Block)
        requires
            self.wf(),
            self.p@.len() + 2 <= HCI_PARAM_LIM,
        ensures
            r.wf(),
            r.fs@ == self.fs@.push(Field::U16(v)),
            r.p@.len() == self.p@.len() + 2,
    {
        proof {
            lemma_block_push(self.fs@, Field::U16(v));
        }
        Block { p: self.p.u16(v), fs: Ghost(self.fs@.push(Field::U16(v))) }
    }

    fn u24(self, v: u32) -> (r: Block)
        requires
            self.wf(),
            self.p@.len() + 3 <= HCI_PARAM_LIM,
            v < 0x100_0000,
        ensures
            r.wf(),
            r.fs@ == self.fs@.push(Field::U24(v)),
            r.p@.len() == self.p@.len() + 3,
    {
        proof {
            lemma_block_push(self.fs@, Field::U24(v));
        }
        Block { p: self.p.u24(v), fs: Ghost(self.fs@.push(Field::U24(v))) }
    }

    fn u64(self, v: u64) -> (r: Block)
        requires
            self.wf(),
            self.p@.len() + 8 <= HCI_PARAM_LIM,
        ensures
            r.wf(),
            r.fs@ == self.fs@.push(Field::U64(v)),
            r.p@.len() == self.p@.len() + 8,
    {
        proof {
            lemma_block_push(self.fs@, Field::U64(v));
        }
        Block { p: self.p.u64(v), fs: Ghost(self.fs@.push(Field::U64(v))) }
    }

    fn u128(self, v: u128) -> (r: Block)
        requires
            self.wf(),
            self.p@.len() + 16 <= HCI_PARAM_LIM,
        ensures
            r.wf(),
            r.fs@ == self.fs@.push(Field::U128(v)),
            r.p@.len() == self.p@.len() + 16,
    {
        proof {
            lemma_block_push(self.fs@, Field::U128(v));
        }
        Block { p: self.p.u128(v), fs: Ghost(self.fs@.push(Field::U128(v))) }
    }

    fn put(self, v: &[u8]) -> (r: Block)
        requires
            self.wf(),
            self.p@.len() + v@.len() <= HCI_PARAM_LIM,
        ensures
            r.wf(),
            r.fs@ == self.fs@.push(Field::Bytes(v@)),
            r.p@.len() == self.p@.len() + v@.len(),
    {
        proof {
            lemma_block_push(self.fs@, Field::Bytes(v@));
        }
        Block { p: self.p.put(v), fs: Ghost(self.fs@.push(Field::Bytes(v@))) }
    }

    fn finish(self, opcode: Opcode) -> (r: Command)
        requires
            self.wf(),
        ensures
            r.opcode() == opcode,
            r.spec_params() == block_bytes(self.fs@),
            r.spec_params().len() == self.p@.len(),
    {
        Command { opcode, params: self.p.into_vec() }
    }
}

/// `HCI_LE_Set_Event_Mask` command parameters.
#[derive(Clone, Copy, Debug, PartialEq, Eq, Structural)]
pub struct LeEventMask {
    pub mask: u64,
}

impl LeEventMask {
    /// The event mask that enables the events of `events`: the union of
    /// their bits.
    pub open spec fn spec_enable(events: Seq<SubeventCode>) -> u64
        decreases events.len(),
    {
        if events.len() == 0 {
            0
        } else {
            LeEventMask::spec_enable(events.drop_last()) | events.last().mask()
        }
    }

    /// Creates an event mask from the events to enable.
    pub fn enable(events: &[SubeventCode]) -> (r: LeEventMask)
        ensures
            r.mask == LeEventMask::spec_enable(events@),
    {
        let mut mask: u64 = 0;
        let mut i: usize = 0;
        assert(events@.take(0) =~= Seq::<SubeventCode>::empty());
        while i < events.len()
            invariant
                i <= events@.len(),
                mask == LeEventMask::spec_enable(events@.take(i as int)),
            decreases events@.len() - i,
        {
            assert(events@.take(i + 1).drop_last() =~= events@.take(i as int));
            mask = mask | events[i].mask();
            i += 1;
        }
        assert(events@.take(events@.len() as int) =~= events@);
        LeEventMask { mask }
    }

    /// The mask enables an event if and only if the event is among those to
    /// enable.
    pub proof fn lemma_enable(events: Seq<SubeventCode>, c: SubeventCode)
        ensures
            (LeEventMask::spec_enable(events) & c.mask() != 0) == events.contains(c),
        decreases events.len(),
    {
        if events.len() == 0 {
            let m = c.mask();
            assert(0u64 & m == 0) by (bit_vector);
        } else {
            let head = events.drop_last();
            let last = events.last();
            LeEventMask::lemma_enable(head, c);
            let a = LeEventMask::spec_enable(head);
            let x = (last.raw() - 1) as u8;
            let y = (c.raw() - 1) as u8;
            assert(((a | (1u64 << x)) & (1u64 << y) != 0) == ((a & (1u64 << y) != 0) || x == y))
                by (bit_vector)
                requires
                    x < 64,
                    y < 64,
            ;
            if x == y {
                SubeventCode::lemma_raw_injective(last, c);
            }
            if head.contains(c) {
                let k = choose|k: int| 0 <= k < head.len() && head[k] == c;
                assert(events[k] == c);
            }
            if events.contains(c) && last != c {
                let k = choose|k: int| 0 <= k < events.len() && events[k] == c;
                assert(head[k] == c);
            }
        }
    }
}

/// `HCI_Host_Buffer_Size` command parameters.
#[derive(Clone, Copy, Debug, PartialEq, Eq, Structural)]
pub struct BufferSize {
    pub acl_data_len: u16,
    pub acl_num_pkts: u16,
}

/// `HCI_LE_Read_Buffer_Size` return parameters. The sizes for isochronous
/// data are zero where the controller answered the first version of the
/// command.
#[derive(Clone, Copy, Debug, PartialEq, Eq, Structural)]
pub struct LeBufferSize {
    pub acl_data_len: u16,
    pub acl_num_pkts: u8,
    pub iso_data_len: u16,
    pub iso_num_pkts: u8,
}

impl LeBufferSize {
    /// The return parameters that the event `e` holds.
    pub open spec fn spec_from(e: EventView) -> LeBufferSize {
        let v2 = e.opcode == Opcode::LeReadBufferSizeV2;
        let p1 = e.params.advance(2);
        let p2 = p1.advance(1);
        LeBufferSize {
            acl_data_len: e.params.value(2) as u16,
            acl_num_pkts: p1.value(1) as u8,
            iso_data_len: if v2 {
                p2.value(2) as u16
            } else {
                0
            },
            iso_num_pkts: if v2 {
                p2.advance(2).value(1) as u8
            } else {
                0
            },
        }
    }

    /// What is left of the parameters of the event `e` after the return
    /// parameters.
    pub open spec fn spec_rest(e: EventView) -> UnpackerView {
        if e.opcode == Opcode::LeReadBufferSizeV2 {
            e.params.advance(2).advance(1).advance(2).advance(1)
        } else {
            e.params.advance(2).advance(1)
        }
    }

    /// Reads the return parameters from the event `e`.
    pub fn from(e: &mut Event) -> (r: LeBufferSize)
        ensures
            r == LeBufferSize::spec_from(old(e)@),
            final(e)@ == (EventView { params: LeBufferSize::spec_rest(old(e)@), ..old(e)@ }),
    {
        let v2 = e.opcode == Opcode::LeReadBufferSizeV2;
        let acl_data_len = e.params.u16();
        let acl_num_pkts = e.params.u8();
        let iso_data_len = if v2 {
            e.params.u16()
        } else {
            0
        };
        let iso_num_pkts = if v2 {
            e.params.u8()
        } else {
            0
        };
        LeBufferSize { acl_data_len, acl_num_pkts, iso_data_len, iso_num_pkts }
    }

    /// Returns whether the first version of the command is to be tried: the
    /// controller does not know the second.
    pub fn retry_v1(status: Status) -> (r: bool)
        ensures
            r == (status == Status::UnknownCommand),
    {
        status == Status::UnknownCommand
    }
}

impl Default for LeBufferSize {
    fn default() -> (r: LeBufferSize)
        ensures
            r == (LeBufferSize { acl_data_len: 0, acl_num_pkts: 0, iso_data_len: 0, iso_num_pkts: 0 }),
    {
        LeBufferSize { acl_data_len: 0, acl_num_pkts: 0, iso_data_len: 0, iso_num_pkts: 0 }
    }
}

/// `HCI_LE_Set_Extended_Advertising_Parameters` command parameters. The
/// intervals are in microseconds.
#[derive(Clone, Copy, Debug)]
pub struct AdvParams {
    pub props: AdvProp,
    pub pri_interval: (u64, u64),
    pub pri_chan_map: AdvChanMap,
    pub addr_type: AdvAddrType,
    pub peer_addr: Addr,
    pub filter_policy: AdvFilterPolicy,
    pub tx_power: Option<TxPower>,
    pub pri_phy: AdvPhy,
    pub sec_max_skip: u8,
    pub sec_phy: AdvPhy,
    pub sid: u8,
    pub scan_request_notify: bool,
}

impl Default for AdvParams {
    fn default() -> (r: AdvParams)
        ensures
            r.props.bits == 0,
            r.pri_interval == (0u64, 0u64),
            r.pri_chan_map.bits == AdvChanMap::ALL,
            r.addr_type == AdvAddrType::Public,
            r.peer_addr is Public,
            r.peer_addr.raw()@ == Seq::new(6, |i: int| 0u8),
            r.filter_policy == AdvFilterPolicy::AcceptAll,
            r.tx_power.is_none(),
            r.pri_phy == AdvPhy::Le1M,
            r.sec_max_skip == 0,
            r.sec_phy == AdvPhy::Le1M,
            r.sid == 0,
            !r.scan_request_notify,
    {
        AdvParams {
            props: AdvProp::default(),
            pri_interval: (0, 0),
            pri_chan_map: AdvChanMap::default(),
            addr_type: AdvAddrType::default(),
            peer_addr: Addr::default(),
            filter_policy: AdvFilterPolicy::default(),
            tx_power: None,
            pri_phy: AdvPhy::default(),
            sec_max_skip: 0,
            sec_phy: AdvPhy::default(),
            sid: 0,
            scan_request_notify: false,
        }
    }
}

/// `HCI_LE_Set_Extended_Advertising_Enable` command parameters. The duration
/// is in microseconds.
#[derive(Clone, Copy, Debug, PartialEq, Eq, Structural)]
pub struct AdvEnableParams {
    pub handle: AdvHandle,
    pub duration: u64,
    pub max_events: u8,
}

impl AdvEnableParams {
    /// Returns the parameters that enable the advertising set `h` without a
    /// limit of time or events.
    pub fn from(h: AdvHandle) -> (r: AdvEnableParams)
        ensures
            r == (AdvEnableParams { handle: h, duration: 0, max_events: 0 }),
    {
        AdvEnableParams { handle: h, duration: 0, max_events: 0 }
    }

    /// Whether the duration can be written: in ticks of 10 ms it fits in 16
    /// bits.
    pub open spec fn spec_ok(self) -> bool {
        self.duration / 10_000 <= 0xFFFF
    }

    /// The parameters as they are written: the handle, the duration in
    /// ticks of 10 ms, and the number of events.
    pub open spec fn fields(self) -> Seq<Field> {
        seq![
            Field::U8(self.handle.raw()),
            Field::U16((self.duration / 10_000) as u16),
            Field::U8(self.max_events),
        ]
    }

    /// Returns whether the duration can be written.
    #[verifier::when_used_as_spec(spec_ok)]
    pub fn ok(self) -> (r: bool)
        ensures
            r == self.spec_ok(),
    {
        ticks_10ms(self.duration).is_some()
    }
}

/// The number of whole 625 µs ticks in `us` microseconds, or zero where it
/// does not fit in 24 bits.
pub open spec fn spec_ticks_625us_or_zero(us: u64) -> u32 {
    if us / 625 <= 0xFF_FFFF {
        (us / 625) as u32
    } else {
        0
    }
}

/// The parameters of `HCI_LE_Set_Extended_Advertising_Parameters` for the
/// advertising set `h`.
///
/// The intervals are written in ticks of 625 µs, as zero where they do not
/// fit in 24 bits. The peer address is written as its type and its bytes.
/// The transmit power is written as the value that tells the controller that
/// the host has no preference where there is none.
pub open spec fn adv_params_fields(h: AdvHandle, p: AdvParams) -> Seq<Field> {
    Seq::<Field>::empty().push(Field::U8(h.raw())).push(Field::U16(p.props.bits)).push(
        Field::U24(spec_ticks_625us_or_zero(p.pri_interval.0)),
    ).push(Field::U24(spec_ticks_625us_or_zero(p.pri_interval.1))).push(
        Field::U8(p.pri_chan_map.bits),
    ).push(Field::U8(p.addr_type.raw())).push(
        Field::U8(
            if p.peer_addr.is_random() {
                1
            } else {
                0
            },
        ),
    ).push(Field::Bytes(p.peer_addr.raw()@)).push(Field::U8(p.filter_policy.raw())).push(
        Field::I8(
            match p.tx_power {
                Some(t) => t.dbm(),
                None => TxPower::NONE,
            },
        ),
    ).push(Field::U8(p.pri_phy.raw())).push(Field::U8(p.sec_max_skip)).push(
        Field::U8(p.sec_phy.raw()),
    ).push(Field::U8(p.sid)).push(Field::Bool(p.scan_request_notify))
}

/// The parameters of `HCI_LE_Set_Extended_Advertising_Enable`: whether to
/// enable, the number of sets, and the parameters of each set.
pub open spec fn adv_enable_fields(enable: bool, cfg: Seq<AdvEnableParams>) -> Seq<Field> {
    seq![Field::Bool(enable), Field::U8(cfg.len() as u8)] + adv_enable_sets(cfg)
}

/// The parameters of the advertising sets `cfg`, one set after the other.
pub open spec fn adv_enable_sets(cfg: Seq<AdvEnableParams>) -> Seq<Field>
    decreases cfg.len(),
{
    if cfg.len() == 0 {
        Seq::empty()
    } else {
        adv_enable_sets(cfg.drop_last()) + cfg.last().fields()
    }
}

/// Returns the command that configures which events can be generated by the
/// controller.
pub fn set_event_mask(enable: &EventMask) -> (r: Command)
    ensures
        r.opcode() == Opcode::SetEventMask,
        r.spec_params() == block_bytes(seq![Field::U64(enable.p1)]),
{
    Block::new().u64(enable.p1).finish(Opcode::SetEventMask)
}

/// Returns the command that resets the controller's link manager, baseband,
/// and link layer.
pub fn reset() -> (r: Command)
    ensures
        r.opcode() == Opcode::Reset,
        r.spec_params() == Seq::<u8>::empty(),
{
    Block::new().finish(Opcode::Reset)
}

/// Returns the command that turns flow control on or off for data sent from
/// the controller to the host.
pub fn set_controller_to_host_flow_control(enable: bool) -> (r: Command)
    ensures
        r.opcode() == Opcode::SetControllerToHostFlowControl,
        r.spec_params() == block_bytes(seq![Field::U8(if enable { 1 } else { 0 })]),
{
    Block::new().u8(if enable { 1 } else { 0 }).finish(Opcode::SetControllerToHostFlowControl)
}

/// Returns the command that sets the maximum size of the data portion of ACL
/// and SCO data packets sent from the controller to the host.
pub fn host_buffer_size(bs: BufferSize) -> (r: Command)
    ensures
        r.opcode() == Opcode::HostBufferSize,
        r.spec_params() == block_bytes(
            seq![
                Field::U16(bs.acl_data_len),
                Field::U8(0),
                Field::U16(bs.acl_num_pkts),
                Field::U16(0),
            ],
        ),
{
    let b = Block::new().u16(bs.acl_data_len).u8(0).u16(bs.acl_num_pkts).u16(0);
    assert(b.fs@ =~= seq![
        Field::U16(bs.acl_data_len),
        Field::U8(0),
        Field::U16(bs.acl_num_pkts),
        Field::U16(0),
    ]);
    b.finish(Opcode::HostBufferSize)
}

/// Returns the command that configures which events of page 2 can be
/// generated by the controller.
pub fn set_event_mask_page_2(enable: &EventMask) -> (r: Command)
    ensures
        r.opcode() == Opcode::SetEventMaskPage2,
        r.spec_params() == block_bytes(seq![Field::U64(enable.p2)]),
{
    Block::new().u64(enable.p2).finish(Opcode::SetEventMaskPage2)
}

/// Returns the command that sets the LE Supported (Host) Link Manager
/// Protocol feature bit.
pub fn write_le_host_support(enable: bool) -> (r: Command)
    ensures
        r.opcode() == Opcode::WriteLeHostSupport,
        r.spec_params() == block_bytes(seq![Field::Bool(enable), Field::U8(0)]),
{
    let b = Block::new().bool(enable).u8(0);
    assert(b.fs@ =~= seq![Field::Bool(enable), Field::U8(0)]);
    b.finish(Opcode::WriteLeHostSupport)
}

/// Returns the command that configures which LE events can be generated by
/// the controller.
pub fn le_set_event_mask(enable: LeEventMask) -> (r: Command)
    ensures
        r.opcode() == Opcode::LeSetEventMask,
        r.spec_params() == block_bytes(seq![Field::U64(enable.mask)]),
{
    Block::new().u64(enable.mask).finish(Opcode::LeSetEventMask)
}

/// Returns the command that asks for the controller's packet size and count
/// limits, in its second version, which tells the limits for isochronous
/// data too, or in its first.
pub fn le_read_buffer_size(v2: bool) -> (r: Command)
    ensures
        r.opcode() == if v2 {
            Opcode::LeReadBufferSizeV2
        } else {
            Opcode::LeReadBufferSize
        },
        r.spec_params() == Seq::<u8>::empty(),
{
    Block::new().finish(
        if v2 {
            Opcode::LeReadBufferSizeV2
        } else {
            Opcode::LeReadBufferSize
        },
    )
}

/// Returns the command that replies to an `HCI_LE_Long_Term_Key_Request`
/// event from the controller, specifying the Long Term Key for the
/// connection, if one is available.
pub fn le_long_term_key_request_reply(cn: ConnHandle, k: Option<&LTK>) -> (r: Command)
    ensures
        match k {
            Some(k) => r.opcode() == Opcode::LeLongTermKeyRequestReply && r.spec_params()
                == block_bytes(seq![Field::U16(cn.raw()), Field::U128(k.raw())]),
            None => r.opcode() == Opcode::LeLongTermKeyRequestNegativeReply && r.spec_params()
                == block_bytes(seq![Field::U16(cn.raw())]),
        },
{
    match k {
        Some(k) => {
            let b = Block::new().u16(cn.raw()).u128(k.raw());
            assert(b.fs@ =~= seq![Field::U16(cn.raw()), Field::U128(k.raw())]);
            b.finish(Opcode::LeLongTermKeyRequestReply)
        },
        None => Block::new().u16(cn.raw()).finish(Opcode::LeLongTermKeyRequestNegativeReply),
    }
}

/// Returns whether the event `e` answers the reply for the connection `cn`:
/// its first return parameter is the handle of the connection.
pub fn le_long_term_key_request_replied(e: &mut Event, cn: ConnHandle) -> (r: bool)
    ensures
        r == (old(e)@.params.value(2) == cn.raw()),
        final(e)@ == (EventView { params: old(e)@.params.advance(2), ..old(e)@ }),
{
    e.params.u16() == cn.raw()
}

/// Returns the command that sets the random device address for an
/// advertising set.
pub fn le_set_advertising_set_random_address(h: AdvHandle, a: RawAddr) -> (r: Command)
    ensures
        r.opcode() == Opcode::LeSetAdvertisingSetRandomAddress,
        r.spec_params() == block_bytes(seq![Field::U8(h.raw()), Field::Bytes(a@)]),
{
    proof {
        a.lemma_len();
    }
    let b = a.as_le_bytes();
    let b = Block::new().u8(h.raw()).put(&b);
    assert(b.fs@ =~= seq![Field::U8(h.raw()), Field::Bytes(a@)]);
    b.finish(Opcode::LeSetAdvertisingSetRandomAddress)
}

/// Returns the command that sets advertising parameters.
pub fn le_set_extended_advertising_parameters(h: AdvHandle, p: AdvParams) -> (r: Command)
    ensures
        r.opcode() == Opcode::LeSetExtendedAdvertisingParameters,
        r.spec_params() == block_bytes(adv_params_fields(h, p)),
        r.spec_params().len() == 25,
{
    proof {
        p.peer_addr.raw().lemma_len();
    }
    let min = match ticks_625us(p.pri_interval.0) {
        Some(t) => t,
        None => 0,
    };
    let max = match ticks_625us(p.pri_interval.1) {
        Some(t) => t,
        None => 0,
    };
    let addr = p.peer_addr.raw().as_le_bytes();
    let b = Block::new().u8(h.raw()).u16(p.props.bits()).u24(min).u24(max).u8(
        p.pri_chan_map.bits(),
    ).u8(p.addr_type.raw()).u8(
        if p.peer_addr.is_random() {
            1
        } else {
            0
        },
    ).put(&addr).u8(p.filter_policy.raw()).i8(
        match p.tx_power {
            Some(t) => t.dbm(),
            None => TxPower::NONE,
        },
    ).u8(p.pri_phy.raw()).u8(p.sec_max_skip).u8(p.sec_phy.raw()).u8(p.sid).bool(
        p.scan_request_notify,
    );
    b.finish(Opcode::LeSetExtendedAdvertisingParameters)
}

/// Returns the transmit power that the controller selected, from the event
/// that answers `HCI_LE_Set_Extended_Advertising_Parameters`.
pub fn selected_tx_power(e: &mut Event) -> (r: TxPower)
    ensures
        r.dbm() == (old(e)@.params.value(1) as u8) as i8,
        final(e)@ == (EventView { params: old(e)@.params.advance(1), ..old(e)@ }),
{
    TxPower::new(e.params.i8())
}

/// Largest number of bytes of advertising or scan response data in one
/// command.
pub const ADV_DATA_LIM: usize = 251;

/// Returns the command that sets the data used in advertising PDUs that have
/// a data field.
pub fn le_set_extended_advertising_data(h: AdvHandle, op: AdvDataOp, dont_frag: bool, data: &[u8])
    -> (r: Command)
    requires
        data@.len() <= ADV_DATA_LIM,
    ensures
        r.opcode() == Opcode::LeSetExtendedAdvertisingData,
        r.spec_params() == block_bytes(
            seq![
                Field::U8(h.raw()),
                Field::U8(op.raw()),
                Field::Bool(dont_frag),
                Field::U8(data@.len() as u8),
                Field::Bytes(data@),
            ],
        ),
{
    let b = Block::new().u8(h.raw()).u8(op.raw()).bool(dont_frag).u8(data.len() as u8).put(data);
    assert(b.fs@ =~= seq![
        Field::U8(h.raw()),
        Field::U8(op.raw()),
        Field::Bool(dont_frag),
        Field::U8(data@.len() as u8),
        Field::Bytes(data@),
    ]);
    b.finish(Opcode::LeSetExtendedAdvertisingData)
}

/// Returns the command that sets the data used in scan response PDUs.
pub fn le_set_extended_scan_response_data(h: AdvHandle, op: AdvDataOp, dont_frag: bool, data: &[u8])
    -> (r: Command)
    requires
        data@.len() <= ADV_DATA_LIM,
    ensures
        r.opcode() == Opcode::LeSetExtendedScanResponseData,
        r.spec_params() == block_bytes(
            seq![
                Field::U8(h.raw()),
                Field::U8(op.raw()),
                Field::Bool(dont_frag),
                Field::U8(data@.len() as u8),
                Field::Bytes(data@),
            ],
        ),
{
    let b = Block::new().u8(h.raw()).u8(op.raw()).bool(dont_frag).u8(data.len() as u8).put(data);
    assert(b.fs@ =~= seq![
        Field::U8(h.raw()),
        Field::U8(op.raw()),
        Field::Bool(dont_frag),
        Field::U8(data@.len() as u8),
        Field::Bytes(data@),
    ]);
    b.finish(Opcode::LeSetExtendedScanResponseData)
}

/// Largest number of advertising sets in one command.
pub const ADV_SETS_LIM: usize = 63;

/// Returns the command that enables or disables one or more advertising
/// sets.
pub fn le_set_extended_advertising_enable(enable: bool, cfg: &[AdvEnableParams]) -> (r: Command)
    requires
        cfg@.len() <= ADV_SETS_LIM,
        forall|i: int| 0 <= i < cfg@.len() ==> (#[trigger] cfg@[i]).ok(),
    ensures
        r.opcode() == Opcode::LeSetExtendedAdvertisingEnable,
        r.spec_params() == block_bytes(adv_enable_fields(enable, cfg@)),
{
    let mut b = Block::new().bool(enable).u8(cfg.len() as u8);
    let mut i: usize = 0;
    proof {
        assert(cfg@.take(0) =~= Seq::<AdvEnableParams>::empty());
        assert(b.fs@ =~= seq![Field::Bool(enable), Field::U8(cfg@.len() as u8)] + adv_enable_sets(
            cfg@.take(0),
        ));
    }
    while i < cfg.len()
        invariant
            i <= cfg@.len() <= ADV_SETS_LIM,
            forall|i: int| 0 <= i < cfg@.len() ==> (#[trigger] cfg@[i]).ok(),
            b.wf(),
            b.p@.len() == 2 + 4 * i,
            b.fs@ == seq![Field::Bool(enable), Field::U8(cfg@.len() as u8)] + adv_enable_sets(
                cfg@.take(i as int),
            ),
        decreases cfg@.len() - i,
    {
        let c = cfg[i];
        let ticks = match ticks_10ms(c.duration) {
            Some(t) => t,
            None => 0,
        };
        let ghost head = seq![Field::Bool(enable), Field::U8(cfg@.len() as u8)];
        let ghost before = adv_enable_sets(cfg@.take(i as int));
        b = b.u8(c.handle.raw()).u16(ticks).u8(c.max_events);
        proof {
            assert(cfg@.take(i + 1).drop_last() =~= cfg@.take(i as int));
            assert(cfg@.take(i + 1).last() == c);
            assert(b.fs@ =~= head + (before + c.fields()));
        }
        i += 1;
    }
    assert(cfg@.take(cfg@.len() as int) =~= cfg@);
    b.finish(Opcode::LeSetExtendedAdvertisingEnable)
}

/// Returns the command that asks for the maximum length of advertisement or
/// scan response data supported by the controller.
pub fn le_read_maximum_advertising_data_length() -> (r: Command)
    ensures
        r.opcode() == Opcode::LeReadMaximumAdvertisingDataLength,
        r.spec_params() == Seq::<u8>::empty(),
{
    Block::new().finish(Opcode::LeReadMaximumAdvertisingDataLength)
}

/// Returns the maximum length of advertisement or scan response data, from
/// the event that answers the command.
pub fn maximum_advertising_data_length(e: &mut Event) -> (r: usize)
    ensures
        r == old(e)@.params.value(2),
        final(e)@ == (EventView { params: old(e)@.params.advance(2), ..old(e)@ }),
{
    e.params.u16() as usize
}

/// Returns the command that asks for the maximum number of advertising sets
/// supported by the controller at this time.
pub fn le_read_number_of_supported_advertising_sets() -> (r: Command)
    ensures
        r.opcode() == Opcode::LeReadNumberOfSupportedAdvertisingSets,
        r.spec_params() == Seq::<u8>::empty(),
{
    Block::new().finish(Opcode::LeReadNumberOfSupportedAdvertisingSets)
}

/// Returns the maximum number of advertising sets, from the event that
/// answers the command.
pub fn number_of_supported_advertising_sets(e: &mut Event) -> (r: u8)
    ensures
        r == old(e)@.params.value(1),
        final(e)@ == (EventView { params: old(e)@.params.advance(1), ..old(e)@ }),
{
    e.params.u8()
}

/// Returns the command that removes an advertising set from the controller.
pub fn le_remove_advertising_set(h: AdvHandle) -> (r: Command)
    ensures
        r.opcode() == Opcode::LeRemoveAdvertisingSet,
        r.spec_params() == block_bytes(seq![Field::U8(h.raw())]),
{
    Block::new().u8(h.raw()).finish(Opcode::LeRemoveAdvertisingSet)
}

/// Returns the command that removes all advertising sets from the
/// controller.
pub fn le_clear_advertising_sets() -> (r: Command)
    ensures
        r.opcode() == Opcode::LeClearAdvertisingSets,
        r.spec_params() == Seq::<u8>::empty(),
{
    Block::new().finish(Opcode::LeClearAdvertisingSets)
}

/// Returns the command that sets the parameters for periodic advertising.
/// The intervals, in microseconds, are written in ticks of 1.25 ms, as zero
/// where they do not fit in 16 bits.
pub fn le_set_periodic_advertising_parameters(h: AdvHandle, min: u64, max: u64, p: AdvProp) -> (r:
    Command)
    ensures
        r.opcode() == Opcode::LeSetPeriodicAdvertisingParameters,
        r.spec_params() == block_bytes(
            seq![
                Field::U8(h.raw()),
                Field::U16(if min / 1250 <= 0xFFFF { (min / 1250) as u16 } else { 0 }),
                Field::U16(if max / 1250 <= 0xFFFF { (max / 1250) as u16 } else { 0 }),
                Field::U16(p.bits),
            ],
        ),
{
    let min = match ticks_1250us(min) {
        Some(t) => t,
        None => 0,
    };
    let max = match ticks_1250us(max) {
        Some(t) => t,
        None => 0,
    };
    let b = Block::new().u8(h.raw()).u16(min).u16(max).u16(p.bits());
    assert(b.fs@ =~= seq![
        Field::U8(h.raw()),
        Field::U16(min),
        Field::U16(max),
        Field::U16(p.bits),
    ]);
    b.finish(Opcode::LeSetPeriodicAdvertisingParameters)
}

/// Largest number of bytes of periodic advertising data in one command.
pub const PERIODIC_DATA_LIM: usize = 252;

/// Returns the command that sets the data used in periodic advertising PDUs.
pub fn le_set_periodic_advertising_data(h: AdvHandle, op: AdvDataOp, data: &[u8]) -> (r: Command)
    requires
        data@.len() <= PERIODIC_DATA_LIM,
    ensures
        r.opcode() == Opcode::LeSetPeriodicAdvertisingData,
        r.spec_params() == block_bytes(
            seq![
                Field::U8(h.raw()),
                Field::U8(op.raw()),
                Field::U8(data@.len() as u8),
                Field::Bytes(data@),
            ],
        ),
{
    let b = Block::new().u8(h.raw()).u8(op.raw()).u8(data.len() as u8).put(data);
    assert(b.fs@ =~= seq![
        Field::U8(h.raw()),
        Field::U8(op.raw()),
        Field::U8(data@.len() as u8),
        Field::Bytes(data@),
    ]);
    b.finish(Opcode::LeSetPeriodicAdvertisingData)
}

/// The byte that enables periodic advertising: bit 0 enables, and bit 1
/// includes the ADI field.
pub open spec fn spec_periodic_enable(enable: bool, include_adi: bool) -> u8 {
    (if include_adi { 2u8 } else { 0u8 }) | (if enable { 1u8 } else { 0u8 })
}

/// Returns the command that enables or disables periodic advertising.
pub fn le_set_periodic_advertising_enable(enable: bool, include_adi: bool, h: AdvHandle) -> (r:
    Command)
    ensures
        r.opcode() == Opcode::LeSetPeriodicAdvertisingEnable,
        r.spec_params() == block_bytes(
            seq![Field::U8(spec_periodic_enable(enable, include_adi)), Field::U8(h.raw())],
        ),
{
    let a: u8 = if include_adi {
        2
    } else {
        0
    };
    let e: u8 = if enable {
        1
    } else {
        0
    };
    let b = Block::new().u8(a | e).u8(h.raw());
    assert(b.fs@ =~= seq![Field::U8(spec_periodic_enable(enable, include_adi)), Field::U8(h.raw())]);
    b.finish(Opcode::LeSetPeriodicAdvertisingEnable)
}

} // verus!
