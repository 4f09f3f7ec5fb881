//! The AXI4-Lite slave controller: a bank of word-addressed registers behind
//! the five AXI4-Lite channels, advanced one rising clock edge at a time.
//!
//! The whole behaviour is captured by the spec-level transition function
//! [`step`]: `update` is proved to take the flip-flop state to exactly
//! `step(state, inputs)` and to drive the bus outputs from the new state.
//!
//! Design points, fixed here once and for all:
//! - The register count `n` and the word width `data_width` are
//!   construction-time parameters; the address decode is a single table of
//!   `n` word-aligned entries at byte offsets `4*i`.
//! - `ARREADY` and `AWREADY` are driven high unconditionally outside reset:
//!   the controller never backpressures address acceptance.
//! - The write path is deliberately stubbed: write addresses and data are
//!   accepted on the wire but never committed to a register, and `BVALID`
//!   never rises, so the registers are read-only from the bus.
//! - Reset is synchronous: `ARESETn` low at a rising edge forces the whole
//!   state, register words included, to the reset vector at that edge.

#![allow(non_snake_case)]

use vstd::arithmetic::power2::lemma_pow2_pos;
use vstd::arithmetic::power2::lemma_pow2_strictly_increases;
use vstd::arithmetic::power2::lemma2_to64;
use vstd::arithmetic::power2::pow2;
use vstd::prelude::*;

use crate::bus::input_of;
use crate::bus::input_wf;
use crate::bus::quiet_bus;
use crate::bus::AXI4Response;
use crate::bus::AXI4Slave;
use crate::bus::BusInput;

verus! {

/// The power-on value of the second register word (index 1): a designed-in
/// non-zero constant, distinct from the reset-driven zero, so a master can
/// tell a freshly elaborated controller from one that has been reset.
pub const POWER_ON_WORD: u64 = 0x1234_5678;

/// A data word fits in `dw` bits.
pub open spec fn word_fits(w: u64, dw: usize) -> bool {
    (w as nat) < pow2(dw as nat)
}

/// The byte address `addr` selects one of `n` word-aligned registers.
pub open spec fn decodes(addr: u32, n: nat) -> bool {
    addr as int % 4 == 0 && addr as int / 4 < n
}

/// The exhaustive address decode: register `addr / 4` where `addr` is
/// word-aligned and in range, and the sentinel value 0 everywhere else, so
/// every read completes regardless of the address.
pub open spec fn decode_value(regs: Seq<u64>, addr: u32) -> u64 {
    if decodes(addr, regs.len()) {
        regs[addr as int / 4]
    } else {
        0
    }
}

/// The flip-flop state of the controller at one clock edge: every value that
/// persists from edge to edge, with the register bank as a sequence of words.
#[verifier::ext_equal]
pub struct ControlState {
    // write channel flops
    pub awready: bool,
    pub wready: bool,
    pub bid: u8,
    pub bresp: u8,
    pub bvalid: bool,
    // read channel flops
    pub arready: bool,
    pub rid: u8,
    pub rresp: u8,
    pub rlast: bool,
    pub rvalid: bool,
    pub rdata: u64,
    // sampled address/ID latches
    pub axi_raddr: u32,
    pub axi_waddr: u32,
    pub axi_rid: u8,
    pub axi_wid: u8,
    // the register bank
    pub registers: Seq<u64>,
}

/// The reset vector for a bank of `n` registers: every ready/valid/response
/// flop low, every latch and every register word zero.
pub open spec fn reset_regs(n: nat) -> Seq<u64> {
    Seq::new(n, |i: int| 0u64)
}

/// The state every flop takes at a rising edge sampled with `ARESETn` low.
pub open spec fn reset_state(n: nat) -> ControlState {
    ControlState {
        awready: false,
        wready: false,
        bid: 0,
        bresp: 0,
        bvalid: false,
        arready: false,
        rid: 0,
        rresp: 0,
        rlast: false,
        rvalid: false,
        rdata: 0,
        axi_raddr: 0,
        axi_waddr: 0,
        axi_rid: 0,
        axi_wid: 0,
        registers: reset_regs(n),
    }
}

/// The register bank at power-on: all words zero except the designed-in
/// constant in word 1 (when the bank has a word 1).
pub open spec fn power_on_regs(n: nat) -> Seq<u64> {
    Seq::new(n, |i: int| if i == 1 { POWER_ON_WORD } else { 0u64 })
}

/// The state of a freshly constructed controller: both address channels
/// ready, nothing outstanding, and the power-on register bank.
pub open spec fn power_on_state(n: nat) -> ControlState {
    ControlState {
        awready: true,
        wready: false,
        bid: 0,
        bresp: 0,
        bvalid: false,
        arready: true,
        rid: 0,
        rresp: 0,
        rlast: false,
        rvalid: false,
        rdata: 0,
        axi_raddr: 0,
        axi_waddr: 0,
        axi_rid: 0,
        axi_wid: 0,
        registers: power_on_regs(n),
    }
}

/// A new read is accepted at this edge: the controller is ready, the master
/// presents an address, and no read response is still outstanding. Keeping
/// `rvalid` low in the condition is what forbids pipelining a second read
/// under a pending response.
pub open spec fn read_accept(pre: ControlState, inp: BusInput) -> bool {
    pre.arready && inp.arvalid && !pre.rvalid
}

/// One rising clock edge outside reset.
///
/// Read channel: the address/ID latches sample `ARADDR`/`ARID` whenever
/// `ARVALID` is high, independent of acceptance. On an accepted read the
/// response flops take the echoed ID, the OKAY code and the decoded word;
/// otherwise a pending response is retired when the master holds `RREADY`,
/// and holds unchanged while the master withholds it.
///
/// Write channel: `AWREADY` is driven high like `ARREADY`, but the response
/// flops and the register words only ever hold their values — the stubbed
/// write path commits nothing and never raises `BVALID`.
pub open spec fn run_step(pre: ControlState, inp: BusInput) -> ControlState {
    ControlState {
        awready: true,
        wready: pre.wready,
        bid: pre.bid,
        bresp: pre.bresp,
        bvalid: pre.bvalid,
        arready: true,
        rid: if read_accept(pre, inp) {
            inp.arid
        } else {
            pre.rid
        },
        rresp: if read_accept(pre, inp) {
            0
        } else {
            pre.rresp
        },
        rlast: pre.rlast,
        rvalid: if read_accept(pre, inp) {
            true
        } else if pre.rvalid && inp.rready {
            false
        } else {
            pre.rvalid
        },
        rdata: if read_accept(pre, inp) {
            decode_value(pre.registers, inp.araddr)
        } else {
            pre.rdata
        },
        axi_raddr: if inp.arvalid {
            inp.araddr
        } else {
            pre.axi_raddr
        },
        axi_rid: if inp.arvalid {
            inp.arid
        } else {
            pre.axi_rid
        },
        axi_waddr: pre.axi_waddr,
        axi_wid: pre.axi_wid,
        registers: pre.registers,
    }
}

/// One rising clock edge: reset has final authority, and with `ARESETn` high
/// the channels advance by [`run_step`]. The transition is a function, so the
/// controller is deterministic by construction.
pub open spec fn step(pre: ControlState, inp: BusInput) -> ControlState {
    if !inp.aresetn {
        reset_state(pre.registers.len())
    } else {
        run_step(pre, inp)
    }
}

/// Well-formed flop state for word width `dw`: the width is one this
/// controller supports, every stored word and the read-data flop fit in `dw`
/// bits, the ID flops are four bits and the response flops two.
pub open spec fn state_wf(s: ControlState, dw: usize) -> bool {
    &&& 32 <= dw <= 64
    &&& forall|i: int| 0 <= i < s.registers.len() ==> word_fits(#[trigger] s.registers[i], dw)
    &&& word_fits(s.rdata, dw)
    &&& s.rid < 16
    &&& s.bid < 16
    &&& s.axi_rid < 16
    &&& s.axi_wid < 16
    &&& s.rresp < 4
    &&& s.bresp < 4
}

/// The AXI4-Lite slave controller: `n` word-aligned registers of
/// `data_width` bits behind the five AXI4-Lite channels.
///
/// A harness drives it like the hardware it models: write the master-driven
/// fields of `axi_bus`, call [`update`](Self::update) for each rising clock
/// edge, and read the slave-driven fields back.
pub struct AXI4LiteSlaveController {
    /// The slave-side bus. Master-driven fields are inputs sampled at each
    /// `update`; slave-driven fields are outputs, rewritten by each `update`
    /// from the new flop state.
    pub axi_bus: AXI4Slave,
    /// The register bank, one `data_width`-bit word per entry, word `i`
    /// decoded at byte address `4*i`.
    pub registers: Vec<u64>,
    /// The width of one register word in bits.
    pub data_width: usize,
    // write channel flops
    pub awready: bool,
    pub wready: bool,
    pub bid: u8,
    pub bresp: u8,
    pub bvalid: bool,
    // read channel flops
    pub arready: bool,
    pub rid: u8,
    pub rresp: u8,
    pub rlast: bool,
    pub rvalid: bool,
    pub rdata: u64,
    // sampled address/ID latches
    pub axi_raddr: u32,
    pub axi_waddr: u32,
    pub axi_rid: u8,
    pub axi_wid: u8,
}

impl View for AXI4LiteSlaveController {
    type V = ControlState;

    open spec fn view(&self) -> ControlState {
        ControlState {
            awready: self.awready,
            wready: self.wready,
            bid: self.bid,
            bresp: self.bresp,
            bvalid: self.bvalid,
            arready: self.arready,
            rid: self.rid,
            rresp: self.rresp,
            rlast: self.rlast,
            rvalid: self.rvalid,
            rdata: self.rdata,
            axi_raddr: self.axi_raddr,
            axi_waddr: self.axi_waddr,
            axi_rid: self.axi_rid,
            axi_wid: self.axi_wid,
            registers: self.registers@,
        }
    }
}

/// The slave-driven bus fields equal the flop values they mirror: what a
/// master samples on the wires is exactly the controller's state.
pub open spec fn outputs_synced(c: AXI4LiteSlaveController) -> bool {
    &&& c.axi_bus.AWREADY == c@.awready
    &&& c.axi_bus.WREADY == c@.wready
    &&& c.axi_bus.BID == c@.bid
    &&& c.axi_bus.BRESP == c@.bresp
    &&& c.axi_bus.BVALID == c@.bvalid
    &&& c.axi_bus.ARREADY == c@.arready
    &&& c.axi_bus.RID == c@.rid
    &&& c.axi_bus.RDATA == c@.rdata
    &&& c.axi_bus.RRESP == c@.rresp
    &&& c.axi_bus.RLAST == c@.rlast
    &&& c.axi_bus.RVALID == c@.rvalid
}

/// Every word of a well-formed bank fits in `dw` bits, and so does whatever
/// the decode returns, the zero sentinel included.
proof fn lemma_decode_fits(regs: Seq<u64>, addr: u32, dw: usize)
    requires
        forall|i: int| 0 <= i < regs.len() ==> word_fits(#[trigger] regs[i], dw),
    ensures
        word_fits(decode_value(regs, addr), dw),
{
    lemma_pow2_pos(dw as nat);
}

impl AXI4LiteSlaveController {
    /// Well-formed controller: supported word width and every flop in range.
    pub open spec fn wf(self) -> bool {
        state_wf(self@, self.data_width)
    }

    /// Construct a controller with `n` registers of `data_width` bits each,
    /// in the power-on state, its outputs already on the bus.
    ///
    /// The width is bounded below by the 32 bits the byte-addressed decode
    /// assumes and above by the 64 bits a word value carries here.
    pub fn new(data_width: usize, n: usize) -> (c: Self)
        requires
            32 <= data_width <= 64,
        ensures
            c@ == power_on_state(n as nat),
            c.data_width == data_width,
            c.wf(),
            outputs_synced(c),
            input_of(c.axi_bus) == input_of(quiet_bus()),
    {
        let registers = power_on_words(n);
        let mut c = AXI4LiteSlaveController {
            axi_bus: AXI4Slave::default(),
            registers,
            data_width,
            awready: true,
            wready: false,
            bid: 0,
            bresp: 0,
            bvalid: false,
            arready: true,
            rid: 0,
            rresp: 0,
            rlast: false,
            rvalid: false,
            rdata: 0,
            axi_raddr: 0,
            axi_waddr: 0,
            axi_rid: 0,
            axi_wid: 0,
        };
        c.axi_bus.AWREADY = true;
        c.axi_bus.ARREADY = true;
        proof {
            assert(c@ =~= power_on_state(n as nat));
            lemma2_to64();
            if data_width > 32 {
                lemma_pow2_strictly_increases(32, data_width as nat);
            }
        }
        c
    }

    /// One rising clock edge of `ACLK`.
    ///
    /// Samples the master-driven fields of `axi_bus`, advances every flop to
    /// exactly `step` of the old state and those inputs, and rewrites the
    /// slave-driven fields of `axi_bus` from the new flop values. The
    /// master-driven fields are left untouched.
    #[verifier::rlimit(50)]
    pub fn update(&mut self)
        requires
            old(self).wf(),
            input_wf(input_of(old(self).axi_bus)),
        ensures
            final(self)@ == step(old(self)@, input_of(old(self).axi_bus)),
            input_of(final(self).axi_bus) == input_of(old(self).axi_bus),
            outputs_synced(*final(self)),
            final(self).data_width == old(self).data_width,
            final(self).wf(),
    {
        if !self.axi_bus.ARESETn {
            // reset has final authority: force the whole state to the reset
            // vector, register words included
            self.awready = false;
            self.wready = false;
            self.bid = 0;
            self.bresp = 0;
            self.bvalid = false;
            self.arready = false;
            self.rid = 0;
            self.rresp = 0;
            self.rlast = false;
            self.rvalid = false;
            self.rdata = 0;
            self.axi_raddr = 0;
            self.axi_waddr = 0;
            self.axi_rid = 0;
            self.axi_wid = 0;
            let n = self.registers.len();
            self.registers = zeroed_words(n);
            proof {
                lemma_pow2_pos(self.data_width as nat);
                assert(self@ =~= step(old(self)@, input_of(old(self).axi_bus)));
            }
        } else {
            // sample the read ID and address whenever ARVALID is high,
            // independent of acceptance
            if self.axi_bus.ARVALID {
                self.axi_rid = self.axi_bus.ARID;
                self.axi_raddr = self.axi_bus.ARADDR;
            }
            // a new read is accepted only while no response is outstanding
            let accept = self.arready && self.axi_bus.ARVALID && !self.rvalid;
            if accept {
                self.rid = self.axi_rid;
                self.rresp = AXI4Response::OKAY.code();
                self.rdata = read_decode(&self.registers, self.axi_bus.ARADDR);
                self.rvalid = true;
            } else if self.rvalid && self.axi_bus.RREADY {
                self.rvalid = false;
            }
            // never backpressure address acceptance outside reset
            self.awready = true;
            self.arready = true;
            proof {
                lemma_decode_fits(old(self)@.registers, old(self).axi_bus.ARADDR, self.data_width);
                assert(self@ =~= step(old(self)@, input_of(old(self).axi_bus)));
            }
        }
        // drive the bus outputs from the new flop values
        self.axi_bus.AWREADY = self.awready;
        self.axi_bus.WREADY = self.wready;
        self.axi_bus.BID = self.bid;
        self.axi_bus.BRESP = self.bresp;
        self.axi_bus.BVALID = self.bvalid;
        self.axi_bus.ARREADY = self.arready;
        self.axi_bus.RID = self.rid;
        self.axi_bus.RDATA = self.rdata;
        self.axi_bus.RRESP = self.rresp;
        self.axi_bus.RLAST = self.rlast;
        self.axi_bus.RVALID = self.rvalid;
    }
}

impl Default for AXI4LiteSlaveController {
    /// The configuration the controller is elaborated with by default:
    /// four 32-bit registers.
    fn default() -> (c: Self)
        ensures
            c@ == power_on_state(4),
            c.data_width == 32,
            c.wf(),
            outputs_synced(c),
            input_of(c.axi_bus) == input_of(quiet_bus()),
    {
        AXI4LiteSlaveController::new(32, 4)
    }
}

/// The power-on register bank as a vector: `n` zero words with the
/// designed-in constant in word 1.
fn power_on_words(n: usize) -> (v: Vec<u64>)
    ensures
        v@ == power_on_regs(n as nat),
{
    let mut v: Vec<u64> = Vec::new();
    let mut i: usize = 0;
    while i < n
        invariant
            i <= n,
            v@.len() == i,
            forall|j: int| 0 <= j < i ==> v@[j] == (if j == 1 {
                POWER_ON_WORD
            } else {
                0u64
            }),
        decreases n - i,
    {
        if i == 1 {
            v.push(POWER_ON_WORD);
        } else {
            v.push(0);
        }
        i += 1;
    }
    proof {
        assert(v@ =~= power_on_regs(n as nat));
    }
    v
}

/// A bank of `n` zero words: the register file's reset vector.
fn zeroed_words(n: usize) -> (v: Vec<u64>)
    ensures
        v@ == reset_regs(n as nat),
{
    let mut v: Vec<u64> = Vec::new();
    let mut i: usize = 0;
    while i < n
        invariant
            i <= n,
            v@.len() == i,
            forall|j: int| 0 <= j < i ==> v@[j] == 0u64,
        decreases n - i,
    {
        v.push(0);
        i += 1;
    }
    proof {
        assert(v@ =~= reset_regs(n as nat));
    }
    v
}

/// The exhaustive combinational address decode over the register bank.
fn read_decode(regs: &Vec<u64>, addr: u32) -> (w: u64)
    ensures
        w == decode_value(regs@, addr),
{
    let idx = (addr / 4) as usize;
    if addr % 4 == 0 && idx < regs.len() {
        regs[idx]
    } else {
        0
    }
}

} // verus!
