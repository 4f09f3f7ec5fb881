//! Protocol-level laws of the controller, proved once and for all over the
//! transition function [`step`]. Each lemma quantifies over states and
//! sampled inputs, so it covers every run a harness can drive.

use vstd::arithmetic::power2::lemma_pow2_pos;
use vstd::prelude::*;

use crate::bus::input_wf;
use crate::bus::response_code;
use crate::bus::AXI4Response;
use crate::bus::BusInput;
use crate::controller::decode_value;
use crate::controller::decodes;
use crate::controller::power_on_regs;
use crate::controller::power_on_state;
use crate::controller::read_accept;
use crate::controller::reset_regs;
use crate::controller::state_wf;
use crate::controller::step;
use crate::controller::ControlState;

verus! {

/// One clock edge sampled with `ARESETn` low collapses any state to the
/// reset vector: no valid outstanding, no channel ready, and every register
/// word — and hence every decoded read value — is zero.
pub proof fn lemma_reset_clears(pre: ControlState, inp: BusInput)
    requires
        !inp.aresetn,
    ensures
        ({
            let post = step(pre, inp);
            &&& !post.rvalid
            &&& !post.bvalid
            &&& !post.arready
            &&& !post.awready
            &&& !post.wready
            &&& post.rdata == 0
            &&& post.registers.len() == pre.registers.len()
            &&& forall|i: int| 0 <= i < post.registers.len() ==> post.registers[i] == 0u64
            &&& forall|addr: u32| decode_value(post.registers, addr) == 0u64
        }),
{
}

/// One clock edge sampled with `ARESETn` high drives both address channels
/// ready, whatever came before — in particular on the first edge after reset
/// releases.
pub proof fn lemma_ready_after_reset(pre: ControlState, inp: BusInput)
    requires
        inp.aresetn,
    ensures
        step(pre, inp).arready,
        step(pre, inp).awready,
{
}

/// The read round trip. With the controller ready and idle, presenting a
/// decoded address on `ARADDR` with `ARVALID` high yields, at the next edge,
/// exactly one response beat: `RVALID` high with the selected register word
/// on `RDATA`, the OKAY code on `RRESP` and the request's `ARID` echoed on
/// `RID`. One edge after the master is seen holding `RREADY`, `RVALID` is low
/// again, whatever else the master drives at that edge.
pub proof fn lemma_read_round_trip(pre: ControlState, inp1: BusInput, inp2: BusInput)
    requires
        inp1.aresetn,
        inp2.aresetn,
        pre.arready,
        !pre.rvalid,
        inp1.arvalid,
        decodes(inp1.araddr, pre.registers.len()),
        inp2.rready,
    ensures
        ({
            let s1 = step(pre, inp1);
            let s2 = step(s1, inp2);
            &&& s1.rvalid
            &&& s1.rdata == pre.registers[inp1.araddr as int / 4]
            &&& s1.rresp == response_code(AXI4Response::OKAY)
            &&& s1.rid == inp1.arid
            &&& !s2.rvalid
            &&& s2.registers == pre.registers
        }),
{
}

/// Decode miss: a read accepted at an address outside the decoded set
/// (unaligned, or beyond the bank) responds with the sentinel value 0 and
/// still completes the handshake with the OKAY code.
pub proof fn lemma_decode_miss(pre: ControlState, inp: BusInput)
    requires
        inp.aresetn,
        read_accept(pre, inp),
        !decodes(inp.araddr, pre.registers.len()),
    ensures
        step(pre, inp).rvalid,
        step(pre, inp).rdata == 0u64,
        step(pre, inp).rresp == response_code(AXI4Response::OKAY),
{
}

/// No pipelining: while a response is outstanding and the master withholds
/// `RREADY`, a new `ARVALID` request is not accepted, and the pending
/// response's data, ID and code hold unchanged.
pub proof fn lemma_no_pipelining(pre: ControlState, inp: BusInput)
    requires
        inp.aresetn,
        pre.rvalid,
        !inp.rready,
    ensures
        !read_accept(pre, inp),
        step(pre, inp).rvalid,
        step(pre, inp).rdata == pre.rdata,
        step(pre, inp).rid == pre.rid,
        step(pre, inp).rresp == pre.rresp,
{
}

/// Outside reset no edge changes a register word: the stubbed write path
/// commits nothing, whatever the master drives on the write channels, and
/// the write response flops only hold their values.
pub proof fn lemma_registers_hold_outside_reset(pre: ControlState, inp: BusInput)
    requires
        inp.aresetn,
    ensures
        step(pre, inp).registers == pre.registers,
        step(pre, inp).bvalid == pre.bvalid,
        step(pre, inp).wready == pre.wready,
        step(pre, inp).bid == pre.bid,
        step(pre, inp).bresp == pre.bresp,
{
}

/// The state after driving a sequence of sampled inputs, one clock edge per
/// element, from `s0`.
pub open spec fn run(s0: ControlState, inputs: Seq<BusInput>) -> ControlState
    decreases inputs.len(),
{
    if inputs.len() == 0 {
        s0
    } else {
        step(run(s0, inputs.drop_last()), inputs.last())
    }
}

/// The write path is inert along every run: starting from power-on, however
/// many edges are driven and whatever the master does, `BVALID` never
/// asserts, `WREADY` stays low, and the register bank is still either the
/// power-on bank or (once a reset edge has occurred) the all-zero reset
/// bank — no write attempt ever changes a register value.
pub proof fn lemma_write_path_inert(n: nat, inputs: Seq<BusInput>)
    ensures
        ({
            let s = run(power_on_state(n), inputs);
            &&& !s.bvalid
            &&& !s.wready
            &&& s.registers.len() == n
            &&& (s.registers == power_on_regs(n) || s.registers == reset_regs(n))
        }),
    decreases inputs.len(),
{
    if inputs.len() > 0 {
        lemma_write_path_inert(n, inputs.drop_last());
    }
}

/// One edge preserves well-formedness: with four-bit IDs on the wire, every
/// flop of the next state is back in range and every word still fits the
/// configured width.
pub proof fn lemma_step_preserves_wf(pre: ControlState, inp: BusInput, dw: usize)
    requires
        state_wf(pre, dw),
        input_wf(inp),
    ensures
        state_wf(step(pre, inp), dw),
{
    lemma_pow2_pos(dw as nat);
}

} // verus!

