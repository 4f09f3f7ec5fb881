//! Plain-value models of the AXI4-Lite signal bundles.
//!
//! Every signal of the bus is carried as an ordinary value (`bool` for a
//! one-bit wire, an unsigned integer for a multi-bit field), sampled once per
//! rising clock edge. The clock itself does not appear as a field: one call of
//! the controller's `update` stands for one rising edge of `ACLK`.

#![allow(non_snake_case)]

use vstd::prelude::*;

verus! {

/// The AXI4 response code carried on `RRESP` and `BRESP` (two bits on the
/// wire). This controller only ever drives `OKAY`: out-of-range addresses
/// decode to the sentinel value 0 and still complete the handshake, so the
/// `SLVERR`/`DECERR` paths are structurally unreachable by design.
#[allow(non_camel_case_types)]
pub enum AXI4Response {
    OKAY,
    EXOKAY,
    SLVERR,
    DECERR,
}

/// The two-bit wire encoding of a response code.
pub open spec fn response_code(r: AXI4Response) -> u8 {
    match r {
        AXI4Response::OKAY => 0b00,
        AXI4Response::EXOKAY => 0b01,
        AXI4Response::SLVERR => 0b10,
        AXI4Response::DECERR => 0b11,
    }
}

impl AXI4Response {
    /// The two-bit value this response puts on `RRESP`/`BRESP`.
    pub fn code(&self) -> (c: u8)
        ensures
            c == response_code(*self),
    {
        match self {
            AXI4Response::OKAY => 0b00,
            AXI4Response::EXOKAY => 0b01,
            AXI4Response::SLVERR => 0b10,
            AXI4Response::DECERR => 0b11,
        }
    }
}

/// The AXI4 burst type (`AxBURST`, two bits). AXI4-Lite transfers are always
/// single-beat, so a Lite slave never inspects this field; it is kept for
/// protocol completeness.
#[allow(non_camel_case_types)]
pub enum AXI4Burst {
    FIXED,
    INCR,
    WRAP,
    RESERVED,
}

/// The two-bit wire encoding of a burst type.
pub open spec fn burst_code(b: AXI4Burst) -> u8 {
    match b {
        AXI4Burst::FIXED => 0b00,
        AXI4Burst::INCR => 0b01,
        AXI4Burst::WRAP => 0b10,
        AXI4Burst::RESERVED => 0b11,
    }
}

impl AXI4Burst {
    /// The two-bit value this burst type puts on `AWBURST`/`ARBURST`.
    pub fn code(&self) -> (c: u8)
        ensures
            c == burst_code(*self),
    {
        match self {
            AXI4Burst::FIXED => 0b00,
            AXI4Burst::INCR => 0b01,
            AXI4Burst::WRAP => 0b10,
            AXI4Burst::RESERVED => 0b11,
        }
    }
}

/// The AXI4 memory-attribute encoding (`AxCACHE`, four bits), restricted to
/// the non-cacheable settings a simple register block can meet. Never
/// inspected by this controller.
#[allow(non_camel_case_types)]
pub enum AXI4Cache {
    DEVICE_NON_BUFFERABLE,
    DEVICE_BUFFERABLE,
    NORMAL_NON_CACHEABLE_NON_BUFFERABLE,
    NORMAL_NON_CACHEABLE_BUFFERABLE,
}

/// The four-bit wire encoding of a cache attribute.
pub open spec fn cache_code(c: AXI4Cache) -> u8 {
    match c {
        AXI4Cache::DEVICE_NON_BUFFERABLE => 0b0000,
        AXI4Cache::DEVICE_BUFFERABLE => 0b0001,
        AXI4Cache::NORMAL_NON_CACHEABLE_NON_BUFFERABLE => 0b0010,
        AXI4Cache::NORMAL_NON_CACHEABLE_BUFFERABLE => 0b0011,
    }
}

impl AXI4Cache {
    /// The four-bit value this attribute puts on `AWCACHE`/`ARCACHE`.
    pub fn code(&self) -> (c: u8)
        ensures
            c == cache_code(*self),
    {
        match self {
            AXI4Cache::DEVICE_NON_BUFFERABLE => 0b0000,
            AXI4Cache::DEVICE_BUFFERABLE => 0b0001,
            AXI4Cache::NORMAL_NON_CACHEABLE_NON_BUFFERABLE => 0b0010,
            AXI4Cache::NORMAL_NON_CACHEABLE_BUFFERABLE => 0b0011,
        }
    }
}

/// The master-side view of an AXI4-Lite bus: the signal values a bus master
/// drives (address, data and valid lines) and the ones it samples back
/// (ready, response and read-data lines). Data words are carried as `u64`,
/// wide enough for every data width this controller supports.
pub struct AXI4Master {
    // global
    pub ARESETn: bool,
    // write address channel (driven by the master)
    pub AWID: u8,
    pub AWADDR: u32,
    pub AWLEN: u8,
    pub AWSIZE: u8,
    pub AWBURST: u8,
    pub AWLOCK: u8,
    pub AWCACHE: u8,
    pub AWPROT: u8,
    pub AWVALID: bool,
    pub AWREADY: bool,
    // write data channel (driven by the master)
    pub WID: u8,
    pub WDATA: u64,
    pub WSTRB: u8,
    pub WLAST: bool,
    pub WVALID: bool,
    pub WREADY: bool,
    // write response channel (driven by the slave)
    pub BID: u8,
    pub BRESP: u8,
    pub BVALID: bool,
    pub BREADY: bool,
    // read address channel (driven by the master)
    pub ARID: u8,
    pub ARADDR: u32,
    pub ARLEN: u8,
    pub ARSIZE: u8,
    pub ARBURST: u8,
    pub ARLOCK: u8,
    pub ARCACHE: u8,
    pub ARPROT: u8,
    pub ARVALID: bool,
    pub ARREADY: bool,
    // read data channel (driven by the slave)
    pub RID: u8,
    pub RDATA: u64,
    pub RRESP: u8,
    pub RLAST: bool,
    pub RVALID: bool,
    pub RREADY: bool,
}

/// The slave-side view of an AXI4-Lite bus: the same wires as [`AXI4Master`],
/// seen from the register block. A harness writes the master-driven fields
/// before each clock edge; the controller drives the slave-owned fields
/// (`*READY`, `B*` and `R*` outputs) after each edge.
///
/// The burst/size/lock/cache/prot fields and `WSTRB` are accepted on the wire
/// for protocol completeness but never inspected: this controller supports
/// only single-beat transfers and whole-word accesses.
pub struct AXI4Slave {
    // global
    pub ARESETn: bool,
    // write address channel
    pub AWID: u8,
    pub AWADDR: u32,
    pub AWLEN: u8,
    pub AWSIZE: u8,
    pub AWBURST: u8,
    pub AWLOCK: u8,
    pub AWCACHE: u8,
    pub AWPROT: u8,
    pub AWVALID: bool,
    pub AWREADY: bool,
    // write data channel
    pub WID: u8,
    pub WDATA: u64,
    pub WSTRB: u8,
    pub WLAST: bool,
    pub WVALID: bool,
    pub WREADY: bool,
    // write response channel
    pub BID: u8,
    pub BRESP: u8,
    pub BVALID: bool,
    pub BREADY: bool,
    // read address channel
    pub ARID: u8,
    pub ARADDR: u32,
    pub ARLEN: u8,
    pub ARSIZE: u8,
    pub ARBURST: u8,
    pub ARLOCK: u8,
    pub ARCACHE: u8,
    pub ARPROT: u8,
    pub ARVALID: bool,
    pub ARREADY: bool,
    // read data channel
    pub RID: u8,
    pub RDATA: u64,
    pub RRESP: u8,
    pub RLAST: bool,
    pub RVALID: bool,
    pub RREADY: bool,
}

/// The master-driven signal values the controller samples at one clock edge.
/// Everything the next-state function may depend on is collected here, so a
/// contract over [`BusInput`] pins down exactly which wires can influence an
/// edge.
pub struct BusInput {
    pub aresetn: bool,
    pub awid: u8,
    pub awaddr: u32,
    pub awvalid: bool,
    pub wid: u8,
    pub wdata: u64,
    pub wvalid: bool,
    pub bready: bool,
    pub arid: u8,
    pub araddr: u32,
    pub arvalid: bool,
    pub rready: bool,
}

/// The sampled inputs of a slave-side bus: the master-driven fields, read at
/// a clock edge.
pub open spec fn input_of(bus: AXI4Slave) -> BusInput {
    BusInput {
        aresetn: bus.ARESETn,
        awid: bus.AWID,
        awaddr: bus.AWADDR,
        awvalid: bus.AWVALID,
        wid: bus.WID,
        wdata: bus.WDATA,
        wvalid: bus.WVALID,
        bready: bus.BREADY,
        arid: bus.ARID,
        araddr: bus.ARADDR,
        arvalid: bus.ARVALID,
        rready: bus.RREADY,
    }
}

/// Well-formed sampled inputs: the ID wires are four bits wide.
pub open spec fn input_wf(inp: BusInput) -> bool {
    &&& inp.awid < 16
    &&& inp.wid < 16
    &&& inp.arid < 16
}

/// A bus whose master-driven fields are all idle (reset released, nothing
/// valid) and whose slave-driven fields are all low; the starting point a
/// controller drives its own outputs over.
pub open spec fn quiet_bus() -> AXI4Slave {
    AXI4Slave {
        ARESETn: true,
        AWID: 0,
        AWADDR: 0,
        AWLEN: 0,
        AWSIZE: 0,
        AWBURST: 0,
        AWLOCK: 0,
        AWCACHE: 0,
        AWPROT: 0,
        AWVALID: false,
        AWREADY: false,
        WID: 0,
        WDATA: 0,
        WSTRB: 0,
        WLAST: false,
        WVALID: false,
        WREADY: false,
        BID: 0,
        BRESP: 0,
        BVALID: false,
        BREADY: false,
        ARID: 0,
        ARADDR: 0,
        ARLEN: 0,
        ARSIZE: 0,
        ARBURST: 0,
        ARLOCK: 0,
        ARCACHE: 0,
        ARPROT: 0,
        ARVALID: false,
        ARREADY: false,
        RID: 0,
        RDATA: 0,
        RRESP: 0,
        RLAST: false,
        RVALID: false,
        RREADY: false,
    }
}

impl Default for AXI4Slave {
    /// A quiet bus: reset released, no valid asserted, all outputs low.
    fn default() -> (bus: Self)
        ensures
            bus == quiet_bus(),
    {
        AXI4Slave {
            ARESETn: true,
            AWID: 0,
            AWADDR: 0,
            AWLEN: 0,
            AWSIZE: 0,
            AWBURST: 0,
            AWLOCK: 0,
            AWCACHE: 0,
            AWPROT: 0,
            AWVALID: false,
            AWREADY: false,
            WID: 0,
            WDATA: 0,
            WSTRB: 0,
            WLAST: false,
            WVALID: false,
            WREADY: false,
            BID: 0,
            BRESP: 0,
            BVALID: false,
            BREADY: false,
            ARID: 0,
            ARADDR: 0,
            ARLEN: 0,
            ARSIZE: 0,
            ARBURST: 0,
            ARLOCK: 0,
            ARCACHE: 0,
            ARPROT: 0,
            ARVALID: false,
            ARREADY: false,
            RID: 0,
            RDATA: 0,
            RRESP: 0,
            RLAST: false,
            RVALID: false,
            RREADY: false,
        }
    }
}

} // verus!
