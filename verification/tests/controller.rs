//! Edge-by-edge tests of the AXI4-Lite slave controller: each `update` call
//! is one rising clock edge; the master-driven bus fields are written before
//! the edge and the slave-driven fields are read back after it.

use axi_hdl_rs::AXI4LiteSlaveController;

#[test]
fn test_axi4lite_slave_controller_default() {
    let mut x = AXI4LiteSlaveController::default();

    // start not in reset
    x.axi_bus.ARESETn = true;

    assert!(x.axi_bus.AWREADY);
    assert!(x.axi_bus.ARREADY);

    x.update();

    x.axi_bus.ARESETn = false;

    // spend one cycle in reset
    x.update();
    assert_eq!(x.axi_bus.AWREADY, false);
    assert_eq!(x.axi_bus.ARREADY, false);

    // come out of the reset
    x.axi_bus.ARESETn = true;

    x.update();

    assert!(x.axi_bus.AWREADY);
    assert!(x.axi_bus.ARREADY);
}

#[test]
fn test_axi4lite_slave_controller_read() {
    let mut x = AXI4LiteSlaveController::default();

    // start not in reset
    x.axi_bus.ARESETn = true;

    x.update();
    x.axi_bus.ARADDR = 0x0000_0004;
    x.axi_bus.ARVALID = true;
    x.update();
    assert_eq!(x.axi_bus.ARADDR, 0x0000_0004);
    for _ in 0..20 {
        x.update();
    }
}

/// From power-on (no reset edge, so the designed-in default survives), a read
/// of byte address 4 returns the power-on constant of the second register,
/// with the OKAY code and the request ID echoed, on the very next edge.
#[test]
fn power_on_read_returns_default_word() {
    let mut x = AXI4LiteSlaveController::default();
    x.axi_bus.ARESETn = true;
    x.axi_bus.ARADDR = 4;
    x.axi_bus.ARID = 5;
    x.axi_bus.ARVALID = true;
    x.update();
    assert!(x.axi_bus.RVALID);
    assert_eq!(x.axi_bus.RDATA, 0x1234_5678);
    assert_eq!(x.axi_bus.RRESP, 0);
    assert_eq!(x.axi_bus.RID, 5);
}

/// A value pre-loaded into a register comes back on a read of its address,
/// and the response retires exactly one edge after RREADY is seen high.
#[test]
fn read_round_trip_preloaded_value() {
    let mut x = AXI4LiteSlaveController::default();
    x.registers[2] = 0xDEAD_BEEF;
    x.axi_bus.ARESETn = true;
    x.axi_bus.ARADDR = 8;
    x.axi_bus.ARID = 7;
    x.axi_bus.ARVALID = true;
    x.update();
    assert!(x.axi_bus.RVALID);
    assert_eq!(x.axi_bus.RDATA, 0xDEAD_BEEF);
    assert_eq!(x.axi_bus.RRESP, 0);
    assert_eq!(x.axi_bus.RID, 7);

    // the requester accepts the beat
    x.axi_bus.ARVALID = false;
    x.axi_bus.RREADY = true;
    x.update();
    assert!(!x.axi_bus.RVALID);
    // the register bank is untouched by the read
    assert_eq!(x.registers[2], 0xDEAD_BEEF);
}

/// Addresses outside the decoded set — beyond the bank or unaligned — read
/// the sentinel value 0 and still complete the handshake with OKAY.
#[test]
fn decode_miss_reads_zero() {
    // beyond the four-register bank
    let mut x = AXI4LiteSlaveController::default();
    x.axi_bus.ARESETn = true;
    x.axi_bus.ARADDR = 16;
    x.axi_bus.ARVALID = true;
    x.update();
    assert!(x.axi_bus.RVALID);
    assert_eq!(x.axi_bus.RDATA, 0);
    assert_eq!(x.axi_bus.RRESP, 0);

    // unaligned: between register 1 and register 2
    let mut y = AXI4LiteSlaveController::default();
    y.axi_bus.ARESETn = true;
    y.axi_bus.ARADDR = 6;
    y.axi_bus.ARVALID = true;
    y.update();
    assert!(y.axi_bus.RVALID);
    assert_eq!(y.axi_bus.RDATA, 0);
    assert_eq!(y.axi_bus.RRESP, 0);
}

/// One edge with ARESETn low clears every valid and ready flop and zeroes the
/// whole register bank, the power-on constant included.
#[test]
fn reset_clears_state_and_registers() {
    let mut x = AXI4LiteSlaveController::default();
    x.registers[0] = 0xAB;
    x.axi_bus.ARESETn = false;
    x.update();
    assert!(!x.axi_bus.RVALID);
    assert!(!x.axi_bus.BVALID);
    assert!(!x.axi_bus.ARREADY);
    assert!(!x.axi_bus.AWREADY);
    assert!(!x.axi_bus.WREADY);
    assert_eq!(x.axi_bus.RDATA, 0);
    assert_eq!(x.registers, vec![0, 0, 0, 0]);

    // release reset: both address channels are ready one edge later,
    // and every word now reads zero
    x.axi_bus.ARESETn = true;
    x.update();
    assert!(x.axi_bus.ARREADY);
    assert!(x.axi_bus.AWREADY);

    x.axi_bus.ARADDR = 4;
    x.axi_bus.ARVALID = true;
    x.update();
    assert!(x.axi_bus.RVALID);
    assert_eq!(x.axi_bus.RDATA, 0);
}

/// A reset edge aborts a pending read response.
#[test]
fn reset_aborts_pending_response() {
    let mut x = AXI4LiteSlaveController::default();
    x.axi_bus.ARESETn = true;
    x.axi_bus.ARADDR = 4;
    x.axi_bus.ARVALID = true;
    x.update();
    assert!(x.axi_bus.RVALID);

    x.axi_bus.ARESETn = false;
    x.update();
    assert!(!x.axi_bus.RVALID);
    assert_eq!(x.axi_bus.RID, 0);
    assert_eq!(x.axi_bus.RDATA, 0);
}

/// While a response is outstanding and RREADY is withheld, new ARVALID
/// requests neither corrupt the pending RDATA/RID nor retire the beat.
#[test]
fn no_pipelining_under_pending_response() {
    let mut x = AXI4LiteSlaveController::default();
    x.registers[3] = 0x77;
    x.axi_bus.ARESETn = true;
    x.axi_bus.ARADDR = 12;
    x.axi_bus.ARID = 2;
    x.axi_bus.ARVALID = true;
    x.update();
    assert!(x.axi_bus.RVALID);
    assert_eq!(x.axi_bus.RDATA, 0x77);
    assert_eq!(x.axi_bus.RID, 2);

    // hammer a different request at the held response for a few edges
    x.axi_bus.ARADDR = 4;
    x.axi_bus.ARID = 9;
    for _ in 0..3 {
        x.update();
        assert!(x.axi_bus.RVALID);
        assert_eq!(x.axi_bus.RDATA, 0x77);
        assert_eq!(x.axi_bus.RID, 2);
    }

    // once the requester accepts, the beat retires one edge later
    x.axi_bus.ARVALID = false;
    x.axi_bus.RREADY = true;
    x.update();
    assert!(!x.axi_bus.RVALID);
}

/// The stubbed write path: complete write-looking handshakes change no
/// register value, BVALID never asserts and WREADY stays low.
#[test]
fn write_attempts_never_commit() {
    let mut x = AXI4LiteSlaveController::default();
    x.axi_bus.ARESETn = true;
    x.axi_bus.AWADDR = 8;
    x.axi_bus.AWID = 1;
    x.axi_bus.AWVALID = true;
    x.axi_bus.WDATA = 0x5555_5555;
    x.axi_bus.WVALID = true;
    x.axi_bus.BREADY = true;
    for _ in 0..5 {
        x.update();
        assert!(!x.axi_bus.BVALID);
        assert!(!x.axi_bus.WREADY);
    }
    assert_eq!(x.registers, vec![0, 0x1234_5678, 0, 0]);

    // reading the targeted address still yields the old (zero) word
    x.axi_bus.AWVALID = false;
    x.axi_bus.WVALID = false;
    x.axi_bus.ARADDR = 8;
    x.axi_bus.ARVALID = true;
    x.update();
    assert!(x.axi_bus.RVALID);
    assert_eq!(x.axi_bus.RDATA, 0);
}

/// A wider and larger bank: the decode generalizes to any register count and
/// any supported word width.
#[test]
fn wide_bank_decodes_every_word() {
    let mut x = AXI4LiteSlaveController::new(64, 8);
    assert_eq!(x.registers.len(), 8);
    assert_eq!(x.registers[1], 0x1234_5678);
    x.registers[5] = u64::MAX;
    x.axi_bus.ARESETn = true;
    x.axi_bus.ARADDR = 20;
    x.axi_bus.ARVALID = true;
    x.update();
    assert!(x.axi_bus.RVALID);
    assert_eq!(x.axi_bus.RDATA, u64::MAX);

    // one word past the bank misses
    x.axi_bus.RREADY = true;
    x.axi_bus.ARVALID = false;
    x.update();
    x.axi_bus.RREADY = false;
    x.axi_bus.ARADDR = 32;
    x.axi_bus.ARVALID = true;
    x.update();
    assert_eq!(x.axi_bus.RDATA, 0);
}

/// An empty bank: every address misses and reads zero.
#[test]
fn empty_bank_always_misses() {
    let mut x = AXI4LiteSlaveController::new(32, 0);
    assert_eq!(x.registers.len(), 0);
    x.axi_bus.ARESETn = true;
    x.axi_bus.ARADDR = 0;
    x.axi_bus.ARVALID = true;
    x.update();
    assert!(x.axi_bus.RVALID);
    assert_eq!(x.axi_bus.RDATA, 0);
    assert_eq!(x.axi_bus.RRESP, 0);
}
