//! Wire encodings of the response, burst and cache enumerations.

use axi_hdl_rs::AXI4Burst;
use axi_hdl_rs::AXI4Cache;
use axi_hdl_rs::AXI4Response;

#[test]
fn response_codes() {
    assert_eq!(AXI4Response::OKAY.code(), 0b00);
    assert_eq!(AXI4Response::EXOKAY.code(), 0b01);
    assert_eq!(AXI4Response::SLVERR.code(), 0b10);
    assert_eq!(AXI4Response::DECERR.code(), 0b11);
}

#[test]
fn burst_codes() {
    assert_eq!(AXI4Burst::FIXED.code(), 0b00);
    assert_eq!(AXI4Burst::INCR.code(), 0b01);
    assert_eq!(AXI4Burst::WRAP.code(), 0b10);
    assert_eq!(AXI4Burst::RESERVED.code(), 0b11);
}

#[test]
fn cache_codes() {
    assert_eq!(AXI4Cache::DEVICE_NON_BUFFERABLE.code(), 0b0000);
    assert_eq!(AXI4Cache::DEVICE_BUFFERABLE.code(), 0b0001);
    assert_eq!(AXI4Cache::NORMAL_NON_CACHEABLE_NON_BUFFERABLE.code(), 0b0010);
    assert_eq!(AXI4Cache::NORMAL_NON_CACHEABLE_BUFFERABLE.code(), 0b0011);
}
