use mcp25xxfd::register_map::{
    CANControl, DataBitTimeConfig, FIFOControl, FIFOStatus, Interrupts, NominalBitTimeConfig,
    OscillatorControl, ReceiveInterruptStatus, TransmitReceiveErrorCount,
};
use mcp25xxfd::registers::{
    fifo_control_address, fifo_status_address, fifo_user_address_address, filter_control_byte,
    filter_control_byte_address, filter_object_address, get_field, mask_address, set_field,
    ClockDivisor, ClockOutputDivisor, InterruptFlag, OperationMode, PayloadSize,
    RetransmissionAttempts,
};

#[test]
fn field_helpers_shift_and_mask() {
    assert_eq!(get_field(0xABCD_1234, 8, 8), 0x12);
    assert_eq!(set_field(0xFFFF_FFFF, 4, 4, 0), 0xFFFF_FF0F);
    assert_eq!(set_field(0, 29, 3, 7), 0xE000_0000);
}

#[test]
fn can_control_mode_fields() {
    let mut c = CANControl { bits: 0x0498_0760 };
    assert_eq!(c.opmode(), OperationMode::Configuration);
    c.set_reqop(OperationMode::Normal);
    assert_eq!(c.bits, 0x0098_0760);
    c.set_reqop(OperationMode::Restricted);
    assert_eq!(c.bits >> 24 & 7, 7);
    assert!(c.isocrcen());
    c.set_isocrcen(false);
    assert!(!c.isocrcen());
    assert_eq!(CANControl::ADDRESS, 0x000);
}

#[test]
fn bit_time_fields() {
    let mut n = NominalBitTimeConfig { bits: 0 };
    n.set_brp(1);
    n.set_tseg1(254);
    n.set_tseg2(63);
    n.set_sjw(63);
    assert_eq!(n.bits, 0x01FE_3F3F);
    assert_eq!((n.brp(), n.tseg1(), n.tseg2(), n.sjw()), (1, 254, 63, 63));
    let mut d = DataBitTimeConfig { bits: 0 };
    d.set_tseg1(30);
    d.set_sjw(15);
    assert_eq!(d.bits, 0x001E_000F);
}

#[test]
fn interrupt_flags() {
    let mut i = Interrupts { bits: (1 << 13) | (1 << 1) };
    assert!(i.cerrif() && i.rxif() && !i.txif());
    i.set_cerrif(false);
    assert_eq!(i.bits, 1 << 1);
    assert_eq!(Interrupts::ADDRESS, 0x01C);
}

#[test]
fn fifo_registers() {
    let mut c = FIFOControl { bits: 0 };
    c.set_uinc(true);
    c.set_txreq(true);
    assert_eq!(c.bits, 0x300);
    assert!(FIFOStatus { bits: 1 }.tfnrfnif());
    assert!(!FIFOStatus { bits: 2 }.tfnrfnif());
    let r = ReceiveInterruptStatus { bits: 1 << 5 };
    assert!(r.fifo(5) && !r.fifo(4));
    assert_eq!(r.rfif(), 1 << 4);
}

#[test]
fn read_only_status_fields() {
    let o = OscillatorControl { bits: (1 << 10) | (1 << 8) };
    assert!(o.oscrdy() && o.pllrdy() && !o.sclkrdy());
    let e = TransmitReceiveErrorCount { bits: 0x0021_8005 };
    assert_eq!((e.rec(), e.tec(), e.ewarn(), e.txbo()), (5, 0x80, true, true));
}

#[test]
fn register_array_addresses() {
    assert_eq!(fifo_control_address(1), 0x05C);
    assert_eq!(fifo_control_address(31), 0x05C + 12 * 30);
    assert_eq!(fifo_status_address(2), 0x06C);
    assert_eq!(fifo_user_address_address(3), 0x07C);
    assert_eq!(filter_object_address(0), 0x1F0);
    assert_eq!(mask_address(31), 0x1F4 + 8 * 31);
    assert_eq!(filter_control_byte_address(5), 0x1D5);
    assert_eq!(filter_control_byte(2), 0x82);
}

#[test]
fn enum_codes() {
    assert_eq!(OperationMode::from_code(3), OperationMode::ListenOnly);
    assert_eq!(OperationMode::Classic.code(), 6);
    assert_eq!(RetransmissionAttempts::Unlimited2.code(), 3);
    assert_eq!(PayloadSize::Bytes48.code(), 6);
    assert_eq!(ClockOutputDivisor::from_code(3), ClockOutputDivisor::DivideBy10);
    assert_eq!(ClockDivisor::DivideBy2.code(), 1);
    assert_eq!(InterruptFlag::from_code(64), Some(InterruptFlag::NoInterrupt));
    assert_eq!(InterruptFlag::from_code(17), Some(InterruptFlag::FIFO17));
    assert_eq!(InterruptFlag::from_code(40), None);
    assert_eq!(InterruptFlag::TransmitAttempt.code(), 74);
}
