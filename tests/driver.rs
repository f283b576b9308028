use mcp25xxfd::config::{
    ArbitrationBitRate, BitRate, Clock, Config, DataBitRate, FIFOConfig, FilterConfig, MaskConfig,
};
use mcp25xxfd::controller::{first_pending_fifo, select_transmit_buffer, Receive, Transmit};
use mcp25xxfd::frame::{ExtendedId, Frame, Id, StandardId};
use mcp25xxfd::protocol::{
    read_bytes_command, read_register_command, reset_command, word_from_bytes, word_to_bytes,
    write_bytes_command, write_register_byte_command, write_register_command, Transaction,
};
use mcp25xxfd::registers::{OperationMode, PayloadSize, RetransmissionAttempts};
use mcp25xxfd::setup::{
    configure_fifo, configure_filter, fifo_control_bits, initialize_ram, Configure, SetMode,
};
use mcp25xxfd::{ControllerError, Instruction, MCP25xxFD};

fn standard(raw: u16) -> Id {
    Id::Standard(StandardId::new(raw).unwrap())
}

/// Answers each exchange from `answer`, records the exchanges, and returns them.
fn drive<M>(
    machine: &mut M,
    pending: fn(&M) -> Option<Transaction>,
    advance: fn(&mut M, &[u8]),
    mut answer: impl FnMut(&Transaction) -> Vec<u8>,
) -> Vec<Transaction> {
    let mut seen = Vec::new();
    while let Some(t) = pending(machine) {
        let response = if t.read_len == 0 { Vec::new() } else { answer(&t) };
        assert_eq!(response.len(), t.read_len);
        advance(machine, &response);
        seen.push(t);
    }
    seen
}

#[test]
fn instruction_header_encodes_opcode_and_address() {
    assert_eq!(Instruction::Read.header(0x123), [0x31, 0x23]);
    assert_eq!(Instruction::Write.header(0xE0C), [0x2E, 0x0C]);
    assert_eq!(Instruction::Reset.header(0), [0x00, 0x00]);
    assert_eq!(Instruction::ReadCRC.header(0x400), [0xB4, 0x00]);
    assert_eq!(Instruction::WriteCRC.header(0x7FF), [0xA7, 0xFF]);
    assert_eq!(Instruction::WriteSafe.header(0x010), [0xC0, 0x10]);
}

#[test]
fn register_commands() {
    assert_eq!(reset_command(), Transaction { command: vec![0, 0], read_len: 0 });
    assert_eq!(read_register_command(0x01C), Transaction { command: vec![0x30, 0x1C], read_len: 4 });
    assert_eq!(
        write_register_command(0x004, 0x1122_3344),
        Transaction { command: vec![0x20, 0x04, 0x44, 0x33, 0x22, 0x11], read_len: 0 }
    );
    assert_eq!(
        write_register_byte_command(0x1D3, 0x85),
        Transaction { command: vec![0x21, 0xD3, 0x85], read_len: 0 }
    );
}

#[test]
fn ram_commands_add_the_ram_base() {
    assert_eq!(read_bytes_command(0x10, 8), Transaction { command: vec![0x34, 0x10], read_len: 8 });
    assert_eq!(
        write_bytes_command(0x7FC, &[1, 2, 3, 4]),
        Transaction { command: vec![0x2B, 0xFC, 1, 2, 3, 4], read_len: 0 }
    );
}

#[test]
fn words_are_little_endian() {
    assert_eq!(word_to_bytes(0xAABB_CCDD), [0xDD, 0xCC, 0xBB, 0xAA]);
    assert_eq!(word_from_bytes(&[0xDD, 0xCC, 0xBB, 0xAA]), 0xAABB_CCDD);
}

#[test]
fn initialize_ram_covers_the_whole_ram_in_chunks() {
    let writes = initialize_ram(0xFF);
    assert_eq!(writes.len(), 32);
    for (k, t) in writes.iter().enumerate() {
        let address = 0x400 + 64 * k as u16;
        assert_eq!(t.command[0], 0x20 | (address >> 8) as u8);
        assert_eq!(t.command[1], (address & 0xFF) as u8);
        assert_eq!(t.command.len(), 66);
        assert!(t.command[2..].iter().all(|&b| b == 0xFF));
    }
}

fn fifo(size: u8, transmit: bool) -> FIFOConfig {
    FIFOConfig {
        size,
        payload_size: PayloadSize::Bytes64,
        transmit,
        tx_attempts: RetransmissionAttempts::Three,
        priority: 5,
    }
}

#[test]
fn fifo_depth_is_stored_minus_one() {
    assert_eq!((fifo_control_bits(&fifo(1, true)) >> 24) & 0x1F, 0);
    assert_eq!((fifo_control_bits(&fifo(32, true)) >> 24) & 0x1F, 31);
    assert_eq!((fifo_control_bits(&fifo(8, false)) >> 24) & 0x1F, 7);
}

#[test]
fn transmit_fifo_control_value() {
    // plsize 7, txen, txat 1, txpri 5, freset, fsize 3.
    let expected = (7 << 29) | (1 << 7) | (1 << 21) | (5 << 16) | (1 << 10) | (3 << 24);
    assert_eq!(fifo_control_bits(&fifo(4, true)), expected);
}

#[test]
fn receive_fifo_enables_not_empty_interrupt() {
    // plsize 7, tfnrfnie, freset, fsize 3; no priority or attempts.
    let expected = (7 << 29) | 1 | (1 << 10) | (3 << 24);
    assert_eq!(fifo_control_bits(&fifo(4, false)), expected);
}

#[test]
fn configure_fifo_writes_its_control_register() {
    let t = configure_fifo(2, &fifo(1, false));
    // FIFO 2 control register is at 0x05C + 12.
    assert_eq!(&t.command[..2], &[0x20, 0x68]);
    assert_eq!(word_from_bytes(&t.command[2..]), fifo_control_bits(&fifo(1, false)));
}

#[test]
fn configure_filter_writes_object_mask_and_control_byte() {
    let id = Id::Extended(ExtendedId::new(0x1ABCDE).unwrap());
    let (object, mask, control) =
        configure_filter(3, 1, &FilterConfig::from_id(id), &MaskConfig::from_id(standard(0x7FF)));
    assert_eq!(&object.command[..2], &[0x22, 0x08]);
    assert_eq!(
        word_from_bytes(&object.command[2..]),
        (1 << 30) | (0x1ABCDE & 0x7FF) | ((0x1ABCDE >> 11) << 11)
    );
    assert_eq!(&mask.command[..2], &[0x22, 0x0C]);
    assert_eq!(word_from_bytes(&mask.command[2..]), 0x7FF);
    assert_eq!(control.command, vec![0x21, 0xD3, 0x81]);
}

#[test]
fn filter_from_id_matches_kind() {
    assert!(FilterConfig::from_id(Id::Extended(ExtendedId::new(5).unwrap())).match_only_extended);
    assert!(!FilterConfig::from_id(standard(5)).match_only_extended);
    assert!(!MaskConfig::from_id(standard(5)).match_id_type);
}

#[test]
fn scan_finds_fifo_five_alone() {
    assert_eq!(first_pending_fifo(1 << 5, None), Some(5));
    assert_eq!(first_pending_fifo((1 << 5) | (1 << 9) | (1 << 31) | 1, None), Some(5));
}

#[test]
fn scan_takes_lowest_index_and_honours_restriction() {
    assert_eq!(first_pending_fifo((1 << 3) | (1 << 7), None), Some(3));
    assert_eq!(first_pending_fifo((1 << 3) | (1 << 7), Some(7)), Some(7));
    assert_eq!(first_pending_fifo(1 << 3, Some(7)), None);
    assert_eq!(first_pending_fifo(1, None), None);
    assert_eq!(first_pending_fifo(0, None), None);
}

#[test]
fn transmit_stops_when_fifo_is_full() {
    let frame = Frame::new(standard(0x10), &[1, 2, 3]).unwrap();
    let mut t = Transmit::new(1, frame);
    let seen = drive(&mut t, Transmit::pending, Transmit::advance, |_| vec![0, 0, 0, 0]);
    assert_eq!(seen.len(), 1);
    // FIFO 1 status register is at 0x060.
    assert_eq!(seen[0], read_register_command(0x060));
    assert_eq!(t.outcome(), Some(Err(ControllerError::TransmitFifoFull)));
}

#[test]
fn transmit_writes_header_payload_and_control() {
    let frame = Frame::new(standard(0x123), &[1, 2, 3, 4, 5]).unwrap();
    let mut t = Transmit::new(2, frame);
    let seen = drive(&mut t, Transmit::pending, Transmit::advance, |t| {
        if t.command == vec![0x30, 0x6C] {
            vec![1, 0, 0, 0] // status: not full
        } else if t.command == vec![0x30, 0x70] {
            vec![0x40, 0x01, 0, 0] // user address 0x140
        } else {
            vec![0x00, 0x00, 0x01, 0x00] // control word
        }
    });
    assert_eq!(seen.len(), 6);
    let (header, _) = frame.as_components();
    let mut header_write = vec![0x25, 0x40];
    header_write.extend_from_slice(&header.into_bytes());
    assert_eq!(seen[2].command, header_write);
    assert_eq!(seen[3].command, vec![0x25, 0x48, 1, 2, 3, 4, 5, 0, 0, 0]);
    assert_eq!(seen[4], read_register_command(0x068));
    assert_eq!(seen[5], write_register_command(0x068, 0x0001_0300));
    assert_eq!(t.outcome(), Some(Ok(())));
}

#[test]
fn receive_reports_and_clears_bus_error() {
    let mut r = Receive::new(None);
    let interrupts: u32 = (1 << 13) | (1 << 1) | (1 << 17);
    let seen = drive(&mut r, Receive::pending, Receive::advance, |_| word_to_bytes(interrupts).to_vec());
    assert_eq!(seen.len(), 2);
    assert_eq!(seen[1], write_register_command(0x01C, (1 << 1) | (1 << 17)));
    assert!(matches!(r.outcome(), Some(Err(ControllerError::BusError))));

    // A second receive that reads back what was written does not report it again.
    let mut again = Receive::new(None);
    let seen = drive(&mut again, Receive::pending, Receive::advance, |t| {
        if t.command == vec![0x30, 0x1C] {
            word_to_bytes((1 << 1) | (1 << 17)).to_vec()
        } else {
            vec![0, 0, 0, 0]
        }
    });
    assert_eq!(seen.len(), 2);
    assert!(matches!(again.outcome(), Some(Ok(None))));
}

#[test]
fn receive_with_nothing_pending() {
    let mut r = Receive::new(None);
    let seen = drive(&mut r, Receive::pending, Receive::advance, |_| vec![0, 0, 0, 0]);
    assert_eq!(seen.len(), 1);
    assert!(matches!(r.outcome(), Some(Ok(None))));
}

#[test]
fn receive_takes_a_frame_from_the_first_pending_fifo() {
    let sent = Frame::new(standard(0x321), &[10, 20, 30]).unwrap();
    let (header, _) = sent.as_components();
    let mut r = Receive::new(None);
    let seen = drive(&mut r, Receive::pending, Receive::advance, |t| match t.command[..2] {
        [0x30, 0x1C] => word_to_bytes(1 << 1).to_vec(),
        [0x30, 0x20] => word_to_bytes((1 << 5) | (1 << 6)).to_vec(),
        [0x30, 0x94] => word_to_bytes(0x80).to_vec(), // FIFO 5 user address
        [0x34, 0x80] => header.into_bytes().to_vec(),
        [0x34, 0x88] => {
            let mut payload = vec![0u8; 64];
            payload[..3].copy_from_slice(&[10, 20, 30]);
            payload
        },
        _ => vec![0, 0, 0, 0],
    });
    assert_eq!(seen.len(), 7);
    assert_eq!(seen[6], write_register_command(0x05C + 12 * 4, 1 << 8));
    let (fifo_index, frame) = r.outcome().unwrap().unwrap().unwrap();
    assert_eq!(fifo_index, 5);
    assert_eq!(frame.id(), standard(0x321));
    assert_eq!(frame.data(), &[10, 20, 30]);
}

#[test]
fn supported_bit_rate_resolves_to_table_values() {
    let rate = BitRate { arbitration: ArbitrationBitRate::Rate500K, data: DataBitRate::Rate2M };
    let c = rate.get_config(&Clock::Clock40MHz).unwrap();
    assert_eq!(
        (c.arbitration_brp, c.arbitration_tseg1, c.arbitration_tseg2, c.arbitration_sjw),
        (0, 62, 15, 15)
    );
    assert_eq!((c.data_brp, c.data_tseg1, c.data_tseg2, c.data_sjw), (0, 14, 3, 3));
    assert_eq!((c.tdc_offset, c.tdc_value, c.tdc_mode), (15, 0, 2));
    assert_eq!(rate.get_config(&Clock::Clock40MHz), Some(c));
}

#[test]
fn slowest_data_rates_use_manual_delay_compensation() {
    let rate = BitRate { arbitration: ArbitrationBitRate::Rate250K, data: DataBitRate::Rate833K };
    let c = rate.get_config(&Clock::Clock40MHz).unwrap();
    assert_eq!((c.data_brp, c.data_tseg1, c.tdc_offset, c.tdc_mode), (1, 17, 18, 0));
    let rate = BitRate { arbitration: ArbitrationBitRate::Rate125K, data: DataBitRate::Rate500K };
    let c = rate.get_config(&Clock::Clock20MHz).unwrap();
    assert_eq!((c.arbitration_tseg1, c.data_tseg1, c.tdc_mode), (126, 30, 0));
}

#[test]
fn forty_megahertz_eight_megabit_sets_delay_value() {
    let rate = BitRate { arbitration: ArbitrationBitRate::Rate1000K, data: DataBitRate::Rate8M };
    let c = rate.get_config(&Clock::Clock40MHz).unwrap();
    assert_eq!((c.data_tseg1, c.tdc_offset, c.tdc_value, c.tdc_mode), (2, 3, 1, 2));
}

#[test]
fn unsupported_bit_rates_fail() {
    let rate = BitRate { arbitration: ArbitrationBitRate::Rate125K, data: DataBitRate::Rate10M };
    assert_eq!(rate.get_config(&Clock::Clock40MHz), None);
    let rate = BitRate { arbitration: ArbitrationBitRate::Rate500K, data: DataBitRate::Rate8M };
    assert_eq!(rate.get_config(&Clock::Clock20MHz), None);
    assert!(rate.get_config(&Clock::Clock40MHz).is_some());
}

#[test]
fn supported_set_size() {
    let arbitrations = [
        ArbitrationBitRate::Rate125K,
        ArbitrationBitRate::Rate250K,
        ArbitrationBitRate::Rate500K,
        ArbitrationBitRate::Rate1000K,
    ];
    let datas = [
        DataBitRate::Rate500K,
        DataBitRate::Rate833K,
        DataBitRate::Rate1M,
        DataBitRate::Rate1M5,
        DataBitRate::Rate2M,
        DataBitRate::Rate3M,
        DataBitRate::Rate4M,
        DataBitRate::Rate5M,
        DataBitRate::Rate6M7,
        DataBitRate::Rate8M,
        DataBitRate::Rate10M,
    ];
    let mut counts = [0, 0];
    for (k, clock) in [Clock::Clock40MHz, Clock::Clock20MHz].iter().enumerate() {
        for a in arbitrations.iter() {
            for d in datas.iter() {
                let rate = BitRate { arbitration: *a, data: *d };
                if rate.get_config(clock).is_some() {
                    counts[k] += 1;
                }
            }
        }
    }
    assert_eq!(counts, [18, 12]);
}

#[test]
fn configure_rejects_unsupported_rate_before_any_exchange() {
    let mut config = Config::default();
    config.bit_rate = BitRate { arbitration: ArbitrationBitRate::Rate1000K, data: DataBitRate::Rate500K };
    assert_eq!(Configure::new(&config).err(), Some(ControllerError::UnsupportedBitRate));
}

#[test]
fn configure_runs_the_whole_sequence() {
    let config = Config::default();
    let mut c = Configure::new(&config).ok().unwrap();
    let seen = drive(&mut c, Configure::pending, Configure::advance, |_| vec![0, 0, 0, 0]);
    assert!(c.is_finished());
    // reset, ECC read and write, 32 RAM writes, CAN control read and write,
    // two bit time writes, delay compensation read and write, interrupts
    // read and write.
    assert_eq!(seen.len(), 1 + 2 + 32 + 2 + 2 + 2 + 2);
    assert_eq!(seen[0], reset_command());
    assert_eq!(seen[2], write_register_command(0xE0C, 1));
    assert!(seen[3..35].iter().all(|t| t.command.len() == 66 && t.command[2..].iter().all(|&b| b == 0)));
    assert_eq!(seen[36], write_register_command(0x000, 1 << 5));
    assert_eq!(seen[37], write_register_command(0x004, (62 << 16) | (15 << 8) | 15));
    assert_eq!(seen[38], write_register_command(0x008, (14 << 16) | (3 << 8) | 3));
    assert_eq!(seen[40], write_register_command(0x00C, (2 << 16) | (15 << 8)));
    assert_eq!(seen[42], write_register_command(0x01C, (1 << 17) | (1 << 29)));
}

#[test]
fn set_mode_writes_requested_mode() {
    let mut m = SetMode::new(OperationMode::Normal);
    let seen = drive(&mut m, SetMode::pending, SetMode::advance, |_| word_to_bytes(0x0498_0760).to_vec());
    assert_eq!(seen.len(), 2);
    assert_eq!(seen[1], write_register_command(0x000, 0x0098_0760));
    let mut m = SetMode::new(OperationMode::ListenOnly);
    let seen = drive(&mut m, SetMode::pending, SetMode::advance, |_| vec![0, 0, 0, 0]);
    assert_eq!(seen[1], write_register_command(0x000, 3 << 24));
}

#[test]
fn classic_transmit_buffer_probe() {
    assert_eq!(select_transmit_buffer([false, false, false]), Some(0));
    assert_eq!(select_transmit_buffer([true, false, false]), Some(1));
    assert_eq!(select_transmit_buffer([true, true, false]), Some(2));
    assert_eq!(select_transmit_buffer([true, true, true]), None);
}

#[test]
fn driver_holds_its_bus() {
    let mut driver = MCP25xxFD::new(7u32);
    *driver.bus() += 1;
    assert_eq!(driver.release(), 8);
}

#[test]
fn default_config() {
    let c = Config::default();
    assert!(c.ecc_enabled && c.iso_crc_enabled);
    assert!(!c.txq_enabled && !c.tx_event_fifo_enabled && !c.restrict_retx_attempts);
    assert_eq!(c.clock, Clock::Clock40MHz);
    assert_eq!(c.bit_rate, BitRate::default());
}
