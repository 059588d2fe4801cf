use vgm::header::{
    option_u32_hex_fmt, u32_hex_fmt, SN76489, SN76489Feedback, SN76489Flags,
    SN76489ShiftRegisterWidth,
};
use vgm::parser::{header, HeaderError};

fn new(clock: u32) -> SN76489 {
    let feedback = Some(SN76489Feedback::from_bits_truncate(0));
    let shift_register_width = Some(SN76489ShiftRegisterWidth::from_bits_truncate(0));
    let flags = Some(SN76489Flags::from_bits_truncate(0));

    SN76489::new(clock, feedback, shift_register_width, flags)
}

#[test]
fn sn76489_new() {
    let clock = 0x80000000 | 42;
    assert!(new(clock).t6w28);
    assert!(!new(clock).dual_chip_bit);

    let clock = 0x40000000 | 42;
    assert!(!new(clock).t6w28);
    assert!(new(clock).dual_chip_bit);

    let clock = 0x40000000 | 0x80000000 | 42;
    assert!(new(clock).t6w28);
    assert!(new(clock).dual_chip_bit);
}

#[test]
fn flags_drop_unnamed_bits() {
    assert_eq!(SN76489Flags::from_bits_truncate(0xff).bits(), 0x0f);
    assert_eq!(SN76489Feedback::from_bits_truncate(0x0022).bits(), 0x0022);
    assert_eq!(SN76489ShiftRegisterWidth::from_bits_truncate(16).bits(), 16);
}

fn put_u32(b: &mut Vec<u8>, at: usize, v: u32) {
    b[at] = v as u8;
    b[at + 1] = (v >> 8) as u8;
    b[at + 2] = (v >> 16) as u8;
    b[at + 3] = (v >> 24) as u8;
}

fn sample_header(version: u32) -> Vec<u8> {
    let mut b = vec![0u8; 0x40];
    b[0] = b'V';
    b[1] = b'g';
    b[2] = b'm';
    b[3] = b' ';
    put_u32(&mut b, 0x04, 0x1234);
    put_u32(&mut b, 0x08, version);
    put_u32(&mut b, 0x0c, 0x4000_0000 | 3579545);
    put_u32(&mut b, 0x10, 0);
    put_u32(&mut b, 0x14, 0x20);
    put_u32(&mut b, 0x18, 88200);
    put_u32(&mut b, 0x1c, 0x3fe4);
    put_u32(&mut b, 0x20, 44100);
    put_u32(&mut b, 0x24, 60);
    b[0x28] = 0x09;
    b[0x29] = 0x00;
    b[0x2a] = 16;
    b[0x2b] = 0xf5;
    put_u32(&mut b, 0x2c, 7670454);
    put_u32(&mut b, 0x30, 0);
    put_u32(&mut b, 0x34, 0x4c);
    put_u32(&mut b, 0x38, 0x7);
    put_u32(&mut b, 0x3c, 0x9);
    b
}

#[test]
fn header_of_recent_version() {
    let h = header(&sample_header(0x171)).unwrap();
    assert_eq!(h.eof_offset, 0x1234);
    assert_eq!(h.version, 0x171);
    let chip = h.sn76489.unwrap();
    assert_eq!(chip.clock, 0x4000_0000 | 3579545);
    assert!(chip.dual_chip_bit);
    assert!(!chip.t6w28);
    assert_eq!(chip.feedback.unwrap().bits(), 0x0009);
    assert_eq!(chip.shift_register_width.unwrap().bits(), 16);
    assert_eq!(chip.flags.unwrap().bits(), 0x05);
    assert_eq!(h.ym2413_clock, None);
    assert_eq!(h.gd3_offset, Some(0x20));
    assert_eq!(h.total_samples, 88200);
    assert_eq!(h.loop_offset, 0x3fe4);
    assert_eq!(h.loop_samples, 44100);
    assert_eq!(h.rate, Some(60));
    assert_eq!(h.ym2612_clock, Some(7670454));
    assert_eq!(h.ym2151_clock, Some(0));
    assert_eq!(h.data_offset, 0x80);
    assert_eq!(h.sega_pcm_clock, Some(7));
    assert_eq!(h.spcm_interface, Some(9));
}

#[test]
fn header_of_old_version() {
    let h = header(&sample_header(0x100)).unwrap();
    assert_eq!(h.rate, None);
    let chip = h.sn76489.unwrap();
    assert!(chip.feedback.is_none());
    assert!(chip.shift_register_width.is_none());
    assert!(chip.flags.is_none());
    assert_eq!(h.ym2612_clock, None);
    assert_eq!(h.data_offset, 0x40);
    assert_eq!(h.sega_pcm_clock, None);
}

#[test]
fn header_without_chip() {
    let mut b = sample_header(0x150);
    put_u32(&mut b, 0x0c, 0);
    let h = header(&b).unwrap();
    assert!(h.sn76489.is_none());
    assert_eq!(h.rate, Some(60));
    assert!(h.sega_pcm_clock.is_none());
}

#[test]
fn header_errors() {
    assert_eq!(header(b"Vgm").unwrap_err(), HeaderError::BadIdent);
    assert_eq!(header(b"Vgx ....").unwrap_err(), HeaderError::BadIdent);
    let b = sample_header(0x171);
    assert_eq!(header(&b[..0x3f]).unwrap_err(), HeaderError::Truncated);
    let mut b = sample_header(0x171);
    put_u32(&mut b, 0x34, 0xffff_fff0);
    assert_eq!(header(&b).unwrap_err(), HeaderError::DataOffsetOverflow);
}

#[test]
fn hex_formatting() {
    assert_eq!(u32_hex_fmt(42), "0x0000002a");
    assert_eq!(u32_hex_fmt(0xdead_beef), "0xdeadbeef");
    assert_eq!(u32_hex_fmt(0), format!("{:#010x}", 0u32));
    assert_eq!(u32_hex_fmt(0x0123_4567), format!("{:#010x}", 0x0123_4567u32));
    assert_eq!(option_u32_hex_fmt(&Some(0x171)), "0x00000171");
    assert_eq!(option_u32_hex_fmt(&None), "None");
}
