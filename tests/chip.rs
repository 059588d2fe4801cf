use vgm::header::{SN76489, SN76489Feedback};
use vgm::sn76489::{
    volume_level, Register, SNG, SNG_calc, SNG_calc_stereo, SNG_new, SNG_reset, SNG_set_quality,
    SNG_set_rate, SNG_writeGGIO, SNG_writeIO,
};

/// A clock that gives exactly `ticks` internal ticks per sample at 44100 Hz.
fn exact_clock(ticks: u32) -> u32 {
    16 * 44100 * ticks
}

#[test]
fn volume_table_levels() {
    let expected = [255, 203, 161, 128, 101, 80, 64, 51, 40, 32, 25, 20, 16, 12, 10, 0];
    for (att, level) in expected.iter().enumerate() {
        assert_eq!(volume_level(att as u32), *level);
    }
}

#[test]
fn register_addresses() {
    assert_eq!(Register::from_address(0), Register::Tone(0));
    assert_eq!(Register::from_address(1), Register::Volume(0));
    assert_eq!(Register::from_address(4), Register::Tone(2));
    assert_eq!(Register::from_address(6), Register::NoiseControl);
    assert_eq!(Register::from_address(7), Register::Volume(3));
}

#[test]
fn new_chip_is_reset() {
    let sng = SNG::new(3579545, 0);
    assert_eq!(sng.rate, 44100);
    assert_eq!(sng.volume, [15, 15, 15]);
    assert_eq!(sng.noise_volume, 15);
    assert_eq!(sng.noise_seed, 0x8000);
    assert_eq!(sng.stereo, 0xff);
    assert_eq!(sng.freq, [0, 0, 0]);
    assert_eq!(sng.ch_out, [0, 0, 0, 0]);
    assert_eq!(sng.noise_feedback, 0x0009);
}

#[test]
fn rate_fields() {
    let mut sng = SNG_new(3579545, 0);
    assert_eq!(sng.base_incr, 85111677);
    SNG_set_rate(&mut sng, 22050);
    assert_eq!(sng.rate, 22050);
    assert_eq!(sng.base_incr, 170223355);
    SNG_set_rate(&mut sng, 0);
    SNG_set_quality(&mut sng, 1);
    assert_eq!(sng.base_incr, 1 << 24);
    assert_eq!(sng.realstep, 48695);
    assert_eq!(sng.sngstep, 9598);
    assert_eq!(sng.sngtime, 0);
}

#[test]
fn fast_increment_saturates() {
    let sng = SNG_new(0x3fff_ffff, 1);
    assert_eq!(sng.base_incr, u32::MAX);
}

#[test]
fn reset_then_sample_is_silent() {
    let mut sng = SNG::new(3579545, 44100);
    SNG_writeIO(&mut sng, 0x81);
    SNG_writeIO(&mut sng, 0x90);
    for _ in 0..100 {
        SNG_calc(&mut sng);
    }
    SNG_reset(&mut sng);
    for _ in 0..5000 {
        assert_eq!(SNG_calc(&mut sng), 0);
    }
    SNG_set_quality(&mut sng, 1);
    for _ in 0..5000 {
        assert_eq!(SNG_calc(&mut sng), 0);
    }
}

#[test]
fn latch_and_data_bytes() {
    let mut sng = SNG::new(3579545, 44100);
    // Tone 1: low four bits by latch, high six by data.
    SNG_writeIO(&mut sng, 0xa5);
    assert_eq!(sng.freq[1], 0x005);
    SNG_writeIO(&mut sng, 0x3f);
    assert_eq!(sng.freq[1], 0x3f5);
    SNG_writeIO(&mut sng, 0xaa);
    assert_eq!(sng.freq[1], 0x3fa);
    // A data byte after a volume latch sets the attenuation again.
    SNG_writeIO(&mut sng, 0xd3);
    assert_eq!(sng.volume[2], 3);
    SNG_writeIO(&mut sng, 0x07);
    assert_eq!(sng.volume[2], 7);
    assert_eq!(sng.freq[2], 0);
    // Noise volume.
    SNG_writeIO(&mut sng, 0xf4);
    assert_eq!(sng.noise_volume, 4);
}

#[test]
fn volume_latch_for_channel_one() {
    let mut sng = SNG::new(3579545, 44100);
    SNG_writeIO(&mut sng, 0xb0);
    assert_eq!(sng.volume, [15, 0, 15]);
    SNG_writeIO(&mut sng, 0xbf);
    assert_eq!(sng.volume, [15, 15, 15]);
}

#[test]
fn loud_channel_reaches_table_level() {
    let mut sng = SNG::new(exact_clock(64), 44100);
    SNG_writeIO(&mut sng, 0xb0);
    SNG_writeIO(&mut sng, 0xa1);
    SNG_writeIO(&mut sng, 0x00);
    let samples: Vec<i16> = (0..30).map(|_| SNG_calc(&mut sng)).collect();
    let expected: Vec<i16> = vec![
        0, 0, 0, 0, 0, 0, 0, 0, 0, 0, 0, 0, 0, 0, 0, 2040, 3060, 3570, 3825, 3952, 4016, 4048,
        4064, 4072, 4076, 4078, 4079, 4079, 4079, 4079,
    ];
    assert_eq!(samples, expected);
    assert_eq!(sng.edge[1], 1);
    // Attenuation 15 silences it again.
    SNG_writeIO(&mut sng, 0xbf);
    for _ in 0..20 {
        SNG_calc(&mut sng);
    }
    assert_eq!(SNG_calc(&mut sng), 0);
}

#[test]
fn softer_attenuation_gives_lower_level() {
    let mut sng = SNG::new(exact_clock(64), 44100);
    SNG_writeIO(&mut sng, 0xb4);
    SNG_writeIO(&mut sng, 0xa1);
    SNG_writeIO(&mut sng, 0x00);
    let mut last = 0;
    for _ in 0..60 {
        last = SNG_calc(&mut sng);
    }
    // Level 101 of the table, times 16, less the halving's rounding.
    assert_eq!(last, 101 * 16 - 1);
}

#[test]
fn periodic_noise_sequence() {
    let mut sng = SNG::new(exact_clock(32), 44100);
    assert_eq!(sng.noise_seed, 0x8000);
    // Periodic noise at the fastest shift rate.
    SNG_writeIO(&mut sng, 0xe0);
    assert_eq!(sng.noise_mode, 0);
    assert_eq!(sng.noise_freq, 32);
    let mut seeds = Vec::new();
    for _ in 0..30 {
        SNG_calc(&mut sng);
        seeds.push(sng.noise_seed);
    }
    let expected: Vec<u32> = vec![
        0x8000, 0x8000, 0x8000, 0x8000, 0x8000, 0x8000, 0x8000, 0x4000, 0x2000, 0x1000, 0x0800,
        0x0400, 0x0200, 0x0100, 0x0080, 0x0040, 0x0020, 0x0010, 0x0008, 0x0004, 0x0002, 0x0001,
        0x8000, 0x4000, 0x2000, 0x1000, 0x0800, 0x0400, 0x0200, 0x0100,
    ];
    assert_eq!(seeds, expected);
}

#[test]
fn white_noise_uses_taps() {
    let mut sng = SNG::new(exact_clock(32), 44100);
    // White noise at the fastest rate; taps at bits 0 and 3.
    SNG_writeIO(&mut sng, 0xe4);
    assert_eq!(sng.noise_mode, 1);
    sng.noise_seed = 0x0009;
    sng.noise_count = 0xff;
    SNG_calc(&mut sng);
    // Bits 0 and 3 are both set: parity 0 shifts in a 0.
    assert_eq!(sng.noise_seed, 0x0004);
    sng.noise_count = 0xff;
    SNG_calc(&mut sng);
    // 0x0004 has no tap set.
    assert_eq!(sng.noise_seed, 0x0002);
    sng.noise_seed = 0x0001;
    sng.noise_count = 0xff;
    SNG_calc(&mut sng);
    assert_eq!(sng.noise_seed, 0x8000);
}

#[test]
fn noise_control_follows_tone_two() {
    let mut sng = SNG::new(3579545, 44100);
    SNG_writeIO(&mut sng, 0xc7);
    SNG_writeIO(&mut sng, 0x02);
    assert_eq!(sng.freq[2], 0x27);
    sng.noise_seed = 0x1234;
    SNG_writeIO(&mut sng, 0xe7);
    assert_eq!(sng.noise_fref, 1);
    assert_eq!(sng.noise_mode, 1);
    assert_eq!(sng.noise_freq, 0x27);
    assert_eq!(sng.noise_seed, 0x8000);
    // A data byte after the noise latch sets the control again.
    sng.noise_seed = 0x1234;
    SNG_writeIO(&mut sng, 0x02);
    assert_eq!(sng.noise_fref, 0);
    assert_eq!(sng.noise_mode, 0);
    assert_eq!(sng.noise_freq, 128);
    assert_eq!(sng.noise_seed, 0x8000);
    assert_eq!(sng.freq, [0, 0, 0x27]);
}

#[test]
fn tone_with_period_zero_stays_high() {
    let mut sng = SNG::new(exact_clock(64), 44100);
    SNG_writeIO(&mut sng, 0x90);
    for _ in 0..40 {
        SNG_calc(&mut sng);
        assert!(sng.edge[0] == 0 || sng.edge[0] == 1);
    }
    assert_eq!(sng.edge[0], 1);
    let a = SNG_calc(&mut sng);
    let b = SNG_calc(&mut sng);
    assert_eq!(a, b);
}

#[test]
fn stereo_mask_routes_channels() {
    let mut sng = SNG::new(exact_clock(64), 44100);
    SNG_writeIO(&mut sng, 0x90);
    SNG_writeIO(&mut sng, 0xb0);
    let mut out = [0i32; 2];
    for _ in 0..40 {
        SNG_calc_stereo(&mut sng, &mut out);
    }
    let level = sng.ch_out[0] as i32;
    assert!(level > 0);
    assert_eq!(out, [2 * level, 2 * level]);
    // Channel 0 left only, channel 1 right only.
    SNG_writeGGIO(&mut sng, 0x12);
    SNG_calc_stereo(&mut sng, &mut out);
    assert_eq!(out, [sng.ch_out[0] as i32, sng.ch_out[1] as i32]);
    SNG_writeGGIO(&mut sng, 0x00);
    SNG_calc_stereo(&mut sng, &mut out);
    assert_eq!(out, [0, 0]);
}

#[test]
fn mono_sum_wraps_to_sixteen_bits() {
    let mut sng = SNG::new(3579545, 44100);
    sng.base_incr = 0;
    sng.ch_out = [16000, 16000, 16000, 0];
    assert_eq!(SNG_calc(&mut sng), 24000);
    assert_eq!(sng.out, 24000);
    sng.ch_out = [32767, 32767, 32767, 32767];
    assert_eq!(SNG_calc(&mut sng), -4);
    assert_eq!(sng.out, 65532);
}

/// Rising crossings of the midpoint of a full-volume tone over one second.
fn crossings(quality: u32) -> u32 {
    let mut sng = SNG::new(exact_clock(2), 44100);
    SNG_set_quality(&mut sng, quality);
    SNG_writeIO(&mut sng, 0x84);
    SNG_writeIO(&mut sng, 0x06);
    SNG_writeIO(&mut sng, 0x90);
    let mut prev = 0;
    let mut count = 0;
    for _ in 0..44100 {
        let x = SNG_calc(&mut sng);
        if prev < 2040 && x >= 2040 {
            count += 1;
        }
        prev = x;
    }
    count
}

#[test]
fn quality_paths_agree_on_frequency() {
    let fast = crossings(0);
    let accurate = crossings(1);
    assert!(fast > 400);
    assert!(fast.abs_diff(accurate) <= 1);
}

#[test]
fn chip_from_config() {
    let cfg = SN76489::new(0xc000_0000 | 3579545, None, None, None);
    let sng = SNG::from_config(&cfg, 0).unwrap();
    assert_eq!(sng.clk, 3579545);
    assert_eq!(sng.noise_feedback, 0x0009);
    assert_eq!(sng.volume, [15, 15, 15]);
    let cfg = SN76489::new(3579545, Some(SN76489Feedback::from_bits_truncate(0x0003)), None, None);
    assert_eq!(SNG::from_config(&cfg, 0).unwrap().noise_feedback, 0x0003);
    let cfg = SN76489::new(0xc000_0000, None, None, None);
    assert!(SNG::from_config(&cfg, 0).is_none());
}

#[test]
fn methods_match_functions() {
    let mut a = SNG::new(3579545, 0);
    let mut b = SNG::new(3579545, 0);
    a.write(0x85);
    SNG_writeIO(&mut b, 0x85);
    a.write(0x90);
    SNG_writeIO(&mut b, 0x90);
    a.set_rate(22050);
    SNG_set_rate(&mut b, 22050);
    for _ in 0..100 {
        a.update();
        SNG_calc(&mut b);
    }
    assert_eq!(a.ch_out, b.ch_out);
    assert_eq!(a.count, b.count);
}
