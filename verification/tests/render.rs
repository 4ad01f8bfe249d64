use vga::pacer::Pace;
use vga::pacer::FRAME_BUDGET_MICROS;
use vga::registers::CRTReg;
use vga::registers::GeneralReg;
use vga::registers::SCReg;
use vga::screen::composite;
use vga::screen::default_color;
use vga::screen::make_config;
use vga::screen::render_frame;
use vga::screen::render_scanline;
use vga::screen::set_display_enable;
use vga::screen::set_vertical_retrace;
use vga::screen::start;
use vga::screen::start_debug_planar_mode;
use vga::screen::ConfigError;
use vga::screen::RenderConfig;
use vga::screen::DE_BIT;
use vga::screen::VR_BIT;

#[test]
fn composite_packs_one_bit_per_plane() {
    // Bit position 0 reads the most significant bit of each plane byte.
    assert_eq!(composite(0x80, 0x00, 0x00, 0x00, 0), 0b0001);
    assert_eq!(composite(0x00, 0x80, 0x00, 0x00, 0), 0b0010);
    assert_eq!(composite(0x00, 0x00, 0x80, 0x00, 0), 0b0100);
    assert_eq!(composite(0x00, 0x00, 0x00, 0x80, 0), 0b1000);
    assert_eq!(composite(0xFF, 0xFF, 0xFF, 0xFF, 3), 0b1111);
    assert_eq!(composite(0x00, 0x00, 0x00, 0x00, 5), 0b0000);
    // And the general formula over every bit position.
    let (b0, b1, b2, b3) = (0xA5u8, 0x3Cu8, 0x0Fu8, 0xF0u8);
    for p in 0usize..8 {
        let bit = |v: u8| (v >> (7 - p)) & 1;
        let expected = bit(b0) | bit(b1) << 1 | bit(b2) << 2 | bit(b3) << 3;
        assert_eq!(composite(b0, b1, b2, b3, p), expected);
    }
}

#[test]
fn composite_is_deterministic() {
    for p in 0usize..8 {
        assert_eq!(
            composite(0x5A, 0xC3, 0x81, 0x7E, p),
            composite(0x5A, 0xC3, 0x81, 0x7E, p)
        );
    }
}

#[test]
fn palette_has_sixteen_distinct_colors() {
    let colors: Vec<_> = (0u8..16).map(default_color).collect();
    assert_eq!(colors[0], vga::screen::RGB { r: 0, g: 0, b: 0 });
    assert_eq!(
        colors[15],
        vga::screen::RGB {
            r: 0xFE,
            g: 0xFE,
            b: 0xFE
        }
    );
    for i in 0..16 {
        for j in 0..16 {
            if i != j {
                assert_ne!(colors[i], colors[j]);
            }
        }
    }
}

#[test]
fn status_bits_toggle_independently() {
    let mut v = vga::registers::new(0x10);
    set_display_enable(&mut v, true);
    set_vertical_retrace(&mut v, false);
    let s = v.get_general_reg(GeneralReg::InputStatus1);
    assert_eq!(s & DE_BIT, DE_BIT);
    assert_eq!(s & VR_BIT, 0);
    set_vertical_retrace(&mut v, true);
    let s = v.get_general_reg(GeneralReg::InputStatus1);
    assert_eq!(s & DE_BIT, DE_BIT);
    assert_eq!(s & VR_BIT, VR_BIT);
    set_display_enable(&mut v, false);
    let s = v.get_general_reg(GeneralReg::InputStatus1);
    assert_eq!(s & DE_BIT, 0);
    assert_eq!(s & VR_BIT, VR_BIT);
}

#[test]
fn retrace_and_display_enable_around_frame_phases() {
    let mut v = vga::registers::new(0x10);
    let cfg = RenderConfig {
        width_bytes: 1,
        height: 2,
        pitch: 1,
    };
    // A scanline's decode leaves display-enable active and the retrace
    // bit as it found it.
    set_vertical_retrace(&mut v, false);
    let mut row = Vec::new();
    render_scanline(&mut v, &cfg, 0, &mut row);
    let s = v.get_general_reg(GeneralReg::InputStatus1);
    assert_eq!(s & DE_BIT, DE_BIT);
    assert_eq!(s & VR_BIT, 0);
    // A whole frame ends with the retrace bit active.
    let _ = render_frame(&mut v, &cfg);
    let s = v.get_general_reg(GeneralReg::InputStatus1);
    assert_eq!(s & VR_BIT, VR_BIT);
    assert_eq!(s & DE_BIT, DE_BIT);
}

#[test]
fn pacer_sleeps_the_exact_remainder() {
    // A 10 ms scan against the ~16.67 ms budget leaves ~6.67 ms to sleep.
    assert_eq!(FRAME_BUDGET_MICROS, 16_666);
    assert_eq!(vga::pacer::pace_frame(10_000), Pace::Sleep(6_666));
}

#[test]
fn pacer_records_the_exact_overrun() {
    // A 20 ms scan does not sleep and reports the overrun.
    assert_eq!(vga::pacer::pace_frame(20_000), Pace::Overrun(3_334));
    assert_eq!(vga::pacer::pace_frame(16_666), Pace::Overrun(0));
}

#[test]
fn unsupported_video_mode_fails_fast() {
    let mut v = vga::registers::new(0x13);
    v.set_crt_data(CRTReg::Offset, 42);
    assert_eq!(start(&v), Err(ConfigError::UnsupportedMode));
}

#[test]
fn zero_crt_offset_fails_fast() {
    let v = vga::registers::new(0x10);
    assert_eq!(start(&v), Err(ConfigError::IllegalOffset));
}

#[test]
fn supported_mode_yields_the_display_geometry() {
    let mut v = vga::registers::new(0x10);
    v.set_crt_data(CRTReg::Offset, 42);
    assert_eq!(
        start(&v),
        Ok(RenderConfig {
            width_bytes: 80,
            height: 350,
            pitch: 84,
        })
    );
}

#[test]
fn oversized_geometry_is_rejected() {
    let mut v = vga::registers::new(0x10);
    v.set_crt_data(CRTReg::Offset, 42);
    assert_eq!(
        start_debug_planar_mode(&v, 640, 100_000),
        Err(ConfigError::GeometryTooLarge)
    );
}

#[test]
fn frame_decodes_planes_to_rgb() {
    let mut v = vga::registers::new(0x10);
    v.set_sc_data(SCReg::MapMask, 0x0F);
    assert_eq!(v.write_mem(0, 0xFF), Ok(()));
    v.set_crt_data(CRTReg::Offset, 1);
    let cfg = start_debug_planar_mode(&v, 8, 1).unwrap();
    let buf = render_frame(&mut v, &cfg);
    assert_eq!(buf.len(), 24);
    // All four planes set: color index 15 for all 8 pixels.
    for px in 0..8 {
        assert_eq!(&buf[px * 3..px * 3 + 3], &[0xFE, 0xFE, 0xFE]);
    }
}

#[test]
fn sprite_pattern_composites_deterministically() {
    // The first rows of the demo ball image: planes 0 and 3 carry the
    // pattern, planes 1 and 2 are blank, so every set bit is index 9.
    let rows: [u8; 12] = [
        0x00, 0x3c, 0x00, 0x01, 0xff, 0x80, 0x07, 0xff, 0xe0, 0x0f, 0xff, 0xf0,
    ];
    let blank = vec![0u8; 12];
    let offset = 0x4000;
    let mut v = vga::registers::new(0x10);
    v.set_sc_data(SCReg::MapMask, 0x01);
    assert_eq!(v.write_mem_chunk(offset, &rows.to_vec()), Ok(()));
    v.set_sc_data(SCReg::MapMask, 0x02);
    assert_eq!(v.write_mem_chunk(offset, &blank), Ok(()));
    v.set_sc_data(SCReg::MapMask, 0x04);
    assert_eq!(v.write_mem_chunk(offset, &blank), Ok(()));
    v.set_sc_data(SCReg::MapMask, 0x08);
    assert_eq!(v.write_mem_chunk(offset, &rows.to_vec()), Ok(()));

    let decode = |v: &vga::registers::VGA| -> Vec<u8> {
        let mut out = Vec::new();
        for i in 0..12 {
            let b0 = v.raw_read_mem(0, offset + i);
            let b1 = v.raw_read_mem(1, offset + i);
            let b2 = v.raw_read_mem(2, offset + i);
            let b3 = v.raw_read_mem(3, offset + i);
            for p in 0..8 {
                out.push(composite(b0, b1, b2, b3, p));
            }
        }
        out
    };
    let first = decode(&v);
    // Byte 1 is 0x3c in planes 0 and 3: pixels 0,0,9,9,9,9,0,0.
    assert_eq!(&first[8..16], &[0, 0, 9, 9, 9, 9, 0, 0]);
    // Byte 3 is 0x01: only the last pixel is lit.
    assert_eq!(&first[24..32], &[0, 0, 0, 0, 0, 0, 0, 9]);
    // Every set bit decodes to 9, every clear bit to 0.
    for (i, &row) in rows.iter().enumerate() {
        for p in 0..8 {
            let expected = if row & (0x80 >> p) != 0 { 9 } else { 0 };
            assert_eq!(first[i * 8 + p], expected);
        }
    }
    // Repeated decoding of the same memory yields the same pattern.
    let second = decode(&v);
    assert_eq!(first, second);
}

#[test]
fn make_config_doubles_the_offset_register() {
    let mut v = vga::registers::new(0x10);
    v.set_crt_data(CRTReg::Offset, 3);
    let cfg = make_config(&v, 16, 4).unwrap();
    assert_eq!(cfg.width_bytes, 2);
    assert_eq!(cfg.height, 4);
    assert_eq!(cfg.pitch, 6);
}
