use shader_toy::uniforms::{
    abs_bits, MainUniformBlock, MainUniforms, TimeUniform, MAIN_UNIFORM_BYTES, PAD_WORD, TEN,
    TIME_STEP, TIME_UNIFORM_BYTES,
};

#[test]
fn constants_are_the_bit_patterns_they_stand_for() {
    assert_eq!(TEN, 10.0f32.to_bits());
    assert_eq!(PAD_WORD, 10.0f32.to_bits());
    assert_eq!(TIME_STEP, 0.01f32.to_bits());
    assert_eq!(MAIN_UNIFORM_BYTES, 32);
    assert_eq!(TIME_UNIFORM_BYTES, 16);
}

#[test]
fn abs_bits_is_the_absolute_value() {
    for value in [0.0f32, -0.0, 1.5, -1.5, -120.25, f32::MIN, f32::MAX, f32::NEG_INFINITY] {
        assert_eq!(abs_bits(value.to_bits()), value.abs().to_bits());
    }
    assert_eq!(abs_bits(0xffff_ffff), 0x7fff_ffff);
    assert_eq!(abs_bits((-f32::NAN).to_bits()), (-f32::NAN).abs().to_bits());
}

#[test]
fn default_uniforms() {
    let u = MainUniforms::default();
    assert_eq!(
        u,
        MainUniforms { time: 0, resolution: (10, 10), mouse_position: (0, 0), zoom: (0, 0) }
    );
}

#[test]
fn advance_copies_the_inputs_and_steps_time() {
    let mut u = MainUniforms::default();
    let pointer = (100.0f64.to_bits(), 200.0f64.to_bits());
    let scroll = ((-3.0f32).to_bits(), 4.5f32.to_bits());
    u.advance((800, 600), pointer, scroll);
    assert_eq!(
        u,
        MainUniforms {
            time: 1,
            resolution: (800, 600),
            mouse_position: pointer,
            zoom: (3.0f32.to_bits(), 4.5f32.to_bits()),
        }
    );
}

#[test]
fn n_advances_are_n_steps() {
    let mut u = MainUniforms::default();
    for _ in 0..1000 {
        u.advance((1, 2), (3, 4), (5, 6));
    }
    assert_eq!(u, MainUniforms { time: 1000, resolution: (1, 2), mouse_position: (3, 4), zoom: (5, 6) });
}

#[test]
fn step_counter_stops_at_its_largest_value() {
    let mut u = MainUniforms { time: u64::MAX - 1, ..MainUniforms::default() };
    u.advance((1, 1), (0, 0), (0, 0));
    assert_eq!(u.time, u64::MAX);
    u.advance((1, 1), (0, 0), (0, 0));
    assert_eq!(u.time, u64::MAX);
}

#[test]
fn block_words_are_in_wire_order() {
    let block = MainUniformBlock {
        time: 0.01f32.to_bits(),
        resolution: (800.0f32.to_bits(), 600.0f32.to_bits()),
        mouse_position: (100.0f32.to_bits(), 200.0f32.to_bits()),
        zoom: (0.0f32.to_bits(), 7.0f32.to_bits()),
    };
    let as_singles: Vec<f32> = block.words().into_iter().map(f32::from_bits).collect();
    assert_eq!(as_singles, vec![0.01, 10.0, 800.0, 600.0, 100.0, 200.0, 0.0, 7.0]);
}

#[test]
fn block_bytes_are_the_words_in_memory_order() {
    let block = MainUniformBlock {
        time: 0x0102_0304,
        resolution: (0x1112_1314, 0x2122_2324),
        mouse_position: (0x3132_3334, 0x4142_4344),
        zoom: (0x5152_5354, 0x6162_6364),
    };
    let bytes = block.bytes();
    assert_eq!(bytes.len(), 32);
    let mut expected = Vec::new();
    for word in block.words() {
        expected.extend_from_slice(&word.to_ne_bytes());
    }
    assert_eq!(bytes, expected);
    // time at offset 0, padding at 4, resolution at 8, pointer at 16, zoom at 24
    assert_eq!(bytes[0..4], 0x0102_0304u32.to_ne_bytes());
    assert_eq!(bytes[4..8], 10.0f32.to_ne_bytes());
    assert_eq!(bytes[8..12], 0x1112_1314u32.to_ne_bytes());
    assert_eq!(bytes[16..20], 0x3132_3334u32.to_ne_bytes());
    assert_eq!(bytes[24..28], 0x5152_5354u32.to_ne_bytes());
    assert_eq!(bytes[28..32], 0x6162_6364u32.to_ne_bytes());
}

#[test]
fn time_uniform_default_and_layout() {
    let t = TimeUniform::default();
    assert_eq!(t, TimeUniform { time: 0, resolution: (10.0f32.to_bits(), 10.0f32.to_bits()) });
    let as_singles: Vec<f32> = t.words().into_iter().map(f32::from_bits).collect();
    assert_eq!(as_singles, vec![0.0, 10.0, 10.0, 10.0]);
    assert_eq!(t.bytes().len(), 16);
}

#[test]
fn block_takes_each_field_through_its_conversion() {
    let u = MainUniforms {
        time: 3,
        resolution: (800, 600),
        mouse_position: (100.5f64.to_bits(), 200.25f64.to_bits()),
        zoom: (1.0f32.to_bits(), 2.0f32.to_bits()),
    };
    let block = u.block(
        &|n: u64| (n as f32 * 0.01).to_bits(),
        &|p: u32| (p as f32).to_bits(),
        &|d: u64| (f64::from_bits(d) as f32).to_bits(),
    );
    assert_eq!(
        block,
        MainUniformBlock {
            time: 0.03f32.to_bits(),
            resolution: (800.0f32.to_bits(), 600.0f32.to_bits()),
            mouse_position: (100.5f32.to_bits(), 200.25f32.to_bits()),
            zoom: (1.0f32.to_bits(), 2.0f32.to_bits()),
        }
    );
    // each conversion is used for its own fields and no other
    let marked = u.block(&|_| 1, &|p: u32| p + 10, &|_| 3);
    assert_eq!(
        marked,
        MainUniformBlock { time: 1, resolution: (810, 610), mouse_position: (3, 3), zoom: u.zoom }
    );
}
