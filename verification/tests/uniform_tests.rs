use planet_render::uniform::{
    identity_matrix, UniformBlock, INSTANCE_FLAG_OFFSET, MODEL_OFFSET, ONE_BITS, PADDING_OFFSET,
    PRIMARY_INSTANCE, SECONDARY_INSTANCE, STYLE_ID_OFFSET, TIME_OFFSET, UNIFORM_BLOCK_BYTES,
    UNIFORM_BLOCK_WORDS, VIEW_PROJECTION_OFFSET,
};

fn word_at(bytes: &[u8], offset: usize) -> u32 {
    u32::from_ne_bytes([bytes[offset], bytes[offset + 1], bytes[offset + 2], bytes[offset + 3]])
}

fn sample_block() -> UniformBlock {
    let mut view_projection: [u32; 16] = [0; 16];
    let mut model: [u32; 16] = [0; 16];
    for i in 0..16usize {
        view_projection[i] = (1.5f32 + i as f32).to_bits();
        model[i] = (-0.25f32 * i as f32).to_bits();
    }
    UniformBlock {
        view_projection,
        model,
        time: 2.5f32.to_bits(),
        style_id: 3,
        instance_flag: 1,
        padding: 0,
    }
}

#[test]
fn block_is_144_bytes_and_16_byte_aligned() {
    assert_eq!(UNIFORM_BLOCK_BYTES, 144);
    assert_eq!(UNIFORM_BLOCK_BYTES, 64 + 64 + 4 + 4 + 4 + 4);
    assert_eq!(UNIFORM_BLOCK_BYTES % 16, 0);
    assert_eq!(UNIFORM_BLOCK_WORDS * 4, UNIFORM_BLOCK_BYTES);
    assert_eq!(sample_block().to_bytes().len(), 144);
    assert_eq!(sample_block().to_words().len(), 36);
}

#[test]
fn field_offsets_are_fixed() {
    assert_eq!(VIEW_PROJECTION_OFFSET, 0);
    assert_eq!(MODEL_OFFSET, 64);
    assert_eq!(TIME_OFFSET, 128);
    assert_eq!(STYLE_ID_OFFSET, 132);
    assert_eq!(INSTANCE_FLAG_OFFSET, 136);
    assert_eq!(PADDING_OFFSET, 140);
}

#[test]
fn bytes_hold_the_fields_in_order() {
    let block = sample_block();
    let bytes = block.to_bytes();
    for i in 0..16usize {
        assert_eq!(word_at(&bytes, VIEW_PROJECTION_OFFSET + 4 * i), block.view_projection[i]);
        assert_eq!(word_at(&bytes, MODEL_OFFSET + 4 * i), block.model[i]);
    }
    assert_eq!(f32::from_bits(word_at(&bytes, TIME_OFFSET)), 2.5);
    assert_eq!(word_at(&bytes, STYLE_ID_OFFSET), 3);
    assert_eq!(word_at(&bytes, INSTANCE_FLAG_OFFSET), 1);
    assert_eq!(word_at(&bytes, PADDING_OFFSET), 0);
}

#[test]
fn bytes_are_the_words_in_machine_order() {
    let block = sample_block();
    let words = block.to_words();
    let mut expected: Vec<u8> = Vec::new();
    for word in &words {
        expected.extend_from_slice(&word.to_ne_bytes());
    }
    assert_eq!(block.to_bytes(), expected);
}

#[test]
fn words_are_matrices_then_scalars() {
    let block = sample_block();
    let words = block.to_words();
    assert_eq!(&words[0..16], &block.view_projection);
    assert_eq!(&words[16..32], &block.model);
    assert_eq!(&words[32..36], &[block.time, 3, 1, 0]);
}

#[test]
fn one_bits_is_the_float_one() {
    assert_eq!(ONE_BITS, 1.0f32.to_bits());
    assert_eq!(f32::from_bits(ONE_BITS), 1.0);
}

#[test]
fn identity_matrix_has_ones_on_the_diagonal() {
    let m = identity_matrix();
    for column in 0..4usize {
        for row in 0..4usize {
            let expected: f32 = if column == row { 1.0 } else { 0.0 };
            assert_eq!(f32::from_bits(m[4 * column + row]), expected);
        }
    }
}

#[test]
fn new_block_is_the_initial_configuration() {
    let block = UniformBlock::new();
    assert_eq!(block.view_projection, identity_matrix());
    assert_eq!(block.model, identity_matrix());
    assert_eq!(f32::from_bits(block.time), 0.0);
    assert_eq!(block.style_id, 0);
    assert_eq!(block.instance_flag, PRIMARY_INSTANCE);
    assert_eq!(f32::from_bits(block.padding), 0.0);
}

#[test]
fn with_instance_changes_the_flag_only() {
    let block = sample_block();
    let other = block.with_instance(SECONDARY_INSTANCE);
    assert_eq!(other.instance_flag, 1);
    assert_eq!(other.view_projection, block.view_projection);
    assert_eq!(other.model, block.model);
    assert_eq!(other.time, block.time);
    assert_eq!(other.style_id, block.style_id);
    assert_eq!(other.padding, block.padding);
    assert_eq!(other.with_instance(block.instance_flag), block);
    assert_eq!(PRIMARY_INSTANCE, 0);
    assert_eq!(SECONDARY_INSTANCE, 1);
}
