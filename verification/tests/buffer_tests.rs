use apur::buffer::{
    pack_words, unpack_words, BufferUsage, BufferWrite, ManagedBuffer, PendingRead, COPY_DST,
    COPY_SRC, INDEX, INDIRECT, MAP_READ, MAP_WRITE, STORAGE, UNIFORM, VERTEX,
};
use apur::error::APURRendererError;

#[test]
fn buffer_usage_bits_are_those_of_the_backend() {
    assert_eq!(MAP_READ, wgpu::BufferUsage::MAP_READ.bits());
    assert_eq!(MAP_WRITE, wgpu::BufferUsage::MAP_WRITE.bits());
    assert_eq!(COPY_SRC, wgpu::BufferUsage::COPY_SRC.bits());
    assert_eq!(COPY_DST, wgpu::BufferUsage::COPY_DST.bits());
    assert_eq!(INDEX, wgpu::BufferUsage::INDEX.bits());
    assert_eq!(VERTEX, wgpu::BufferUsage::VERTEX.bits());
    assert_eq!(UNIFORM, wgpu::BufferUsage::UNIFORM.bits());
    assert_eq!(STORAGE, wgpu::BufferUsage::STORAGE.bits());
    assert_eq!(INDIRECT, wgpu::BufferUsage::INDIRECT.bits());
}

#[test]
fn usage_contains_and_union() {
    let usage = BufferUsage::from_bits(UNIFORM).union(BufferUsage::from_bits(COPY_DST));
    assert_eq!(usage.bits(), 72);
    assert!(usage.contains(BufferUsage::from_bits(UNIFORM)));
    assert!(usage.contains(BufferUsage::from_bits(COPY_DST)));
    assert!(usage.contains(BufferUsage::from_bits(UNIFORM | COPY_DST)));
    assert!(!usage.contains(BufferUsage::from_bits(MAP_READ)));
    assert!(!usage.contains(BufferUsage::from_bits(UNIFORM | MAP_READ)));
    assert!(usage.contains(BufferUsage::from_bits(0)));
}

#[test]
fn from_data_is_sized_to_the_data() {
    let buffer = ManagedBuffer::from_data(3, BufferUsage::from_bits(VERTEX), &[1.0f32, 2.0, 3.0]);
    assert_eq!(buffer.size_bytes(), 12);
    assert_eq!(buffer.handle(), 3);
    assert_eq!(buffer.usage(), BufferUsage::from_bits(VERTEX));
    let empty = ManagedBuffer::from_data::<u32>(4, BufferUsage::from_bits(INDEX), &[]);
    assert_eq!(empty.size_bytes(), 0);
}

#[test]
fn new_is_sized_by_element_count() {
    let buffer = ManagedBuffer::new::<u32>(1, BufferUsage::from_bits(COPY_DST | MAP_READ), 4);
    assert_eq!(buffer.size_bytes(), 16);
    let wide = ManagedBuffer::new::<u64>(1, BufferUsage::from_bits(COPY_DST), 3);
    assert_eq!(wide.size_bytes(), 24);
}

#[test]
fn from_u32_data_packs_little_endian() {
    let (buffer, bytes) =
        ManagedBuffer::from_u32_data(8, BufferUsage::from_bits(INDEX), &[1, 0x0403_0201]);
    assert_eq!(buffer.size_bytes(), 8);
    assert_eq!(bytes, vec![1, 0, 0, 0, 1, 2, 3, 4]);
}

#[test]
fn write_that_ends_at_the_end_succeeds() {
    let buffer = ManagedBuffer::new::<f32>(6, BufferUsage::from_bits(COPY_DST), 4);
    let write = buffer.write_data(4, &[1.0f32, 2.0, 3.0]);
    assert_eq!(write, Ok(BufferWrite { buffer: 6, offset: 4, size: 12 }));
    let whole = buffer.write_data(0, &[0.0f32; 4]);
    assert_eq!(whole, Ok(BufferWrite { buffer: 6, offset: 0, size: 16 }));
}

#[test]
fn write_one_byte_past_the_end_is_a_size_mismatch() {
    let buffer = ManagedBuffer::new::<f32>(6, BufferUsage::from_bits(COPY_DST), 4);
    assert_eq!(
        buffer.write_data(5, &[1.0f32, 2.0, 3.0]),
        Err(APURRendererError::BufferDataSizeMismatch)
    );
    assert_eq!(buffer.write_data(1, &[0u8; 16]), Err(APURRendererError::BufferDataSizeMismatch));
    assert_eq!(buffer.write_bytes(0, 17), Err(APURRendererError::BufferDataSizeMismatch));
}

#[test]
fn write_with_offset_past_the_end_is_a_size_mismatch() {
    let buffer = ManagedBuffer::new::<f32>(6, BufferUsage::from_bits(COPY_DST), 4);
    assert_eq!(buffer.write_data::<f32>(17, &[]), Err(APURRendererError::BufferDataSizeMismatch));
    assert_eq!(
        buffer.write_bytes(usize::MAX, usize::MAX),
        Err(APURRendererError::BufferDataSizeMismatch)
    );
    assert_eq!(
        buffer.write_data::<f32>(16, &[]),
        Ok(BufferWrite { buffer: 6, offset: 16, size: 0 })
    );
}

#[test]
fn write_without_copy_dst_is_refused() {
    let buffer = ManagedBuffer::new::<f32>(6, BufferUsage::from_bits(UNIFORM | MAP_WRITE), 4);
    assert_eq!(buffer.write_data(0, &[1.0f32]), Err(APURRendererError::BufferUsageNotCopyDst));
}

#[test]
fn size_mismatch_comes_before_the_usage() {
    let buffer = ManagedBuffer::new::<f32>(6, BufferUsage::from_bits(UNIFORM), 1);
    assert_eq!(
        buffer.write_data(0, &[1.0f32, 2.0]),
        Err(APURRendererError::BufferDataSizeMismatch)
    );
}

#[test]
fn update_u32_data_checks_and_packs() {
    let buffer = ManagedBuffer::new::<u32>(2, BufferUsage::from_bits(COPY_DST), 2);
    let (write, bytes) = buffer.update_u32_data(4, &[0xaabb_ccdd]).unwrap();
    assert_eq!(write, BufferWrite { buffer: 2, offset: 4, size: 4 });
    assert_eq!(bytes, vec![0xdd, 0xcc, 0xbb, 0xaa]);
    assert_eq!(
        buffer.update_u32_data(8, &[1]).unwrap_err(),
        APURRendererError::BufferDataSizeMismatch
    );
}

#[test]
fn read_without_map_read_is_refused() {
    let buffer = ManagedBuffer::new::<u32>(2, BufferUsage::from_bits(COPY_DST | STORAGE), 2);
    assert_eq!(buffer.read_data(), Err(APURRendererError::BufferUsageNotMapRead));
}

#[test]
fn read_with_map_read_waits_for_the_whole_buffer() {
    let buffer = ManagedBuffer::new::<u32>(2, BufferUsage::from_bits(COPY_DST | MAP_READ), 4);
    assert_eq!(buffer.read_data(), Ok(PendingRead { buffer: 2, size_bytes: 16 }));
}

#[test]
fn mapped_bytes_that_are_no_whole_elements_fail() {
    let pending = PendingRead { buffer: 2, size_bytes: 16 };
    assert_eq!(
        pending.element_count::<u32>(15),
        Err(APURRendererError::BufferTypeInterpretationFailed)
    );
    assert_eq!(pending.element_count::<u32>(16), Ok(4));
    assert_eq!(pending.element_count::<f32>(0), Ok(0));
    assert_eq!(pending.element_count::<u64>(16), Ok(2));
    assert_eq!(
        pending.read_words(&[1, 2, 3]),
        Err(APURRendererError::BufferTypeInterpretationFailed)
    );
    assert_eq!(pending.read_words(&[1, 0, 0, 0, 0, 1, 0, 0]), Ok(vec![1, 256]));
}

#[test]
fn float_data_comes_back_bit_identical() {
    let data = [0.0f32, -0.0, 1.5, -2.25, f32::MAX, f32::MIN_POSITIVE, f32::INFINITY, f32::NAN];
    let bits: Vec<u32> = data.iter().map(|f| f.to_bits()).collect();
    let bytes = pack_words(&bits);
    assert_eq!(bytes.len(), 32);
    let back = unpack_words(&bytes).unwrap();
    assert_eq!(back, bits);
    let floats: Vec<f32> = back.iter().map(|b| f32::from_bits(*b)).collect();
    for (a, b) in data.iter().zip(floats.iter()) {
        assert_eq!(a.to_bits(), b.to_bits());
    }
}

#[test]
fn pack_words_is_little_endian() {
    assert_eq!(pack_words(&[]), Vec::<u8>::new());
    assert_eq!(pack_words(&[0x1234_5678]), vec![0x78, 0x56, 0x34, 0x12]);
    assert_eq!(pack_words(&[1.0f32.to_bits()]), 1.0f32.to_le_bytes().to_vec());
}

#[test]
fn unpack_words_reads_whole_words_only() {
    assert_eq!(unpack_words(&[]), Ok(vec![]));
    assert_eq!(unpack_words(&[0x78, 0x56, 0x34, 0x12]), Ok(vec![0x1234_5678]));
    assert_eq!(
        unpack_words(&[0x78, 0x56, 0x34, 0x12, 0]),
        Err(APURRendererError::BufferTypeInterpretationFailed)
    );
}

#[test]
fn words_written_over_the_whole_buffer_are_read_back() {
    let words = [7u32, 0, u32::MAX, 0x0102_0304];
    let buffer = ManagedBuffer::new::<u32>(9, BufferUsage::from_bits(COPY_DST | MAP_READ), 4);
    let (write, bytes) = buffer.update_u32_data(0, &words).unwrap();
    assert_eq!(write, BufferWrite { buffer: 9, offset: 0, size: 16 });
    let pending = buffer.read_data().unwrap();
    assert_eq!(pending.size_bytes, bytes.len());
    assert_eq!(pending.read_words(&bytes), Ok(words.to_vec()));
    assert_eq!(buffer.size_bytes(), 16);
}
