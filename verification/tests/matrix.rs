use rlst_metal::{MetalBuffer, MpsDataType, MpsMatrix, MpsMatrixDescriptor, ResourceOptions};

#[test]
fn test_matrix_descriptor() {
    let rows = 5;
    let columns = 6;
    let matrices = 2;
    let row_bytes = columns * std::mem::size_of::<f32>();
    let matrix_bytes = columns * rows * std::mem::size_of::<f32>();
    let data_type = MpsDataType::F32;
    let matrix_desc =
        MpsMatrixDescriptor::new(rows, columns, matrices, row_bytes, matrix_bytes, data_type);

    assert_eq!(matrix_desc.rows(), 5);
    assert_eq!(matrix_desc.columns(), 6);
    assert_eq!(matrix_desc.row_bytes(), row_bytes);
    assert_eq!(matrix_desc.matrix_bytes(), matrix_bytes);
    assert_eq!(matrix_desc.matrices(), 2);
}

#[test]
fn test_matrix() {
    let rows = 5;
    let columns = 6;
    let matrices = 1;
    let row_bytes = columns * std::mem::size_of::<f32>();
    let matrix_bytes = columns * rows * std::mem::size_of::<f32>();
    let data_type = MpsDataType::F32;
    let matrix_desc =
        MpsMatrixDescriptor::new(rows, columns, matrices, row_bytes, matrix_bytes, data_type);

    let nbytes = matrices * std::mem::size_of::<f32>() * rows * columns;

    let buffer = MetalBuffer::new(nbytes, 0);

    let mps_matrix = MpsMatrix::new(buffer, matrix_desc);

    println!("{}", mps_matrix.descriptor().rows());
    assert_eq!(mps_matrix.descriptor().rows(), 5);
}

#[test]
fn descriptor_keeps_data_type() {
    let desc = MpsMatrixDescriptor::new(2, 2, 2, 8, 16, MpsDataType::F32);
    assert!(matches!(desc.data_type(), MpsDataType::F32));
    assert_eq!(desc.rows(), 2);
    assert_eq!(desc.columns(), 2);
    assert_eq!(desc.matrices(), 2);
    assert_eq!(desc.row_bytes(), 8);
    assert_eq!(desc.matrix_bytes(), 16);
}

#[test]
fn buffer_keeps_length_and_options() {
    let buffer = MetalBuffer::new(64, 16);
    assert_eq!(buffer.nbytes(), 64);
    assert_eq!(buffer.options(), 16);
}

#[test]
fn buffer_contents_count_whole_elements() {
    let buffer = MetalBuffer::new(32, 0);
    assert_eq!(buffer.contents_len::<f32>(), 8);
    assert_eq!(buffer.contents_len::<u8>(), 32);
    assert_eq!(buffer.contents_len::<u64>(), 4);
    assert_eq!(buffer.contents_len::<[u8; 3]>(), 10);
}

#[test]
fn buffer_contents_leave_partial_element_out() {
    let buffer = MetalBuffer::new(7, 0);
    assert_eq!(buffer.contents_len::<u32>(), 1);
    let n = buffer.contents_len::<u16>();
    assert!(n * 2 <= 7 && 7 < (n + 1) * 2);
    assert_eq!(n, 3);
}

#[test]
fn empty_buffer_has_no_contents() {
    let buffer = MetalBuffer::new(0, 0);
    assert_eq!(buffer.contents_len::<f32>(), 0);
}

#[test]
fn matrix_contents_are_its_buffer_contents() {
    // two 2x2 f32 matrices, as in a batched multiplication
    let nbytes = 2 * std::mem::size_of::<f32>() * 2 * 2;
    let desc = MpsMatrixDescriptor::new(2, 2, 2, 8, 16, MpsDataType::F32);
    let matrix = MpsMatrix::new(MetalBuffer::new(nbytes, 0), desc);
    assert_eq!(matrix.contents_len::<f32>(), 8);
    assert_eq!(matrix.buffer().nbytes(), 32);
    assert_eq!(matrix.buffer().contents_len::<f32>(), matrix.contents_len::<f32>());
    assert_eq!(matrix.descriptor().matrix_bytes(), 16);
}

#[test]
fn resource_options_have_metal_bits() {
    assert_eq!(ResourceOptions::StorageModeManaged.bits(), 16);
    assert_eq!(ResourceOptions::StorageModePrivate.bits(), 32);
    assert_eq!(ResourceOptions::StorageModeMemoryless.bits(), 48);
    assert_eq!(ResourceOptions::HazardTrackingModeUntracked.bits(), 256);
    assert_eq!(ResourceOptions::HazardTrackingModeTracked.bits(), 512);
    assert_eq!(ResourceOptions::CpuCacheModeWriteCombined.bits(), 1);
}

#[test]
fn f32_has_mps_code() {
    assert_eq!(MpsDataType::F32.code(), 0x1000_0020);
}
