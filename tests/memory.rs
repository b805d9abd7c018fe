use cudart::{
    byte_len, cuda_alloc_device, cuda_alloc_host, cuda_free_device, cuda_free_host, cuda_memcpy,
    cuda_memcpy_2d_async, cuda_memcpy_async, cuda_memcpy_peer_async, cuda_memset,
    cuda_memset_async, row_fits_pitches, CudaError, CudaMemcpyKind, FlatCopy, CUDA_SUCCESS,
};

#[test]
fn copy_kinds_have_runtime_codes() {
    assert_eq!(CudaMemcpyKind::HostToHost.to_raw(), 0);
    assert_eq!(CudaMemcpyKind::HostToDevice.to_raw(), 1);
    assert_eq!(CudaMemcpyKind::DeviceToHost.to_raw(), 2);
    assert_eq!(CudaMemcpyKind::DeviceToDevice.to_raw(), 3);
    assert_eq!(CudaMemcpyKind::Unified.to_raw(), 4);
}

#[test]
fn flat_copy_counts_bytes() {
    assert_eq!(
        cuda_memcpy::<u32>(10, CudaMemcpyKind::DeviceToHost),
        Some(FlatCopy { bytes: 40, kind: 2 })
    );
    assert_eq!(
        cuda_memcpy_async::<f64>(3, CudaMemcpyKind::HostToDevice),
        Some(FlatCopy { bytes: 24, kind: 1 })
    );
    assert_eq!(
        cuda_memcpy::<u8>(0, CudaMemcpyKind::Unified),
        Some(FlatCopy { bytes: 0, kind: 4 })
    );
}

#[test]
fn flat_copy_byte_count_overflow_is_refused() {
    assert_eq!(cuda_memcpy::<u64>(usize::MAX / 4, CudaMemcpyKind::DeviceToDevice), None);
    assert_eq!(byte_len::<u16>(usize::MAX), None);
    assert_eq!(byte_len::<u8>(usize::MAX), Some(usize::MAX));
    assert_eq!(byte_len::<u64>(usize::MAX / 8), Some(usize::MAX / 8 * 8));
}

#[test]
fn peer_copy_counts_bytes() {
    assert_eq!(cuda_memcpy_peer_async::<u16>(5), Some(10));
    assert_eq!(cuda_memcpy_peer_async::<u32>(usize::MAX), None);
}

#[test]
fn pitched_row_must_fit_both_pitches() {
    assert!(row_fits_pitches::<f32>(4, 16, 16));
    assert!(row_fits_pitches::<f32>(4, 16, 32));
    // A 20-byte row does not fit a 16-byte destination pitch.
    assert!(!row_fits_pitches::<f32>(5, 16, 32));
    assert!(!row_fits_pitches::<f32>(5, 32, 16));
    assert!(!row_fits_pitches::<u64>(usize::MAX, usize::MAX, usize::MAX));
}

#[test]
fn pitched_copy_arguments() {
    let c = cuda_memcpy_2d_async::<u16>(64, 48, 20, 7, CudaMemcpyKind::HostToDevice);
    assert_eq!(c.width_bytes, 40);
    assert_eq!(c.dst_pitch, 64);
    assert_eq!(c.src_pitch, 48);
    assert_eq!(c.height, 7);
    assert_eq!(c.kind, 1);
}

#[test]
fn allocation_and_release_map_status() {
    assert_eq!(cuda_alloc_device(CUDA_SUCCESS, 0x7000_0000), Ok(0x7000_0000));
    assert_eq!(cuda_alloc_device(2, 0), Err(CudaError(2)));
    assert_eq!(cuda_alloc_host(CUDA_SUCCESS, 0x5000), Ok(0x5000));
    assert_eq!(cuda_free_device(17), Err(CudaError(17)));
    assert_eq!(cuda_free_host(CUDA_SUCCESS), Ok(()));
    assert_eq!(cuda_memset(CUDA_SUCCESS), Ok(()));
    assert_eq!(cuda_memset_async(11), Err(CudaError(11)));
}
