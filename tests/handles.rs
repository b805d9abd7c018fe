use cudart::{
    CudaError, CudaEvent, CudaEventStatus, CudaStream, Teardown, CUDA_ERROR_CUDART_UNLOADING,
    CUDA_ERROR_NOT_READY, CUDA_SUCCESS,
};

#[test]
fn default_stream_has_no_handle_and_is_never_destroyed() {
    let mut s = CudaStream::default();
    assert_eq!(s.as_mut_ptr(), 0);
    assert_eq!(s.release(), None);
}

#[test]
fn created_stream_holds_its_handle() {
    let s = CudaStream::create(CUDA_SUCCESS, 0x7f00).unwrap();
    assert_eq!(s.as_mut_ptr(), 0x7f00);
    let t = CudaStream::create(CUDA_SUCCESS, 0x7f00).unwrap();
    let u = CudaStream::create(CUDA_SUCCESS, 0x8000).unwrap();
    assert!(s.ptr_eq(&t));
    assert!(!s.ptr_eq(&u));
    assert_eq!(CudaStream::create(2, 0).unwrap_err(), CudaError(2));
}

#[test]
fn stream_released_twice_destroys_once() {
    let mut s = CudaStream::create(CUDA_SUCCESS, 0x1000).unwrap();
    let mut destroyed = 0;
    for _ in 0..2 {
        if let Some(h) = s.release() {
            assert_eq!(h, 0x1000);
            destroyed += 1;
        }
    }
    assert_eq!(destroyed, 1);
    assert_eq!(s.as_mut_ptr(), 0);
}

#[test]
fn stream_operations_map_status() {
    let s = CudaStream::create(CUDA_SUCCESS, 0x10).unwrap();
    let e = CudaEvent::create(CUDA_SUCCESS, 0x20).unwrap();
    assert_eq!(s.synchronize(CUDA_SUCCESS), Ok(()));
    assert_eq!(s.add_callback(11), Err(CudaError(11)));
    assert_eq!(s.wait_event(&e, 33), Err(CudaError(33)));
    assert_eq!(s.wait_event(&e, CUDA_SUCCESS), Ok(()));
}

#[test]
fn event_query_not_ready_is_an_answer() {
    let e = CudaEvent::create(CUDA_SUCCESS, 0x30).unwrap();
    assert_eq!(e.query(CUDA_ERROR_NOT_READY), Ok(CudaEventStatus::NotReady));
    assert_eq!(e.query(CUDA_SUCCESS), Ok(CudaEventStatus::Complete));
    assert_eq!(e.query(4), Err(CudaError(4)));
}

#[test]
fn event_created_and_recorded() {
    let e = CudaEvent::create_with_flags(CUDA_SUCCESS, 0x40).unwrap();
    let f = CudaEvent::create(CUDA_SUCCESS, 0x40).unwrap();
    assert_eq!(e.as_mut_ptr(), 0x40);
    assert!(e.ptr_eq(&f));
    assert_eq!(CudaEvent::create_with_flags(2, 0x40).unwrap_err(), CudaError(2));
    let s = CudaStream::default();
    assert_eq!(e.record(&s, CUDA_SUCCESS), Ok(()));
    assert_eq!(e.record(&s, 33), Err(CudaError(33)));
    assert_eq!(e.synchronize(CUDA_SUCCESS), Ok(()));
}

#[test]
fn event_released_twice_destroys_once() {
    let mut e = CudaEvent::create(CUDA_SUCCESS, 0x2000).unwrap();
    assert_eq!(e.release(), Some(0x2000));
    assert_eq!(e.release(), None);
}

#[test]
fn teardown_suppresses_only_unloading() {
    assert_eq!(Teardown::from_status(CUDA_SUCCESS), Teardown::Destroyed);
    assert_eq!(
        Teardown::from_status(CUDA_ERROR_CUDART_UNLOADING),
        Teardown::RuntimeUnloading
    );
    assert_eq!(Teardown::from_status(33), Teardown::Fatal(CudaError(33)));
    assert!(Teardown::from_status(33).is_fatal());
    assert!(!Teardown::from_status(CUDA_ERROR_CUDART_UNLOADING).is_fatal());
    assert!(!Teardown::from_status(CUDA_SUCCESS).is_fatal());
}
