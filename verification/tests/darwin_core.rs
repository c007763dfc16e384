use sanctum::darwin::direct_io::{validate_layout, ChunkRange, DirectIoError};
use sanctum::darwin::mach::MachTelemetryError;
use sanctum::darwin::metal_buffer::{
    first_failure, preflight_chunks, shared_capacity, worker_batches, MetalBufferError,
};
use sanctum::darwin::pressure::{
    decode_pressure, dispatch_pressure, MemoryPressure, PressureHandler, PRESSURE_CRITICAL,
    PRESSURE_NORMAL, PRESSURE_WARNING,
};
use sanctum::darwin::qos::{qos_class_user_interactive, QosError};
use sanctum::darwin::round_to_pages;
use sanctum::darwin::sysctl::{
    decode_u64, set_wired_limit_mb, wired_limit_mb, SysctlError, SysctlRead, SysctlWrite,
    IOGPU_WIRED_LIMIT_KEY,
};
use sanctum::platform::UnsupportedPlatform;
use std::cell::RefCell;
use std::sync::Mutex;

#[test]
fn rejects_non_power_of_two_alignment() {
    assert!(matches!(
        validate_layout(4096, 12),
        Err(DirectIoError::InvalidLayout { alignment: 12, .. })
    ));
}

#[test]
fn accepts_page_alignment_and_rejects_small_alignment() {
    assert_eq!(validate_layout(4096, 16_384), Ok(()));
    assert_eq!(validate_layout(4096, 8), Ok(()));
    assert_eq!(
        validate_layout(10, 4),
        Err(DirectIoError::InvalidLayout { size: 10, alignment: 4 })
    );
    assert!(validate_layout(10, 0).is_err());
    assert!(validate_layout(10, 24).is_err());
}

#[test]
fn kernel_error_display_names_operation_and_status() {
    let error = MachTelemetryError::Kernel {
        operation: "host_statistics64",
        status: 5,
    };
    assert_eq!(
        error.message(),
        "Mach host_statistics64 failed with kernel status 5"
    );
}

#[test]
fn counter_overflow_message_names_counter() {
    let error = MachTelemetryError::CounterOverflow { counter: "wired" };
    assert_eq!(
        error.message(),
        "memory counter overflowed while converting wired pages"
    );
    let negative = MachTelemetryError::Kernel { operation: "x", status: -42 };
    assert_eq!(negative.message(), "Mach x failed with kernel status -42");
}

#[derive(Default)]
struct Recorder(Mutex<Vec<MemoryPressure>>);

impl PressureHandler for Recorder {
    fn on_pressure(&self, pressure: MemoryPressure) {
        self.0.lock().unwrap().push(pressure);
    }
}

#[test]
fn invokes_warning_callback() {
    let recorder = Recorder::default();
    dispatch_pressure(&recorder, PRESSURE_WARNING);
    assert_eq!(*recorder.0.lock().unwrap(), [MemoryPressure::Warning]);
}

#[test]
fn invokes_critical_callback() {
    let recorder = Recorder::default();
    dispatch_pressure(&recorder, PRESSURE_CRITICAL);
    assert_eq!(*recorder.0.lock().unwrap(), [MemoryPressure::Critical]);
}

#[test]
fn decodes_normal_event() {
    assert_eq!(decode_pressure(PRESSURE_NORMAL), MemoryPressure::Normal);
}

#[test]
fn decodes_warning_event() {
    assert_eq!(decode_pressure(PRESSURE_WARNING), MemoryPressure::Warning);
}

#[test]
fn decodes_critical_event() {
    assert_eq!(decode_pressure(PRESSURE_CRITICAL), MemoryPressure::Critical);
}

#[test]
fn critical_flag_wins_over_warning() {
    assert_eq!(
        decode_pressure(PRESSURE_WARNING | PRESSURE_CRITICAL),
        MemoryPressure::Critical
    );
    assert_eq!(decode_pressure(0), MemoryPressure::Normal);
    assert!(MemoryPressure::Normal < MemoryPressure::Warning);
}

#[test]
fn error_display_includes_errno() {
    assert_eq!(
        QosError { code: 22 }.message(),
        "pthread_set_qos_class_self_np failed with errno 22"
    );
    assert_eq!(qos_class_user_interactive().0, 0x21);
}

struct FakeRead {
    keys: RefCell<Vec<String>>,
    value: u64,
}

impl SysctlRead for FakeRead {
    fn read(&self, key: &str) -> Result<Vec<u8>, SysctlError> {
        self.keys.borrow_mut().push(key.into());
        Ok(self.value.to_ne_bytes().to_vec())
    }
}

#[derive(Default)]
struct FakeWrite(RefCell<Vec<(String, Vec<u8>)>>);

impl SysctlWrite for FakeWrite {
    fn write(&self, key: &str, value: &[u8]) -> Result<(), SysctlError> {
        self.0.borrow_mut().push((key.into(), value.into()));
        Ok(())
    }
}

#[test]
fn unsigned_values_use_native_byte_order() {
    assert_eq!(decode_u64("example", &42_u64.to_ne_bytes()).unwrap(), 42);
}

#[test]
fn unsigned_values_reject_invalid_width() {
    let error = decode_u64("example", &[0; 4]).unwrap_err();
    assert!(matches!(
        error,
        SysctlError::InvalidWidth {
            expected: 8,
            actual: 4,
            ..
        }
    ));
}

#[test]
fn wired_limit_reader_selects_iogpu_key() {
    let backend = FakeRead {
        keys: RefCell::default(),
        value: 10_240,
    };

    assert_eq!(wired_limit_mb(&backend).unwrap(), 10_240);
    assert_eq!(backend.keys.into_inner(), [IOGPU_WIRED_LIMIT_KEY]);
}

#[test]
fn wired_limit_writer_uses_native_payload() {
    let backend = FakeWrite::default();

    set_wired_limit_mb(&backend, 10_400).unwrap();

    assert_eq!(
        backend.0.into_inner(),
        [(
            IOGPU_WIRED_LIMIT_KEY.to_string(),
            10_400_u64.to_ne_bytes().to_vec()
        )]
    );
}

#[test]
fn written_limit_reads_back() {
    let writer = FakeWrite::default();
    set_wired_limit_mb(&writer, 123_456).unwrap();
    let payload = writer.0.into_inner().remove(0).1;
    assert_eq!(decode_u64(IOGPU_WIRED_LIMIT_KEY, &payload).unwrap(), 123_456);
}

#[test]
fn invalid_width_display_includes_key_and_sizes() {
    let error = SysctlError::InvalidWidth {
        key: "example".into(),
        expected: 8,
        actual: 4,
    };

    assert_eq!(
        error.message(),
        "sysctl example returned 4 bytes; expected 8"
    );
}

#[test]
fn operation_error_message_names_key() {
    let error = SysctlError::Operation {
        operation: "read",
        key: "kern.x".into(),
        source: "denied".into(),
    };
    assert_eq!(error.message(), "sysctl read failed for kern.x: denied");
    assert_eq!(
        SysctlError::InvalidKey("a\0b".into()).message(),
        "sysctl key contains an interior NUL byte: a\0b"
    );
}

#[test]
fn rounds_lengths_to_whole_pages() {
    assert_eq!(round_to_pages(0), Some(16_384));
    assert_eq!(round_to_pages(1), Some(16_384));
    assert_eq!(round_to_pages(16_384), Some(16_384));
    assert_eq!(round_to_pages(16_385), Some(32_768));
    assert_eq!(round_to_pages(usize::MAX), None);
}

#[test]
fn metal_capacity_checks_include_page_rounding() {
    assert_eq!(shared_capacity(16_391, 32_768, usize::MAX), Ok(32_768));
    assert_eq!(
        shared_capacity(16_385, 16_385, usize::MAX),
        Err(MetalBufferError::Capacity)
    );
    assert_eq!(
        shared_capacity(usize::MAX, usize::MAX, usize::MAX),
        Err(MetalBufferError::Capacity)
    );
    assert_eq!(shared_capacity(10, 1 << 20, 8192), Err(MetalBufferError::Capacity));
}

#[test]
fn preflight_checks_workers_offsets_and_budget() {
    let ranges = [
        ChunkRange { offset: 0, length: 100 },
        ChunkRange { offset: 100, length: 20_000 },
    ];
    assert_eq!(
        preflight_chunks(&ranges, 0, 1 << 20),
        Err(MetalBufferError::Allocation(DirectIoError::InvalidWorkerLimit))
    );
    assert_eq!(preflight_chunks(&ranges, 2, 49_152), Ok(()));
    assert_eq!(
        preflight_chunks(&ranges, 2, 49_151),
        Err(MetalBufferError::Capacity)
    );
    let far = [ChunkRange { offset: i64::MAX as u64, length: 1 }];
    assert_eq!(
        preflight_chunks(&far, 1, 1 << 20),
        Err(MetalBufferError::Allocation(DirectIoError::OffsetOverflow {
            offset: i64::MAX as u64
        }))
    );
    assert_eq!(ChunkRange { offset: u64::MAX, length: 1 }.end(), None);
    assert_eq!(ChunkRange { offset: 5, length: 7 }.end(), Some(12));
}

#[test]
fn unsupported_platform_message() {
    let e = UnsupportedPlatform {
        capability: "Metal",
        platform: "linux",
    };
    assert_eq!(e.message(), "Metal is unsupported on linux");
}

#[test]
fn batches_reads_in_range_order() {
    assert_eq!(worker_batches(5, 2), vec![(0, 2), (2, 4), (4, 5)]);
    assert_eq!(worker_batches(4, 4), vec![(0, 4)]);
    assert_eq!(worker_batches(3, 8), vec![(0, 3)]);
    assert!(worker_batches(0, 3).is_empty());
}

#[test]
fn first_worker_failure_wins() {
    assert_eq!(first_failure::<u8>(None, vec![Ok(()), Ok(())]), Ok(()));
    assert_eq!(first_failure(None, vec![Ok(()), Err(1), Err(2)]), Err(1));
    assert_eq!(first_failure(Some(9), vec![Err(1)]), Err(9));
    assert_eq!(first_failure::<u8>(None, vec![]), Ok(()));
}
