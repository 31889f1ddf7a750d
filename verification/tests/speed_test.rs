use netbolt::{
    accumulate_chunk, build_upload_payload, compute_centi_mbps, download_outcome,
    evaluate_probes, expected_download_total, upload_outcome, upload_progress_steps,
    DownloadEvent, ProbeOutcome, TransferMeasurement, UploadEvent, DOWNLOAD_NOMINAL_BYTES,
    UPLOAD_PAYLOAD_BYTES, UPLOAD_SEGMENT_BYTES,
};

#[test]
fn speed_formula_100mb_over_8s() {
    // 100 MB in 8.0 s is exactly 100.00 Mbps.
    assert_eq!(compute_centi_mbps(104_857_600, 8000), 10000);
}

#[test]
fn speed_formula_small_transfers() {
    // 1 MB in 1.0 s is exactly 8.00 Mbps; half of it, 4.00 Mbps.
    assert_eq!(compute_centi_mbps(1_048_576, 1000), 800);
    assert_eq!(compute_centi_mbps(524_288, 1000), 400);
    // The result truncates to whole hundredths.
    assert_eq!(compute_centi_mbps(1_000_000, 3000), 254);
}

#[test]
fn upload_speed_10mb_over_4s() {
    // The fixed 10 MB payload in 4.0 s is exactly 20.00 Mbps.
    assert_eq!(compute_centi_mbps(UPLOAD_PAYLOAD_BYTES, 4000), 2000);
    let outcome = upload_outcome(UploadEvent::Completed {
        status_success: true,
        start_ms: 1_000,
        end_ms: 5_000,
    });
    assert_eq!(outcome, ProbeOutcome::Speed(2000));
}

#[test]
fn download_speed_uses_actual_bytes() {
    let outcome = download_outcome(DownloadEvent::Completed(TransferMeasurement {
        start_ms: 0,
        end_ms: 8_000,
        bytes: 104_857_600,
    }));
    assert_eq!(outcome, ProbeOutcome::Speed(10000));
}

#[test]
fn zero_elapsed_download_fails() {
    let outcome = download_outcome(DownloadEvent::Completed(TransferMeasurement {
        start_ms: 42,
        end_ms: 42,
        bytes: 104_857_600,
    }));
    assert_eq!(
        outcome,
        ProbeOutcome::Failure("elapsed time is not positive".to_string())
    );
}

#[test]
fn negative_elapsed_download_fails() {
    let outcome = download_outcome(DownloadEvent::Completed(TransferMeasurement {
        start_ms: 100,
        end_ms: 50,
        bytes: 1_048_576,
    }));
    assert!(matches!(outcome, ProbeOutcome::Failure(_)));
}

#[test]
fn zero_elapsed_upload_fails() {
    let outcome = upload_outcome(UploadEvent::Completed {
        status_success: true,
        start_ms: 7,
        end_ms: 7,
    });
    assert_eq!(
        outcome,
        ProbeOutcome::Failure("elapsed time is not positive".to_string())
    );
}

#[test]
fn upload_bad_status_fails() {
    // A non-success status fails with the fixed text, even with sound timing.
    let outcome = upload_outcome(UploadEvent::Completed {
        status_success: false,
        start_ms: 0,
        end_ms: 4_000,
    });
    assert_eq!(outcome, ProbeOutcome::Failure("Upload failed".to_string()));
}

#[test]
fn download_transport_failure_reported() {
    let outcome = download_outcome(DownloadEvent::Failed(
        "connection refused by host".to_string(),
    ));
    assert_eq!(
        outcome,
        ProbeOutcome::Failure("connection refused by host".to_string())
    );
    assert!(!outcome.is_success());
}

#[test]
fn upload_transport_failure_reported() {
    let outcome = upload_outcome(UploadEvent::Failed("request timed out".to_string()));
    assert_eq!(outcome, ProbeOutcome::Failure("request timed out".to_string()));
}

#[test]
fn outcomes_are_independent() {
    // A failed download does not keep the upload from reporting its speed.
    let (d, u) = evaluate_probes(
        DownloadEvent::Failed("unreachable host".to_string()),
        UploadEvent::Completed {
            status_success: true,
            start_ms: 0,
            end_ms: 4_000,
        },
    );
    assert_eq!(d, ProbeOutcome::Failure("unreachable host".to_string()));
    assert_eq!(u, ProbeOutcome::Speed(2000));

    // And the other way round.
    let (d, u) = evaluate_probes(
        DownloadEvent::Completed(TransferMeasurement {
            start_ms: 0,
            end_ms: 8_000,
            bytes: 104_857_600,
        }),
        UploadEvent::Failed("broken pipe".to_string()),
    );
    assert_eq!(d, ProbeOutcome::Speed(10000));
    assert_eq!(u, ProbeOutcome::Failure("broken pipe".to_string()));
}

#[test]
fn repeated_run_same_outcomes() {
    // Two runs over the same events report identical outcomes.
    let first = evaluate_probes(
        DownloadEvent::Completed(TransferMeasurement {
            start_ms: 5,
            end_ms: 2_005,
            bytes: 2_097_152,
        }),
        UploadEvent::Completed {
            status_success: false,
            start_ms: 5,
            end_ms: 2_005,
        },
    );
    let second = evaluate_probes(
        DownloadEvent::Completed(TransferMeasurement {
            start_ms: 5,
            end_ms: 2_005,
            bytes: 2_097_152,
        }),
        UploadEvent::Completed {
            status_success: false,
            start_ms: 5,
            end_ms: 2_005,
        },
    );
    assert_eq!(first, second);
}

#[test]
fn expected_total_prefers_declared_length() {
    assert_eq!(expected_download_total(Some(12_345)), 12_345);
    assert_eq!(expected_download_total(None), DOWNLOAD_NOMINAL_BYTES);
}

#[test]
fn accumulate_chunk_sums_and_checks_overflow() {
    assert_eq!(accumulate_chunk(0, 16_384), Some(16_384));
    assert_eq!(accumulate_chunk(1_000_000, 24), Some(1_000_024));
    assert_eq!(accumulate_chunk(u64::MAX, 1), None);
}

#[test]
fn upload_payload_is_ten_zeroed_megabytes() {
    let payload = build_upload_payload();
    assert_eq!(payload.len() as u64, UPLOAD_PAYLOAD_BYTES);
    assert!(payload.iter().all(|&b| b == 0));
}

#[test]
fn progress_steps_cover_payload_segment_by_segment() {
    let steps = upload_progress_steps(UPLOAD_PAYLOAD_BYTES, UPLOAD_SEGMENT_BYTES);
    assert_eq!(steps.len(), 10);
    for (i, &pos) in steps.iter().enumerate() {
        assert_eq!(pos, (i as u64 + 1) * UPLOAD_SEGMENT_BYTES);
    }
    assert_eq!(*steps.last().unwrap(), UPLOAD_PAYLOAD_BYTES);
}

#[test]
fn progress_steps_cap_last_segment_at_total() {
    let steps = upload_progress_steps(2_500_000, 1_048_576);
    assert_eq!(steps, vec![1_048_576, 2_097_152, 2_500_000]);
}

#[test]
fn progress_steps_degenerate_inputs() {
    assert!(upload_progress_steps(0, 1_048_576).is_empty());
    assert!(upload_progress_steps(10, 0).is_empty());
}

#[test]
fn outcome_success_flag() {
    assert!(ProbeOutcome::Speed(1).is_success());
    assert!(!ProbeOutcome::Failure("x".to_string()).is_success());
}
