use xcap_core::error::XCapError;
use xcap_core::monitor::ImplMonitor;
use xcap_core::monitor::MonitorQuery;
use xcap_core::monitor::rotation_from_orientation;
use xcap_core::pixel::RawCaptureBuffer;
use xcap_core::scale::ScaleFactor;
use xcap_core::scale::get_hi_dpi_scale_factor;
use xcap_core::scale::get_scale_factor;

fn good_query(handle: u32) -> MonitorQuery {
    MonitorQuery {
        handle,
        name: format!("DISPLAY{}", handle),
        x: 0,
        y: 0,
        width: 1920,
        height: 1080,
        orientation: 0,
        frequency: 60,
        flags: 1,
        dpi_aware: true,
        dpi_x: Some(144),
        physical_width: 2880,
        logical_width: 1920,
    }
}

#[test]
fn rotation_codes_map_to_degrees() {
    assert_eq!(rotation_from_orientation(0), 0);
    assert_eq!(rotation_from_orientation(1), 90);
    assert_eq!(rotation_from_orientation(2), 180);
    assert_eq!(rotation_from_orientation(3), 270);
}

#[test]
fn unrecognized_orientation_defaults_to_zero() {
    assert_eq!(rotation_from_orientation(4), 0);
    assert_eq!(rotation_from_orientation(42), 0);
    assert_eq!(rotation_from_orientation(u32::MAX), 0);
}

#[test]
fn primary_dpi_path_needs_awareness() {
    assert_eq!(
        get_hi_dpi_scale_factor(true, Some(144)),
        Ok(ScaleFactor { num: 144, den: 96 })
    );
    assert_eq!(get_hi_dpi_scale_factor(false, Some(144)), Err(XCapError::QueryFailed));
    assert_eq!(get_hi_dpi_scale_factor(true, None), Err(XCapError::QueryFailed));
    assert_eq!(get_hi_dpi_scale_factor(true, Some(0)), Err(XCapError::QueryFailed));
}

#[test]
fn fallback_ratio_used_when_primary_unavailable() {
    let s = get_scale_factor(false, Some(144), 2880, 1920).unwrap();
    assert_eq!(s, ScaleFactor { num: 2880, den: 1920 });
    assert!(s.num > 0 && s.den > 0);
    let s = get_scale_factor(true, None, 1920, 1920).unwrap();
    assert_eq!(s, ScaleFactor { num: 1920, den: 1920 });
    assert!(s.num > 0 && s.den > 0);
}

#[test]
fn invalid_device_context_propagates() {
    assert_eq!(get_scale_factor(false, None, 0, 1920), Err(XCapError::QueryFailed));
    assert_eq!(get_scale_factor(false, None, 2880, -1), Err(XCapError::QueryFailed));
}

#[test]
fn monitor_new_populates_every_field() {
    let mut q = good_query(7);
    q.x = -1920;
    q.y = 32;
    q.orientation = 2;
    let m = ImplMonitor::new(&q).unwrap();
    assert_eq!(m.id, 7);
    assert_eq!(m.name, "DISPLAY7");
    assert_eq!((m.x, m.y), (-1920, 32));
    assert_eq!((m.width, m.height), (1920, 1080));
    assert_eq!(m.rotation, 180);
    assert_eq!(m.scale_factor, ScaleFactor { num: 144, den: 96 });
    assert_eq!(m.frequency, 60);
    assert!(m.is_primary);
}

#[test]
fn monitor_new_without_scale_fails() {
    let mut q = good_query(1);
    q.dpi_aware = false;
    q.physical_width = 0;
    assert_eq!(ImplMonitor::new(&q).unwrap_err(), XCapError::QueryFailed);
}

#[test]
fn enumeration_skips_failing_surface() {
    let mut bad = good_query(2);
    bad.dpi_aware = false;
    bad.dpi_x = None;
    bad.logical_width = 0;
    let queries = vec![good_query(1), bad, good_query(3)];
    let monitors = ImplMonitor::all(&queries);
    assert_eq!(monitors.len(), 2);
    assert_eq!(monitors[0].id, 1);
    assert_eq!(monitors[1].id, 3);
}

#[test]
fn enumeration_of_no_queries_is_empty() {
    assert!(ImplMonitor::all(&Vec::new()).is_empty());
}

#[test]
fn monitor_at_point_finds_containing_monitor() {
    let mut right = good_query(2);
    right.x = 1920;
    let queries = vec![good_query(1), right];
    let monitors = ImplMonitor::all(&queries);
    let m = ImplMonitor::from_point(&monitors, 2000, 500).unwrap();
    assert_eq!(m.id, 2);
    let m = ImplMonitor::from_point(&monitors, 0, 0).unwrap();
    assert_eq!(m.id, 1);
}

#[test]
fn monitor_at_point_outside_all_fails() {
    let monitors = ImplMonitor::all(&vec![good_query(1)]);
    assert_eq!(
        ImplMonitor::from_point(&monitors, -1, 0).unwrap_err(),
        XCapError::NotFound
    );
    assert_eq!(
        ImplMonitor::from_point(&monitors, 1920, 500).unwrap_err(),
        XCapError::NotFound
    );
    assert_eq!(
        ImplMonitor::from_point(&monitors, 500, 2000).unwrap_err(),
        XCapError::NotFound
    );
}

#[test]
fn capture_image_without_native_image_fails() {
    let monitors = ImplMonitor::all(&vec![good_query(1)]);
    match monitors[0].capture_image(None) {
        Err(e) => assert_eq!(e, XCapError::CaptureFailed),
        Ok(_) => panic!("capture succeeded without a native image"),
    }
}

#[test]
fn capture_image_normalizes_grabbed_buffer() {
    let monitors = ImplMonitor::all(&vec![good_query(1)]);
    let raw = RawCaptureBuffer {
        width: 2,
        height: 1,
        bytes_per_row: 8,
        bytes: vec![1, 2, 3, 4, 5, 6, 7, 8],
    };
    let img = monitors[0].capture_image(Some(raw)).unwrap();
    assert_eq!(img.bytes().as_slice(), &[3, 2, 1, 4, 7, 6, 5, 8]);
}

#[test]
fn error_messages_are_nonempty() {
    let errors = [
        XCapError::QueryFailed,
        XCapError::NotFound,
        XCapError::CaptureFailed,
        XCapError::DecodeFailed,
        XCapError::ResourceAcquisitionFailed,
    ];
    for e in errors {
        assert!(!e.message().is_empty());
    }
}
