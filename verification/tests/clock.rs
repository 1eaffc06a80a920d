//! The clock that stands still.
use svm_core::time;
use svm_core::utils;

#[test]
fn no_time_passes() {
    let start = time::Instant::now();
    let later = time::Instant::default();
    assert_eq!(start.elapsed(), time::Duration::ZERO);
    assert_eq!(later.duration_since(start), time::Duration::ZERO);
    assert_eq!(
        time::SystemTime::now().duration_since(time::UNIX_EPOCH),
        Ok(time::Duration::ZERO)
    );
    assert_eq!(utils::Instant::now().elapsed(), utils::Duration::ZERO);
}

#[test]
fn every_span_is_empty() {
    let spans = [
        time::Duration::new(3, 4),
        time::Duration::from_nanos(5),
        time::Duration::from_micros(6),
        time::Duration::from_millis(7),
        time::Duration::from_secs(8),
        time::Duration::MAX,
    ];
    for span in spans {
        assert_eq!(span, time::Duration {});
        assert_eq!(span.as_secs(), 0);
        assert_eq!(span.as_nanos(), 0);
        assert_eq!(span.subsec_nanos(), 0);
        assert!(span <= time::Duration::ZERO);
    }
    let spans = [
        utils::Duration::new(3, 4),
        utils::Duration::from_nanos(5),
        utils::Duration::from_micros(6),
        utils::Duration::from_millis(7),
        utils::Duration::from_secs(8),
        utils::Duration::MAX,
    ];
    for span in spans {
        assert_eq!(span, utils::Duration {});
    }
}
