use std::time::Duration;

use mmd::step::Step;
use mmd::zram::recompression::is_zram_recompression_activated;
use mmd::zram::recompression::Action;
use mmd::zram::recompression::Error;
use mmd::zram::recompression::Event;
use mmd::zram::recompression::IdleTimeError;
use mmd::zram::recompression::Params;
use mmd::zram::recompression::ReadError;
use mmd::zram::recompression::ZramRecompression;

fn error() -> std::io::Error {
    std::io::Error::other("error")
}

fn secs(seconds: u64) -> u128 {
    Duration::from_secs(seconds).as_nanos()
}

/// A device, and what it was asked to do.
struct Device {
    idle_time: fn() -> std::io::Result<u64>,
    set_idle: fn(&str) -> std::io::Result<()>,
    recompress: fn(&str) -> std::io::Result<()>,
    actions: Vec<Action<String>>,
}

impl Device {
    fn new() -> Self {
        Device {
            idle_time: || Ok(8000),
            set_idle: |_| Ok(()),
            recompress: |_| Ok(()),
            actions: Vec::new(),
        }
    }

    fn mark_and_recompress(
        &mut self,
        zram_recompression: &mut ZramRecompression,
        params: &Params,
        now: u128,
    ) -> Result<(), Error<std::io::Error>> {
        let mut step = zram_recompression.mark_and_recompress(params, now);
        loop {
            match step {
                Step::Finished(result) => return result,
                Step::Perform { stage, action } => {
                    let event = match &action {
                        Action::CalculateIdleTime { .. } => Event::IdleTime((self.idle_time)()),
                        Action::SetIdle(age) => Event::IdleSet((self.set_idle)(age)),
                        Action::Recompress(trigger) => {
                            Event::Recompressed((self.recompress)(trigger))
                        }
                    };
                    self.actions.push(action);
                    step = zram_recompression.resume(stage, event);
                }
            }
        }
    }

    /// What the device was told: the idle ages and the triggers.
    fn written(&self) -> Vec<String> {
        let mut written = Vec::new();
        for action in &self.actions {
            match action {
                Action::CalculateIdleTime { .. } => {}
                Action::SetIdle(age) => written.push(format!("idle {age}")),
                Action::Recompress(trigger) => written.push(trigger.clone()),
            }
        }
        written
    }

    fn triggers(&self) -> Vec<String> {
        let mut triggers = self.written();
        triggers.retain(|text| text.starts_with("type="));
        triggers
    }
}

#[test]
fn test_is_zram_recompression_activated() {
    assert!(is_zram_recompression_activated::<std::io::Error>(Ok(
        "#1: lzo lzo-rle lz4 [zstd]".to_string()
    ))
    .unwrap());
}

#[test]
fn test_is_zram_recompression_activated_not_activated() {
    assert!(!is_zram_recompression_activated::<std::io::Error>(Ok("".to_string())).unwrap());
}

#[test]
fn test_is_zram_recompression_activated_not_supported() {
    assert!(!is_zram_recompression_activated::<std::io::Error>(Err(ReadError::NotFound)).unwrap());
}

#[test]
fn test_is_zram_recompression_activated_failure() {
    assert!(is_zram_recompression_activated(Err(ReadError::Other(error()))).is_err());
}

#[test]
fn mark_and_recompress() {
    let mut device = Device::new();
    let params = Params { max_mib: 0, ..Default::default() };
    let mut zram_recompression = ZramRecompression::new();

    assert!(device.mark_and_recompress(&mut zram_recompression, &params, 0).is_ok());

    let calculate = || Action::CalculateIdleTime { min_idle: secs(7200), max_idle: secs(14400) };
    assert_eq!(
        device.actions,
        vec![
            calculate(),
            Action::SetIdle("8000".to_string()),
            Action::Recompress("type=huge_idle".to_string()),
            calculate(),
            Action::SetIdle("8000".to_string()),
            Action::Recompress("type=idle".to_string()),
            Action::Recompress("type=huge".to_string()),
        ]
    );
}

#[test]
fn default_params_recompress_all_pages() {
    let params = Params::default();
    assert!(params.huge_idle && params.idle && params.huge);
    assert_eq!(params.backoff_duration, secs(1800));
    assert_eq!(params.min_idle, secs(7200));
    assert_eq!(params.max_idle, secs(14400));
    assert_eq!(params.max_mib, 1024);
}

#[test]
fn mark_and_recompress_with_threshold() {
    let mut device = Device::new();
    let params = Params { max_mib: 12345, ..Default::default() };
    let mut zram_recompression = ZramRecompression::new();

    assert!(device.mark_and_recompress(&mut zram_recompression, &params, 0).is_ok());

    assert_eq!(
        device.triggers(),
        vec![
            "type=huge_idle threshold=12345",
            "type=idle threshold=12345",
            "type=huge threshold=12345",
        ]
    );
}

#[test]
fn mark_and_recompress_before_backoff() {
    let params = Params { backoff_duration: secs(100), max_mib: 0, ..Default::default() };
    let base_time = secs(5000);
    let mut zram_recompression = ZramRecompression::new();
    assert!(Device::new()
        .mark_and_recompress(&mut zram_recompression, &params, base_time)
        .is_ok());

    let mut device = Device::new();
    assert!(matches!(
        device.mark_and_recompress(&mut zram_recompression, &params, base_time + secs(99)),
        Err(Error::BackoffTime)
    ));
    assert!(device.actions.is_empty());
}

#[test]
fn mark_and_recompress_after_backoff() {
    let params = Params { backoff_duration: secs(100), max_mib: 0, ..Default::default() };
    let base_time = secs(5000);
    let mut zram_recompression = ZramRecompression::new();
    assert!(Device::new()
        .mark_and_recompress(&mut zram_recompression, &params, base_time)
        .is_ok());

    let mut device = Device::new();
    assert!(device
        .mark_and_recompress(&mut zram_recompression, &params, base_time + secs(100))
        .is_ok());
    assert_eq!(device.triggers().len(), 3);
}

#[test]
fn mark_and_recompress_just_before_backoff() {
    let params = Params { backoff_duration: secs(100), ..Default::default() };
    let mut zram_recompression = ZramRecompression { last_recompress_at: Some(secs(5000)) };
    let mut device = Device::new();
    assert!(matches!(
        device.mark_and_recompress(&mut zram_recompression, &params, secs(5100) - 1),
        Err(Error::BackoffTime)
    ));
    // The time of a backoff counts from the recompression, not from the refusal.
    assert_eq!(zram_recompression.last_recompress_at, Some(secs(5000)));
    // No time is before the last recompression.
    assert!(matches!(
        device.mark_and_recompress(&mut zram_recompression, &params, 0),
        Err(Error::BackoffTime)
    ));
}

#[test]
fn mark_and_recompress_idle_time() {
    let mut device = Device::new();
    // An idle time between 3600 and 4000 seconds, with 8000 of 10000 kB available.
    device.idle_time = || Ok(3747);
    let params =
        Params { min_idle: secs(3600), max_idle: secs(4000), max_mib: 0, ..Default::default() };
    let mut zram_recompression = ZramRecompression::new();

    assert!(device.mark_and_recompress(&mut zram_recompression, &params, 0).is_ok());

    assert_eq!(
        device.actions[0],
        Action::CalculateIdleTime { min_idle: secs(3600), max_idle: secs(4000) }
    );
    let mut ages = device.written();
    ages.retain(|text| text.starts_with("idle "));
    assert_eq!(ages, vec!["idle 3747", "idle 3747"]);
}

#[test]
fn mark_and_recompress_calculate_idle_failure() {
    let mut device = Device::new();
    let params =
        Params { min_idle: secs(4000), max_idle: secs(3600), max_mib: 0, ..Default::default() };
    let mut zram_recompression = ZramRecompression::new();

    assert!(matches!(
        device.mark_and_recompress(&mut zram_recompression, &params, 0),
        Err(Error::CalculateIdle(IdleTimeError::InvalidMinAndMax))
    ));
    assert!(device.actions.is_empty());

    // Huge pages need no idle time.
    let params = Params { huge_idle: false, idle: false, ..params };
    assert!(device.mark_and_recompress(&mut zram_recompression, &params, 0).is_ok());
    assert_eq!(device.written(), vec!["type=huge"]);
}

#[test]
fn mark_and_recompress_meminfo_failure() {
    let mut device = Device::new();
    device.idle_time = || Err(error());
    let mut zram_recompression = ZramRecompression::new();

    assert!(matches!(
        device.mark_and_recompress(&mut zram_recompression, &Params::default(), 0),
        Err(Error::CalculateIdle(IdleTimeError::Meminfo(_)))
    ));
    assert_eq!(device.actions.len(), 1);
}

#[test]
fn mark_and_recompress_mark_idle_failure() {
    let mut device = Device::new();
    device.set_idle = |_| Err(error());
    let params = Params { max_mib: 0, ..Default::default() };
    let mut zram_recompression = ZramRecompression::new();

    assert!(matches!(
        device.mark_and_recompress(&mut zram_recompression, &params, 0),
        Err(Error::MarkIdle(_))
    ));
    assert_eq!(zram_recompression.last_recompress_at, None);
}

#[test]
fn mark_and_recompress_recompress_failure() {
    let mut device = Device::new();
    device.recompress = |trigger| if trigger == "type=idle" { Err(error()) } else { Ok(()) };
    let params = Params { max_mib: 0, ..Default::default() };
    let mut zram_recompression = ZramRecompression::new();

    assert!(matches!(
        device.mark_and_recompress(&mut zram_recompression, &params, secs(7)),
        Err(Error::Recompress(_))
    ));
    assert_eq!(device.triggers(), vec!["type=huge_idle", "type=idle"]);
    assert_eq!(zram_recompression.last_recompress_at, Some(secs(7)));
}

#[test]
fn mark_and_recompress_skip_huge_idle() {
    let mut device = Device::new();
    let params = Params { huge_idle: false, max_mib: 0, ..Default::default() };
    let mut zram_recompression = ZramRecompression::new();

    assert!(device.mark_and_recompress(&mut zram_recompression, &params, 0).is_ok());
    assert_eq!(device.triggers(), vec!["type=idle", "type=huge"]);
}

#[test]
fn mark_and_recompress_skip_idle() {
    let mut device = Device::new();
    let params = Params { idle: false, max_mib: 0, ..Default::default() };
    let mut zram_recompression = ZramRecompression::new();

    assert!(device.mark_and_recompress(&mut zram_recompression, &params, 0).is_ok());
    assert_eq!(device.triggers(), vec!["type=huge_idle", "type=huge"]);
}

#[test]
fn mark_and_recompress_skip_huge() {
    let mut device = Device::new();
    let params = Params { huge: false, max_mib: 0, ..Default::default() };
    let mut zram_recompression = ZramRecompression::new();

    assert!(device.mark_and_recompress(&mut zram_recompression, &params, 0).is_ok());
    assert_eq!(device.triggers(), vec!["type=huge_idle", "type=idle"]);
}

#[test]
fn mark_and_recompress_skip_all() {
    let mut device = Device::new();
    let params = Params { huge_idle: false, idle: false, huge: false, ..Default::default() };
    let mut zram_recompression = ZramRecompression::new();

    assert!(device.mark_and_recompress(&mut zram_recompression, &params, 0).is_ok());
    assert!(device.actions.is_empty());
    assert_eq!(zram_recompression.last_recompress_at, None);
}
