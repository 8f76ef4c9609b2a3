use std::time::Duration;

use mmd::service::load_zram_recompression_params;
use mmd::service::load_zram_writeback_params;
use mmd::service::load_zram_writeback_stats;
use mmd::service::Failure;
use mmd::service::MaintenanceAction;
use mmd::service::MaintenanceEvent;
use mmd::service::MmdService;
use mmd::service::RecompressionProps;
use mmd::service::StatsAction;
use mmd::service::StatsError;
use mmd::service::StatsEvent;
use mmd::service::WritebackProps;
use mmd::step::Step;
use mmd::zram::recompression;
use mmd::zram::recompression::ZramRecompression;
use mmd::zram::stats::ZramBdStat;
use mmd::zram::stats::ZramMmStat;
use mmd::zram::writeback;
use mmd::zram::writeback::ZramWriteback;

fn secs(seconds: u64) -> u128 {
    Duration::from_secs(seconds).as_nanos()
}

const UNSET_RECOMPRESSION: RecompressionProps = RecompressionProps {
    backoff: None,
    min_idle: None,
    max_idle: None,
    huge_idle_enabled: None,
    idle_enabled: None,
    huge_enabled: None,
    threshold_mib: None,
};

const UNSET_WRITEBACK: WritebackProps = WritebackProps {
    backoff: None,
    min_idle: None,
    max_idle: None,
    huge_idle_enabled: None,
    idle_enabled: None,
    huge_enabled: None,
    min_bytes: None,
    max_bytes: None,
    max_bytes_per_day: None,
};

/// What a device answers to a maintenance.
struct Device {
    recompression: RecompressionProps,
    now: u128,
    idle_time: Result<u64, &'static str>,
    set_idle: Result<(), &'static str>,
    recompress: Result<(), &'static str>,
    mm_stat: Result<ZramMmStat, &'static str>,
    bd_stat: Result<ZramBdStat, &'static str>,
    flush: fn() -> Result<(), writeback::Error<&'static str>>,
}

impl Device {
    fn new() -> Self {
        Device {
            recompression: RecompressionProps {
                idle_enabled: Some(false),
                threshold_mib: Some(0),
                ..UNSET_RECOMPRESSION
            },
            now: secs(5000),
            idle_time: Ok(8000),
            set_idle: Ok(()),
            recompress: Ok(()),
            mm_stat: Ok(ZramMmStat { orig_data_size: 1234 }),
            bd_stat: Ok(ZramBdStat { bd_count_pages: 56 }),
            flush: || Ok(()),
        }
    }

    /// Has the service do its maintenance. Returns what it did, in short, and what it reported.
    fn maintain(&self, service: &mut MmdService) -> (Vec<String>, Vec<Failure<&'static str>>) {
        let mut actions = Vec::new();
        let mut failures = Vec::new();
        let mut step = service.do_zram_maintenance();
        loop {
            let (stage, action) = match step {
                Step::Finished(()) => return (actions, failures),
                Step::Perform { stage, action } => (stage, action),
            };
            let (name, event) = match action {
                MaintenanceAction::ReadRecompressionProps => (
                    "recompression props".to_string(),
                    MaintenanceEvent::RecompressionProps {
                        props: self.recompression,
                        now: self.now,
                    },
                ),
                MaintenanceAction::Recompression(action) => {
                    let (name, event) = match action {
                        recompression::Action::CalculateIdleTime { .. } => (
                            "idle time".to_string(),
                            recompression::Event::IdleTime(self.idle_time),
                        ),
                        recompression::Action::SetIdle(age) => {
                            (format!("idle {age}"), recompression::Event::IdleSet(self.set_idle))
                        }
                        recompression::Action::Recompress(trigger) => {
                            (trigger, recompression::Event::Recompressed(self.recompress))
                        }
                    };
                    (name, MaintenanceEvent::Recompression(event))
                }
                MaintenanceAction::ReadWritebackProps => (
                    "writeback props".to_string(),
                    MaintenanceEvent::WritebackProps(WritebackProps {
                        max_bytes: Some(300),
                        ..UNSET_WRITEBACK
                    }),
                ),
                MaintenanceAction::Stats(StatsAction::LoadMmStat) => (
                    "mm_stat".to_string(),
                    MaintenanceEvent::Stats(StatsEvent::MmStat(self.mm_stat)),
                ),
                MaintenanceAction::Stats(StatsAction::LoadBdStat) => (
                    "bd_stat".to_string(),
                    MaintenanceEvent::Stats(StatsEvent::BdStat(self.bd_stat)),
                ),
                MaintenanceAction::FlushPages { params, stats } => (
                    format!(
                        "flush {} {} {}",
                        params.max_bytes, stats.orig_data_size, stats.current_writeback_pages
                    ),
                    MaintenanceEvent::PagesFlushed((self.flush)()),
                ),
            };
            actions.push(name);
            let (failure, next) = service.resume(stage, event);
            failures.extend(failure);
            step = next;
        }
    }
}

fn full_service() -> MmdService {
    MmdService::new(Some(ZramWriteback::new(4096, 8192)), Some(ZramRecompression::new()))
}

const RECOMPRESSION: [&str; 5] =
    ["recompression props", "idle time", "idle 8000", "type=huge_idle", "type=huge"];
const WRITEBACK: [&str; 4] = ["writeback props", "mm_stat", "bd_stat", "flush 300 1234 56"];

#[test]
fn maintenance_recompresses_before_writeback() {
    let mut service = full_service();
    let (actions, failures) = Device::new().maintain(&mut service);
    assert_eq!(actions, [&RECOMPRESSION[..], &WRITEBACK[..]].concat());
    assert!(failures.is_empty());
    assert_eq!(service.ctx.zram_recompression.unwrap().last_recompress_at, Some(secs(5000)));
    assert_eq!(service.ctx.zram_writeback.unwrap().zram_writeback_disk_size, 8192);
}

#[test]
fn maintenance_without_zram() {
    let mut service = MmdService::new(None, None);
    let (actions, failures) = Device::new().maintain(&mut service);
    assert!(actions.is_empty());
    assert!(failures.is_empty());
}

#[test]
fn maintenance_of_one_of_two() {
    let mut service = MmdService::new(None, Some(ZramRecompression::new()));
    assert_eq!(Device::new().maintain(&mut service).0, RECOMPRESSION);
    let mut service = MmdService::new(Some(ZramWriteback::new(1, 2)), None);
    assert_eq!(Device::new().maintain(&mut service).0, WRITEBACK);
}

#[test]
fn maintenance_within_backoff_is_silent() {
    let mut service = full_service();
    let mut device = Device::new();
    device.maintain(&mut service);
    device.now = secs(6799);
    device.flush = || Err(writeback::Error::BackoffTime);
    let (actions, failures) = device.maintain(&mut service);
    assert_eq!(actions, [&RECOMPRESSION[..1], &WRITEBACK[..]].concat());
    assert!(failures.is_empty());
    device.now = secs(6800);
    device.flush = || Err(writeback::Error::Limit);
    let (actions, failures) = device.maintain(&mut service);
    assert_eq!(actions, [&RECOMPRESSION[..], &WRITEBACK[..]].concat());
    assert!(failures.is_empty());
    assert_eq!(service.ctx.zram_recompression.unwrap().last_recompress_at, Some(secs(6800)));
}

#[test]
fn maintenance_recompresses_all_pages_after_backoff() {
    let mut service = MmdService::new(None, Some(ZramRecompression::new()));
    let mut device = Device::new();
    device.recompression = RecompressionProps {
        backoff: Some(100),
        threshold_mib: Some(0),
        ..UNSET_RECOMPRESSION
    };
    let all = ["type=huge_idle", "type=idle", "type=huge"];
    let triggers = |device: &Device, service: &mut MmdService| {
        let (mut actions, failures) = device.maintain(service);
        assert!(failures.is_empty());
        actions.retain(|action| action.starts_with("type="));
        actions
    };
    assert_eq!(triggers(&device, &mut service), all);
    device.now = secs(5099);
    assert!(triggers(&device, &mut service).is_empty());
    device.now = secs(5100);
    assert_eq!(triggers(&device, &mut service), all);
}

#[test]
fn maintenance_writes_back_after_failed_recompression() {
    let mut device = Device::new();
    device.set_idle = Err("no idle");
    let (actions, failures) = device.maintain(&mut full_service());
    assert_eq!(actions, [&RECOMPRESSION[..3], &WRITEBACK[..]].concat());
    assert_eq!(failures.len(), 1);
    assert!(matches!(
        failures[0],
        Failure::Recompression(recompression::Error::MarkIdle("no idle"))
    ));

    let mut device = Device::new();
    device.idle_time = Err("no meminfo");
    let (actions, failures) = device.maintain(&mut full_service());
    assert_eq!(actions, [&RECOMPRESSION[..2], &WRITEBACK[..]].concat());
    assert!(matches!(
        failures[0],
        Failure::Recompression(recompression::Error::CalculateIdle(_))
    ));

    let mut device = Device::new();
    device.recompress = Err("no space");
    let (actions, failures) = device.maintain(&mut full_service());
    assert_eq!(actions, [&RECOMPRESSION[..4], &WRITEBACK[..]].concat());
    assert!(matches!(
        failures[0],
        Failure::Recompression(recompression::Error::Recompress("no space"))
    ));
}

#[test]
fn maintenance_does_not_write_back_without_stats() {
    let mut device = Device::new();
    device.mm_stat = Err("no mm_stat");
    let (actions, failures) = device.maintain(&mut full_service());
    assert_eq!(actions, [&RECOMPRESSION[..], &WRITEBACK[..2]].concat());
    assert!(matches!(failures[..], [Failure::WritebackStats(StatsError::LoadMmStat("no mm_stat"))]));

    let mut device = Device::new();
    device.bd_stat = Err("no bd_stat");
    let (actions, failures) = device.maintain(&mut full_service());
    assert_eq!(actions, [&RECOMPRESSION[..], &WRITEBACK[..3]].concat());
    assert!(matches!(failures[..], [Failure::WritebackStats(StatsError::LoadBdStat("no bd_stat"))]));
}

#[test]
fn maintenance_reports_failed_writeback() {
    let mut device = Device::new();
    device.recompress = Err("no space");
    device.flush = || Err(writeback::Error::Failed("no file"));
    let (_, failures) = device.maintain(&mut full_service());
    assert!(matches!(
        failures[..],
        [
            Failure::Recompression(recompression::Error::Recompress("no space")),
            Failure::Writeback(writeback::Error::Failed("no file")),
        ]
    ));
}

#[test]
fn writeback_stats_of_both_files() {
    let Step::Perform { stage, action } = load_zram_writeback_stats::<&str>() else {
        panic!("nothing to load");
    };
    assert_eq!(action, StatsAction::LoadMmStat);
    let Step::Perform { stage, action } =
        stage.resume::<&str>(StatsEvent::MmStat(Ok(ZramMmStat { orig_data_size: 11 })))
    else {
        panic!("no second file");
    };
    assert_eq!(action, StatsAction::LoadBdStat);
    let Step::Finished(Ok(stats)) =
        stage.resume::<&str>(StatsEvent::BdStat(Ok(ZramBdStat { bd_count_pages: 22 })))
    else {
        panic!("no stats");
    };
    assert_eq!(stats.orig_data_size, 11);
    assert_eq!(stats.current_writeback_pages, 22);
}

#[test]
fn writeback_params_of_properties() {
    let params = load_zram_writeback_params(&UNSET_WRITEBACK);
    assert_eq!(format!("{params:?}"), format!("{:?}", writeback::Params::default()));
    assert!(params.huge_idle && params.idle && params.huge);
    assert_eq!(params.backoff_duration, secs(600));
    assert_eq!(params.min_idle, secs(20 * 3600));
    assert_eq!(params.max_idle, secs(25 * 3600));
    assert_eq!(params.min_bytes, 5 << 20);
    assert_eq!(params.max_bytes, 300 << 20);
    assert_eq!(params.max_bytes_per_day, 1 << 30);

    let set = WritebackProps {
        backoff: Some(1),
        min_idle: Some(2),
        max_idle: Some(u64::MAX),
        huge_idle_enabled: Some(false),
        idle_enabled: Some(false),
        huge_enabled: Some(true),
        min_bytes: Some(4),
        max_bytes: Some(5),
        max_bytes_per_day: Some(6),
    };
    let params = load_zram_writeback_params(&set);
    assert_eq!(params.backoff_duration, secs(1));
    assert_eq!(params.min_idle, secs(2));
    assert_eq!(params.max_idle, secs(u64::MAX));
    assert!(!params.huge_idle);
    assert!(!params.idle);
    assert!(params.huge);
    assert_eq!(params.min_bytes, 4);
    assert_eq!(params.max_bytes, 5);
    assert_eq!(params.max_bytes_per_day, 6);
}

#[test]
fn recompression_params_of_properties() {
    let params = load_zram_recompression_params(&UNSET_RECOMPRESSION);
    assert_eq!(format!("{params:?}"), format!("{:?}", recompression::Params::default()));

    let threshold = RecompressionProps { threshold_mib: Some(12345), ..UNSET_RECOMPRESSION };
    let params = load_zram_recompression_params(&threshold);
    assert_eq!(
        format!("{params:?}"),
        format!("{:?}", recompression::Params { max_mib: 12345, ..Default::default() })
    );
    assert!(params.huge_idle && params.idle && params.huge);

    let set = RecompressionProps {
        backoff: Some(1),
        min_idle: Some(2),
        max_idle: Some(3),
        huge_idle_enabled: Some(false),
        idle_enabled: Some(true),
        huge_enabled: Some(false),
        threshold_mib: Some(7),
    };
    let params = load_zram_recompression_params(&set);
    assert_eq!(params.backoff_duration, secs(1));
    assert_eq!(params.min_idle, secs(2));
    assert_eq!(params.max_idle, secs(3));
    assert!(!params.huge_idle);
    assert!(params.idle);
    assert!(!params.huge);
    assert_eq!(params.max_mib, 7);
}
