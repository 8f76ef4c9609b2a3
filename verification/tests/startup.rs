use mmd::os::PageInfo;
use mmd::setup_zram::setup_zram;
use mmd::setup_zram::SetupAction;
use mmd::setup_zram::SetupError;
use mmd::setup_zram::SetupEvent;
use mmd::setup_zram::SetupOutcome;
use mmd::startup::start;
use mmd::startup::Note;
use mmd::startup::Startup;
use mmd::startup::StartupAction;
use mmd::startup::StartupEvent;
use mmd::step::Step;
use mmd::zram::recompression::ReadError;
use mmd::zram::setup::ActivationAction;
use mmd::zram::setup::ActivationEvent;
use mmd::zram::setup::CommandOutput;
use mmd::zram::setup::ZramActivationError;
use mmd::zram::setup::ZramSpecError;
use mmd::zram::writeback::load_zram_writeback_disk_size;
use mmd::zram::writeback::DiskSizeAction;
use mmd::zram::writeback::DiskSizeEvent;

type Fails = &'static str;

/// What a device answers to the start of the daemon.
struct Device {
    property_written: Result<(), Fails>,
    zram_enabled: Option<bool>,
    swaps: Result<&'static str, Fails>,
    size: Option<&'static str>,
    disk_size: Result<(), Fails>,
    mkswap: Result<bool, Fails>,
    swapon: Result<(), Fails>,
    total_zram_size: Result<u64, Fails>,
    writeback_enabled: Option<bool>,
    writeback_activated: Result<bool, Fails>,
    file_size: Result<u64, Fails>,
    recompression_enabled: Option<bool>,
    algorithm: fn() -> Result<String, ReadError<Fails>>,
}

impl Device {
    fn new() -> Self {
        Device {
            property_written: Ok(()),
            zram_enabled: None,
            swaps: Ok("Filename Type\n"),
            size: None,
            disk_size: Ok(()),
            mkswap: Ok(true),
            swapon: Ok(()),
            total_zram_size: Ok(4096),
            writeback_enabled: None,
            writeback_activated: Ok(true),
            file_size: Ok(8192),
            recompression_enabled: None,
            algorithm: || Ok("#1: lzo [zstd]".to_string()),
        }
    }

    fn setup_event(&self, action: SetupAction<String>) -> (String, SetupEvent<Fails>) {
        match action {
            SetupAction::ReadSwapAreas => (
                "swaps".to_string(),
                SetupEvent::SwapAreas(self.swaps.map(|list| list.to_string())),
            ),
            SetupAction::LoadSizeSpec => (
                "size".to_string(),
                SetupEvent::SizeSpec {
                    property: self.size.map(|size| size.to_string()),
                    pages: PageInfo { page_size: 4096, page_count: 5 },
                },
            ),
            SetupAction::Activation(action) => {
                let (name, event) = match action {
                    ActivationAction::WriteDiskSize(size) => {
                        (format!("disksize {size}"), ActivationEvent::DiskSizeWritten(self.disk_size))
                    }
                    ActivationAction::MkSwap(device) => (
                        format!("mkswap {device}"),
                        ActivationEvent::MkSwapRan(self.mkswap.map(|success| CommandOutput {
                            status: if success { 0 } else { 1 },
                            stdout: Vec::new(),
                            stderr: Vec::new(),
                        })),
                    ),
                    ActivationAction::SwapOn(device) => {
                        (format!("swapon {device}"), ActivationEvent::SwapOnDone(self.swapon))
                    }
                };
                (name, SetupEvent::Activation(event))
            }
        }
    }

    fn set_up(&self) -> (Vec<String>, Result<SetupOutcome, SetupError<Fails>>) {
        let mut actions = Vec::new();
        let mut step = setup_zram();
        loop {
            match step {
                Step::Finished(result) => return (actions, result),
                Step::Perform { stage, action } => {
                    let (name, event) = self.setup_event(action);
                    actions.push(name);
                    step = stage.resume(event);
                }
            }
        }
    }

    fn disk_size_event(&self, action: DiskSizeAction<String>) -> (String, DiskSizeEvent<Fails>) {
        match action {
            DiskSizeAction::CheckActivated => {
                ("activated".to_string(), DiskSizeEvent::Activated(self.writeback_activated))
            }
            DiskSizeAction::ReadFileSize(path) => {
                (format!("size of {path}"), DiskSizeEvent::FileSize(self.file_size))
            }
        }
    }

    fn load_disk_size(&self) -> (Vec<String>, Result<Option<u64>, Fails>) {
        let mut actions = Vec::new();
        let mut step = load_zram_writeback_disk_size();
        loop {
            match step {
                Step::Finished(result) => return (actions, result),
                Step::Perform { stage, action } => {
                    let (name, event) = self.disk_size_event(action);
                    actions.push(name);
                    step = stage.resume(event);
                }
            }
        }
    }

    fn start(
        &self,
        first_arg: Option<&str>,
        enabled: bool,
    ) -> (Vec<String>, Vec<Note<Fails>>, Startup<Fails>) {
        let mut actions = Vec::new();
        let mut notes = Vec::new();
        let mut step = start(first_arg.map(|arg| arg.to_string()), enabled);
        loop {
            let (stage, action) = match step {
                Step::Finished(end) => return (actions, notes, end),
                Step::Perform { stage, action } => (stage, action),
            };
            let (name, event) = match action {
                StartupAction::WriteProperty { name, value } => (
                    format!("{name}={value}"),
                    StartupEvent::PropertyWritten(self.property_written),
                ),
                StartupAction::ReadZramEnabled => {
                    ("zram?".to_string(), StartupEvent::ZramEnabled(self.zram_enabled))
                }
                StartupAction::Setup(action) => {
                    let (name, event) = self.setup_event(action);
                    (name, StartupEvent::Setup(event))
                }
                StartupAction::LoadTotalZramSize => {
                    ("total".to_string(), StartupEvent::TotalZramSize(self.total_zram_size))
                }
                StartupAction::ReadWritebackEnabled => (
                    "writeback?".to_string(),
                    StartupEvent::WritebackEnabled(self.writeback_enabled),
                ),
                StartupAction::DiskSize(action) => {
                    let (name, event) = self.disk_size_event(action);
                    (name, StartupEvent::DiskSize(event))
                }
                StartupAction::ReadRecompressionEnabled => (
                    "recompression?".to_string(),
                    StartupEvent::RecompressionEnabled(self.recompression_enabled),
                ),
                StartupAction::ReadRecompAlgorithm => (
                    "algorithm".to_string(),
                    StartupEvent::RecompAlgorithm((self.algorithm)()),
                ),
            };
            actions.push(name);
            let (note, next) = stage.resume(event);
            notes.extend(note);
            step = next;
        }
    }
}

const ACTIVATION: [&str; 5] =
    ["swaps", "size", "disksize 8192", "mkswap /dev/block/zram0", "swapon /dev/block/zram0"];

#[test]
fn setup_activates_zram_with_default_size() {
    let (actions, result) = Device::new().set_up();
    assert_eq!(actions, ACTIVATION);
    assert!(matches!(result, Ok(SetupOutcome::Activated)));
}

#[test]
fn setup_activates_zram_with_size_of_property() {
    let mut device = Device::new();
    device.size = Some("200%");
    assert_eq!(device.set_up().0[2], "disksize 40960");
    device.size = Some("1234567");
    assert_eq!(device.set_up().0[2], "disksize 1234567");
}

#[test]
fn setup_skips_zram_that_is_on() {
    let mut device = Device::new();
    device.swaps = Ok("Filename Type\n/dev/block/zram0 partition\n");
    let (actions, result) = device.set_up();
    assert_eq!(actions, ["swaps"]);
    assert!(matches!(result, Ok(SetupOutcome::AlreadyOn)));
}

#[test]
fn setup_fails() {
    let mut device = Device::new();
    device.swaps = Err("no swaps");
    let (actions, result) = device.set_up();
    assert_eq!(actions, ["swaps"]);
    assert!(matches!(result, Err(SetupError::SwapAreas("no swaps"))));

    let mut device = Device::new();
    device.size = Some("");
    let (actions, result) = device.set_up();
    assert_eq!(actions, ["swaps", "size"]);
    assert!(matches!(result, Err(SetupError::SizeSpec(ZramSpecError::EmptyZramSizeSpec))));

    let mut device = Device::new();
    device.mkswap = Ok(false);
    let (actions, result) = device.set_up();
    assert_eq!(actions, ACTIVATION[..4]);
    assert!(matches!(result, Err(SetupError::Activation(ZramActivationError::MkSwap(_)))));
}

#[test]
fn writeback_disk_size() {
    let mut device = Device::new();
    assert_eq!(
        device.load_disk_size(),
        (
            vec!["activated".to_string(), "size of /data/per_boot/zram_swap".to_string()],
            Ok(Some(8192))
        )
    );
    device.file_size = Err("no file");
    assert_eq!(device.load_disk_size().1, Err("no file"));
    device.writeback_activated = Ok(false);
    assert_eq!(device.load_disk_size(), (vec!["activated".to_string()], Ok(None)));
    device.writeback_activated = Err("no device");
    assert_eq!(device.load_disk_size(), (vec!["activated".to_string()], Err("no device")));
}

#[test]
fn start_writes_property() {
    let mut device = Device::new();
    let (actions, notes, end) = device.start(Some("--set-property"), true);
    assert_eq!(actions, ["mmd.enabled_aconfig=true"]);
    assert!(notes.is_empty());
    assert!(matches!(end, Startup::PropertyWritten));
    assert_eq!(device.start(Some("--set-property"), false).0, ["mmd.enabled_aconfig=false"]);
    device.property_written = Err("denied");
    let (_, _, end) = device.start(Some("--set-property"), true);
    assert!(matches!(end, Startup::PropertyNotWritten("denied")));
}

#[test]
fn start_of_disabled_daemon_does_nothing() {
    let (actions, notes, end) = Device::new().start(Some("--other"), false);
    assert!(actions.is_empty());
    assert!(notes.is_empty());
    assert!(matches!(end, Startup::Disabled));
}

#[test]
fn start_serves_with_all() {
    let (actions, notes, end) = Device::new().start(None, true);
    assert_eq!(
        actions,
        [
            "zram?",
            "total",
            "writeback?",
            "activated",
            "size of /data/per_boot/zram_swap",
            "recompression?",
            "algorithm",
        ]
    );
    assert!(matches!(notes[..], [Note::WritebackActivated, Note::RecompressionActivated]));
    let Startup::Serve(service) = end else { panic!("{end:?}") };
    let writeback = service.ctx.zram_writeback.unwrap();
    assert_eq!(writeback.total_zram_size, 4096);
    assert_eq!(writeback.zram_writeback_disk_size, 8192);
    assert_eq!(service.ctx.zram_recompression.unwrap().last_recompress_at, None);
}

#[test]
fn start_sets_up_zram_on_request() {
    let mut device = Device::new();
    device.zram_enabled = Some(true);
    let (actions, _, end) = device.start(None, true);
    assert_eq!(actions[1..6], ACTIVATION);
    assert!(matches!(end, Startup::Serve(_)));

    device.swaps = Ok("Filename\nzram0\n");
    let (actions, notes, end) = device.start(None, true);
    assert_eq!(actions[..3], ["zram?", "swaps", "total"]);
    assert!(matches!(notes[0], Note::ZramAlreadyOn));
    assert!(matches!(end, Startup::Serve(_)));

    device.swaps = Err("no swaps");
    let (actions, _, end) = device.start(None, true);
    assert_eq!(actions, ["zram?", "swaps"]);
    assert!(matches!(end, Startup::SetupFailed(SetupError::SwapAreas("no swaps"))));

    device.zram_enabled = Some(false);
    assert!(matches!(device.start(None, true).2, Startup::Serve(_)));
}

#[test]
fn start_fails_without_zram_size() {
    let mut device = Device::new();
    device.total_zram_size = Err("no size");
    let (actions, _, end) = device.start(None, true);
    assert_eq!(actions, ["zram?", "total"]);
    assert!(matches!(end, Startup::NoTotalZramSize("no size")));
}

#[test]
fn start_serves_without_what_is_off() {
    let mut device = Device::new();
    device.writeback_enabled = Some(false);
    device.recompression_enabled = Some(false);
    let (actions, notes, end) = device.start(None, true);
    assert_eq!(actions, ["zram?", "total", "writeback?", "recompression?"]);
    assert!(matches!(notes[..], [Note::WritebackDisabled, Note::RecompressionDisabled]));
    let Startup::Serve(service) = end else { panic!("{end:?}") };
    assert!(service.ctx.zram_writeback.is_none());
    assert!(service.ctx.zram_recompression.is_none());

    let mut device = Device::new();
    device.writeback_activated = Ok(false);
    device.algorithm = || Err(ReadError::NotFound);
    let (_, notes, _) = device.start(None, true);
    assert!(matches!(notes[..], [Note::WritebackNotActivated, Note::RecompressionNotActivated]));

    device.writeback_activated = Err("no device");
    device.algorithm = || Err(ReadError::Other("no algorithm"));
    let (_, notes, end) = device.start(None, true);
    assert!(matches!(
        notes[..],
        [Note::WritebackFailed("no device"), Note::RecompressionFailed("no algorithm")]
    ));
    assert!(matches!(end, Startup::Serve(_)));

    device.algorithm = || Ok(String::new());
    let (_, notes, _) = device.start(None, true);
    assert!(matches!(notes[1], Note::RecompressionNotActivated));
}
