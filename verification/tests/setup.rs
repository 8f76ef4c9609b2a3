use mmd::os::PageInfo;
use mmd::step::Step;
use mmd::text::decimal_text;
use mmd::zram::setup::activate_zram;
use mmd::zram::setup::is_zram_swap_activated;
use mmd::zram::setup::parse_size_spec_with_page_info;
use mmd::zram::setup::parse_zram_size_spec;
use mmd::zram::setup::size_spec_fits;
use mmd::zram::setup::ActivationAction;
use mmd::zram::setup::ActivationEvent;
use mmd::zram::setup::CommandOutput;
use mmd::zram::setup::ZramActivationError;
use mmd::zram::setup::ZramSpecError;
use mmd::zram::setup::ZRAM_DEVICE_PATH;

const PROC_SWAP_HEADER: &str = "Filename                                Type            Size            Used            Priority\n";
const DEFAULT_PAGE_SIZE: u64 = 4096;
const DEFAULT_PAGE_COUNT: u64 = 998875;
const DEFAULT_ZRAM_SIZE: u64 = 1000000;

fn success_command_output() -> CommandOutput {
    CommandOutput { status: 0, stderr: "".to_owned().into_bytes(), stdout: "".to_owned().into_bytes() }
}

fn failure_command_output() -> CommandOutput {
    CommandOutput { status: 1, stderr: "".to_owned().into_bytes(), stdout: "".to_owned().into_bytes() }
}

fn activated(swaps: &str) -> bool {
    is_zram_swap_activated::<std::io::Error>(Ok(swaps.to_string())).unwrap()
}

/// Activates zram on a device that gives these outcomes.
fn activate(
    zram_size: u64,
    disk_size: std::io::Result<()>,
    mkswap: std::io::Result<CommandOutput>,
    swapon: std::io::Result<()>,
) -> (Vec<ActivationAction<String>>, Result<(), ZramActivationError<std::io::Error>>) {
    let (mut disk_size, mut mkswap, mut swapon) = (Some(disk_size), Some(mkswap), Some(swapon));
    let mut actions = Vec::new();
    let mut step = activate_zram(zram_size);
    loop {
        match step {
            Step::Finished(result) => return (actions, result),
            Step::Perform { stage, action } => {
                let event = match &action {
                    ActivationAction::WriteDiskSize(_) => {
                        ActivationEvent::DiskSizeWritten(disk_size.take().unwrap())
                    }
                    ActivationAction::MkSwap(_) => {
                        ActivationEvent::MkSwapRan(mkswap.take().unwrap())
                    }
                    ActivationAction::SwapOn(_) => {
                        ActivationEvent::SwapOnDone(swapon.take().unwrap())
                    }
                };
                actions.push(action);
                step = stage.resume(event);
            }
        }
    }
}

fn error() -> std::io::Error {
    std::io::Error::other("error")
}

#[test]
fn is_zram_swap_activated_zram_off() {
    assert!(!activated(PROC_SWAP_HEADER));
}

#[test]
fn is_zram_swap_activated_zram_on() {
    let zram_area = "/dev/block/zram0                        partition       7990996         87040           -2\n";
    assert!(activated(&(PROC_SWAP_HEADER.to_owned() + zram_area)));
}

#[test]
fn is_zram_swap_activated_ignores_header() {
    assert!(!activated("zram\n"));
    assert!(!activated("zram"));
    assert!(!activated(""));
    assert!(!activated("zram\nzra\nm\r\n"));
    assert!(activated("zram\nfile\r\nmy-zram"));
    assert!(activated("\nzram"));
    assert!(activated("h\u{e9}\n\u{e9}zram\u{e9}\n"));
    assert!(!activated("h\nzra\nm zra m Zram\n"));
}

#[test]
fn is_zram_swap_activated_read_failure() {
    let result = is_zram_swap_activated(Err(error()));
    assert_eq!(result.unwrap_err().to_string(), "error");
}

#[test]
fn parse_zram_spec_invalid() {
    assert!(parse_size_spec_with_page_info("", DEFAULT_PAGE_SIZE, DEFAULT_PAGE_COUNT).is_err());
    assert!(
        parse_size_spec_with_page_info("not_int%", DEFAULT_PAGE_SIZE, DEFAULT_PAGE_COUNT).is_err()
    );
    assert!(
        parse_size_spec_with_page_info("not_int", DEFAULT_PAGE_SIZE, DEFAULT_PAGE_COUNT).is_err()
    );
}

#[test]
fn parse_zram_spec_errors() {
    let parse = |spec: &str| parse_size_spec_with_page_info(spec, 4096, 5).unwrap_err();
    assert!(matches!(parse(""), ZramSpecError::EmptyZramSizeSpec));
    assert!(matches!(parse("0%"), ZramSpecError::ZramPercentageOutOfRange(0)));
    assert!(matches!(parse("501%"), ZramSpecError::ZramPercentageOutOfRange(501)));
    for spec in ["%", "-1%", "1 %", "1%%", "1.5%", "+", "-1", " 1", "1 ", "18446744073709551616"] {
        let expected = spec.strip_suffix('%').unwrap_or(spec).parse::<u64>().unwrap_err();
        match parse(spec) {
            ZramSpecError::ParseZramSize(e) => assert_eq!(e, expected),
            other => panic!("{spec}: {other:?}"),
        }
    }
}

#[test]
fn parse_zram_spec_percentage_out_of_range() {
    assert!(parse_size_spec_with_page_info("0%", DEFAULT_PAGE_SIZE, DEFAULT_PAGE_COUNT).is_err());
    assert!(parse_size_spec_with_page_info("501%", DEFAULT_PAGE_SIZE, DEFAULT_PAGE_COUNT).is_err());
}

#[test]
fn parse_zram_spec_percentage() {
    assert_eq!(parse_size_spec_with_page_info("33%", 4096, 5).unwrap(), 4096);
    assert_eq!(parse_size_spec_with_page_info("50%", 4096, 5).unwrap(), 8192);
    assert_eq!(parse_size_spec_with_page_info("100%", 4096, 5).unwrap(), 20480);
    assert_eq!(parse_size_spec_with_page_info("200%", 4096, 5).unwrap(), 40960);
    assert_eq!(parse_size_spec_with_page_info("100%", 4096, 3995500).unwrap(), 16365568000);
}

#[test]
fn parse_zram_spec_percentage_bounds() {
    assert_eq!(parse_size_spec_with_page_info("1%", 4096, 100).unwrap(), 4096);
    assert_eq!(parse_size_spec_with_page_info("+1%", 4096, 99).unwrap(), 0);
    assert_eq!(parse_size_spec_with_page_info("500%", 4096, 5).unwrap(), 102400);
}

#[test]
fn parse_zram_spec_bytes() {
    assert_eq!(
        parse_size_spec_with_page_info("1234567", DEFAULT_PAGE_SIZE, DEFAULT_PAGE_COUNT).unwrap(),
        1234567
    );
}

#[test]
fn parse_zram_spec_bytes_bounds() {
    let parse = |spec: &str| parse_size_spec_with_page_info(spec, 0, u64::MAX).unwrap();
    assert_eq!(parse("0"), 0);
    assert_eq!(parse("+007"), 7);
    assert_eq!(parse("18446744073709551615"), u64::MAX);
}

#[test]
fn parse_zram_spec_of_pages() {
    let pages = PageInfo { page_size: 4096, page_count: 5 };
    assert_eq!(parse_zram_size_spec("50%", pages).unwrap(), 8192);
    assert_eq!(parse_zram_size_spec("1234", pages).unwrap(), 1234);
    assert!(parse_zram_size_spec("", pages).is_err());
}

#[test]
fn size_spec_fits_in_u64() {
    let fits = |spec: &str, page_size: u64, page_count: u64| {
        size_spec_fits(spec, PageInfo { page_size, page_count })
    };
    assert!(fits("100%", 4096, 3995500));
    assert!(!fits("2%", 1, u64::MAX));
    assert!(fits("1%", 1, u64::MAX));
    assert!(fits("1%", 100, u64::MAX));
    assert!(!fits("1%", 101, u64::MAX));
    assert!(!fits("100%", u64::MAX, 2));
    assert!(fits("0%", u64::MAX, u64::MAX));
    assert!(fits("501%", u64::MAX, u64::MAX));
    assert!(fits("x%", u64::MAX, u64::MAX));
    assert!(fits("", u64::MAX, u64::MAX));
    assert!(fits("18446744073709551615", u64::MAX, u64::MAX));
}

#[test]
fn percentage_sizes_are_whole_pages_and_grow() {
    let mut last = 0;
    for percentage in 1..=500u64 {
        let spec = decimal_text(percentage) + "%";
        let size = parse_size_spec_with_page_info(&spec, 4096, 123).unwrap();
        assert_eq!(size % 4096, 0);
        assert!(size >= last);
        assert!(size * 100 <= 123 * 4096 * percentage);
        assert!(123 * 4096 * percentage < (size + 4096) * 100);
        last = size;
    }
}

#[test]
fn decimal_sizes_read_back() {
    for bytes in [0, 7, 10, 4096, 1000000007, u64::MAX] {
        let spec = decimal_text(bytes);
        assert_eq!(spec, format!("{bytes}"));
        assert_eq!(parse_size_spec_with_page_info(&spec, 4096, 5).unwrap(), bytes);
    }
}

#[test]
fn activate_success() {
    let (actions, result) = activate(123456, Ok(()), Ok(success_command_output()), Ok(()));
    assert_eq!(
        actions,
        vec![
            ActivationAction::WriteDiskSize("123456".to_string()),
            ActivationAction::MkSwap(ZRAM_DEVICE_PATH.to_string()),
            ActivationAction::SwapOn(ZRAM_DEVICE_PATH.to_string()),
        ]
    );
    assert_eq!(ZRAM_DEVICE_PATH, "/dev/block/zram0");
    assert!(result.is_ok());
}

#[test]
fn activate_failed_update_size() {
    let (actions, result) =
        activate(DEFAULT_ZRAM_SIZE, Err(error()), Ok(success_command_output()), Ok(()));
    assert_eq!(actions.len(), 1);
    assert!(matches!(result, Err(ZramActivationError::UpdateZramDiskSize(_))));
}

#[test]
fn activate_failed_execute_mkswap() {
    let (actions, result) = activate(DEFAULT_ZRAM_SIZE, Ok(()), Err(error()), Ok(()));
    assert_eq!(actions.len(), 2);
    assert!(matches!(result, Err(ZramActivationError::ExecuteMkSwap(_))));
}

#[test]
fn activate_failed_mkswap() {
    let (actions, result) =
        activate(DEFAULT_ZRAM_SIZE, Ok(()), Ok(failure_command_output()), Ok(()));
    assert_eq!(actions.len(), 2);
    assert!(matches!(result, Err(ZramActivationError::MkSwap(_))));
}

#[test]
fn activate_failed_mkswap_keeps_output() {
    // An exit code of 2, and an end by signal 9.
    for status in [0x200, 9] {
        let output = CommandOutput { status, stdout: vec![1, 2], stderr: vec![3] };
        assert!(!output.success());
        let (actions, result) = activate(DEFAULT_ZRAM_SIZE, Ok(()), Ok(output), Ok(()));
        assert_eq!(actions.len(), 2);
        let Err(ZramActivationError::MkSwap(output)) = result else { panic!("{result:?}") };
        assert_eq!(output.status, status);
        assert_eq!(output.stdout, vec![1, 2]);
        assert_eq!(output.stderr, vec![3]);
    }
    assert!(success_command_output().success());
}

#[test]
fn activate_failed_swapon() {
    let (actions, result) =
        activate(DEFAULT_ZRAM_SIZE, Ok(()), Ok(success_command_output()), Err(error()));
    assert_eq!(actions.len(), 3);
    assert!(matches!(result, Err(ZramActivationError::SwapOn(_))));
}
