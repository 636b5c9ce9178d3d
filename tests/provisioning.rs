use mkramdisk::config::{parse_args, ArgError, Command, Config};
use mkramdisk::provision::{
    action, prepare, step, Action, Event, Phase, Plan, ProvisionError, Provisioned, MOUNT_ATTEMPTS,
};
use mkramdisk::size::SizeError;

/// Collaborators whose answers are fixed in advance, recording what they were asked.
struct Fake {
    taken: Vec<String>,
    device_output: Result<String, String>,
    format_ok: bool,
    mounts_after: Option<u32>,
    gone_on_verify: bool,
    looks: u32,
    formatted: bool,
    allocations: u32,
    detached: Vec<String>,
    pauses: u32,
}

impl Fake {
    fn new() -> Fake {
        Fake {
            taken: Vec::new(),
            device_output: Ok("/dev/disk4\n".to_string()),
            format_ok: true,
            mounts_after: Some(0),
            gone_on_verify: false,
            looks: 0,
            formatted: false,
            allocations: 0,
            detached: Vec::new(),
            pauses: 0,
        }
    }

    fn perform(&mut self, a: Action) -> Event {
        match a {
            Action::CheckPath { path } => {
                if !self.formatted {
                    return Event::PathChecked { exists: self.taken.contains(&path) };
                }
                self.looks += 1;
                let mounted = match self.mounts_after {
                    Some(k) => self.looks > k,
                    None => false,
                };
                let verifying = match self.mounts_after {
                    Some(k) => self.looks > k + 1,
                    None => false,
                };
                Event::PathChecked { exists: mounted && !(verifying && self.gone_on_verify) }
            }
            Action::Allocate { .. } => {
                self.allocations += 1;
                Event::Allocated { output: self.device_output.clone() }
            }
            Action::Format { .. } => {
                if self.format_ok {
                    self.formatted = true;
                    Event::Formatted { result: Ok(()) }
                } else {
                    Event::Formatted { result: Err("erase failed".to_string()) }
                }
            }
            Action::Pause { .. } => {
                self.pauses += 1;
                Event::Paused
            }
            Action::Detach { device } => {
                self.detached.push(device);
                Event::Detached
            }
            Action::Finish => panic!("no action after the run is over"),
        }
    }
}

fn run(plan: &Plan, fake: &mut Fake) -> Result<Provisioned, ProvisionError> {
    let mut phase = Phase::Checking;
    loop {
        if let Phase::Done { outcome } = phase {
            return outcome;
        }
        let a = action(plan, &phase);
        let e = fake.perform(a);
        phase = step(plan, phase, e);
    }
}

fn args(v: &[&str]) -> Vec<String> {
    v.iter().map(|s| s.to_string()).collect()
}

fn config_of(v: &[&str]) -> Config {
    match parse_args(&args(v)) {
        Ok(Command::Run(c)) => c,
        other => panic!("unexpected {:?}", other),
    }
}

#[test]
fn end_to_end_success() {
    let config = config_of(&["1G", "TempDisk"]);
    let plan = prepare(&config).unwrap();
    let mut fake = Fake::new();
    let done = run(&plan, &mut fake).unwrap();
    assert_eq!(done.sectors, 2097152);
    assert_eq!(done.name, "TempDisk");
    assert_eq!(done.filesystem, "apfs");
    assert_eq!(done.mount_point, "/Volumes/TempDisk");
    assert_eq!(done.device, "/dev/disk4");
    assert_eq!(done.size, "1G");
    assert!(fake.detached.is_empty());
    assert_eq!(plan.label, "APFS");
}

#[test]
fn end_to_end_format_failure_detaches_once() {
    let config = config_of(&["512M"]);
    assert_eq!(config.name, "RAMDisk");
    let plan = prepare(&config).unwrap();
    assert_eq!(plan.sectors, 1048576);
    let mut fake = Fake::new();
    fake.format_ok = false;
    match run(&plan, &mut fake) {
        Err(ProvisionError::FormatFailed(m)) => assert_eq!(m, "erase failed"),
        other => panic!("unexpected {:?}", other),
    }
    assert_eq!(fake.detached, vec!["/dev/disk4".to_string()]);
}

#[test]
fn existing_mount_point_stops_before_allocation() {
    let plan = prepare(&config_of(&["1G", "Busy"])).unwrap();
    let mut fake = Fake::new();
    fake.taken.push("/Volumes/Busy".to_string());
    assert!(matches!(run(&plan, &mut fake), Err(ProvisionError::AlreadyExists)));
    assert_eq!(fake.allocations, 0);
    assert!(fake.detached.is_empty());
}

#[test]
fn allocation_failures_need_no_cleanup() {
    let plan = prepare(&config_of(&["1M"])).unwrap();
    let mut fake = Fake::new();
    fake.device_output = Err("hdiutil: attach failed".to_string());
    match run(&plan, &mut fake) {
        Err(ProvisionError::AllocationFailed(Some(m))) => assert_eq!(m, "hdiutil: attach failed"),
        other => panic!("unexpected {:?}", other),
    }
    assert!(fake.detached.is_empty());

    let mut fake = Fake::new();
    fake.device_output = Ok("  \n".to_string());
    assert!(matches!(run(&plan, &mut fake), Err(ProvisionError::AllocationFailed(None))));
    assert!(fake.detached.is_empty());
}

#[test]
fn mount_timeout_detaches_once() {
    let plan = prepare(&config_of(&["1M", "Slow"])).unwrap();
    let mut fake = Fake::new();
    fake.mounts_after = None;
    assert!(matches!(run(&plan, &mut fake), Err(ProvisionError::MountTimeout)));
    assert_eq!(fake.looks, MOUNT_ATTEMPTS);
    assert_eq!(fake.pauses, MOUNT_ATTEMPTS - 1);
    assert_eq!(fake.detached, vec!["/dev/disk4".to_string()]);
}

#[test]
fn late_mount_is_found() {
    let plan = prepare(&config_of(&["1M", "Late"])).unwrap();
    let mut fake = Fake::new();
    fake.mounts_after = Some(10);
    let done = run(&plan, &mut fake).unwrap();
    assert_eq!(done.mount_point, "/Volumes/Late");
    assert_eq!(fake.pauses, 10);
    assert!(fake.detached.is_empty());
}

#[test]
fn vanished_mount_fails_verification_and_detaches() {
    let plan = prepare(&config_of(&["1M"])).unwrap();
    let mut fake = Fake::new();
    fake.gone_on_verify = true;
    assert!(matches!(run(&plan, &mut fake), Err(ProvisionError::VerificationFailed)));
    assert_eq!(fake.detached, vec!["/dev/disk4".to_string()]);
}

#[test]
fn unanswered_events_leave_phase() {
    let plan = prepare(&config_of(&["1M"])).unwrap();
    let p = step(&plan, Phase::Allocating, Event::Paused);
    assert!(matches!(p, Phase::Allocating));
    let p = step(&plan, Phase::Detaching { device: "d".to_string(), error: ProvisionError::MountTimeout }, Event::Paused);
    assert!(matches!(p, Phase::Done { outcome: Err(ProvisionError::MountTimeout) }));
    match action(&plan, &Phase::Formatting { device: "/dev/disk9".to_string() }) {
        Action::Format { label, name, device } => {
            assert_eq!(label, "APFS");
            assert_eq!(name, "RAMDisk");
            assert_eq!(device, "/dev/disk9");
        }
        other => panic!("unexpected {:?}", other),
    }
}

#[test]
fn prepare_reports_bad_tokens() {
    let mut c = Config::default();
    c.size = "12Q".to_string();
    assert!(matches!(prepare(&c), Err(ProvisionError::Size(SizeError::UnknownSuffix))));
    c.size = "1G".to_string();
    c.filesystem = "zfs".to_string();
    assert!(matches!(prepare(&c), Err(ProvisionError::Filesystem(_))));
    c.filesystem = "FAT32".to_string();
    c.name = "a/b".to_string();
    let plan = prepare(&c).unwrap();
    assert_eq!(plan.label, "MS-DOS FAT32");
    assert_eq!(plan.name, "ab");
    assert_eq!(plan.mount_point, "/Volumes/ab");
}

#[test]
fn default_config() {
    let c = Config::default();
    assert_eq!(c.size, "");
    assert_eq!(c.name, "RAMDisk");
    assert_eq!(c.filesystem, "apfs");
    assert!(!c.verbose);
}

#[test]
fn argument_errors() {
    assert!(matches!(parse_args(&args(&[])), Err(ArgError::MissingSize)));
    assert!(matches!(parse_args(&args(&["-v"])), Err(ArgError::MissingSize)));
    assert!(matches!(parse_args(&args(&[""])), Err(ArgError::MissingSize)));
    assert!(matches!(parse_args(&args(&["1G", "-f"])), Err(ArgError::MissingFormatValue)));
    assert!(matches!(parse_args(&args(&["1G", "a", "b"])), Err(ArgError::TooManyArguments)));
    match parse_args(&args(&["1G", "--bogus"])) {
        Err(ArgError::UnknownOption(o)) => assert_eq!(o, "--bogus"),
        other => panic!("unexpected {:?}", other),
    }
    match parse_args(&args(&["1G", "-f", "ntfs"])) {
        Err(ArgError::Filesystem(e)) => assert_eq!(e.token, "ntfs"),
        other => panic!("unexpected {:?}", other),
    }
    assert!(matches!(parse_args(&args(&["--bogus", "-h"])), Err(ArgError::UnknownOption(_))));
}

#[test]
fn argument_options() {
    assert!(matches!(parse_args(&args(&["1G", "-h"])), Ok(Command::Help)));
    assert!(matches!(parse_args(&args(&["--help"])), Ok(Command::Help)));
    let c = config_of(&["-f", "hfs+", "2G", "Temp:Disk", "--verbose"]);
    assert_eq!(c.size, "2G");
    assert_eq!(c.name, "TempDisk");
    assert_eq!(c.filesystem, "hfs+");
    assert!(c.verbose);
    let c = config_of(&["--format", "ExFAT", "256M"]);
    assert_eq!(c.filesystem, "ExFAT");
    assert_eq!(c.name, "RAMDisk");
    assert!(!c.verbose);
}
