use hiberman::cookie::decide_to_resume;
use hiberman::cookie::CookieVerdict;
use hiberman::cookie::HibernateCookieValue;
use hiberman::hiberutil::get_available_memory_mb;
use hiberman::hiberutil::sanitize_username;
use hiberman::hiberutil::stateful_block_partition_one;
use hiberman::hiberutil::AbortResumeOptions;
use hiberman::hiberutil::HibernateError;
use hiberman::hiberutil::ResumeOptions;
use hiberman::hiberutil::zram_get_bd_stats;
use hiberman::hiberutil::ZramWritebackStats;
use hiberman::preloader::preload_byte_limit;
use hiberman::preloader::preload_percent;
use hiberman::preloader::ImageDataPreloader;
use hiberman::preloader::PreloadProgress;
use hiberman::preloader::PreloadStats;
use hiberman::resume::integrity_key_from_seed;
use hiberman::resume::ResumeAction;
use hiberman::resume::ResumeConductor;
use hiberman::resume::ResumeEvent;
use hiberman::resume::ResumeFailure;

const GIB: u64 = 1 << 30;

/// A pretend system that answers the conductor's actions.
struct FakeSystem {
    cookie: HibernateCookieValue,
    recorded_user: String,
    login: Option<(String, String)>,
    abort_reason: Option<String>,
    preloader_running: bool,
    fail_on: Option<&'static str>,
    actions: Vec<String>,
}

impl FakeSystem {
    fn new(cookie: HibernateCookieValue, recorded_account: &str, login_account: &str) -> Self {
        FakeSystem {
            cookie,
            recorded_user: sanitize_username(recorded_account).unwrap(),
            login: Some((login_account.to_string(), "session-1".to_string())),
            abort_reason: None,
            preloader_running: false,
            fail_on: None,
            actions: Vec::new(),
        }
    }

    fn respond(&mut self, action: &ResumeAction) -> ResumeEvent {
        let name = format!("{:?}", action);
        self.actions.push(name.clone());
        if let Some(prefix) = self.fail_on {
            if name.starts_with(prefix) {
                if let ResumeAction::StopPreloader = action {
                    self.preloader_running = false;
                }
                return ResumeEvent::Failed(HibernateError::IoError(prefix.to_string()));
            }
        }
        match action {
            ResumeAction::ReadCookie => ResumeEvent::Cookie(self.cookie),
            ResumeAction::WriteCookie(c) => {
                self.cookie = *c;
                ResumeEvent::Done
            }
            ResumeAction::PrepareImagePreload => ResumeEvent::PreloadSizes {
                image_size: GIB,
                ram_size: 4 * GIB,
            },
            ResumeAction::StartPreloader { .. } => {
                self.preloader_running = true;
                ResumeEvent::Done
            }
            ResumeAction::WaitForEvent => match &self.abort_reason {
                Some(reason) => ResumeEvent::AbortRequest {
                    reason: reason.clone(),
                },
                None => {
                    let (account_id, session_id) = self.login.clone().unwrap();
                    ResumeEvent::UserAuthenticated {
                        account_id,
                        session_id,
                    }
                }
            },
            ResumeAction::StopPreloader => {
                self.preloader_running = false;
                ResumeEvent::PreloaderStopped(PreloadStats {
                    bytes_preloaded: GIB / 2,
                    datarate_mbs: 100,
                })
            }
            ResumeAction::ReadHibernatingUser => {
                ResumeEvent::HibernatingUser(self.recorded_user.clone())
            }
            ResumeAction::ReadClock => ResumeEvent::Clock(1_000),
            ResumeAction::LoadImage => ResumeEvent::ImageLoaded {
                image_size: GIB,
                load_ms: 2_000,
            },
            _ => ResumeEvent::Done,
        }
    }

    fn index_of(&self, prefix: &str) -> Option<usize> {
        self.actions.iter().position(|a| a.starts_with(prefix))
    }
}

fn run(system: &mut FakeSystem, dry_run: bool) -> Result<(), ResumeFailure> {
    let mut conductor = ResumeConductor::new("/dev/nvme0n1".to_string());
    let mut action = conductor.resume(ResumeOptions { dry_run });
    for _ in 0..200 {
        if let ResumeAction::Finished(result) = action {
            assert!(!conductor.is_running());
            return result;
        }
        assert!(conductor.is_running());
        let event = system.respond(&action);
        action = conductor.step(event);
    }
    panic!("the conductor did not finish");
}

#[test]
fn no_resume_cookie_fails_without_configuring_resume() {
    let mut system = FakeSystem::new(HibernateCookieValue::NoResume, "user@x.com", "user@x.com");
    let result = run(&mut system, false);
    assert!(matches!(result, Err(ResumeFailure::NothingPending)));
    assert!(system.index_of("SetupSnapshotDevice { new_hiberimage: false }").is_none());
    assert!(system.index_of("LoadImage").is_none());
    assert!(system.index_of("WriteCookie").is_none());
    assert_eq!(system.cookie, HibernateCookieValue::NoResume);
    match result.unwrap_err().into_error() {
        HibernateError::CookieError(m) => assert_eq!(m, "No resume pending"),
        e => panic!("unexpected error {:?}", e),
    }
}

#[test]
fn dry_run_with_matching_user_stops_short_of_restore() {
    let mut system = FakeSystem::new(
        HibernateCookieValue::ResumeInProgress,
        "User@X.com",
        "user@x.com",
    );
    let result = run(&mut system, true);
    assert!(result.is_ok());
    let load = system.index_of("LoadImage").unwrap();
    let tombstone = system.index_of("WriteCookie(ResumeAborting)").unwrap();
    let freeze = system.index_of("FreezeUserspace").unwrap();
    let stop = system.index_of("StopPreloader").unwrap();
    let setup = system
        .index_of("SetupSnapshotDevice { new_hiberimage: false }")
        .unwrap();
    let pin = system.index_of("LockProcessMemory").unwrap();
    assert!(stop < setup && setup < pin && pin < load);
    assert!(load < tombstone && tombstone < freeze);
    assert!(system.index_of("LaunchResumeImage").is_none());
    assert!(system.index_of("FinishCleanup { wipe_logs: false }").is_some());
    assert!(system.index_of("LogEvent(ResumeAttempt)").is_some());
    assert!(!system.preloader_running);
}

#[test]
fn mismatched_user_fails_and_resets_cookie() {
    let mut system = FakeSystem::new(
        HibernateCookieValue::ResumeInProgress,
        "someone@x.com",
        "other@x.com",
    );
    let result = run(&mut system, false);
    assert!(matches!(result, Err(ResumeFailure::UserMismatch)));
    assert_eq!(system.cookie, HibernateCookieValue::NoResume);
    assert!(system
        .index_of("LogEvent(ResumeSkippedUserMismatch)")
        .is_some());
    assert!(system.index_of("SetupSnapshotDevice { new_hiberimage: true }").is_some());
    assert!(system.index_of("RecordHibernatingUser").is_some());
    assert!(system.index_of("LoadImage").is_none());
    assert!(matches!(
        result.unwrap_err().into_error(),
        HibernateError::UserMismatchError()
    ));
}

#[test]
fn abort_request_stops_preloader_first() {
    let mut system = FakeSystem::new(
        HibernateCookieValue::ResumeInProgress,
        "user@x.com",
        "user@x.com",
    );
    system.abort_reason = Some("not supported".to_string());
    let result = run(&mut system, false);
    let stop = system.index_of("StopPreloader").unwrap();
    let wait = system.index_of("WaitForEvent").unwrap();
    assert!(wait < stop);
    assert!(!system.preloader_running);
    assert!(system.index_of("SetupSnapshotDevice").is_none());
    match result {
        Err(ResumeFailure::NotSupported(reason)) => assert_eq!(reason, "not supported"),
        other => panic!("unexpected result {:?}", other),
    }
}

#[test]
fn resume_with_matching_user_launches_image() {
    let mut system = FakeSystem::new(
        HibernateCookieValue::ResumeInProgress,
        "user@x.com",
        "user@x.com",
    );
    let result = run(&mut system, false);
    assert!(matches!(result, Err(ResumeFailure::RestoreReturned)));
    assert!(system.index_of("LaunchResumeImage").is_some());
    assert!(system.index_of("LogEvent(ResumeFailure)").is_some());
    assert!(system.index_of("FinishCleanup { wipe_logs: true }").is_some());
    assert!(system
        .index_of("StartPreloader { max_preload_bytes: 1073741824 }")
        .is_some());
    assert!(system
        .index_of("RecordImageMetrics { image_size: 1073741824, load_ms: 2000, preload_percent: 50, datarate_mbs: 100 }")
        .is_some());
    match run(&mut FakeSystem::new(
        HibernateCookieValue::ResumeInProgress,
        "user@x.com",
        "user@x.com",
    ), false)
    .unwrap_err()
    .into_error()
    {
        HibernateError::SnapshotError(m) => assert_eq!(m, "the resume image returned"),
        e => panic!("unexpected error {:?}", e),
    }
}

#[test]
fn teardown_failure_keeps_refusal_error() {
    for step in [
        "StopPreloader",
        "MakeThinpoolWritable",
        "TeardownHiberimage",
        "SetupSnapshotDevice",
        "LockdownHiberimage",
        "RecordHibernatingUser",
    ] {
        let mut system = FakeSystem::new(
            HibernateCookieValue::ResumeInProgress,
            "someone@x.com",
            "other@x.com",
        );
        system.fail_on = Some(step);
        let result = run(&mut system, false);
        assert!(matches!(result, Err(ResumeFailure::UserMismatch)), "{}", step);
        assert!(system.index_of("RestoreLogging").is_some());
        assert!(system.index_of("FinishCleanup").is_some());
    }
}

#[test]
fn failed_stop_keeps_abort_reason() {
    let mut system = FakeSystem::new(
        HibernateCookieValue::ResumeInProgress,
        "user@x.com",
        "user@x.com",
    );
    system.abort_reason = Some("not supported".to_string());
    system.fail_on = Some("StopPreloader");
    match run(&mut system, false) {
        Err(ResumeFailure::NotSupported(reason)) => assert_eq!(reason, "not supported"),
        other => panic!("unexpected result {:?}", other),
    }
}

#[test]
fn resume_setup_failure_is_reported() {
    let mut system = FakeSystem::new(
        HibernateCookieValue::ResumeInProgress,
        "user@x.com",
        "user@x.com",
    );
    system.fail_on = Some("LoadImage");
    let result = run(&mut system, false);
    assert!(matches!(
        result,
        Err(ResumeFailure::Operation(HibernateError::IoError(_)))
    ));
    assert!(system.index_of("LogEvent(ResumeFailure)").is_some());
}

#[test]
fn emergency_reboot_cookie_is_cleared() {
    let mut system = FakeSystem::new(
        HibernateCookieValue::EmergencyReboot,
        "user@x.com",
        "user@x.com",
    );
    let result = run(&mut system, false);
    assert_eq!(system.cookie, HibernateCookieValue::NoResume);
    let err = result.unwrap_err();
    assert!(matches!(
        err,
        ResumeFailure::CookieAbandoned(HibernateCookieValue::EmergencyReboot)
    ));
    match err.into_error() {
        HibernateError::CookieError(m) => {
            assert_eq!(m, "Cookie was emergency reboot, abandoning resume")
        }
        e => panic!("unexpected error {:?}", e),
    }
}

#[test]
fn failed_operation_is_reported_after_cleanup() {
    let mut conductor = ResumeConductor::new("/dev/sda".to_string());
    let a = conductor.resume(ResumeOptions { dry_run: false });
    assert!(matches!(a, ResumeAction::ReadCookie));
    let a = conductor.step(ResumeEvent::Cookie(HibernateCookieValue::NoResume));
    assert!(matches!(a, ResumeAction::EnterResumeEnvironment));
    let a = conductor.step(ResumeEvent::Done);
    assert!(matches!(a, ResumeAction::WaitForEvent));
    let a = conductor.step(ResumeEvent::Failed(HibernateError::MergeTimeoutError()));
    assert!(matches!(a, ResumeAction::RestoreLogging));
    let a = conductor.step(ResumeEvent::Failed(HibernateError::NoHiberimageError()));
    assert!(matches!(a, ResumeAction::MergeStatefulSnapshots));
    let a = conductor.step(ResumeEvent::Done);
    assert!(matches!(
        a,
        ResumeAction::Finished(Err(ResumeFailure::Operation(
            HibernateError::MergeTimeoutError()
        )))
    ));
}

#[test]
fn unexpected_event_repeats_action() {
    let mut conductor = ResumeConductor::new("/dev/sda".to_string());
    conductor.resume(ResumeOptions { dry_run: false });
    let a = conductor.step(ResumeEvent::Done);
    assert!(matches!(a, ResumeAction::ReadCookie));
}

#[test]
fn cookie_verdicts() {
    assert_eq!(decide_to_resume(HibernateCookieValue::ResumeInProgress, false), CookieVerdict::VerifyUser);
    assert_eq!(decide_to_resume(HibernateCookieValue::ResumeInProgress, true), CookieVerdict::VerifyUser);
    assert_eq!(decide_to_resume(HibernateCookieValue::NoResume, true), CookieVerdict::Proceed);
    assert_eq!(decide_to_resume(HibernateCookieValue::NoResume, false), CookieVerdict::NothingPending);
    assert_eq!(
        decide_to_resume(HibernateCookieValue::ResumeAborting, false),
        CookieVerdict::Abandon { clear_cookie: false }
    );
    assert_eq!(
        decide_to_resume(HibernateCookieValue::EmergencyReboot, false),
        CookieVerdict::Abandon { clear_cookie: true }
    );
}

#[test]
fn integrity_key_must_be_32_bytes() {
    assert_eq!(integrity_key_from_seed(vec![7u8; 32]).unwrap(), vec![7u8; 32]);
    assert!(matches!(
        integrity_key_from_seed(vec![7u8; 31]),
        Err(HibernateError::KeyRetrievalError())
    ));
    assert!(matches!(
        integrity_key_from_seed(vec![7u8; 33]),
        Err(HibernateError::KeyRetrievalError())
    ));
    assert!(matches!(
        integrity_key_from_seed(Vec::new()),
        Err(HibernateError::KeyRetrievalError())
    ));
}

#[test]
fn preloader_stop_is_idempotent() {
    let mut p = ImageDataPreloader::new(17u32, 1024);
    assert_eq!(p.stop().unwrap(), 17);
    assert!(matches!(p.stop(), Err(HibernateError::PreloaderStoppedError())));
    assert!(matches!(p.stop(), Err(HibernateError::PreloaderStoppedError())));
    assert_eq!(p.max_preload_bytes(), 1024);
}

#[test]
fn preload_stays_within_limit() {
    let limit = 300 * 1024 * 1024 + 5;
    let mut progress = PreloadProgress::new(limit);
    let mut regions = Vec::new();
    while let Some(region) = progress.next_region() {
        regions.push(region);
        progress.advance();
        assert!(progress.bytes_preloaded() <= limit);
    }
    assert_eq!(
        regions,
        vec![
            (0, 128 << 20),
            (128 << 20, 128 << 20),
            (256 << 20, (44 << 20) + 5)
        ]
    );
    assert_eq!(progress.bytes_preloaded(), limit);
    let stats = progress.stats(3);
    assert_eq!(stats.bytes_preloaded, limit);
    assert_eq!(stats.datarate_mbs, 100);
    assert_eq!(progress.stats(0).datarate_mbs, 0);
    assert!(PreloadProgress::new(0).next_region().is_none());
}

#[test]
fn preload_limits_and_percent() {
    assert_eq!(preload_byte_limit(GIB, 4 * GIB), GIB);
    assert_eq!(preload_byte_limit(4 * GIB, 4 * GIB), 4 * GIB * 33 / 100);
    assert_eq!(preload_byte_limit(u64::MAX, u64::MAX), (u64::MAX as u128 * 33 / 100) as u64);
    assert_eq!(preload_percent(GIB / 2, GIB), 50);
    assert_eq!(preload_percent(5, 0), 0);
    assert_eq!(preload_percent(u64::MAX, 1), u64::MAX);
}

#[test]
fn sanitized_usernames() {
    assert_eq!(
        sanitize_username("foo").unwrap(),
        "2c26b46b68ffc68ff99b453c1d30413413422d706483bfa0f98a5e886266e7ae"
    );
    assert_eq!(
        sanitize_username("FoO").unwrap(),
        sanitize_username("foo").unwrap()
    );
    assert_ne!(
        sanitize_username("foo").unwrap(),
        sanitize_username("bar").unwrap()
    );
    assert_eq!(sanitize_username("").unwrap().len(), 64);
}

#[test]
fn stateful_partition_names() {
    assert_eq!(stateful_block_partition_one("/dev/mmcblk0"), "/dev/mmcblk0p1");
    assert_eq!(stateful_block_partition_one("/dev/nvme0n1"), "/dev/nvme0n1p1");
    assert_eq!(stateful_block_partition_one("/dev/sda"), "/dev/sda1");
    assert_eq!(stateful_block_partition_one(""), "1");
}

#[test]
fn available_memory() {
    assert_eq!(get_available_memory_mb(4096, 262_144), 1024);
    assert_eq!(get_available_memory_mb(4096, 100), 0);
    assert_eq!(get_available_memory_mb(u64::MAX, u64::MAX), u32::MAX);
}

#[test]
fn abort_resume_default_reason() {
    assert_eq!(
        AbortResumeOptions::default().reason,
        "Manually aborted by hiberman abort-resume"
    );
}

#[test]
fn zram_bd_stats_are_pages_in_bytes() {
    let stats = zram_get_bd_stats("      12        3        7\n").unwrap();
    assert_eq!(
        stats,
        ZramWritebackStats {
            bytes_on_disk: 12 * 4096,
            total_bytes_read: 3 * 4096,
            total_bytes_written: 7 * 4096,
        }
    );
    assert_eq!(zram_get_bd_stats("1 2"), None);
    assert_eq!(zram_get_bd_stats("+1 2 3").unwrap().bytes_on_disk, 4096);
    assert_eq!(zram_get_bd_stats("-1 2 3"), None);
    assert_eq!(zram_get_bd_stats("1 x 3"), None);
    assert_eq!(zram_get_bd_stats("18446744073709551615 0 0"), None);
}
