//! The resume conductor: the state machine that decides, step by step, how a
//! boot resumes from hibernation or falls back to a normal boot.
//!
//! The conductor does no I/O itself. Each call hands it the outcome of the
//! last action (an event) and returns the next action to perform: read or
//! write the cookie, wait for the user, set up the snapshot device, load the
//! image, jump into it, and so on. `ResumeAction::Finished` ends the run with
//! its result.

use crate::cookie::{decide_to_resume, verdict_of, CookieVerdict, HibernateCookieValue};
use crate::cookie::{cookie_description, description_of};
use crate::hiberutil::{sanitize_username, sanitized, HibernateError, ResumeOptions};
use crate::preloader::{min, preload_byte_limit, preload_percent, PreloadStats};
use vstd::prelude::*;
use vstd::string::*;

verus! {

/// The expected size of the TPM-derived seed, in bytes.
pub const TPM_SEED_SIZE: usize = 32;

/// Checks the seed read from the TPM seed file: it is the integrity key only
/// if it holds exactly `TPM_SEED_SIZE` bytes.
pub fn integrity_key_from_seed(seed: Vec<u8>) -> (r: Result<Vec<u8>, HibernateError>)
    ensures
        seed@.len() == TPM_SEED_SIZE ==> r == Ok::<Vec<u8>, HibernateError>(seed),
        seed@.len() != TPM_SEED_SIZE ==> r == Err::<Vec<u8>, HibernateError>(
            HibernateError::KeyRetrievalError(),
        ),
{
    if seed.len() != TPM_SEED_SIZE {
        Err(HibernateError::KeyRetrievalError())
    } else {
        Ok(seed)
    }
}

/// Hibernate events recorded in the metrics.
#[derive(Clone, Copy, Debug, PartialEq, Eq, Structural)]
pub enum HibernateEvent {
    ResumeAttempt,
    ResumeFailure,
    ResumeSkippedUserMismatch,
}

/// Why a resume attempt did not go ahead.
#[derive(Debug)]
pub enum ResumeFailure {
    /// The cookie said there was nothing to resume.
    NothingPending,
    /// The cookie held an abnormal value.
    CookieAbandoned(HibernateCookieValue),
    /// The authenticating user is not the one who hibernated.
    UserMismatch,
    /// Hibernate is not available, for the reason given.
    NotSupported(String),
    /// An operation failed.
    Operation(HibernateError),
    /// The jump into the resumed image returned: the resume did not happen.
    RestoreReturned,
}

impl ResumeFailure {
    /// The error reported for this failure.
    pub fn into_error(self) -> (e: HibernateError)
        ensures
            self is NothingPending ==> (e matches HibernateError::CookieError(m) && m@
                == "No resume pending"@),
            self matches ResumeFailure::CookieAbandoned(c) ==> (e matches HibernateError::CookieError(
                m,
            ) && m@ == "Cookie was "@ + description_of(c) + ", abandoning resume"@),
            self is UserMismatch ==> e == HibernateError::UserMismatchError(),
            self matches ResumeFailure::NotSupported(reason) ==> e
                == HibernateError::HibernateNotSupportedError(reason),
            self matches ResumeFailure::Operation(err) ==> e == err,
            self is RestoreReturned ==> (e matches HibernateError::SnapshotError(m) && m@
                == "the resume image returned"@),
    {
        match self {
            ResumeFailure::NothingPending => HibernateError::CookieError(
                String::from_str("No resume pending"),
            ),
            ResumeFailure::CookieAbandoned(c) => {
                let m = String::from_str("Cookie was ");
                let m = m.concat(cookie_description(c));
                HibernateError::CookieError(m.concat(", abandoning resume"))
            },
            ResumeFailure::UserMismatch => HibernateError::UserMismatchError(),
            ResumeFailure::NotSupported(reason) => HibernateError::HibernateNotSupportedError(
                reason,
            ),
            ResumeFailure::Operation(err) => err,
            ResumeFailure::RestoreReturned => HibernateError::SnapshotError(
                String::from_str("the resume image returned"),
            ),
        }
    }
}

/// What follows once the preloader has stopped.
#[derive(Debug)]
pub enum AfterStop {
    /// Hibernate is not available, for the reason given.
    Abort(String),
    /// Resume was refused: prepare for a future hibernate.
    Reject(ResumeFailure),
    /// Go on with the resume.
    Resume,
}

/// Where the conductor stands: the action it waits on.
#[derive(Debug)]
#[allow(inconsistent_fields)]
pub enum ResumeStage {
    /// Not started.
    Idle,
    /// Reading the cookie to learn whether a resume is pending.
    CheckingPending,
    /// Making the stateful partition available and logs kept in memory.
    EnteringEnvironment { pending: bool },
    /// Setting up the image's buffer device and learning the sizes.
    PreparingPreload,
    /// Starting the preloader.
    StartingPreloader { max_preload_bytes: u64 },
    /// Waiting for the user to authenticate, or for an abort.
    WaitingForEvent,
    /// Fetching the key derived for the user's session.
    FetchingUserKey { session_id: String },
    /// Reading the cookie to decide on the resume.
    ReadingCookie,
    /// Reading the record of the user who hibernated.
    ReadingHibernatingUser,
    /// Recording that the users differ.
    ReportingMismatch,
    /// Resetting the cookie to `NoResume`, before giving up with `failure`.
    ResettingCookie { failure: ResumeFailure },
    /// Stopping the preloader.
    StoppingPreloader { then: AfterStop },
    /// Making the thinpool writable, after resume was refused with `failure`.
    MakingThinpoolWritable { failure: ResumeFailure },
    /// Removing the hiberimage volumes.
    TearingDownHiberimage { failure: ResumeFailure },
    /// Setting up the snapshot device: for a future hibernate where resume
    /// was refused with a failure, for this resume otherwise.
    SettingUpSnapshotDevice { failure: Option<ResumeFailure> },
    /// Locking the hiberimage against further configuration.
    LockingDownHiberimage { failure: Option<ResumeFailure> },
    /// Recording the current user as the one who may hibernate next.
    RecordingHibernatingUser { failure: ResumeFailure },
    /// Reading the wall clock at the start of the resume.
    ReadingClock,
    /// Recording the resume attempt.
    LoggingAttempt,
    /// Pinning the process's memory.
    LockingProcessMemory,
    /// Mounting the metadata volume and starting the resume log.
    MountingHibermeta,
    /// Telling other daemons that resume is imminent.
    NotifyingPowerd,
    /// Loading the image into the kernel.
    LoadingImage,
    /// Recording how the image load went.
    RecordingImageMetrics { image_size: u64, load_ms: u64 },
    /// Waiting until the system is ready for the resume.
    WaitingResumeReady,
    /// Writing the `ResumeAborting` tombstone.
    WritingTombstone,
    /// Freezing userspace.
    FreezingUserspace,
    /// Recording timestamps, flushing metrics and logs, syncing.
    FlushingAndSyncing,
    /// Jumping into the resumed image.
    LaunchingImage,
    /// Recording that a resume was tried and failed.
    LoggingFailure { result: Result<(), ResumeFailure> },
    /// Sending logs to syslog again and mounting the metadata volume.
    RestoringLogging { result: Result<(), ResumeFailure> },
    /// Replaying the logs, merging the stateful snapshots, sending metrics.
    FinishingCleanup { result: Result<(), ResumeFailure> },
    /// Merging the stateful snapshots, without the metadata volume.
    MergingSnapshots { result: Result<(), ResumeFailure> },
    /// Done.
    Finished,
}

/// An outside action for the caller to perform.
#[derive(Debug)]
pub enum ResumeAction {
    /// Read the hibernate cookie; answer with `Cookie`.
    ReadCookie,
    /// Make the persistent stateful partition available, arrange for the
    /// stateful snapshots to merge on every way out, and keep logs in memory.
    EnterResumeEnvironment,
    /// Set up the hiberimage's buffer device; answer with `PreloadSizes`.
    PrepareImagePreload,
    /// Start the preloader with the given limit.
    StartPreloader { max_preload_bytes: u64 },
    /// Wait for `UserAuthenticated` or `AbortRequest`.
    WaitForEvent,
    /// Fetch the user key for the session.
    FetchUserKey { session_id: String },
    /// Read the record of the hibernating user; answer with `HibernatingUser`.
    ReadHibernatingUser,
    /// Record a metrics event.
    LogEvent(HibernateEvent),
    /// Write the cookie, durably.
    WriteCookie(HibernateCookieValue),
    /// Stop the preloader and join it; answer with `PreloaderStopped`.
    StopPreloader,
    /// Make the thinpool writable.
    MakeThinpoolWritable,
    /// Remove the hiberimage volumes.
    TeardownHiberimage,
    /// Read the integrity key and set up the hiberimage and the snapshot
    /// device, creating a new hiberimage where asked.
    SetupSnapshotDevice { new_hiberimage: bool },
    /// Lock the hiberimage against further configuration.
    LockdownHiberimage,
    /// Record the current user as the one who may hibernate next.
    RecordHibernatingUser,
    /// Read the wall clock; answer with `Clock`.
    ReadClock,
    /// Pin the process's memory until the run ends.
    LockProcessMemory,
    /// Mount the metadata volume and start the resume log.
    MountHibermeta,
    /// Tell other daemons that resume is imminent.
    NotifyPowerd,
    /// Load the image into the kernel; answer with `ImageLoaded`.
    LoadImage,
    /// Record the image load metrics.
    RecordImageMetrics { image_size: u64, load_ms: u64, preload_percent: u64, datarate_mbs: u32 },
    /// Wait until the system is ready for the resume.
    WaitResumeReady,
    /// Freeze userspace, keeping the ticket until the run ends.
    FreezeUserspace,
    /// Record timestamps, flush metrics and logs, and sync.
    FlushAndSync { timestamp_start: u64 },
    /// Jump into the resumed image.
    LaunchResumeImage,
    /// Send logs to syslog again and mount the metadata volume.
    RestoreLogging,
    /// Replay the logs (wiping them unless asked not to), remove the resume
    /// token, merge the stateful snapshots and send the metrics.
    FinishCleanup { wipe_logs: bool },
    /// Merge the stateful snapshots.
    MergeStatefulSnapshots,
    /// The run is over, with this result.
    Finished(Result<(), ResumeFailure>),
}

/// The outcome of an action.
#[derive(Debug)]
pub enum ResumeEvent {
    /// The action succeeded.
    Done,
    /// The action failed.
    Failed(HibernateError),
    /// The cookie's value.
    Cookie(HibernateCookieValue),
    /// The image's size and the size of the RAM, in bytes.
    PreloadSizes { image_size: u64, ram_size: u64 },
    /// A user logged in.
    UserAuthenticated { account_id: String, session_id: String },
    /// Hibernate is not available.
    AbortRequest { reason: String },
    /// The preloader stopped, with these statistics.
    PreloaderStopped(PreloadStats),
    /// The recorded hibernating user.
    HibernatingUser(String),
    /// The wall clock, in milliseconds since the epoch.
    Clock(u64),
    /// The image was loaded.
    ImageLoaded { image_size: u64, load_ms: u64 },
}

/// The conductor as the contracts see it.
pub struct ConductorModel {
    pub dry_run: bool,
    /// The sanitized id of the authenticated user.
    pub current_user: Option<Seq<char>>,
    pub tried_to_resume: bool,
    pub timestamp_start: u64,
    /// Whether a preloader was started and not yet stopped.
    pub preloading: bool,
    pub preload_stats: PreloadStats,
    pub stage: ResumeStage,
}

/// The action that waits on the stage `m.stage`. (`Idle` and `Finished` wait
/// on none: `step` is never called there.)
pub open spec fn action_for(m: ConductorModel) -> ResumeAction {
    match m.stage {
        ResumeStage::Idle => ResumeAction::ReadCookie,
        ResumeStage::CheckingPending => ResumeAction::ReadCookie,
        ResumeStage::EnteringEnvironment { .. } => ResumeAction::EnterResumeEnvironment,
        ResumeStage::PreparingPreload => ResumeAction::PrepareImagePreload,
        ResumeStage::StartingPreloader { max_preload_bytes } => ResumeAction::StartPreloader {
            max_preload_bytes,
        },
        ResumeStage::WaitingForEvent => ResumeAction::WaitForEvent,
        ResumeStage::FetchingUserKey { session_id } => ResumeAction::FetchUserKey { session_id },
        ResumeStage::ReadingCookie => ResumeAction::ReadCookie,
        ResumeStage::ReadingHibernatingUser => ResumeAction::ReadHibernatingUser,
        ResumeStage::ReportingMismatch => ResumeAction::LogEvent(
            HibernateEvent::ResumeSkippedUserMismatch,
        ),
        ResumeStage::ResettingCookie { .. } => ResumeAction::WriteCookie(
            HibernateCookieValue::NoResume,
        ),
        ResumeStage::StoppingPreloader { .. } => ResumeAction::StopPreloader,
        ResumeStage::MakingThinpoolWritable { .. } => ResumeAction::MakeThinpoolWritable,
        ResumeStage::TearingDownHiberimage { .. } => ResumeAction::TeardownHiberimage,
        ResumeStage::SettingUpSnapshotDevice { failure } => ResumeAction::SetupSnapshotDevice {
            new_hiberimage: failure is Some,
        },
        ResumeStage::LockingDownHiberimage { .. } => ResumeAction::LockdownHiberimage,
        ResumeStage::RecordingHibernatingUser { .. } => ResumeAction::RecordHibernatingUser,
        ResumeStage::ReadingClock => ResumeAction::ReadClock,
        ResumeStage::LoggingAttempt => ResumeAction::LogEvent(HibernateEvent::ResumeAttempt),
        ResumeStage::LockingProcessMemory => ResumeAction::LockProcessMemory,
        ResumeStage::MountingHibermeta => ResumeAction::MountHibermeta,
        ResumeStage::NotifyingPowerd => ResumeAction::NotifyPowerd,
        ResumeStage::LoadingImage => ResumeAction::LoadImage,
        ResumeStage::RecordingImageMetrics { image_size, load_ms } => {
            ResumeAction::RecordImageMetrics {
                image_size,
                load_ms,
                preload_percent: (if image_size == 0 {
                    0
                } else {
                    min(
                        u64::MAX as int,
                        m.preload_stats.bytes_preloaded as int * 100 / image_size as int,
                    )
                }) as u64,
                datarate_mbs: m.preload_stats.datarate_mbs,
            }
        },
        ResumeStage::WaitingResumeReady => ResumeAction::WaitResumeReady,
        ResumeStage::WritingTombstone => ResumeAction::WriteCookie(
            HibernateCookieValue::ResumeAborting,
        ),
        ResumeStage::FreezingUserspace => ResumeAction::FreezeUserspace,
        ResumeStage::FlushingAndSyncing => ResumeAction::FlushAndSync {
            timestamp_start: m.timestamp_start,
        },
        ResumeStage::LaunchingImage => ResumeAction::LaunchResumeImage,
        ResumeStage::LoggingFailure { .. } => ResumeAction::LogEvent(HibernateEvent::ResumeFailure),
        ResumeStage::RestoringLogging { .. } => ResumeAction::RestoreLogging,
        ResumeStage::FinishingCleanup { .. } => ResumeAction::FinishCleanup {
            wipe_logs: !m.dry_run,
        },
        ResumeStage::MergingSnapshots { .. } => ResumeAction::MergeStatefulSnapshots,
        ResumeStage::Finished => ResumeAction::MergeStatefulSnapshots,
    }
}

/// Moves to `stage` and asks for its action.
pub open spec fn enter(m: ConductorModel, stage: ResumeStage) -> (ConductorModel, ResumeAction) {
    let n = ConductorModel { stage, ..m };
    (n, action_for(n))
}

/// Ends the run with `result`.
pub open spec fn finish(m: ConductorModel, result: Result<(), ResumeFailure>) -> (
    ConductorModel,
    ResumeAction,
) {
    (ConductorModel { stage: ResumeStage::Finished, ..m }, ResumeAction::Finished(result))
}

/// Leaves the resume path with `result`: a failed attempt is recorded first,
/// then logging is restored, and the cleanup follows.
pub open spec fn cleanup(m: ConductorModel, result: Result<(), ResumeFailure>) -> (
    ConductorModel,
    ResumeAction,
) {
    if m.tried_to_resume {
        enter(m, ResumeStage::LoggingFailure { result })
    } else {
        enter(m, ResumeStage::RestoringLogging { result })
    }
}

/// Refuses resume with `failure`: the preloader is stopped, then the system is
/// prepared for a future hibernate.
pub open spec fn reject(m: ConductorModel, failure: ResumeFailure) -> (ConductorModel, ResumeAction) {
    if m.preloading {
        enter(m, ResumeStage::StoppingPreloader { then: AfterStop::Reject(failure) })
    } else {
        enter(m, ResumeStage::MakingThinpoolWritable { failure })
    }
}

/// What follows the stop of the preloader.
pub open spec fn after_stop(m: ConductorModel, then: AfterStop) -> (ConductorModel, ResumeAction) {
    match then {
        AfterStop::Abort(reason) => cleanup(m, Err(ResumeFailure::NotSupported(reason))),
        AfterStop::Reject(failure) => enter(m, ResumeStage::MakingThinpoolWritable { failure }),
        AfterStop::Resume => enter(m, ResumeStage::SettingUpSnapshotDevice { failure: None }),
    }
}

/// Where stopping the preloader fails: a refusal or an abort keeps its own
/// error, which the failure to stop must not mask; a resume fails with it.
pub open spec fn stop_failed(m: ConductorModel, then: AfterStop, err: HibernateError) -> (
    ConductorModel,
    ResumeAction,
) {
    match then {
        AfterStop::Abort(reason) => cleanup(m, Err(ResumeFailure::NotSupported(reason))),
        AfterStop::Reject(failure) => cleanup(m, Err(failure)),
        AfterStop::Resume => fail(m, err),
    }
}

/// Where an operation fails after logging was redirected.
pub open spec fn fail(m: ConductorModel, err: HibernateError) -> (ConductorModel, ResumeAction) {
    cleanup(m, Err(ResumeFailure::Operation(err)))
}

/// The conductor's transition: the stage and state after `event`, and the
/// next action. An event that the stage does not wait for changes nothing,
/// and the stage's action is asked for again.
pub open spec fn step_spec(m: ConductorModel, event: ResumeEvent) -> (ConductorModel, ResumeAction) {
    let same = (m, action_for(m));
    match m.stage {
        ResumeStage::CheckingPending => match event {
            ResumeEvent::Cookie(c) => enter(
                m,
                ResumeStage::EnteringEnvironment {
                    pending: c == HibernateCookieValue::ResumeInProgress,
                },
            ),
            ResumeEvent::Failed(err) => finish(m, Err(ResumeFailure::Operation(err))),
            _ => same,
        },
        ResumeStage::EnteringEnvironment { pending } => match event {
            ResumeEvent::Done => if pending {
                enter(m, ResumeStage::PreparingPreload)
            } else {
                enter(m, ResumeStage::WaitingForEvent)
            },
            ResumeEvent::Failed(err) => finish(m, Err(ResumeFailure::Operation(err))),
            _ => same,
        },
        ResumeStage::PreparingPreload => match event {
            ResumeEvent::PreloadSizes { image_size, ram_size } => enter(
                m,
                ResumeStage::StartingPreloader {
                    max_preload_bytes: min(image_size as int, ram_size as int * 33 / 100) as u64,
                },
            ),
            ResumeEvent::Failed(err) => fail(m, err),
            _ => same,
        },
        ResumeStage::StartingPreloader { .. } => match event {
            ResumeEvent::Done => enter(
                ConductorModel { preloading: true, ..m },
                ResumeStage::WaitingForEvent,
            ),
            ResumeEvent::Failed(err) => fail(m, err),
            _ => same,
        },
        ResumeStage::WaitingForEvent => match event {
            ResumeEvent::UserAuthenticated { account_id, session_id } => enter(
                ConductorModel { current_user: Some(sanitized(account_id@)), ..m },
                ResumeStage::FetchingUserKey { session_id },
            ),
            ResumeEvent::AbortRequest { reason } => if m.preloading {
                enter(m, ResumeStage::StoppingPreloader { then: AfterStop::Abort(reason) })
            } else {
                cleanup(m, Err(ResumeFailure::NotSupported(reason)))
            },
            ResumeEvent::Failed(err) => fail(m, err),
            _ => same,
        },
        ResumeStage::FetchingUserKey { .. } => match event {
            ResumeEvent::Done => enter(m, ResumeStage::ReadingCookie),
            ResumeEvent::Failed(err) => fail(m, err),
            _ => same,
        },
        ResumeStage::ReadingCookie => match event {
            ResumeEvent::Cookie(c) => match verdict_of(c, m.dry_run) {
                CookieVerdict::VerifyUser => enter(m, ResumeStage::ReadingHibernatingUser),
                CookieVerdict::Proceed => enter(m, ResumeStage::ReadingClock),
                CookieVerdict::NothingPending => reject(m, ResumeFailure::NothingPending),
                CookieVerdict::Abandon { clear_cookie } => if clear_cookie {
                    enter(
                        m,
                        ResumeStage::ResettingCookie { failure: ResumeFailure::CookieAbandoned(c) },
                    )
                } else {
                    reject(m, ResumeFailure::CookieAbandoned(c))
                },
            },
            ResumeEvent::Failed(err) => reject(m, ResumeFailure::Operation(err)),
            _ => same,
        },
        ResumeStage::ReadingHibernatingUser => match event {
            ResumeEvent::HibernatingUser(user) => if m.current_user == Some(user@) {
                enter(ConductorModel { tried_to_resume: true, ..m }, ResumeStage::ReadingClock)
            } else {
                enter(m, ResumeStage::ReportingMismatch)
            },
            ResumeEvent::Failed(err) => reject(m, ResumeFailure::Operation(err)),
            _ => same,
        },
        ResumeStage::ReportingMismatch => enter(
            m,
            ResumeStage::ResettingCookie { failure: ResumeFailure::UserMismatch },
        ),
        ResumeStage::ResettingCookie { failure } => match event {
            ResumeEvent::Done => reject(m, failure),
            ResumeEvent::Failed(err) => reject(m, ResumeFailure::Operation(err)),
            _ => same,
        },
        ResumeStage::StoppingPreloader { then } => match event {
            ResumeEvent::PreloaderStopped(stats) => after_stop(
                ConductorModel { preloading: false, preload_stats: stats, ..m },
                then,
            ),
            ResumeEvent::Failed(err) => stop_failed(ConductorModel { preloading: false, ..m }, then, err),
            _ => same,
        },
        ResumeStage::MakingThinpoolWritable { failure } => match event {
            ResumeEvent::Done => enter(m, ResumeStage::TearingDownHiberimage { failure }),
            ResumeEvent::Failed(_) => cleanup(m, Err(failure)),
            _ => same,
        },
        ResumeStage::TearingDownHiberimage { failure } => match event {
            ResumeEvent::Done => enter(
                m,
                ResumeStage::SettingUpSnapshotDevice { failure: Some(failure) },
            ),
            ResumeEvent::Failed(_) => cleanup(m, Err(failure)),
            _ => same,
        },
        ResumeStage::SettingUpSnapshotDevice { failure } => match event {
            ResumeEvent::Done => enter(m, ResumeStage::LockingDownHiberimage { failure }),
            ResumeEvent::Failed(err) => match failure {
                Some(failure) => cleanup(m, Err(failure)),
                None => fail(m, err),
            },
            _ => same,
        },
        ResumeStage::LockingDownHiberimage { failure } => match event {
            ResumeEvent::Done => match failure {
                Some(failure) => enter(m, ResumeStage::RecordingHibernatingUser { failure }),
                None => enter(m, ResumeStage::LockingProcessMemory),
            },
            ResumeEvent::Failed(err) => match failure {
                Some(failure) => cleanup(m, Err(failure)),
                None => fail(m, err),
            },
            _ => same,
        },
        ResumeStage::RecordingHibernatingUser { failure } => match event {
            ResumeEvent::Done => cleanup(m, Err(failure)),
            ResumeEvent::Failed(_) => cleanup(m, Err(failure)),
            _ => same,
        },
        ResumeStage::ReadingClock => match event {
            ResumeEvent::Clock(t) => enter(
                ConductorModel { timestamp_start: t, ..m },
                ResumeStage::LoggingAttempt,
            ),
            _ => enter(ConductorModel { timestamp_start: 0, ..m }, ResumeStage::LoggingAttempt),
        },
        ResumeStage::LoggingAttempt => if m.preloading {
            enter(m, ResumeStage::StoppingPreloader { then: AfterStop::Resume })
        } else {
            enter(m, ResumeStage::SettingUpSnapshotDevice { failure: None })
        },
        ResumeStage::LockingProcessMemory => match event {
            ResumeEvent::Done => enter(m, ResumeStage::MountingHibermeta),
            ResumeEvent::Failed(err) => fail(m, err),
            _ => same,
        },
        ResumeStage::MountingHibermeta => match event {
            ResumeEvent::Done => enter(m, ResumeStage::NotifyingPowerd),
            ResumeEvent::Failed(err) => fail(m, err),
            _ => same,
        },
        ResumeStage::NotifyingPowerd => match event {
            ResumeEvent::Done => enter(m, ResumeStage::LoadingImage),
            ResumeEvent::Failed(err) => fail(m, err),
            _ => same,
        },
        ResumeStage::LoadingImage => match event {
            ResumeEvent::ImageLoaded { image_size, load_ms } => enter(
                m,
                ResumeStage::RecordingImageMetrics { image_size, load_ms },
            ),
            ResumeEvent::Failed(err) => fail(m, err),
            _ => same,
        },
        ResumeStage::RecordingImageMetrics { .. } => enter(m, ResumeStage::WaitingResumeReady),
        ResumeStage::WaitingResumeReady => match event {
            ResumeEvent::Done => enter(m, ResumeStage::WritingTombstone),
            ResumeEvent::Failed(err) => fail(m, err),
            _ => same,
        },
        ResumeStage::WritingTombstone => match event {
            ResumeEvent::Done => enter(m, ResumeStage::FreezingUserspace),
            ResumeEvent::Failed(err) => fail(m, err),
            _ => same,
        },
        ResumeStage::FreezingUserspace => match event {
            ResumeEvent::Done => enter(m, ResumeStage::FlushingAndSyncing),
            ResumeEvent::Failed(err) => fail(m, err),
            _ => same,
        },
        ResumeStage::FlushingAndSyncing => match event {
            ResumeEvent::Done => if m.dry_run {
                cleanup(m, Ok(()))
            } else {
                enter(m, ResumeStage::LaunchingImage)
            },
            ResumeEvent::Failed(err) => fail(m, err),
            _ => same,
        },
        ResumeStage::LaunchingImage => match event {
            ResumeEvent::Done => cleanup(m, Err(ResumeFailure::RestoreReturned)),
            ResumeEvent::Failed(err) => fail(m, err),
            _ => same,
        },
        ResumeStage::LoggingFailure { result } => enter(m, ResumeStage::RestoringLogging { result }),
        ResumeStage::RestoringLogging { result } => match event {
            ResumeEvent::Done => enter(m, ResumeStage::FinishingCleanup { result }),
            ResumeEvent::Failed(err) => enter(
                m,
                ResumeStage::MergingSnapshots {
                    result: if result is Ok {
                        Err(ResumeFailure::Operation(err))
                    } else {
                        result
                    },
                },
            ),
            _ => same,
        },
        ResumeStage::FinishingCleanup { result } => finish(m, result),
        ResumeStage::MergingSnapshots { result } => finish(m, result),
        ResumeStage::Idle => same,
        ResumeStage::Finished => same,
    }
}

/// The resume conductor: it orchestrates the steps that resume the system
/// from hibernation, or prepare it for a future hibernate where no resume
/// happens.
pub struct ResumeConductor {
    options: ResumeOptions,
    stateful_block_path: String,
    current_user: Option<String>,
    tried_to_resume: bool,
    timestamp_start: u64,
    preloading: bool,
    preload_stats: PreloadStats,
    stage: ResumeStage,
}

impl View for ResumeConductor {
    type V = ConductorModel;

    closed spec fn view(&self) -> ConductorModel {
        ConductorModel {
            dry_run: self.options.dry_run,
            current_user: match self.current_user {
                Some(u) => Some(u@),
                None => None,
            },
            tried_to_resume: self.tried_to_resume,
            timestamp_start: self.timestamp_start,
            preloading: self.preloading,
            preload_stats: self.preload_stats,
            stage: self.stage,
        }
    }
}

impl ResumeConductor {
    /// The path of the stateful block device, which keys the cookie.
    pub closed spec fn block_path(&self) -> Seq<char> {
        self.stateful_block_path@
    }

    /// A conductor for the stateful block device at `stateful_block_path`,
    /// not yet started.
    pub fn new(stateful_block_path: String) -> (r: Self)
        ensures
            r.block_path() == stateful_block_path@,
            r@ == (ConductorModel {
                dry_run: false,
                current_user: None,
                tried_to_resume: false,
                timestamp_start: 0,
                preloading: false,
                preload_stats: PreloadStats { bytes_preloaded: 0, datarate_mbs: 0 },
                stage: ResumeStage::Idle,
            }),
    {
        ResumeConductor {
            options: ResumeOptions { dry_run: false },
            stateful_block_path,
            current_user: None,
            tried_to_resume: false,
            timestamp_start: 0,
            preloading: false,
            preload_stats: PreloadStats { bytes_preloaded: 0, datarate_mbs: 0 },
            stage: ResumeStage::Idle,
        }
    }

    /// Starts a resume with `options`; the first action reads the cookie.
    pub fn resume(&mut self, options: ResumeOptions) -> (r: ResumeAction)
        requires
            old(self)@.stage is Idle,
        ensures
            final(self)@ == (ConductorModel {
                dry_run: options.dry_run,
                stage: ResumeStage::CheckingPending,
                ..old(self)@
            }),
            final(self).block_path() == old(self).block_path(),
            r == ResumeAction::ReadCookie,
    {
        self.options = options;
        self.stage = ResumeStage::CheckingPending;
        ResumeAction::ReadCookie
    }

    /// Whether the run has started and not finished, so that `step` applies.
    pub fn is_running(&self) -> (r: bool)
        ensures
            r == !(self@.stage is Idle || self@.stage is Finished),
    {
        match self.stage {
            ResumeStage::Idle | ResumeStage::Finished => false,
            _ => true,
        }
    }

    /// The path of the stateful block device.
    pub fn stateful_block_path(&self) -> (r: &String)
        ensures
            r@ == self.block_path(),
    {
        &self.stateful_block_path
    }

    /// The sanitized id of the authenticated user, once there is one.
    pub fn current_user(&self) -> (r: &Option<String>)
        ensures
            r is None <==> self@.current_user is None,
            r matches Some(u) ==> self@.current_user == Some(u@),
    {
        &self.current_user
    }

    /// Whether a resume was attempted.
    pub fn tried_to_resume(&self) -> (r: bool)
        ensures
            r == self@.tried_to_resume,
    {
        self.tried_to_resume
    }

    /// The statistics of the stopped preloader.
    pub fn preload_stats(&self) -> (r: PreloadStats)
        ensures
            r == self@.preload_stats,
    {
        self.preload_stats
    }

    /// The action that waits on the current stage.
    fn pending_action(&self) -> (r: ResumeAction)
        ensures
            r == action_for(self@),
    {
        match &self.stage {
            ResumeStage::Idle => ResumeAction::ReadCookie,
            ResumeStage::CheckingPending => ResumeAction::ReadCookie,
            ResumeStage::EnteringEnvironment { .. } => ResumeAction::EnterResumeEnvironment,
            ResumeStage::PreparingPreload => ResumeAction::PrepareImagePreload,
            ResumeStage::StartingPreloader { max_preload_bytes } => ResumeAction::StartPreloader {
                max_preload_bytes: *max_preload_bytes,
            },
            ResumeStage::WaitingForEvent => ResumeAction::WaitForEvent,
            ResumeStage::FetchingUserKey { session_id } => ResumeAction::FetchUserKey {
                session_id: session_id.clone(),
            },
            ResumeStage::ReadingCookie => ResumeAction::ReadCookie,
            ResumeStage::ReadingHibernatingUser => ResumeAction::ReadHibernatingUser,
            ResumeStage::ReportingMismatch => ResumeAction::LogEvent(
                HibernateEvent::ResumeSkippedUserMismatch,
            ),
            ResumeStage::ResettingCookie { .. } => ResumeAction::WriteCookie(
                HibernateCookieValue::NoResume,
            ),
            ResumeStage::StoppingPreloader { .. } => ResumeAction::StopPreloader,
            ResumeStage::MakingThinpoolWritable { .. } => ResumeAction::MakeThinpoolWritable,
            ResumeStage::TearingDownHiberimage { .. } => ResumeAction::TeardownHiberimage,
            ResumeStage::SettingUpSnapshotDevice { failure } => {
                ResumeAction::SetupSnapshotDevice { new_hiberimage: failure.is_some() }
            },
            ResumeStage::LockingDownHiberimage { .. } => ResumeAction::LockdownHiberimage,
            ResumeStage::RecordingHibernatingUser { .. } => ResumeAction::RecordHibernatingUser,
            ResumeStage::ReadingClock => ResumeAction::ReadClock,
            ResumeStage::LoggingAttempt => ResumeAction::LogEvent(HibernateEvent::ResumeAttempt),
            ResumeStage::LockingProcessMemory => ResumeAction::LockProcessMemory,
            ResumeStage::MountingHibermeta => ResumeAction::MountHibermeta,
            ResumeStage::NotifyingPowerd => ResumeAction::NotifyPowerd,
            ResumeStage::LoadingImage => ResumeAction::LoadImage,
            ResumeStage::RecordingImageMetrics { image_size, load_ms } => {
                ResumeAction::RecordImageMetrics {
                    image_size: *image_size,
                    load_ms: *load_ms,
                    preload_percent: preload_percent(
                        self.preload_stats.bytes_preloaded,
                        *image_size,
                    ),
                    datarate_mbs: self.preload_stats.datarate_mbs,
                }
            },
            ResumeStage::WaitingResumeReady => ResumeAction::WaitResumeReady,
            ResumeStage::WritingTombstone => ResumeAction::WriteCookie(
                HibernateCookieValue::ResumeAborting,
            ),
            ResumeStage::FreezingUserspace => ResumeAction::FreezeUserspace,
            ResumeStage::FlushingAndSyncing => ResumeAction::FlushAndSync {
                timestamp_start: self.timestamp_start,
            },
            ResumeStage::LaunchingImage => ResumeAction::LaunchResumeImage,
            ResumeStage::LoggingFailure { .. } => ResumeAction::LogEvent(
                HibernateEvent::ResumeFailure,
            ),
            ResumeStage::RestoringLogging { .. } => ResumeAction::RestoreLogging,
            ResumeStage::FinishingCleanup { .. } => ResumeAction::FinishCleanup {
                wipe_logs: !self.options.dry_run,
            },
            ResumeStage::MergingSnapshots { .. } => ResumeAction::MergeStatefulSnapshots,
            ResumeStage::Finished => ResumeAction::MergeStatefulSnapshots,
        }
    }

    fn enter(&mut self, stage: ResumeStage) -> (r: ResumeAction)
        ensures
            (final(self)@, r) == enter(old(self)@, stage),
            final(self).block_path() == old(self).block_path(),
    {
        self.stage = stage;
        self.pending_action()
    }

    fn finish(&mut self, result: Result<(), ResumeFailure>) -> (r: ResumeAction)
        ensures
            (final(self)@, r) == finish(old(self)@, result),
            final(self).block_path() == old(self).block_path(),
    {
        self.stage = ResumeStage::Finished;
        ResumeAction::Finished(result)
    }

    fn cleanup(&mut self, result: Result<(), ResumeFailure>) -> (r: ResumeAction)
        ensures
            (final(self)@, r) == cleanup(old(self)@, result),
            final(self).block_path() == old(self).block_path(),
    {
        if self.tried_to_resume {
            self.enter(ResumeStage::LoggingFailure { result })
        } else {
            self.enter(ResumeStage::RestoringLogging { result })
        }
    }

    fn fail(&mut self, err: HibernateError) -> (r: ResumeAction)
        ensures
            (final(self)@, r) == fail(old(self)@, err),
            final(self).block_path() == old(self).block_path(),
    {
        self.cleanup(Err(ResumeFailure::Operation(err)))
    }

    fn reject(&mut self, failure: ResumeFailure) -> (r: ResumeAction)
        ensures
            (final(self)@, r) == reject(old(self)@, failure),
            final(self).block_path() == old(self).block_path(),
    {
        if self.preloading {
            self.enter(ResumeStage::StoppingPreloader { then: AfterStop::Reject(failure) })
        } else {
            self.enter(ResumeStage::MakingThinpoolWritable { failure })
        }
    }

    fn after_stop(&mut self, then: AfterStop) -> (r: ResumeAction)
        ensures
            (final(self)@, r) == after_stop(old(self)@, then),
            final(self).block_path() == old(self).block_path(),
    {
        match then {
            AfterStop::Abort(reason) => self.cleanup(Err(ResumeFailure::NotSupported(reason))),
            AfterStop::Reject(failure) => self.enter(
                ResumeStage::MakingThinpoolWritable { failure },
            ),
            AfterStop::Resume => self.enter(ResumeStage::SettingUpSnapshotDevice { failure: None }),
        }
    }

    /// Takes the outcome of the last action and returns the next one.
    pub fn step(&mut self, event: ResumeEvent) -> (r: ResumeAction)
        requires
            !(old(self)@.stage is Idle || old(self)@.stage is Finished),
        ensures
            (final(self)@, r) == step_spec(old(self)@, event),
            final(self).block_path() == old(self).block_path(),
    {
        let mut stage = ResumeStage::Finished;
        core::mem::swap(&mut stage, &mut self.stage);
        match stage {
            ResumeStage::CheckingPending => match event {
                ResumeEvent::Cookie(c) => self.enter(
                    ResumeStage::EnteringEnvironment {
                        pending: c == HibernateCookieValue::ResumeInProgress,
                    },
                ),
                ResumeEvent::Failed(err) => self.finish(Err(ResumeFailure::Operation(err))),
                _ => self.enter(ResumeStage::CheckingPending),
            },
            ResumeStage::EnteringEnvironment { pending } => match event {
                ResumeEvent::Done => if pending {
                    self.enter(ResumeStage::PreparingPreload)
                } else {
                    self.enter(ResumeStage::WaitingForEvent)
                },
                ResumeEvent::Failed(err) => self.finish(Err(ResumeFailure::Operation(err))),
                _ => self.enter(ResumeStage::EnteringEnvironment { pending }),
            },
            ResumeStage::PreparingPreload => match event {
                ResumeEvent::PreloadSizes { image_size, ram_size } => self.enter(
                    ResumeStage::StartingPreloader {
                        max_preload_bytes: preload_byte_limit(image_size, ram_size),
                    },
                ),
                ResumeEvent::Failed(err) => self.fail(err),
                _ => self.enter(ResumeStage::PreparingPreload),
            },
            ResumeStage::StartingPreloader { max_preload_bytes } => match event {
                ResumeEvent::Done => {
                    self.preloading = true;
                    self.enter(ResumeStage::WaitingForEvent)
                },
                ResumeEvent::Failed(err) => self.fail(err),
                _ => self.enter(ResumeStage::StartingPreloader { max_preload_bytes }),
            },
            ResumeStage::WaitingForEvent => match event {
                ResumeEvent::UserAuthenticated { account_id, session_id } => {
                    match sanitize_username(account_id.as_str()) {
                        Ok(user) => {
                            self.current_user = Some(user);
                            self.enter(ResumeStage::FetchingUserKey { session_id })
                        },
                        Err(err) => self.fail(err),
                    }
                },
                ResumeEvent::AbortRequest { reason } => if self.preloading {
                    self.enter(ResumeStage::StoppingPreloader { then: AfterStop::Abort(reason) })
                } else {
                    self.cleanup(Err(ResumeFailure::NotSupported(reason)))
                },
                ResumeEvent::Failed(err) => self.fail(err),
                _ => self.enter(ResumeStage::WaitingForEvent),
            },
            ResumeStage::FetchingUserKey { session_id } => match event {
                ResumeEvent::Done => self.enter(ResumeStage::ReadingCookie),
                ResumeEvent::Failed(err) => self.fail(err),
                _ => self.enter(ResumeStage::FetchingUserKey { session_id }),
            },
            ResumeStage::ReadingCookie => match event {
                ResumeEvent::Cookie(c) => match decide_to_resume(c, self.options.dry_run) {
                    CookieVerdict::VerifyUser => self.enter(ResumeStage::ReadingHibernatingUser),
                    CookieVerdict::Proceed => self.enter(ResumeStage::ReadingClock),
                    CookieVerdict::NothingPending => self.reject(ResumeFailure::NothingPending),
                    CookieVerdict::Abandon { clear_cookie } => if clear_cookie {
                        self.enter(
                            ResumeStage::ResettingCookie {
                                failure: ResumeFailure::CookieAbandoned(c),
                            },
                        )
                    } else {
                        self.reject(ResumeFailure::CookieAbandoned(c))
                    },
                },
                ResumeEvent::Failed(err) => self.reject(ResumeFailure::Operation(err)),
                _ => self.enter(ResumeStage::ReadingCookie),
            },
            ResumeStage::ReadingHibernatingUser => match event {
                ResumeEvent::HibernatingUser(user) => {
                    let same = match &self.current_user {
                        Some(u) => u.eq(&user),
                        None => false,
                    };
                    if same {
                        self.tried_to_resume = true;
                        self.enter(ResumeStage::ReadingClock)
                    } else {
                        self.enter(ResumeStage::ReportingMismatch)
                    }
                },
                ResumeEvent::Failed(err) => self.reject(ResumeFailure::Operation(err)),
                _ => self.enter(ResumeStage::ReadingHibernatingUser),
            },
            ResumeStage::ReportingMismatch => self.enter(
                ResumeStage::ResettingCookie { failure: ResumeFailure::UserMismatch },
            ),
            ResumeStage::ResettingCookie { failure } => match event {
                ResumeEvent::Done => self.reject(failure),
                ResumeEvent::Failed(err) => self.reject(ResumeFailure::Operation(err)),
                _ => self.enter(ResumeStage::ResettingCookie { failure }),
            },
            ResumeStage::StoppingPreloader { then } => match event {
                ResumeEvent::PreloaderStopped(stats) => {
                    self.preloading = false;
                    self.preload_stats = stats;
                    self.after_stop(then)
                },
                ResumeEvent::Failed(err) => {
                    self.preloading = false;
                    match then {
                        AfterStop::Abort(reason) => self.cleanup(
                            Err(ResumeFailure::NotSupported(reason)),
                        ),
                        AfterStop::Reject(failure) => self.cleanup(Err(failure)),
                        AfterStop::Resume => self.fail(err),
                    }
                },
                _ => self.enter(ResumeStage::StoppingPreloader { then }),
            },
            ResumeStage::MakingThinpoolWritable { failure } => match event {
                ResumeEvent::Done => self.enter(ResumeStage::TearingDownHiberimage { failure }),
                ResumeEvent::Failed(_) => self.cleanup(Err(failure)),
                _ => self.enter(ResumeStage::MakingThinpoolWritable { failure }),
            },
            ResumeStage::TearingDownHiberimage { failure } => match event {
                ResumeEvent::Done => self.enter(
                    ResumeStage::SettingUpSnapshotDevice { failure: Some(failure) },
                ),
                ResumeEvent::Failed(_) => self.cleanup(Err(failure)),
                _ => self.enter(ResumeStage::TearingDownHiberimage { failure }),
            },
            ResumeStage::SettingUpSnapshotDevice { failure } => match event {
                ResumeEvent::Done => self.enter(ResumeStage::LockingDownHiberimage { failure }),
                ResumeEvent::Failed(err) => match failure {
                    Some(failure) => self.cleanup(Err(failure)),
                    None => self.fail(err),
                },
                _ => self.enter(ResumeStage::SettingUpSnapshotDevice { failure }),
            },
            ResumeStage::LockingDownHiberimage { failure } => match event {
                ResumeEvent::Done => match failure {
                    Some(failure) => self.enter(ResumeStage::RecordingHibernatingUser { failure }),
                    None => self.enter(ResumeStage::LockingProcessMemory),
                },
                ResumeEvent::Failed(err) => match failure {
                    Some(failure) => self.cleanup(Err(failure)),
                    None => self.fail(err),
                },
                _ => self.enter(ResumeStage::LockingDownHiberimage { failure }),
            },
            ResumeStage::RecordingHibernatingUser { failure } => match event {
                ResumeEvent::Done => self.cleanup(Err(failure)),
                ResumeEvent::Failed(_) => self.cleanup(Err(failure)),
                _ => self.enter(ResumeStage::RecordingHibernatingUser { failure }),
            },
            ResumeStage::ReadingClock => {
                match event {
                    ResumeEvent::Clock(t) => {
                        self.timestamp_start = t;
                    },
                    _ => {
                        self.timestamp_start = 0;
                    },
                }
                self.enter(ResumeStage::LoggingAttempt)
            },
            ResumeStage::LoggingAttempt => if self.preloading {
                self.enter(ResumeStage::StoppingPreloader { then: AfterStop::Resume })
            } else {
                self.enter(ResumeStage::SettingUpSnapshotDevice { failure: None })
            },
            ResumeStage::LockingProcessMemory => match event {
                ResumeEvent::Done => self.enter(ResumeStage::MountingHibermeta),
                ResumeEvent::Failed(err) => self.fail(err),
                _ => self.enter(ResumeStage::LockingProcessMemory),
            },
            ResumeStage::MountingHibermeta => match event {
                ResumeEvent::Done => self.enter(ResumeStage::NotifyingPowerd),
                ResumeEvent::Failed(err) => self.fail(err),
                _ => self.enter(ResumeStage::MountingHibermeta),
            },
            ResumeStage::NotifyingPowerd => match event {
                ResumeEvent::Done => self.enter(ResumeStage::LoadingImage),
                ResumeEvent::Failed(err) => self.fail(err),
                _ => self.enter(ResumeStage::NotifyingPowerd),
            },
            ResumeStage::LoadingImage => match event {
                ResumeEvent::ImageLoaded { image_size, load_ms } => self.enter(
                    ResumeStage::RecordingImageMetrics { image_size, load_ms },
                ),
                ResumeEvent::Failed(err) => self.fail(err),
                _ => self.enter(ResumeStage::LoadingImage),
            },
            ResumeStage::RecordingImageMetrics { .. } => self.enter(
                ResumeStage::WaitingResumeReady,
            ),
            ResumeStage::WaitingResumeReady => match event {
                ResumeEvent::Done => self.enter(ResumeStage::WritingTombstone),
                ResumeEvent::Failed(err) => self.fail(err),
                _ => self.enter(ResumeStage::WaitingResumeReady),
            },
            ResumeStage::WritingTombstone => match event {
                ResumeEvent::Done => self.enter(ResumeStage::FreezingUserspace),
                ResumeEvent::Failed(err) => self.fail(err),
                _ => self.enter(ResumeStage::WritingTombstone),
            },
            ResumeStage::FreezingUserspace => match event {
                ResumeEvent::Done => self.enter(ResumeStage::FlushingAndSyncing),
                ResumeEvent::Failed(err) => self.fail(err),
                _ => self.enter(ResumeStage::FreezingUserspace),
            },
            ResumeStage::FlushingAndSyncing => match event {
                ResumeEvent::Done => if self.options.dry_run {
                    self.cleanup(Ok(()))
                } else {
                    self.enter(ResumeStage::LaunchingImage)
                },
                ResumeEvent::Failed(err) => self.fail(err),
                _ => self.enter(ResumeStage::FlushingAndSyncing),
            },
            ResumeStage::LaunchingImage => match event {
                ResumeEvent::Done => self.cleanup(Err(ResumeFailure::RestoreReturned)),
                ResumeEvent::Failed(err) => self.fail(err),
                _ => self.enter(ResumeStage::LaunchingImage),
            },
            ResumeStage::LoggingFailure { result } => self.enter(
                ResumeStage::RestoringLogging { result },
            ),
            ResumeStage::RestoringLogging { result } => match event {
                ResumeEvent::Done => self.enter(ResumeStage::FinishingCleanup { result }),
                ResumeEvent::Failed(err) => {
                    let result = match result {
                        Ok(()) => Err(ResumeFailure::Operation(err)),
                        Err(f) => Err(f),
                    };
                    self.enter(ResumeStage::MergingSnapshots { result })
                },
                _ => self.enter(ResumeStage::RestoringLogging { result }),
            },
            ResumeStage::FinishingCleanup { result } => self.finish(result),
            ResumeStage::MergingSnapshots { result } => self.finish(result),
            ResumeStage::Idle => self.enter(ResumeStage::Idle),
            ResumeStage::Finished => self.enter(ResumeStage::Finished),
        }
    }
}

/// Whether `stage` is the first stage of a refusal with `failure`: the cookie
/// reset, the stop of the preloader, or the preparation for a future
/// hibernate.
pub open spec fn refused_with(stage: ResumeStage, failure: ResumeFailure) -> bool {
    stage == (ResumeStage::ResettingCookie { failure }) || stage == (ResumeStage::StoppingPreloader {
        then: AfterStop::Reject(failure),
    }) || stage == (ResumeStage::MakingThinpoolWritable { failure })
}

/// Outside a dry run, a cookie other than `ResumeInProgress` refuses the
/// resume: no attempt is counted, and the next action either resets the
/// cookie to `NoResume` (for `EmergencyReboot` alone) or begins the
/// preparation for a future hibernate. No volume is touched by the decision.
pub proof fn lemma_refused_without_pending_cookie(m: ConductorModel, cookie: HibernateCookieValue)
    requires
        m.stage is ReadingCookie,
        !m.dry_run,
        cookie != HibernateCookieValue::ResumeInProgress,
    ensures
        ({
            let (n, a) = step_spec(m, ResumeEvent::Cookie(cookie));
            &&& n.tried_to_resume == m.tried_to_resume
            &&& n.current_user == m.current_user
            &&& n.preloading == m.preloading
            &&& refused_with(
                n.stage,
                if cookie == HibernateCookieValue::NoResume {
                    ResumeFailure::NothingPending
                } else {
                    ResumeFailure::CookieAbandoned(cookie)
                },
            )
            &&& (a == ResumeAction::WriteCookie(HibernateCookieValue::NoResume) <==> cookie
                == HibernateCookieValue::EmergencyReboot)
            &&& (a == ResumeAction::WriteCookie(HibernateCookieValue::NoResume) || a
                == ResumeAction::StopPreloader || a == ResumeAction::MakeThinpoolWritable)
        }),
{
}

/// With a pending resume, a user whose sanitized id equals the recorded
/// hibernating user is let through: the attempt is counted and the resume
/// goes on, starting with the clock reading.
pub proof fn lemma_hibernating_user_resumes(m: ConductorModel, user: String)
    requires
        m.stage is ReadingCookie,
        m.current_user == Some(user@),
    ensures
        ({
            let (m1, a1) = step_spec(m, ResumeEvent::Cookie(HibernateCookieValue::ResumeInProgress));
            let (m2, a2) = step_spec(m1, ResumeEvent::HibernatingUser(user));
            &&& a1 == ResumeAction::ReadHibernatingUser
            &&& m2.tried_to_resume
            &&& m2.stage is ReadingClock
            &&& a2 == ResumeAction::ReadClock
        }),
{
}

/// With a pending resume, any other user is refused: the mismatch is
/// recorded, the cookie is reset to `NoResume`, and resume is refused with a
/// user mismatch, without counting an attempt.
pub proof fn lemma_other_user_resets_cookie(m: ConductorModel, user: String)
    requires
        m.stage is ReadingCookie,
        m.current_user != Some(user@),
    ensures
        ({
            let (m1, a1) = step_spec(m, ResumeEvent::Cookie(HibernateCookieValue::ResumeInProgress));
            let (m2, a2) = step_spec(m1, ResumeEvent::HibernatingUser(user));
            let (m3, a3) = step_spec(m2, ResumeEvent::Done);
            let (m4, a4) = step_spec(m3, ResumeEvent::Done);
            &&& a1 == ResumeAction::ReadHibernatingUser
            &&& a2 == ResumeAction::LogEvent(HibernateEvent::ResumeSkippedUserMismatch)
            &&& a3 == ResumeAction::WriteCookie(HibernateCookieValue::NoResume)
            &&& m4.tried_to_resume == m.tried_to_resume
            &&& refused_with(m4.stage, ResumeFailure::UserMismatch)
            &&& (a4 == ResumeAction::StopPreloader || a4 == ResumeAction::MakeThinpoolWritable)
        }),
{
}

/// Whether `stage` belongs to the resume proper, from the set-up of the
/// snapshot device for this resume to the jump into the image.
pub open spec fn configures_resume(stage: ResumeStage) -> bool {
    match stage {
        ResumeStage::SettingUpSnapshotDevice { failure } => failure is None,
        ResumeStage::LockingDownHiberimage { failure } => failure is None,
        ResumeStage::LockingProcessMemory | ResumeStage::MountingHibermeta
        | ResumeStage::NotifyingPowerd | ResumeStage::LoadingImage
        | ResumeStage::RecordingImageMetrics { .. } | ResumeStage::WaitingResumeReady
        | ResumeStage::WritingTombstone | ResumeStage::FreezingUserspace
        | ResumeStage::FlushingAndSyncing | ResumeStage::LaunchingImage => true,
        _ => false,
    }
}

/// The preloader has fully stopped whenever the resume proper is under way.
pub open spec fn preloader_stopped_for_resume(m: ConductorModel) -> bool {
    configures_resume(m.stage) ==> !m.preloading
}

/// Every step keeps the preloader stopped during the resume proper: the
/// snapshot device is never configured for the resume, memory never pinned
/// and the image never loaded while the preloader runs.
pub proof fn lemma_step_keeps_preloader_stopped(m: ConductorModel, event: ResumeEvent)
    requires
        preloader_stopped_for_resume(m),
    ensures
        preloader_stopped_for_resume(step_spec(m, event).0),
{
}

/// The preloader is started with a limit of the image size, but no more than
/// 33% of the RAM; a preload run never goes beyond its limit (see
/// `PreloadProgress`).
pub proof fn lemma_preload_limit(m: ConductorModel, image_size: u64, ram_size: u64)
    requires
        m.stage is PreparingPreload,
    ensures
        ({
            let (n, a) = step_spec(m, ResumeEvent::PreloadSizes { image_size, ram_size });
            let limit = min(image_size as int, ram_size as int * 33 / 100);
            &&& a == (ResumeAction::StartPreloader { max_preload_bytes: limit as u64 })
            &&& limit <= image_size
            &&& limit <= ram_size as int * 33 / 100
            &&& n.preloading == m.preloading
        }),
{
}

/// The `ResumeAborting` tombstone lies strictly between the image load and
/// the freeze of userspace: the metrics stage is entered only once the image
/// is loaded, the tombstone stage only from the wait that follows it, and the
/// freeze only once the tombstone is written.
pub proof fn lemma_tombstone_between_load_and_freeze(m: ConductorModel, event: ResumeEvent)
    ensures
        ({
            let n = step_spec(m, event).0;
            &&& (n.stage is RecordingImageMetrics && !(m.stage is RecordingImageMetrics)) ==> (
            m.stage is LoadingImage && event is ImageLoaded)
            &&& (n.stage is WaitingResumeReady && !(m.stage is WaitingResumeReady))
                ==> m.stage is RecordingImageMetrics
            &&& (n.stage is WritingTombstone && !(m.stage is WritingTombstone)) ==> (
            m.stage is WaitingResumeReady && event is Done)
            &&& (n.stage is FreezingUserspace && !(m.stage is FreezingUserspace)) ==> (
            m.stage is WritingTombstone && event is Done)
        }),
{
}

/// Whether `stage` waits on an operation whose failure ends the attempt.
pub open spec fn fails_into_cleanup(stage: ResumeStage) -> bool {
    match stage {
        ResumeStage::PreparingPreload | ResumeStage::StartingPreloader { .. }
        | ResumeStage::WaitingForEvent | ResumeStage::FetchingUserKey { .. }
        | ResumeStage::StoppingPreloader { .. } | ResumeStage::MakingThinpoolWritable { .. }
        | ResumeStage::TearingDownHiberimage { .. } | ResumeStage::SettingUpSnapshotDevice { .. }
        | ResumeStage::LockingDownHiberimage { .. } | ResumeStage::RecordingHibernatingUser { .. }
        | ResumeStage::LockingProcessMemory | ResumeStage::MountingHibermeta
        | ResumeStage::NotifyingPowerd | ResumeStage::LoadingImage
        | ResumeStage::WaitingResumeReady | ResumeStage::WritingTombstone
        | ResumeStage::FreezingUserspace | ResumeStage::FlushingAndSyncing
        | ResumeStage::LaunchingImage => true,
        _ => false,
    }
}

/// Whether `stage` is the start of the cleanup, which restores logging,
/// replays the logs and merges the stateful snapshots, with `result`.
pub open spec fn cleanup_with(stage: ResumeStage, result: Result<(), ResumeFailure>) -> bool {
    stage == (ResumeStage::LoggingFailure { result }) || stage == (ResumeStage::RestoringLogging {
        result,
    })
}

/// The earlier failure that a stage of the refusal or of the abort carries:
/// the error the run ends with, whatever happens while tearing down.
pub open spec fn carried_failure(stage: ResumeStage) -> Option<ResumeFailure> {
    match stage {
        ResumeStage::StoppingPreloader { then } => match then {
            AfterStop::Abort(reason) => Some(ResumeFailure::NotSupported(reason)),
            AfterStop::Reject(failure) => Some(failure),
            AfterStop::Resume => None,
        },
        ResumeStage::MakingThinpoolWritable { failure } => Some(failure),
        ResumeStage::TearingDownHiberimage { failure } => Some(failure),
        ResumeStage::SettingUpSnapshotDevice { failure } => failure,
        ResumeStage::LockingDownHiberimage { failure } => failure,
        ResumeStage::RecordingHibernatingUser { failure } => Some(failure),
        _ => None,
    }
}

/// Every failure leaves through one exit. A failed operation of the attempt
/// leads into the cleanup with that error; a failure while tearing down a
/// refused or aborted attempt is swallowed, and the cleanup keeps the error
/// that caused the refusal or the abort; a failure while deciding leads into
/// the refusal, which prepares for a future hibernate first.
pub proof fn lemma_failures_take_the_single_exit(m: ConductorModel, err: HibernateError)
    ensures
        ({
            let n = step_spec(m, ResumeEvent::Failed(err)).0;
            &&& (fails_into_cleanup(m.stage) && carried_failure(m.stage) is None) ==> cleanup_with(
                n.stage,
                Err(ResumeFailure::Operation(err)),
            )
            &&& carried_failure(m.stage) matches Some(f) ==> cleanup_with(n.stage, Err(f))
            &&& (m.stage is ReadingCookie || m.stage is ReadingHibernatingUser
                || m.stage is ResettingCookie) ==> refused_with(
                n.stage,
                ResumeFailure::Operation(err),
            )
        }),
{
}

/// A jump into the resumed image that returns at all is a failed resume.
pub proof fn lemma_returning_restore_fails(m: ConductorModel)
    requires
        m.stage is LaunchingImage,
    ensures
        cleanup_with(step_spec(m, ResumeEvent::Done).0.stage, Err(ResumeFailure::RestoreReturned)),
{
}

} // verus!
