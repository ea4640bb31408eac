//! The hibernate cookie: a persisted value that records which phase of
//! hibernate or resume the system is in.

use vstd::prelude::*;

verus! {

/// The values the hibernate cookie can hold.
#[derive(Clone, Copy, Debug, PartialEq, Eq, Structural)]
pub enum HibernateCookieValue {
    /// Nothing to resume: the normal, safe state.
    NoResume,
    /// A hibernate image is waiting to be resumed.
    ResumeInProgress,
    /// The resume got as far as the jump into the image.
    ResumeAborting,
    /// A catastrophic failure forced a reboot.
    EmergencyReboot,
}

/// A short description of a cookie value, for messages.
pub fn cookie_description(cookie: HibernateCookieValue) -> (r: &'static str)
    ensures
        r@ == description_of(cookie),
{
    match cookie {
        HibernateCookieValue::NoResume => "no resume",
        HibernateCookieValue::ResumeInProgress => "resume in progress",
        HibernateCookieValue::ResumeAborting => "resume aborting",
        HibernateCookieValue::EmergencyReboot => "emergency reboot",
    }
}

/// The description `cookie_description` gives.
pub open spec fn description_of(cookie: HibernateCookieValue) -> Seq<char> {
    match cookie {
        HibernateCookieValue::NoResume => "no resume"@,
        HibernateCookieValue::ResumeInProgress => "resume in progress"@,
        HibernateCookieValue::ResumeAborting => "resume aborting"@,
        HibernateCookieValue::EmergencyReboot => "emergency reboot"@,
    }
}

/// What the cookie read at resume time allows.
#[derive(Clone, Copy, Debug, PartialEq, Eq, Structural)]
pub enum CookieVerdict {
    /// Resume may go ahead without an identity check (a dry run).
    Proceed,
    /// A resume is pending: it may go ahead once the authenticating user is
    /// shown to be the one who hibernated.
    VerifyUser,
    /// Nothing to resume.
    NothingPending,
    /// An abnormal value: resume is abandoned, and the cookie is reset to
    /// `NoResume` first where `clear_cookie` is set.
    Abandon { clear_cookie: bool },
}

impl CookieVerdict {
    /// Whether the verdict lets resume continue.
    pub open spec fn permits_resume(self) -> bool {
        self is Proceed || self is VerifyUser
    }

    /// The cookie value the verdict writes before resume is given up, if any.
    pub open spec fn cookie_write(self) -> Option<HibernateCookieValue> {
        match self {
            CookieVerdict::Abandon { clear_cookie: true } => Some(HibernateCookieValue::NoResume),
            _ => None,
        }
    }
}

/// Evaluates the hibernate cookie: only `ResumeInProgress`, or a dry run,
/// lets resume continue, and an `EmergencyReboot` value is cleared once seen.
/// Any value but `ResumeInProgress` refuses resume outside a dry run, and the
/// only change it asks for is that cookie reset.
pub fn decide_to_resume(cookie: HibernateCookieValue, dry_run: bool) -> (r: CookieVerdict)
    ensures
        r == verdict_of(cookie, dry_run),
        cookie == HibernateCookieValue::ResumeInProgress ==> r == CookieVerdict::VerifyUser,
        cookie != HibernateCookieValue::ResumeInProgress && dry_run ==> r == CookieVerdict::Proceed,
        cookie == HibernateCookieValue::NoResume && !dry_run ==> r == CookieVerdict::NothingPending,
        (cookie == HibernateCookieValue::ResumeAborting || cookie
            == HibernateCookieValue::EmergencyReboot) && !dry_run ==> r == (CookieVerdict::Abandon {
            clear_cookie: cookie == HibernateCookieValue::EmergencyReboot,
        }),
        cookie != HibernateCookieValue::ResumeInProgress && !dry_run ==> !r.permits_resume() && (
        r.cookie_write() is None || r.cookie_write() == Some(HibernateCookieValue::NoResume)),
{
    match cookie {
        HibernateCookieValue::ResumeInProgress => CookieVerdict::VerifyUser,
        _ if dry_run => CookieVerdict::Proceed,
        HibernateCookieValue::NoResume => CookieVerdict::NothingPending,
        HibernateCookieValue::ResumeAborting => CookieVerdict::Abandon { clear_cookie: false },
        HibernateCookieValue::EmergencyReboot => CookieVerdict::Abandon { clear_cookie: true },
    }
}

/// The verdict `decide_to_resume` gives.
pub open spec fn verdict_of(cookie: HibernateCookieValue, dry_run: bool) -> CookieVerdict {
    if cookie == HibernateCookieValue::ResumeInProgress {
        CookieVerdict::VerifyUser
    } else if dry_run {
        CookieVerdict::Proceed
    } else if cookie == HibernateCookieValue::NoResume {
        CookieVerdict::NothingPending
    } else {
        CookieVerdict::Abandon { clear_cookie: cookie == HibernateCookieValue::EmergencyReboot }
    }
}

} // verus!
