//! Reading the status that the kernel reports for a power supply.

use vstd::prelude::*;
use vstd::string::*;

verus! {

/// The status of a power supply, as in the kernel's `POWER_SUPPLY_STATUS_`
/// values. A charger reports only `Charging` or `NotCharging`.
#[derive(Clone, Copy, Debug, PartialEq, Eq, Structural)]
pub enum PowerSupplyStatus {
    Unknown,
    Charging,
    Discharging,
    NotCharging,
    Full,
}

/// The source of power of the system.
#[derive(Clone, Copy, Debug, PartialEq, Eq, Structural)]
pub enum PowerSourceType {
    AC,
    DC,
}

#[verifier::external_type_specification]
#[verifier::external_body]
pub struct ExPathBuf(std::path::PathBuf);

/// A failure to learn the power source.
#[derive(Debug)]
pub struct PowerSourceError {
    pub message: String,
}

/// Tells the current power source of the system.
pub trait PowerSourceProvider {
    /// Returns the current power source of the system.
    fn get_power_source(&self) -> Result<PowerSourceType, PowerSourceError>;
}

/// Finds the power source under a sysfs tree rooted at `root`: the system
/// runs on AC when a power supply there is online and charging.
#[derive(Debug)]
pub struct DirectoryPowerSourceProvider {
    root: std::path::PathBuf,
}

impl DirectoryPowerSourceProvider {
    /// The root of the sysfs tree.
    pub closed spec fn root_spec(&self) -> std::path::PathBuf {
        self.root
    }

    /// A provider that looks under `root`.
    pub fn new(root: std::path::PathBuf) -> (r: Self)
        ensures
            r.root_spec() == root,
    {
        Self { root }
    }

    /// The root of the sysfs tree.
    pub fn root(&self) -> (r: &std::path::PathBuf)
        ensures
            *r == self.root_spec(),
    {
        &self.root
    }
}

/// What `str::trim_end` returns for `s`.
pub uninterp spec fn trim_end_of(s: Seq<char>) -> Seq<char>;

/// Relies on `str::trim_end`: `s` without its trailing whitespace, which
/// depends on the characters alone.
#[verifier::external_body]
fn trim_end(s: &str) -> (r: &str)
    ensures
        r@ == trim_end_of(s@),
{
    s.trim_end()
}

/// The status named by `s`, once trailing whitespace is removed.
pub open spec fn status_named(s: Seq<char>) -> Option<PowerSupplyStatus> {
    if s == "Unknown"@ {
        Some(PowerSupplyStatus::Unknown)
    } else if s == "Charging"@ {
        Some(PowerSupplyStatus::Charging)
    } else if s == "Discharging"@ {
        Some(PowerSupplyStatus::Discharging)
    } else if s == "Not charging"@ {
        Some(PowerSupplyStatus::NotCharging)
    } else if s == "Full"@ {
        Some(PowerSupplyStatus::Full)
    } else {
        None
    }
}

/// A status that is not one of the names the kernel uses.
#[derive(Debug)]
pub struct UnknownPowerSupplyStatus {
    pub status: String,
}

impl PowerSupplyStatus {
    /// Reads a status as the kernel writes it in sysfs.
    pub fn parse(s: &str) -> (r: Option<PowerSupplyStatus>)
        ensures
            r == status_named(trim_end_of(s@)),
    {
        let t = String::from_str(trim_end(s));
        if t == String::from_str("Unknown") {
            Some(PowerSupplyStatus::Unknown)
        } else if t == String::from_str("Charging") {
            Some(PowerSupplyStatus::Charging)
        } else if t == String::from_str("Discharging") {
            Some(PowerSupplyStatus::Discharging)
        } else if t == String::from_str("Not charging") {
            Some(PowerSupplyStatus::NotCharging)
        } else if t == String::from_str("Full") {
            Some(PowerSupplyStatus::Full)
        } else {
            None
        }
    }
}

impl std::str::FromStr for PowerSupplyStatus {
    type Err = UnknownPowerSupplyStatus;

    fn from_str(s: &str) -> Result<Self, Self::Err> {
        match PowerSupplyStatus::parse(s) {
            Some(status) => Ok(status),
            None => Err(UnknownPowerSupplyStatus { status: s.to_owned() }),
        }
    }
}

/// Whether a power supply powers the system: it is online and charging.
/// A status that cannot be read or named does not count.
pub fn supply_powers_system(online: u32, status: Option<&str>) -> (r: bool)
    ensures
        r == (online == 1 && (status matches Some(s) && status_named(trim_end_of(s@)) == Some(
            PowerSupplyStatus::Charging,
        ))),
{
    if online != 1 {
        return false;
    }
    match status {
        Some(s) => match PowerSupplyStatus::parse(s) {
            Some(PowerSupplyStatus::Charging) => true,
            _ => false,
        },
        None => false,
    }
}

} // verus!
