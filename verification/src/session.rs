//! Parts of the saved-session format that carry no measurements: the schema
//! version gate, the light-pollution model tag, the planet switch and the
//! table of apparent-place corrections.
use vstd::prelude::*;

use crate::text::{dec, push_dec, push_str, string_from_chars};

verus! {

/// Version of the session schema this library reads and writes.
pub const SESSION_SCHEMA_VERSION: u32 = 6;

/// Why a saved session was refused.
#[derive(Debug, Clone, Copy, PartialEq, Eq, Structural)]
pub enum SessionError {
    /// The file declares a schema version other than [`SESSION_SCHEMA_VERSION`].
    UnsupportedSchemaVersion { found: u32 },
}

impl SessionError {
    /// The text a host prints for this error.
    pub open spec fn message_spec(self) -> Seq<char> {
        match self {
            SessionError::UnsupportedSchemaVersion { found } => "Unsupported session schemaVersion "@
                + dec(found as nat) + " (expected "@ + dec(SESSION_SCHEMA_VERSION as nat) + ")"@,
        }
    }

    /// The text a host prints for this error.
    pub fn message(&self) -> (r: String)
        ensures
            r@ == self.message_spec(),
    {
        let mut v: Vec<char> = Vec::new();
        match *self {
            SessionError::UnsupportedSchemaVersion { found } => {
                push_str(&mut v, "Unsupported session schemaVersion ");
                push_dec(&mut v, found as u64);
                push_str(&mut v, " (expected ");
                push_dec(&mut v, SESSION_SCHEMA_VERSION as u64);
                push_str(&mut v, ")");
            },
        }
        assert(v@ =~= self.message_spec());
        string_from_chars(&v)
    }
}

/// The first check of a session restore: only the current schema is read.
pub fn check_schema_version(found: u32) -> (r: Result<(), SessionError>)
    ensures
        found == SESSION_SCHEMA_VERSION ==> r == Ok::<(), SessionError>(()),
        found != SESSION_SCHEMA_VERSION ==> r == Err::<(), SessionError>(
            SessionError::UnsupportedSchemaVersion { found },
        ),
{
    if found != SESSION_SCHEMA_VERSION {
        Err(SessionError::UnsupportedSchemaVersion { found })
    } else {
        Ok(())
    }
}

/// Which light-pollution model a session stores.
#[derive(Debug, Clone, Copy, PartialEq, Eq, Hash, Structural)]
pub enum SessionLightPollutionKind {
    /// A Bortle class.
    Bortle,
    /// A measured sky-quality-meter brightness.
    Sqm,
    /// The 2016 world-atlas value at a site.
    Atlas2016,
}

impl SessionLightPollutionKind {
    /// Kebab-case spelling stored in session files.
    pub open spec fn kebab_spec(self) -> Seq<char> {
        match self {
            SessionLightPollutionKind::Bortle => "bortle"@,
            SessionLightPollutionKind::Sqm => "sqm"@,
            SessionLightPollutionKind::Atlas2016 => "atlas2016"@,
        }
    }

    pub fn as_kebab_str(self) -> (r: &'static str)
        ensures
            r@ == self.kebab_spec(),
    {
        match self {
            SessionLightPollutionKind::Bortle => "bortle",
            SessionLightPollutionKind::Sqm => "sqm",
            SessionLightPollutionKind::Atlas2016 => "atlas2016",
        }
    }
}

/// Planet layer switch of a session.
#[derive(Debug, Clone, Copy, PartialEq, Eq, Structural)]
pub struct SessionPlanets {
    pub enabled: bool,
}

/// Which apparent-place corrections a scene applies.
#[derive(Debug, Clone, Copy, PartialEq, Eq, Structural)]
pub struct CorrectionSnapshot {
    pub time_scales: bool,
    pub precession: bool,
    pub nutation: bool,
    pub annual_aberration: bool,
    pub proper_motion: bool,
    pub atmospheric_refraction: bool,
    pub topocentric_solar_system: bool,
}

impl CorrectionSnapshot {
    /// Every correction switched on.
    pub open spec fn all_on() -> CorrectionSnapshot {
        CorrectionSnapshot {
            time_scales: true,
            precession: true,
            nutation: true,
            annual_aberration: true,
            proper_motion: true,
            atmospheric_refraction: true,
            topocentric_solar_system: true,
        }
    }

    /// The correction table of a scene. The apparent-place corrections are
    /// always on; refraction is on exactly when the scene's atmosphere
    /// scatters sunlight with a positive surface pressure, which the caller
    /// reports as `refraction_active`.
    pub fn for_scene(refraction_active: bool) -> (r: Self)
        ensures
            r == (CorrectionSnapshot {
                atmospheric_refraction: refraction_active,
                ..Self::all_on()
            }),
    {
        CorrectionSnapshot {
            time_scales: true,
            precession: true,
            nutation: true,
            annual_aberration: true,
            proper_motion: true,
            atmospheric_refraction: refraction_active,
            topocentric_solar_system: true,
        }
    }
}

impl Default for CorrectionSnapshot {
    /// Every correction switched on.
    fn default() -> (r: Self)
        ensures
            r == Self::all_on(),
    {
        CorrectionSnapshot {
            time_scales: true,
            precession: true,
            nutation: true,
            annual_aberration: true,
            proper_motion: true,
            atmospheric_refraction: true,
            topocentric_solar_system: true,
        }
    }
}

} // verus!
