//! Shapes of the structures that cross the native call boundary, as plain values.
//!
//! Nothing here is interpreted beyond what the lifecycle logic reads: whether a
//! manager is still zeroed, and which status an exception record carries.
use vstd::prelude::*;

verus! {

/// Status code type of the engine.
pub type StatusCode = u32;

/// Status the engine reports for a call that succeeded.
pub const FIFTYONE_DEGREES_STATUS_SUCCESS: StatusCode = 0;

/// Status an exception record carries before any call has touched it.
pub const FIFTYONE_DEGREES_STATUS_NOT_SET: StatusCode = 26;

/// The engine's top-level handle to a loaded data file.
#[derive(Clone, Copy, Debug, PartialEq, Eq, Structural)]
pub struct fiftyoneDegreesResourceManager {
    /// Address of the active resource, null while the manager is not initialised.
    pub active: usize,
}

impl fiftyoneDegreesResourceManager {
    /// Whether this is the all-zero manager that is safe to free without initialisation.
    pub open spec fn is_zeroed(&self) -> bool {
        self.active == 0
    }

    /// The all-zero manager that initialisation starts from.
    pub fn zeroed() -> (manager: Self)
        ensures
            manager.is_zeroed(),
            manager == (fiftyoneDegreesResourceManager { active: 0 }),
    {
        fiftyoneDegreesResourceManager { active: 0 }
    }
}

/// Status record that the engine fills on calls made without helper routines.
#[derive(Clone, Copy, Debug, PartialEq, Eq, Structural)]
pub struct fiftyoneDegreesException {
    pub status: StatusCode,
    /// Address of a message text, or null.
    pub message: usize,
    /// Address of a source file name, or null.
    pub file: usize,
    pub line: i32,
}

impl fiftyoneDegreesException {
    /// The record as it must look before a call: no status set, no context.
    pub open spec fn spec_not_set() -> Self {
        fiftyoneDegreesException {
            status: FIFTYONE_DEGREES_STATUS_NOT_SET,
            message: 0,
            file: 0,
            line: 0,
        }
    }

    /// A fresh record carrying the "not set" status, so that a call which leaves it
    /// untouched can be told from one that cleared it.
    pub fn not_set() -> (exception: Self)
        ensures
            exception == Self::spec_not_set(),
    {
        fiftyoneDegreesException {
            status: FIFTYONE_DEGREES_STATUS_NOT_SET,
            message: 0,
            file: 0,
            line: 0,
        }
    }

    /// Whether a call has written a status into the record.
    pub fn is_set(&self) -> (set: bool)
        ensures
            set == (self.status != FIFTYONE_DEGREES_STATUS_NOT_SET),
    {
        self.status != FIFTYONE_DEGREES_STATUS_NOT_SET
    }
}

/// Number of bytes in a configuration blob.
pub const CONFIG_SIZE: usize = 160;

/// A configuration profile of the engine: an opaque blob that is copied or referenced,
/// never read.
#[derive(Clone, Copy, Debug, PartialEq, Eq)]
pub struct fiftyoneDegreesConfigIpi {
    pub _data: [u8; CONFIG_SIZE],
}

/// Restriction of the properties an engine loads. The lifecycle logic only ever passes
/// "no restriction", a null in its place.
#[derive(Clone, Copy, Debug, PartialEq, Eq, Structural)]
pub struct fiftyoneDegreesPropertiesRequired {
    pub array: usize,
    pub count: u32,
    pub string: usize,
    pub existing: usize,
}

/// A result object of the engine. Its size is the engine's business: only its address is
/// ever held, so the type itself has no content.
#[derive(Clone, Copy, Debug, PartialEq, Eq)]
pub struct fiftyoneDegreesResultsIpi {
    pub _data: [u8; 0],
}

} // verus!
