//! The engine handle: one resource manager, from initialisation to teardown.
use vstd::prelude::*;
use vstd::string::StringSliceAdditionalSpecFns;
use crate::bindings::{fiftyoneDegreesException, fiftyoneDegreesResourceManager};
use crate::calls::{is_init_call, InitCall};
use crate::config::{select, CallingConvention, Profile};
use crate::encoding::{c_string, has_nul, is_first_nul};
use crate::error::{EncodingError, InitError};

verus! {

/// Owns one initialised resource manager.
///
/// The manager must be freed exactly once, and only when no result handle reads from it
/// any more. `release` takes the handle by value, so it can happen once only; and every
/// result handle borrows the engine, so it cannot happen while one of them is alive.
#[derive(Debug)]
pub struct IpiEngine {
    manager: fiftyoneDegreesResourceManager,
}

impl IpiEngine {
    /// The manager this handle owns.
    pub closed spec fn manager(&self) -> fiftyoneDegreesResourceManager {
        self.manager
    }

    /// Describes the native call that initialises a manager from the data file at
    /// `data_file_path`.
    ///
    /// Fails exactly when the path holds a zero byte. Whether the file exists is for the
    /// engine to say, through the status of the call.
    ///
    /// Where helper routines are linked in, the low-memory profile goes through the helper
    /// that copies that configuration itself. Every other call goes to the engine's own
    /// initialiser, with the configuration bound as the convention requires, no
    /// restriction on the properties, and a blank status record.
    pub fn prepare(data_file_path: &str, profile: Profile, convention: CallingConvention) -> (call:
        Result<InitCall, EncodingError>)
        ensures
            match call {
                Ok(init) => {
                    &&& !has_nul(data_file_path.spec_bytes())
                    &&& is_init_call(init, data_file_path.spec_bytes(), profile, convention)
                },
                Err(error) => is_first_nul(data_file_path.spec_bytes(), error.position as int),
            },
    {
        let path = match c_string(data_file_path) {
            Ok(path) => path,
            Err(error) => {
                return Err(error);
            },
        };
        let manager = fiftyoneDegreesResourceManager::zeroed();
        match (convention, profile) {
            (CallingConvention::Native, Profile::LowMemory) => Ok(
                InitCall::Helper { manager, path },
            ),
            _ => Ok(
                InitCall::Direct {
                    manager,
                    config: select(profile, convention),
                    properties: None,
                    path,
                    exception: fiftyoneDegreesException::not_set(),
                },
            ),
        }
    }

    /// Takes charge of `manager` after the initialiser has returned `status`.
    ///
    /// A status of zero yields the handle. Any other status is handed back verbatim, and
    /// no handle comes into being.
    pub fn new(manager: fiftyoneDegreesResourceManager, status: i32) -> (engine: Result<
        IpiEngine,
        InitError,
    >)
        ensures
            status == 0 ==> engine is Ok,
            status != 0 ==> engine == Err::<IpiEngine, InitError>(
                InitError { status_code: status },
            ),
            engine matches Ok(handle) ==> handle.manager() == manager,
    {
        if status != 0 {
            return Err(InitError { status_code: status });
        }
        Ok(IpiEngine { manager })
    }

    /// Read access to the manager.
    pub fn get_manager(&self) -> (manager: &fiftyoneDegreesResourceManager)
        ensures
            *manager == self.manager(),
    {
        &self.manager
    }

    /// Gives up the manager so that it can be freed: the very manager the handle was made
    /// with.
    pub fn release(self) -> (freed: fiftyoneDegreesResourceManager)
        ensures
            freed == self.manager(),
    {
        self.manager
    }
}

} // verus!
