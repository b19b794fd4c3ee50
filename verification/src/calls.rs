//! The native calls the wrapper asks for, spelled out for either calling convention.
//!
//! The program that embeds the library performs each call as it is described here and
//! hands back what the engine returned.
use vstd::prelude::*;
use crate::bindings::{
    fiftyoneDegreesException, fiftyoneDegreesPropertiesRequired, fiftyoneDegreesResourceManager,
};
use crate::config::{spec_select, CallingConvention, ConfigBinding, Profile};
use crate::encoding::terminated;
use crate::extract::{VALUE_CAPACITY, VALUE_SEPARATOR};

verus! {

/// Initialisation of a resource manager from a data file.
#[derive(Debug, PartialEq, Eq)]
pub enum InitCall {
    /// Through the helper routine, which takes no configuration: it works on its own
    /// copy of the low-memory one.
    Helper { manager: fiftyoneDegreesResourceManager, path: Vec<u8> },
    /// Through the engine's own initialiser, which is handed the configuration, the
    /// restriction on the properties to load and a status record.
    Direct {
        manager: fiftyoneDegreesResourceManager,
        config: ConfigBinding,
        properties: Option<fiftyoneDegreesPropertiesRequired>,
        path: Vec<u8>,
        exception: fiftyoneDegreesException,
    },
}

/// Evaluation of an address string against a result object.
#[derive(Debug, PartialEq, Eq)]
pub enum EvalCall {
    /// Through the helper routine.
    Helper { results: usize, address: Vec<u8> },
    /// Through the engine's own entry point, with the length of the address in bytes and
    /// a status record.
    Direct { results: usize, address: Vec<u8>, length: usize, exception: fiftyoneDegreesException },
}

/// Extraction of a property's values as one string.
#[derive(Debug, PartialEq, Eq)]
pub enum ValueCall {
    /// Through the helper routine.
    Helper { results: usize, property: Vec<u8>, buffer: Vec<u8> },
    /// Through the engine's own entry point, with the separator between candidate values
    /// and a status record.
    Direct {
        results: usize,
        property: Vec<u8>,
        buffer: Vec<u8>,
        separator: Vec<u8>,
        exception: fiftyoneDegreesException,
    },
}

/// Whether the helper routine serves: it is linked in, and its built-in configuration is
/// the one asked for.
pub open spec fn helper_serves(profile: Profile, convention: CallingConvention) -> bool {
    convention == CallingConvention::Native && profile == Profile::LowMemory
}

/// Whether `call` initialises a zeroed manager from the file at `path` with `profile`, in
/// the form that `convention` requires: through the helper where it serves, else through
/// the engine's initialiser with all properties of the data file loaded and a status
/// record that starts out as "not set".
pub open spec fn is_init_call(
    call: InitCall,
    path: Seq<u8>,
    profile: Profile,
    convention: CallingConvention,
) -> bool {
    match call {
        InitCall::Helper { manager, path: encoded } => {
            &&& helper_serves(profile, convention)
            &&& manager.is_zeroed()
            &&& encoded@ == terminated(path)
        },
        InitCall::Direct { manager, config, properties, path: encoded, exception } => {
            &&& !helper_serves(profile, convention)
            &&& manager.is_zeroed()
            &&& config == spec_select(profile, convention)
            &&& properties is None
            &&& encoded@ == terminated(path)
            &&& exception == fiftyoneDegreesException::spec_not_set()
        },
    }
}

/// Whether `call` evaluates the address `text` on the result object at `results`, in the
/// form that `convention` requires.
pub open spec fn is_eval_call(
    call: EvalCall,
    results: usize,
    text: Seq<u8>,
    convention: CallingConvention,
) -> bool {
    match call {
        EvalCall::Helper { results: object, address } => {
            &&& convention == CallingConvention::Native
            &&& object == results
            &&& address@ == terminated(text)
        },
        EvalCall::Direct { results: object, address, length, exception } => {
            &&& convention == CallingConvention::Constrained
            &&& object == results
            &&& address@ == terminated(text)
            &&& length == text.len()
            &&& exception == fiftyoneDegreesException::spec_not_set()
        },
    }
}

/// The output buffer as it is handed to the engine: `VALUE_CAPACITY` zero bytes.
pub open spec fn blank_buffer() -> Seq<u8> {
    Seq::new(VALUE_CAPACITY as nat, |i: int| 0u8)
}

/// The separator as it is handed to the engine: `|` and a terminator.
pub open spec fn separator_string() -> Seq<u8> {
    seq![VALUE_SEPARATOR, 0u8]
}

/// Whether `call` extracts the property named `name` from the result object at `results`
/// into a blank buffer, in the form that `convention` requires.
pub open spec fn is_value_call(
    call: ValueCall,
    results: usize,
    name: Seq<u8>,
    convention: CallingConvention,
) -> bool {
    match call {
        ValueCall::Helper { results: object, property, buffer } => {
            &&& convention == CallingConvention::Native
            &&& object == results
            &&& property@ == terminated(name)
            &&& buffer@ == blank_buffer()
        },
        ValueCall::Direct { results: object, property, buffer, separator, exception } => {
            &&& convention == CallingConvention::Constrained
            &&& object == results
            &&& property@ == terminated(name)
            &&& buffer@ == blank_buffer()
            &&& separator@ == separator_string()
            &&& exception == fiftyoneDegreesException::spec_not_set()
        },
    }
}

} // verus!
