//! The result handle: one result object of the engine, from creation to release.
use vstd::prelude::*;
use vstd::string::StringSliceAdditionalSpecFns;
use crate::bindings::fiftyoneDegreesException;
use crate::calls::{is_eval_call, is_value_call, EvalCall, ValueCall};
use crate::config::CallingConvention;
use crate::encoding::{c_string, has_nul, is_first_nul};
use crate::engine::IpiEngine;
use crate::error::{EncodingError, EvalError, LookupError};
use crate::extract::{is_reading, read_value, VALUE_CAPACITY, VALUE_SEPARATOR};

verus! {

/// Whether an evaluation that reported `reported` has failed.
///
/// Only the helper routine's return value is read, and zero, the engine's status for
/// success, is taken to mean success there too. Under the constrained convention the
/// status record of the call is left unread: an address the engine could not use shows
/// as properties without values.
pub open spec fn evaluation_failed(convention: CallingConvention, reported: i32) -> bool {
    convention == CallingConvention::Native && reported != 0
}

/// Owns one result object that reads from an engine's manager.
///
/// The object is known by its address alone, which is never null. The handle borrows the
/// engine it was created against for as long as it lives, so that engine cannot be
/// released before the handle is.
#[derive(Debug)]
pub struct IpiResults<'a> {
    engine: &'a IpiEngine,
    results: usize,
    evaluated: bool,
}

impl<'a> IpiResults<'a> {
    #[verifier::type_invariant]
    spec fn object_exists(self) -> bool {
        self.results != 0
    }

    /// The engine this handle reads from.
    pub closed spec fn spec_engine(&self) -> &'a IpiEngine {
        self.engine
    }

    /// Address of the result object.
    pub closed spec fn spec_address(&self) -> usize {
        self.results
    }

    /// Whether an address has been evaluated on this handle with success.
    pub closed spec fn spec_is_evaluated(&self) -> bool {
        self.evaluated
    }

    /// Takes charge of the result object at `results`, which the engine created against
    /// the manager of `engine`.
    ///
    /// A null address means that the engine could not create the object; that is not a
    /// case this function is called for.
    pub fn new(engine: &'a IpiEngine, results: usize) -> (handle: IpiResults<'a>)
        requires
            results != 0,
        ensures
            handle.engine() == engine,
            handle.address() == results,
            !handle.is_evaluated(),
    {
        IpiResults { engine, results, evaluated: false }
    }

    /// The engine this handle reads from.
    #[verifier::when_used_as_spec(spec_engine)]
    pub fn engine(&self) -> (engine: &'a IpiEngine)
        ensures
            engine == self.spec_engine(),
    {
        self.engine
    }

    /// Address of the result object.
    #[verifier::when_used_as_spec(spec_address)]
    pub fn address(&self) -> (address: usize)
        ensures
            address == self.spec_address(),
            address != 0,
    {
        proof {
            use_type_invariant(self);
        }
        self.results
    }

    /// Whether an address has been evaluated on this handle with success.
    #[verifier::when_used_as_spec(spec_is_evaluated)]
    pub fn is_evaluated(&self) -> (evaluated: bool)
        ensures
            evaluated == self.spec_is_evaluated(),
    {
        self.evaluated
    }

    /// Describes the native call that evaluates `ip_address` on this result object.
    ///
    /// An address that holds a zero byte is an encoding error, and the handle is then
    /// unchanged. The text is not examined otherwise: telling an IPv4 from an IPv6
    /// address, and either from nonsense, is the engine's part. Once the call is
    /// described the handle no longer counts as evaluated; what the call reported goes to
    /// `finish_evaluation`, which decides whether the evaluation succeeded.
    pub fn process_ip_address(&mut self, ip_address: &str, convention: CallingConvention) -> (call:
        Result<EvalCall, EvalError>)
        ensures
            final(self).engine() == old(self).engine(),
            final(self).address() == old(self).address(),
            match call {
                Ok(eval) => {
                    &&& !has_nul(ip_address.spec_bytes())
                    &&& is_eval_call(
                        eval,
                        old(self).address(),
                        ip_address.spec_bytes(),
                        convention,
                    )
                    &&& !final(self).is_evaluated()
                },
                Err(EvalError::Encoding(error)) => {
                    &&& is_first_nul(ip_address.spec_bytes(), error.position as int)
                    &&& final(self).is_evaluated() == old(self).is_evaluated()
                },
                Err(EvalError::Engine { .. }) => false,
            },
    {
        proof {
            use_type_invariant(&*self);
        }
        let address = match c_string(ip_address) {
            Ok(address) => address,
            Err(error) => {
                return Err(EvalError::Encoding(error));
            },
        };
        let length: usize = address.len() - 1;
        self.evaluated = false;
        match convention {
            CallingConvention::Native => Ok(EvalCall::Helper { results: self.results, address }),
            CallingConvention::Constrained => Ok(
                EvalCall::Direct {
                    results: self.results,
                    address,
                    length,
                    exception: fiftyoneDegreesException::not_set(),
                },
            ),
        }
    }

    /// Reads what the evaluation call reported.
    ///
    /// `reported` is the helper routine's return value under the native convention; under
    /// the constrained one the call returns nothing, and `reported` is not looked at. The
    /// evaluation fails exactly when `evaluation_failed` says so: the error then carries
    /// the status verbatim and the handle stays unevaluated. Otherwise the handle is
    /// evaluated.
    pub fn finish_evaluation(&mut self, convention: CallingConvention, reported: i32) -> (outcome:
        Result<(), EvalError>)
        ensures
            final(self).engine() == old(self).engine(),
            final(self).address() == old(self).address(),
            evaluation_failed(convention, reported) ==> {
                &&& outcome == Err::<(), EvalError>((EvalError::Engine { status_code: reported }))
                &&& !final(self).is_evaluated()
            },
            !evaluation_failed(convention, reported) ==> {
                &&& outcome is Ok
                &&& final(self).is_evaluated()
            },
    {
        proof {
            use_type_invariant(&*self);
        }
        match convention {
            CallingConvention::Native => {
                if reported != 0 {
                    self.evaluated = false;
                    return Err(EvalError::Engine { status_code: reported });
                }
            },
            CallingConvention::Constrained => {},
        }
        self.evaluated = true;
        Ok(())
    }

    /// Describes the native call that extracts the property `property_name` into a blank
    /// buffer of `VALUE_CAPACITY` bytes.
    ///
    /// Fails exactly when the name holds a zero byte.
    pub fn value_call(&self, property_name: &str, convention: CallingConvention) -> (call: Result<
        ValueCall,
        EncodingError,
    >)
        ensures
            match call {
                Ok(query) => {
                    &&& !has_nul(property_name.spec_bytes())
                    &&& is_value_call(
                        query,
                        self.address(),
                        property_name.spec_bytes(),
                        convention,
                    )
                },
                Err(error) => is_first_nul(property_name.spec_bytes(), error.position as int),
            },
    {
        let property = match c_string(property_name) {
            Ok(property) => property,
            Err(error) => {
                return Err(error);
            },
        };
        let buffer: Vec<u8> = vec![0u8; VALUE_CAPACITY];
        assert(buffer@ =~= crate::calls::blank_buffer());
        match convention {
            CallingConvention::Native => Ok(
                ValueCall::Helper { results: self.results, property, buffer },
            ),
            CallingConvention::Constrained => {
                let mut separator: Vec<u8> = Vec::new();
                separator.push(VALUE_SEPARATOR);
                separator.push(0);
                assert(separator@ =~= crate::calls::separator_string());
                Ok(
                    ValueCall::Direct {
                        results: self.results,
                        property,
                        buffer,
                        separator,
                        exception: fiftyoneDegreesException::not_set(),
                    },
                )
            },
        }
    }

    /// The value of the property `property_name`, read from the output `buffer` of the
    /// extraction call and the length `len` that the call reported.
    ///
    /// The handle is not changed, and nothing is kept from one reading to the next: the
    /// value is a function of the three arguments alone.
    pub fn get_value(&self, property_name: &str, buffer: &[u8], len: i32) -> (value: Result<
        String,
        LookupError,
    >)
        ensures
            is_reading(value, property_name, buffer@, len as int),
    {
        read_value(property_name, buffer, len)
    }

    /// Gives up the result object so that it can be freed, and ends the borrow of the
    /// engine. The address that comes back is never null.
    pub fn release(self) -> (address: usize)
        ensures
            address == self.address(),
            address != 0,
    {
        proof {
            use_type_invariant(&self);
        }
        self.results
    }
}

} // verus!
