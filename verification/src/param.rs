use vstd::prelude::*;
use vstd::string::StringSliceAdditionalSpecFns;
use crate::marshal::{MarshalError, nul_free};
use crate::solver::Solver;
use crate::value::RealValue;

verus! {

/// Native status code: the parameter was changed. The only success code.
pub const PARAM_CODE_CHANGED: u32 = 0;

/// Native status code: no parameter has the given key.
pub const PARAM_CODE_NOT_FOUND: u32 = 1;

/// Native status code: the parameter expects a different value kind.
pub const PARAM_CODE_WRONG_TYPE: u32 = 2;

/// Native status code: the value is outside the parameter's domain.
pub const PARAM_CODE_INVALID_VALUE: u32 = 3;

/// The closed set of native parameter status codes. A code outside it
/// signals a version mismatch with the engine and is a fatal condition,
/// never a recoverable outcome, so the translation excludes it.
pub open spec fn param_code_known(code: u32) -> bool {
    ||| code == PARAM_CODE_CHANGED
    ||| code == PARAM_CODE_NOT_FOUND
    ||| code == PARAM_CODE_WRONG_TYPE
    ||| code == PARAM_CODE_INVALID_VALUE
}

/// Why the engine rejected a parameter setting.
#[derive(Debug, Clone, Copy, PartialEq, Eq, Structural)]
pub enum ParamResult {
    /// No parameter has the given key.
    NotFound,
    /// The parameter exists but expects a different value kind.
    WrongType,
    /// The key and kind match but the value is outside the accepted domain.
    InvalidValue,
}

/// The rejection named by a non-success status code.
pub open spec fn param_result_of(code: u32) -> ParamResult {
    if code == PARAM_CODE_NOT_FOUND {
        ParamResult::NotFound
    } else if code == PARAM_CODE_WRONG_TYPE {
        ParamResult::WrongType
    } else {
        ParamResult::InvalidValue
    }
}

impl ParamResult {
    /// Translates a non-success native status code. The code set is
    /// closed against one engine version, so an unknown code is left
    /// out by contract rather than mapped to a recoverable value.
    pub fn from_code(code: u32) -> (r: ParamResult)
        requires
            param_code_known(code),
            code != PARAM_CODE_CHANGED,
        ensures
            r == param_result_of(code),
    {
        if code == PARAM_CODE_NOT_FOUND {
            ParamResult::NotFound
        } else if code == PARAM_CODE_WRONG_TYPE {
            ParamResult::WrongType
        } else {
            ParamResult::InvalidValue
        }
    }
}

/// Failure of one parameter-setting operation: either the key or value
/// never marshaled (surfaced before any native call), or the engine
/// rejected the setting.
#[derive(Debug, Clone, Copy, PartialEq, Eq, Structural)]
pub enum ParamError {
    /// A text value holds an embedded terminator; nothing reached the engine.
    Marshal(MarshalError),
    /// The engine looked at the request and turned it down.
    Rejected(ParamResult),
}

/// Mathematical image of a configuration value.
#[verifier::ext_equal]
pub enum ValueModel {
    Bool(bool),
    Int(i32),
    Real(u64),
    Text(Seq<char>),
}

/// A configuration value of one of the engine's closed set of kinds:
/// boolean, 32-bit integer, real, or text.
#[derive(Debug, PartialEq)]
pub enum ParamValue {
    Bool(bool),
    Int(i32),
    Real(RealValue),
    Text(String),
}

impl View for ParamValue {
    type V = ValueModel;

    open spec fn view(&self) -> ValueModel {
        match self {
            ParamValue::Bool(b) => ValueModel::Bool(*b),
            ParamValue::Int(v) => ValueModel::Int(*v),
            ParamValue::Real(v) => ValueModel::Real(v.bits),
            ParamValue::Text(s) => ValueModel::Text(s@),
        }
    }
}

/// Mathematical image of one accepted or requested setting.
#[verifier::ext_equal]
pub struct SettingModel {
    pub key: Seq<char>,
    pub value: ValueModel,
}

/// One parameter setting: a key and a typed value.
#[derive(Debug)]
pub struct ParamSetting {
    pub key: String,
    pub value: ParamValue,
}

impl View for ParamSetting {
    type V = SettingModel;

    open spec fn view(&self) -> SettingModel {
        SettingModel { key: self.key@, value: self.value@ }
    }
}

/// One of the engine's accepted parameter kinds.
///
/// `set` marshals the key and the value and records the request on the
/// solver; a text value that cannot marshal is rejected here, before any
/// native call is made. The engine's answer is applied afterwards with
/// [`Solver::confirm_param`], which alone moves the request into the
/// accepted configuration.
pub trait Parameter: Sized {
    /// The marshaled image of the value.
    spec fn value_model(self) -> ValueModel;

    /// Whether the value itself marshals (text: no embedded terminator).
    spec fn value_marshals(self) -> bool;

    /// Marshals `key` and `value` and records the request on `solver`.
    fn set(solver: &mut Solver, key: &str, value: Self) -> (r: Result<(), ParamError>)
        ensures
            r is Ok <==> nul_free(key.spec_bytes()) && value.value_marshals(),
            r is Ok ==> final(solver)@.pending == Some(
                (SettingModel { key: key@, value: value.value_model() }),
            ),
            r is Ok ==> final(solver)@.config == old(solver)@.config
                && final(solver)@.problem == old(solver)@.problem,
            r is Err ==> *final(solver) == *old(solver)
                && r == Err::<(), ParamError>(ParamError::Marshal(MarshalError::EmbeddedNul)),
    ;
}

impl Parameter for bool {
    open spec fn value_model(self) -> ValueModel {
        ValueModel::Bool(self)
    }

    open spec fn value_marshals(self) -> bool {
        true
    }

    fn set(solver: &mut Solver, key: &str, value: bool) -> (r: Result<(), ParamError>) {
        solver.record_request(key, ParamValue::Bool(value))
    }
}

impl Parameter for i32 {
    open spec fn value_model(self) -> ValueModel {
        ValueModel::Int(self)
    }

    open spec fn value_marshals(self) -> bool {
        true
    }

    fn set(solver: &mut Solver, key: &str, value: i32) -> (r: Result<(), ParamError>) {
        solver.record_request(key, ParamValue::Int(value))
    }
}

impl Parameter for RealValue {
    open spec fn value_model(self) -> ValueModel {
        ValueModel::Real(self.bits)
    }

    open spec fn value_marshals(self) -> bool {
        true
    }

    fn set(solver: &mut Solver, key: &str, value: RealValue) -> (r: Result<(), ParamError>) {
        solver.record_request(key, ParamValue::Real(value))
    }
}

impl<'a> Parameter for &'a str {
    open spec fn value_model(self) -> ValueModel {
        ValueModel::Text(self@)
    }

    open spec fn value_marshals(self) -> bool {
        nul_free(self.spec_bytes())
    }

    fn set(solver: &mut Solver, key: &str, value: &'a str) -> (r: Result<(), ParamError>) {
        if !crate::marshal::marshals(value) {
            return Err(ParamError::Marshal(MarshalError::EmbeddedNul));
        }
        solver.record_request(key, ParamValue::Text(value.to_owned()))
    }
}

} // verus!
