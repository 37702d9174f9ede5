//! The fixed ABI gate: an artifact's exported functions must match the
//! process-wide interface schema exactly before it may be instantiated.

use vstd::prelude::*;
use vstd::string::StringExecFns;
use crate::errors::{SchemaError, ValidationError};
use crate::strutil::chars_eq;

verus! {

/// The fixed host machine types the schema's type tags resolve to.
#[derive(Debug, Clone, Copy, PartialEq, Eq, Structural)]
pub enum HostType {
    /// A pointer-sized integer.
    PointerSized,
    /// A raw 32-bit integer.
    Int32,
    /// A raw 64-bit integer.
    Int64,
}

/// One required export: a function name, its parameter type tags by
/// position, and at most one return type tag.
#[derive(Debug, PartialEq, Eq)]
pub struct FunctionSignature {
    pub name: String,
    pub params: Vec<String>,
    pub returns: Option<String>,
}

/// The mathematical model of a required export.
pub struct SignatureV {
    pub name: Seq<char>,
    pub params: Seq<Seq<char>>,
    pub returns: Option<Seq<char>>,
}

impl View for FunctionSignature {
    type V = SignatureV;

    open spec fn view(&self) -> SignatureV {
        SignatureV {
            name: self.name@,
            params: self.params.deep_view(),
            returns: (match self.returns {
                Some(t) => Some(t@),
                None => None,
            }),
        }
    }
}

impl DeepView for FunctionSignature {
    type V = SignatureV;

    open spec fn deep_view(&self) -> SignatureV {
        self.view()
    }
}

/// The interface every artifact must satisfy.  Loaded once per process,
/// before any plugin load, and immutable afterwards; see `SchemaSlot`.
#[derive(Debug, PartialEq, Eq)]
pub struct InterfaceSchema {
    pub functions: Vec<FunctionSignature>,
}

/// One function actually exported by a candidate artifact, as handed over
/// by whatever introspected the loaded binary.
#[derive(Debug, PartialEq, Eq)]
pub struct ExportedFunction {
    pub name: String,
    pub params: Vec<HostType>,
    pub results: Vec<HostType>,
}

/// The mathematical model of an actual export.
pub struct ExportV {
    pub name: Seq<char>,
    pub params: Seq<HostType>,
    pub results: Seq<HostType>,
}

impl View for ExportedFunction {
    type V = ExportV;

    open spec fn view(&self) -> ExportV {
        ExportV { name: self.name@, params: self.params@, results: self.results@ }
    }
}

impl DeepView for ExportedFunction {
    type V = ExportV;

    open spec fn deep_view(&self) -> ExportV {
        self.view()
    }
}

/// The mathematical model of a validation failure.
pub enum ValErrV {
    MissingExport(Seq<char>),
    ParameterTypeMismatch(Seq<char>, int),
    ReturnTypeMismatch(Seq<char>),
    SchemaTypeMapping(Seq<char>),
}

impl View for ValidationError {
    type V = ValErrV;

    open spec fn view(&self) -> ValErrV {
        match self {
            ValidationError::MissingExport(n) => ValErrV::MissingExport(n@),
            ValidationError::ParameterTypeMismatch { function, index } =>
                ValErrV::ParameterTypeMismatch(function@, *index as int),
            ValidationError::ReturnTypeMismatch(n) => ValErrV::ReturnTypeMismatch(n@),
            ValidationError::SchemaTypeMapping(t) => ValErrV::SchemaTypeMapping(t@),
        }
    }
}

/// The host type, if any, a schema type tag names.
pub open spec fn spec_resolve_type_tag(t: Seq<char>) -> Option<HostType> {
    if t == "pointer"@ {
        Some(HostType::PointerSized)
    } else if t == "i32"@ {
        Some(HostType::Int32)
    } else if t == "i64"@ {
        Some(HostType::Int64)
    } else {
        None
    }
}

/// Resolves a schema type tag through the fixed vocabulary; a tag outside
/// it is a configuration error of its own, distinct from a mismatch.
pub fn resolve_type_tag(tag: &str) -> (r: Result<HostType, ValidationError>)
    ensures
        match r {
            Ok(h) => spec_resolve_type_tag(tag@) == Some(h),
            Err(e) => spec_resolve_type_tag(tag@) is None && (e matches
                ValidationError::SchemaTypeMapping(t) && t@ == tag@),
        },
{
    if chars_eq(tag, "pointer") {
        Ok(HostType::PointerSized)
    } else if chars_eq(tag, "i32") {
        Ok(HostType::Int32)
    } else if chars_eq(tag, "i64") {
        Ok(HostType::Int64)
    } else {
        Err(ValidationError::SchemaTypeMapping(String::from_str(tag)))
    }
}

/// The index of the first export with the given name, from position `j` on.
pub open spec fn spec_find_export(exports: Seq<ExportV>, name: Seq<char>, j: int) -> Option<int>
    decreases exports.len() - j,
    when 0 <= j
{
    if j >= exports.len() {
        None
    } else if exports[j].name == name {
        Some(j)
    } else {
        spec_find_export(exports, name, j + 1)
    }
}

/// The first complaint against a parameter list, checking positions from
/// `j` on: an unresolvable schema tag is reported as such; a missing,
/// extra, or differently typed parameter is a mismatch at the first
/// offending position (the shorter length when the counts differ).
pub open spec fn spec_check_params(
    fname: Seq<char>,
    tags: Seq<Seq<char>>,
    actual: Seq<HostType>,
    j: int,
) -> Option<ValErrV>
    decreases tags.len() - j,
    when 0 <= j
{
    if j < tags.len() {
        match spec_resolve_type_tag(tags[j]) {
            None => Some(ValErrV::SchemaTypeMapping(tags[j])),
            Some(h) => if j < actual.len() && actual[j] == h {
                spec_check_params(fname, tags, actual, j + 1)
            } else {
                Some(ValErrV::ParameterTypeMismatch(fname, j))
            },
        }
    } else if actual.len() > tags.len() {
        Some(ValErrV::ParameterTypeMismatch(fname, tags.len() as int))
    } else {
        None
    }
}

/// The first complaint against a function's returned values: with a
/// return tag in the schema, the export must return exactly one value of
/// that type; without one, it must return nothing.
pub open spec fn spec_check_returns(
    fname: Seq<char>,
    ret: Option<Seq<char>>,
    results: Seq<HostType>,
) -> Option<ValErrV> {
    match ret {
        None => if results.len() == 0 {
            None
        } else {
            Some(ValErrV::ReturnTypeMismatch(fname))
        },
        Some(tag) => match spec_resolve_type_tag(tag) {
            None => Some(ValErrV::SchemaTypeMapping(tag)),
            Some(h) => if results == seq![h] {
                None
            } else {
                Some(ValErrV::ReturnTypeMismatch(fname))
            },
        },
    }
}

/// The first complaint against one required signature: the export must
/// exist under exactly that name, then its parameters are checked, then
/// its returned values.
pub open spec fn spec_validate_sig(sig: SignatureV, exports: Seq<ExportV>) -> Option<ValErrV> {
    match spec_find_export(exports, sig.name, 0) {
        None => Some(ValErrV::MissingExport(sig.name)),
        Some(j) => match spec_check_params(sig.name, sig.params, exports[j].params, 0) {
            Some(e) => Some(e),
            None => spec_check_returns(sig.name, sig.returns, exports[j].results),
        },
    }
}

/// The first complaint against the whole schema, checking signatures from
/// position `k` on; `None` means the artifact satisfies all of them.
pub open spec fn spec_validate(
    sigs: Seq<SignatureV>,
    exports: Seq<ExportV>,
    k: int,
) -> Option<ValErrV>
    decreases sigs.len() - k,
    when 0 <= k
{
    if k >= sigs.len() {
        None
    } else {
        match spec_validate_sig(sigs[k], exports) {
            Some(e) => Some(e),
            None => spec_validate(sigs, exports, k + 1),
        }
    }
}

/// The position of the first export with the given name, if any.
fn find_export(exports: &Vec<ExportedFunction>, name: &str) -> (r: Option<usize>)
    ensures
        match r {
            Some(f) => f < exports.len() && spec_find_export(exports.deep_view(), name@, 0)
                == Some(f as int),
            None => spec_find_export(exports.deep_view(), name@, 0) is None,
        },
{
    let mut j: usize = 0;
    while j < exports.len()
        invariant
            j <= exports.len(),
            spec_find_export(exports.deep_view(), name@, 0) == spec_find_export(
                exports.deep_view(),
                name@,
                j as int,
            ),
        decreases exports.len() - j,
    {
        if chars_eq(exports[j].name.as_str(), name) {
            return Some(j);
        }
        j += 1;
    }
    None
}

/// Checks a candidate artifact's exported surface against the schema.
/// All-or-nothing: the first complaint, in schema order, rejects the
/// artifact outright.
pub fn validate_interface(schema: &InterfaceSchema, exports: &Vec<ExportedFunction>) -> (r: Result<
    (),
    ValidationError,
>)
    ensures
        match r {
            Ok(_) => spec_validate(schema.functions.deep_view(), exports.deep_view(), 0)
                is None,
            Err(e) => spec_validate(schema.functions.deep_view(), exports.deep_view(), 0)
                == Some(e@),
        },
{
    let ghost sigs = schema.functions.deep_view();
    let ghost exps = exports.deep_view();
    let mut k: usize = 0;
    while k < schema.functions.len()
        invariant
            k <= schema.functions.len(),
            sigs == schema.functions.deep_view(),
            exps == exports.deep_view(),
            spec_validate(sigs, exps, 0) == spec_validate(sigs, exps, k as int),
        decreases schema.functions.len() - k,
    {
        let sig = &schema.functions[k];
        let ghost sigv = sigs[k as int];
        let found = find_export(exports, sig.name.as_str());
        let f = match found {
            None => {
                return Err(ValidationError::MissingExport(sig.name.clone()));
            },
            Some(f) => f,
        };
        // parameters, position by position
        let tags_len = sig.params.len();
        let actual_len = exports[f].params.len();
        let mut p: usize = 0;
        while p < tags_len
            invariant
                p <= tags_len,
                k < sigs.len(),
                f < exports.len(),
                sigs == schema.functions.deep_view(),
                exps == exports.deep_view(),
                sigv == sigs[k as int],
                sig == schema.functions@[k as int],
                sigv.name == sig.name@,
                tags_len == sig.params.len(),
                actual_len == exps[f as int].params.len(),
                spec_find_export(exps, sigv.name, 0) == Some(f as int),
                spec_validate(sigs, exps, 0) == spec_validate(sigs, exps, k as int),
                spec_check_params(sigv.name, sigv.params, exps[f as int].params, 0)
                    == spec_check_params(sigv.name, sigv.params, exps[f as int].params, p as int),
            decreases tags_len - p,
        {
            match resolve_type_tag(sig.params[p].as_str()) {
                Err(e) => {
                    return Err(e);
                },
                Ok(h) => {
                    if p >= actual_len {
                        return Err(
                            ValidationError::ParameterTypeMismatch {
                                function: sig.name.clone(),
                                index: p,
                            },
                        );
                    }
                    if !(exports[f].params[p] == h) {
                        return Err(
                            ValidationError::ParameterTypeMismatch {
                                function: sig.name.clone(),
                                index: p,
                            },
                        );
                    }
                },
            }
            p += 1;
        }
        if actual_len > tags_len {
            return Err(
                ValidationError::ParameterTypeMismatch { function: sig.name.clone(), index: tags_len },
            );
        }
        // returned values
        match &sig.returns {
            None => {
                if exports[f].results.len() > 0 {
                    return Err(ValidationError::ReturnTypeMismatch(sig.name.clone()));
                }
            },
            Some(tag) => {
                match resolve_type_tag(tag.as_str()) {
                    Err(e) => {
                        return Err(e);
                    },
                    Ok(h) => {
                        if exports[f].results.len() != 1 {
                            return Err(ValidationError::ReturnTypeMismatch(sig.name.clone()));
                        }
                        if !(exports[f].results[0] == h) {
                            return Err(ValidationError::ReturnTypeMismatch(sig.name.clone()));
                        }
                        proof {
                            assert(exps[f as int].results =~= seq![h]);
                        }
                    },
                }
            },
        }
        k += 1;
    }
    Ok(())
}

/// The process-wide slot for the interface schema: fillable exactly once,
/// immutable afterwards.  A second store fails and leaves the first value
/// in effect; a read before the first store is a hard failure, never a
/// default.
#[derive(Debug)]
pub struct SchemaSlot {
    value: Option<InterfaceSchema>,
}

impl View for SchemaSlot {
    type V = Option<Seq<SignatureV>>;

    closed spec fn view(&self) -> Option<Seq<SignatureV>> {
        match self.value {
            Some(ref s) => Some(s.functions.deep_view()),
            None => None,
        }
    }
}

impl SchemaSlot {
    /// The empty slot.
    pub fn new() -> (r: SchemaSlot)
        ensures
            r@ is None,
    {
        SchemaSlot { value: None }
    }

    /// Stores the schema if the slot is still empty.  Storing twice is an
    /// error, and the first value remains in effect.
    pub fn set(&mut self, schema: InterfaceSchema) -> (r: Result<(), SchemaError>)
        ensures
            old(self)@ is None ==> r is Ok && final(self)@ == Some(
                schema.functions.deep_view(),
            ),
            old(self)@ is Some ==> r == Err::<(), _>(SchemaError::AlreadySet) && final(self)@
                == old(self)@,
    {
        match self.value {
            Some(_) => Err(SchemaError::AlreadySet),
            None => {
                self.value = Some(schema);
                Ok(())
            },
        }
    }

    /// The stored schema; reading an empty slot is an error, never a
    /// default.
    pub fn get(&self) -> (r: Result<&InterfaceSchema, SchemaError>)
        ensures
            match r {
                Ok(s) => self@ == Some(s.functions.deep_view()),
                Err(e) => e == SchemaError::NotSet && self@ is None,
            },
    {
        match &self.value {
            Some(s) => Ok(s),
            None => Err(SchemaError::NotSet),
        }
    }
}

} // verus!
