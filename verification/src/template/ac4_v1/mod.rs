//! `ac4_v1`: an AC-4 stream passed through, with no filter settings.
use vstd::prelude::*;

pub mod xml;

use crate::decode::{empty_overrides, OverridesModel};
use crate::schema::{
    constraints_model, rates_model, schemas_model, strs_model, values_model, Constraint,
    ConstraintModel, ParamSchema, SchemaModel, Value, ValueModel,
};
use crate::spec::{FilterOverrides, JobMode};
use crate::text::owned;

verus! {

/// Template id.
pub const ID: &'static str = "ac4_v1";

/// Template id.
pub open spec fn ac4v1_id() -> Seq<char> {
    "ac4_v1"@
}

/// Profiles the template accepts.
pub open spec fn ac4v1_profiles() -> Seq<Seq<char>> {
    seq!["standard"@]
}

/// Profiles the template accepts.
pub fn valid_profiles() -> (r: Vec<&'static str>)
    ensures
        strs_model(r@) == ac4v1_profiles(),
{
    let r = vec!["standard"];
    assert(strs_model(r@) =~= ac4v1_profiles());
    r
}

/// Encode modes the template accepts.
pub open spec fn ac4v1_modes() -> Seq<Seq<char>> {
    seq!["ac4"@]
}

/// Encode modes the template accepts.
pub fn valid_encode_modes() -> (r: Vec<&'static str>)
    ensures
        strs_model(r@) == ac4v1_modes(),
{
    let r = vec!["ac4"];
    assert(strs_model(r@) =~= ac4v1_modes());
    r
}

/// Upper bound of any data rate: none is set.
pub const BITRATE_HARD_MAX: u16 = 0;

/// The template has no parameters.
pub open spec fn ac4v1_schemas() -> Seq<SchemaModel> {
    Seq::empty()
}

/// The template has no parameters.
pub fn param_schemas() -> (r: Vec<ParamSchema>)
    ensures
        schemas_model(r@) == ac4v1_schemas(),
{
    let r: Vec<ParamSchema> = Vec::new();
    assert(schemas_model(r@) =~= ac4v1_schemas());
    r
}

/// The template has no constraints.
pub open spec fn ac4v1_constraints() -> Seq<ConstraintModel> {
    Seq::empty()
}

/// The template has no constraints.
pub fn constraints() -> (r: Vec<Constraint>)
    ensures
        constraints_model(r@) == ac4v1_constraints(),
{
    let r: Vec<Constraint> = Vec::new();
    assert(constraints_model(r@) =~= ac4v1_constraints());
    r
}

/// The template has no data rates.
pub open spec fn ac4v1_rates() -> Seq<(Seq<char>, Seq<u16>)> {
    Seq::empty()
}

/// The template has no data rates.
pub fn bitrate_sets() -> (r: Vec<(&'static str, Vec<u16>)>)
    ensures
        rates_model(r@) == ac4v1_rates(),
{
    let r: Vec<(&'static str, Vec<u16>)> = Vec::new();
    assert(rates_model(r@) =~= ac4v1_rates());
    r
}

/// The filter of the template: it has no settings.
#[derive(Debug, Clone, Copy)]
pub struct Ac4V1Filter;

/// Overrides are refused: the template has none to take.
pub open spec fn ac4v1_apply(o: OverridesModel) -> Result<(), Seq<char>> {
    if o == empty_overrides() {
        Ok(())
    } else {
        Err("template_id 'ac4_v1' does not expose filter overrides yet"@)
    }
}

/// Refuses any override.
pub fn apply_overrides(overrides: &FilterOverrides) -> (r: Result<(), String>)
    ensures
        crate::schema::unit_model(r) == ac4v1_apply(overrides@),
{
    if overrides.is_empty() {
        assert(overrides@ == empty_overrides());
        Ok(())
    } else {
        assert(overrides@ != empty_overrides());
        Err(owned("template_id 'ac4_v1' does not expose filter overrides yet"))
    }
}

/// The template's check of file counts: one input, one output, single mode.
pub open spec fn ac4v1_io_outcome(job_mode: JobMode, inputs: nat, outputs: nat) -> Result<(), Seq<char>> {
    if job_mode != JobMode::Single {
        Err("template_id 'ac4_v1' only supports job_mode=single"@)
    } else if inputs == 0 || outputs == 0 {
        Err("input.file_names and output.file_names must not be empty"@)
    } else if inputs != 1 || outputs != 1 {
        Err("job_mode=single requires exactly one input and one output file name"@)
    } else {
        Ok(())
    }
}

/// Checks the file counts for the template.
pub fn validate_io(job_mode: JobMode, input_names: &Vec<String>, output_names: &Vec<String>) -> (r: Result<
    (),
    String,
>)
    ensures
        crate::schema::unit_model(r) == ac4v1_io_outcome(job_mode, input_names@.len(), output_names@.len()),
{
    match job_mode {
        JobMode::Single => {},
        JobMode::Album => {
            return Err(owned("template_id 'ac4_v1' only supports job_mode=single"));
        },
    }
    if input_names.len() == 0 || output_names.len() == 0 {
        return Err(owned("input.file_names and output.file_names must not be empty"));
    }
    if input_names.len() != 1 || output_names.len() != 1 {
        return Err(owned("job_mode=single requires exactly one input and one output file name"));
    }
    Ok(())
}

/// The template has no values for constraints to read.
pub fn constraint_values() -> (r: Vec<(&'static str, Value)>)
    ensures
        values_model(r@) == Seq::<(Seq<char>, ValueModel)>::empty(),
{
    let r: Vec<(&'static str, Value)> = Vec::new();
    assert(values_model(r@) =~= Seq::<(Seq<char>, ValueModel)>::empty());
    r
}

} // verus!
