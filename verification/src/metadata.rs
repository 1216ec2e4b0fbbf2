//! What a template publishes about itself.
use vstd::prelude::*;

use crate::schema::{constraints_model, rates_model, schemas_model, strs_model, Constraint, ParamSchema};
use crate::template::params::find_schema_spec;
use crate::template::{
    kind_constraints, kind_hard_max, kind_id, kind_modes, kind_profiles, kind_rates, kind_schemas,
    template_of, unsupported_template_error, TemplateRegistry,
};

verus! {

/// The parameters, constraints and limits of a template.
#[derive(Debug, Clone)]
pub struct TemplateMetadata {
    pub template_id: &'static str,
    pub valid_profiles: Vec<&'static str>,
    pub valid_encode_modes: Vec<&'static str>,
    pub param_schemas: Vec<ParamSchema>,
    pub constraints: Vec<Constraint>,
    pub bitrate_sets: Vec<(&'static str, Vec<u16>)>,
    pub bitrate_hard_max: u16,
}

/// Whether the metadata is that of the template with the id.
pub open spec fn describes(m: TemplateMetadata, id: Seq<char>) -> bool {
    match template_of(id) {
        Some(k) => {
            &&& m.template_id@ == kind_id(k)
            &&& strs_model(m.valid_profiles@) == kind_profiles(k)
            &&& strs_model(m.valid_encode_modes@) == kind_modes(k)
            &&& schemas_model(m.param_schemas@) == kind_schemas(k)
            &&& constraints_model(m.constraints@) == kind_constraints(k)
            &&& rates_model(m.bitrate_sets@) == kind_rates(k)
            &&& m.bitrate_hard_max == kind_hard_max(k)
        },
        None => false,
    }
}

/// The metadata of a template, or the error for an unknown id.
pub fn template_metadata(template_id: &str) -> (r: Result<TemplateMetadata, String>)
    ensures
        match r {
            Ok(m) => describes(m, template_id@),
            Err(e) => template_of(template_id@) is None && e@ == unsupported_template_error(template_id@),
        },
{
    let t = match TemplateRegistry::get(template_id) {
        Ok(t) => t,
        Err(e) => {
            return Err(e);
        },
    };
    Ok(TemplateMetadata {
        template_id: t.id(),
        valid_profiles: t.valid_profiles(),
        valid_encode_modes: t.valid_encode_modes(),
        param_schemas: t.param_schemas(),
        constraints: t.constraints(),
        bitrate_sets: t.bitrate_sets(),
        bitrate_hard_max: t.bitrate_hard_max(),
    })
}

/// The parameters of a template.
pub fn param_schemas(template_id: &str) -> (r: Result<Vec<ParamSchema>, String>)
    ensures
        match r {
            Ok(v) => template_of(template_id@) matches Some(k) && schemas_model(v@) == kind_schemas(k),
            Err(e) => template_of(template_id@) is None && e@ == unsupported_template_error(template_id@),
        },
{
    match template_metadata(template_id) {
        Ok(m) => Ok(m.param_schemas),
        Err(e) => Err(e),
    }
}

/// The constraints of a template.
pub fn constraints(template_id: &str) -> (r: Result<Vec<Constraint>, String>)
    ensures
        match r {
            Ok(v) => template_of(template_id@) matches Some(k) && constraints_model(v@) == kind_constraints(k),
            Err(e) => template_of(template_id@) is None && e@ == unsupported_template_error(template_id@),
        },
{
    match template_metadata(template_id) {
        Ok(m) => Ok(m.constraints),
        Err(e) => Err(e),
    }
}

/// The schema of a parameter of a template, if it has one.
pub fn find_param_schema(template_id: &str, key: &str) -> (r: Result<Option<ParamSchema>, String>)
    ensures
        match r {
            Ok(Some(s)) => template_of(template_id@) matches Some(k) && find_schema_spec(kind_schemas(k), key@)
                == Some(s@),
            Ok(None) => template_of(template_id@) matches Some(k) && find_schema_spec(kind_schemas(k), key@)
                is None,
            Err(e) => template_of(template_id@) is None && e@ == unsupported_template_error(template_id@),
        },
{
    let mut schemas = match param_schemas(template_id) {
        Ok(v) => v,
        Err(e) => {
            return Err(e);
        },
    };
    let mut i: usize = 0;
    let ghost m = schemas_model(schemas@);
    assert(m.skip(0) == m);
    while i < schemas.len()
        invariant
            i <= schemas.len(),
            m == schemas_model(schemas@),
            template_of(template_id@) matches Some(k) && m == kind_schemas(k),
            find_schema_spec(m, key@) == find_schema_spec(m.skip(i as int), key@),
        decreases schemas.len() - i,
    {
        assert(m.skip(i as int)[0] == schemas@[i as int]@);
        if crate::text::str_eq(schemas[i].key, key) {
            assert(find_schema_spec(m.skip(i as int), key@) == Some(schemas@[i as int]@));
            let s = schemas.remove(i);
            return Ok(Some(s));
        }
        assert(m.skip(i as int).drop_first() == m.skip(i + 1));
        i += 1;
    }
    Ok(None)
}

} // verus!
