//! Validation of one overridden parameter against the schema of a template.
use vstd::prelude::*;

use crate::schema::{
    availability_allows, schemas_model, SchemaModel, availability_error, rates_model, validate_mode_availability,
    validate_value, value_outcome, ParamSchema, ParamValue, ValidationContext, ValueModel,
};
use crate::text::{cat, i64_text, int_text, owned, seq_lower, str_eq};

verus! {

/// What the validation of a parameter depends on.
pub struct ParamEnv {
    pub schemas: Seq<SchemaModel>,
    pub mode: Seq<char>,
    pub sets: Seq<(Seq<char>, Seq<u16>)>,
    pub hard_max: u16,
}

/// The schemas, bitrate table and mode a template validates overrides with.
pub struct ParamCtx<'a> {
    pub schemas: Vec<ParamSchema>,
    pub encode_mode: &'a str,
    pub bitrate_sets: Vec<(&'static str, Vec<u16>)>,
    pub bitrate_hard_max: u16,
}

impl<'a> ParamCtx<'a> {
    pub open spec fn env(&self) -> ParamEnv {
        ParamEnv {
            schemas: schemas_model(self.schemas@),
            mode: self.encode_mode@,
            sets: rates_model(self.bitrate_sets@),
            hard_max: self.bitrate_hard_max,
        }
    }
}

/// The first schema with the key.
pub open spec fn find_schema_spec(schemas: Seq<SchemaModel>, key: Seq<char>) -> Option<SchemaModel>
    decreases schemas.len(),
{
    if schemas.len() == 0 {
        None
    } else if schemas[0].key == key {
        Some(schemas[0])
    } else {
        find_schema_spec(schemas.drop_first(), key)
    }
}

/// The schema of a parameter.
pub fn find_schema<'b>(schemas: &'b Vec<ParamSchema>, key: &str) -> (r: Option<&'b ParamSchema>)
    ensures
        match r {
            Some(s) => find_schema_spec(schemas_model(schemas@), key@) == Some(s@),
            None => find_schema_spec(schemas_model(schemas@), key@) is None,
        },
{
    let ghost m = schemas_model(schemas@);
    let mut i: usize = 0;
    assert(m.skip(0) == m);
    while i < schemas.len()
        invariant
            i <= schemas.len(),
            m == schemas_model(schemas@),
            find_schema_spec(m, key@) == find_schema_spec(m.skip(i as int), key@),
        decreases schemas.len() - i,
    {
        assert(m.skip(i as int)[0] == schemas@[i as int]@);
        if str_eq(schemas[i].key, key) {
            return Some(&schemas[i]);
        }
        assert(m.skip(i as int).drop_first() == m.skip(i + 1));
        i += 1;
    }
    None
}

/// Schema lookup, availability and rule check of one value.
pub open spec fn checked_value(e: ParamEnv, key: Seq<char>, value: ValueModel) -> Result<
    ValueModel,
    Seq<char>,
> {
    match find_schema_spec(e.schemas, key) {
        None => Err("unknown parameter: "@ + key),
        Some(s) => if !availability_allows(s.avail, e.mode) {
            Err(availability_error(s.key, e.mode))
        } else {
            value_outcome(key, s.rule, value, e.mode, e.sets, e.hard_max)
        },
    }
}

/// Outcome of validating a string parameter.
pub open spec fn str_param(e: ParamEnv, key: Seq<char>, value: Seq<char>) -> Result<
    Seq<char>,
    Seq<char>,
> {
    match checked_value(e, key, ValueModel::Str(value)) {
        Ok(ValueModel::Str(v)) => Ok(v),
        Ok(_) => Err("parameter "@ + key + " returned non-string value"@),
        Err(x) => Err(x),
    }
}

/// Outcome of validating an integer parameter.
pub open spec fn int_param(e: ParamEnv, key: Seq<char>, value: int) -> Result<int, Seq<char>> {
    match checked_value(e, key, ValueModel::Int(value)) {
        Ok(ValueModel::Int(v)) => Ok(v),
        Ok(_) => Err("parameter "@ + key + " returned non-integer value"@),
        Err(x) => Err(x),
    }
}

/// Outcome of validating an integer parameter stored in the range `lo..=hi`.
pub open spec fn ranged_param(e: ParamEnv, key: Seq<char>, value: int, lo: int, hi: int) -> Result<
    int,
    Seq<char>,
> {
    match int_param(e, key, value) {
        Ok(v) => if lo <= v && v <= hi {
            Ok(v)
        } else {
            Err("invalid value '"@ + int_text(v) + "' for "@ + key)
        },
        Err(x) => Err(x),
    }
}

/// Outcome of validating a boolean parameter.
pub open spec fn bool_param(e: ParamEnv, key: Seq<char>, value: bool) -> Result<bool, Seq<char>> {
    match checked_value(e, key, ValueModel::Bool(value)) {
        Ok(ValueModel::Bool(v)) => Ok(v),
        Ok(_) => Err("parameter "@ + key + " returned non-bool value"@),
        Err(x) => Err(x),
    }
}

fn check_value(ctx: &ParamCtx, key: &str, value: ParamValue) -> (r: Result<ParamValue, String>)
    ensures
        crate::schema::value_result_model(r) == checked_value(ctx.env(), key@, value@),
{
    let schema = match find_schema(&ctx.schemas, key) {
        Some(s) => s,
        None => {
            return Err(cat("unknown parameter: ", key));
        },
    };
    match validate_mode_availability(schema.key, &schema.mode_availability, ctx.encode_mode) {
        Ok(()) => {},
        Err(e) => {
            return Err(e);
        },
    }
    let vctx = ValidationContext {
        encode_mode: ctx.encode_mode,
        bitrate_sets: &ctx.bitrate_sets,
        bitrate_hard_max: ctx.bitrate_hard_max,
    };
    validate_value(key, &schema.rule, value, &vctx)
}

/// Validates a string parameter; enum values come back canonical.
pub fn validate_string_param(ctx: &ParamCtx, key: &str, value: &str) -> (r: Result<String, String>)
    ensures
        crate::template::timecode::string_result(r) == str_param(ctx.env(), key@, value@),
{
    match check_value(ctx, key, ParamValue::Str(owned(value))) {
        Ok(ParamValue::Str(v)) => Ok(v),
        Ok(_) => Err(crate::text::cat3("parameter ", key, " returned non-string value")),
        Err(e) => Err(e),
    }
}

pub open spec fn int_result(r: Result<i64, String>) -> Result<int, Seq<char>> {
    match r {
        Ok(v) => Ok(v as int),
        Err(e) => Err(e@),
    }
}

/// Validates an integer parameter.
pub fn validate_int_param(ctx: &ParamCtx, key: &str, value: i64) -> (r: Result<i64, String>)
    ensures
        int_result(r) == int_param(ctx.env(), key@, value as int),
{
    match check_value(ctx, key, ParamValue::Int(value)) {
        Ok(ParamValue::Int(v)) => Ok(v),
        Ok(_) => Err(crate::text::cat3("parameter ", key, " returned non-integer value")),
        Err(e) => Err(e),
    }
}

/// Validates an integer parameter that is stored in the range `lo..=hi`.
pub fn validate_ranged_param(ctx: &ParamCtx, key: &str, value: i64, lo: i64, hi: i64) -> (r: Result<
    i64,
    String,
>)
    ensures
        int_result(r) == ranged_param(ctx.env(), key@, value as int, lo as int, hi as int),
{
    match validate_int_param(ctx, key, value) {
        Ok(v) => {
            if lo <= v && v <= hi {
                Ok(v)
            } else {
                let mut e = owned("invalid value '");
                e.append(i64_text(v).as_str());
                e.append("' for ");
                e.append(key);
                Err(e)
            }
        },
        Err(e) => Err(e),
    }
}

pub open spec fn bool_result(r: Result<bool, String>) -> Result<bool, Seq<char>> {
    match r {
        Ok(v) => Ok(v),
        Err(e) => Err(e@),
    }
}

/// Validates a boolean parameter.
pub fn validate_bool_param(ctx: &ParamCtx, key: &str, value: bool) -> (r: Result<bool, String>)
    ensures
        bool_result(r) == bool_param(ctx.env(), key@, value),
{
    match check_value(ctx, key, ParamValue::Bool(value)) {
        Ok(ParamValue::Bool(v)) => Ok(v),
        Ok(_) => Err(crate::text::cat3("parameter ", key, " returned non-bool value")),
        Err(e) => Err(e),
    }
}

/// A boolean parameter that validates keeps its value.
pub proof fn lemma_bool_param_value(e: ParamEnv, key: Seq<char>, value: bool)
    ensures
        bool_param(e, key, value) matches Ok(x) ==> x == value,
{
}

/// An integer parameter that validates keeps its value.
pub proof fn lemma_int_param_value(e: ParamEnv, key: Seq<char>, value: int)
    ensures
        int_param(e, key, value) matches Ok(x) ==> x == value,
{
}

/// A ranged integer parameter that validates keeps its value.
pub proof fn lemma_ranged_param_value(e: ParamEnv, key: Seq<char>, value: int, lo: int, hi: int)
    ensures
        ranged_param(e, key, value, lo, hi) matches Ok(x) ==> x == value && lo <= x <= hi,
{
    lemma_int_param_value(e, key, value);
}

/// A string parameter that validates is the given text up to ASCII case.
pub proof fn lemma_str_param_value(e: ParamEnv, key: Seq<char>, value: Seq<char>)
    ensures
        str_param(e, key, value) matches Ok(x) ==> seq_lower(x) == seq_lower(value),
{
    if let Some(s) = find_schema_spec(e.schemas, key) {
        if let crate::schema::RuleModel::Enum(allowed) = s.rule {
            crate::schema::lemma_find_enum_found(allowed, value);
        }
    }
}

} // verus!
