//! Parameter schemas and constraints of the templates, and their validation.
use vstd::prelude::*;

use crate::text::{
    cat, i64_text, int_text, join, join_strings, lower_char, nat_digits, owned, seq_lower,
    str_eq, to_lower, u64_text,
};

verus! {

/// Where a parameter's definition comes from.
#[derive(Debug, Clone, Copy, PartialEq, Eq, Structural)]
pub enum SourceTag {
    DolbyOfficial,
    DeewObserved,
    DeezyObserved,
}

/// What values a parameter accepts.
#[derive(Debug, Clone)]
pub enum ParamRule {
    Enum(Vec<&'static str>),
    IntRange { min: i64, max: i64 },
    Bool,
    FreeString,
    DataRate,
}

/// In which encode modes a parameter may be set.
#[derive(Debug, Clone)]
pub enum ModeAvailability {
    All,
    Only(Vec<&'static str>),
    Except(Vec<&'static str>),
}

/// A parameter of a template.
#[derive(Debug, Clone)]
pub struct ParamSchema {
    pub key: &'static str,
    pub rule: ParamRule,
    pub mode_availability: ModeAvailability,
    pub sources: Vec<SourceTag>,
}

/// A value that a constraint pins.
#[derive(Debug, Clone, Copy)]
pub enum FixedValue {
    Bool(bool),
    Int(i64),
    Str(&'static str),
}

/// Whether `--allow-fixed-override` lifts a fixed-value constraint.
#[derive(Debug, Clone, Copy, PartialEq, Eq, Structural)]
pub enum OverridePolicy {
    NoOverride,
    AllowFixedOverride,
}

/// A rule over the resolved parameters of a template.
#[derive(Debug, Clone)]
#[allow(inconsistent_fields)]
pub enum Constraint {
    FixedValues {
        when_profile: &'static str,
        fields: Vec<(&'static str, FixedValue)>,
        override_policy: OverridePolicy,
    },
    Forbidden { param: &'static str, when_mode: Vec<&'static str>, message: &'static str },
    Required { param: &'static str, when_mode: &'static str, value: FixedValue },
}

/// A resolved parameter value.
#[derive(Debug, Clone)]
pub enum Value {
    Bool(bool),
    Int(i64),
    Str(String),
}

/// A parameter value as validation sees it.
#[derive(Debug, Clone)]
pub enum ParamValue {
    Str(String),
    Int(i64),
    Bool(bool),
}

/// Mathematical model of a parameter value.
#[verifier::ext_equal]
pub enum ValueModel {
    Bool(bool),
    Int(int),
    Str(Seq<char>),
}

/// Model of a parameter rule.
#[verifier::ext_equal]
pub enum RuleModel {
    Enum(Seq<Seq<char>>),
    IntRange { min: int, max: int },
    Bool,
    FreeString,
    DataRate,
}

/// Model of a mode availability.
#[verifier::ext_equal]
pub enum AvailModel {
    All,
    Only(Seq<Seq<char>>),
    Except(Seq<Seq<char>>),
}

/// Model of a parameter schema.
#[verifier::ext_equal]
pub struct SchemaModel {
    pub key: Seq<char>,
    pub rule: RuleModel,
    pub avail: AvailModel,
    pub sources: Seq<SourceTag>,
}

/// Model of a constraint.
#[verifier::ext_equal]
pub enum ConstraintModel {
    FixedValues { when_profile: Seq<char>, fields: Seq<(Seq<char>, ValueModel)>, allow_override: bool },
    Forbidden { param: Seq<char>, when_mode: Seq<Seq<char>>, message: Seq<char> },
    Required { param: Seq<char>, when_mode: Seq<char>, value: ValueModel },
}

impl View for ParamRule {
    type V = RuleModel;

    open spec fn view(&self) -> RuleModel {
        match self {
            ParamRule::Enum(v) => RuleModel::Enum(strs_model(v@)),
            ParamRule::IntRange { min, max } => RuleModel::IntRange { min: *min as int, max: *max as int },
            ParamRule::Bool => RuleModel::Bool,
            ParamRule::FreeString => RuleModel::FreeString,
            ParamRule::DataRate => RuleModel::DataRate,
        }
    }
}

impl View for ModeAvailability {
    type V = AvailModel;

    open spec fn view(&self) -> AvailModel {
        match self {
            ModeAvailability::All => AvailModel::All,
            ModeAvailability::Only(v) => AvailModel::Only(strs_model(v@)),
            ModeAvailability::Except(v) => AvailModel::Except(strs_model(v@)),
        }
    }
}

impl View for ParamSchema {
    type V = SchemaModel;

    open spec fn view(&self) -> SchemaModel {
        SchemaModel {
            key: self.key@,
            rule: self.rule@,
            avail: self.mode_availability@,
            sources: self.sources@,
        }
    }
}

fn copy_vec<T: Copy>(v: &Vec<T>) -> (r: Vec<T>)
    ensures
        r@ == v@,
{
    let mut c: Vec<T> = Vec::new();
    let mut i: usize = 0;
    while i < v.len()
        invariant
            i <= v.len(),
            c@ == v@.take(i as int),
        decreases v.len() - i,
    {
        c.push(v[i]);
        assert(v@.take(i + 1) == v@.take(i as int).push(v@[i as int]));
        i += 1;
    }
    assert(v@.take(v.len() as int) == v@);
    c
}

impl ParamSchema {
    /// A copy of the schema.
    pub fn clone_schema(&self) -> (r: ParamSchema)
        ensures
            r@ == self@,
    {
        let rule = match &self.rule {
            ParamRule::Enum(v) => ParamRule::Enum(copy_vec(v)),
            ParamRule::IntRange { min, max } => ParamRule::IntRange { min: *min, max: *max },
            ParamRule::Bool => ParamRule::Bool,
            ParamRule::FreeString => ParamRule::FreeString,
            ParamRule::DataRate => ParamRule::DataRate,
        };
        let mode_availability = match &self.mode_availability {
            ModeAvailability::All => ModeAvailability::All,
            ModeAvailability::Only(v) => ModeAvailability::Only(copy_vec(v)),
            ModeAvailability::Except(v) => ModeAvailability::Except(copy_vec(v)),
        };
        ParamSchema { key: self.key, rule, mode_availability, sources: copy_vec(&self.sources) }
    }
}

impl View for Constraint {
    type V = ConstraintModel;

    open spec fn view(&self) -> ConstraintModel {
        match self {
            Constraint::FixedValues { when_profile, fields, override_policy } => ConstraintModel::FixedValues {
                when_profile: when_profile@,
                fields: fields_model(fields@),
                allow_override: *override_policy == OverridePolicy::AllowFixedOverride,
            },
            Constraint::Forbidden { param, when_mode, message } => ConstraintModel::Forbidden {
                param: param@,
                when_mode: strs_model(when_mode@),
                message: message@,
            },
            Constraint::Required { param, when_mode, value } => ConstraintModel::Required {
                param: param@,
                when_mode: when_mode@,
                value: fixed_model(*value),
            },
        }
    }
}

pub open spec fn schemas_model(v: Seq<ParamSchema>) -> Seq<SchemaModel> {
    v.map_values(|x: ParamSchema| x@)
}

pub open spec fn constraints_model(v: Seq<Constraint>) -> Seq<ConstraintModel> {
    v.map_values(|x: Constraint| x@)
}

/// Text of a value in error messages.
pub open spec fn value_text(v: ValueModel) -> Seq<char> {
    match v {
        ValueModel::Bool(b) => crate::text::bool_text(b),
        ValueModel::Int(i) => int_text(i),
        ValueModel::Str(s) => s,
    }
}

impl View for Value {
    type V = ValueModel;

    open spec fn view(&self) -> ValueModel {
        match self {
            Value::Bool(b) => ValueModel::Bool(*b),
            Value::Int(i) => ValueModel::Int(*i as int),
            Value::Str(s) => ValueModel::Str(s@),
        }
    }
}

impl View for ParamValue {
    type V = ValueModel;

    open spec fn view(&self) -> ValueModel {
        match self {
            ParamValue::Bool(b) => ValueModel::Bool(*b),
            ParamValue::Int(i) => ValueModel::Int(*i as int),
            ParamValue::Str(s) => ValueModel::Str(s@),
        }
    }
}

impl Value {
    /// A copy of the value.
    pub fn clone_value(&self) -> (r: Value)
        ensures
            r@ == self@,
    {
        match self {
            Value::Bool(b) => Value::Bool(*b),
            Value::Int(i) => Value::Int(*i),
            Value::Str(s) => Value::Str(s.clone()),
        }
    }
}

/// Model of a pinned value.
pub open spec fn fixed_model(v: FixedValue) -> ValueModel {
    match v {
        FixedValue::Bool(b) => ValueModel::Bool(b),
        FixedValue::Int(i) => ValueModel::Int(i as int),
        FixedValue::Str(s) => ValueModel::Str(s@),
    }
}

/// Text of a pinned value in error messages.
pub open spec fn fixed_text(v: FixedValue) -> Seq<char> {
    match v {
        FixedValue::Bool(b) => crate::text::bool_text(b),
        FixedValue::Int(i) => int_text(i as int),
        FixedValue::Str(s) => s@,
    }
}

/// The value of a pinned constant.
pub fn value_of_fixed(v: FixedValue) -> (r: Value)
    ensures
        r@ == fixed_model(v),
{
    match v {
        FixedValue::Bool(b) => Value::Bool(b),
        FixedValue::Int(i) => Value::Int(i),
        FixedValue::Str(s) => Value::Str(owned(s)),
    }
}

/// Text of a pinned value, as error messages print it.
pub fn fixed_value_for_error(v: FixedValue) -> (r: String)
    ensures
        r@ == fixed_text(v),
        r@ == value_text(fixed_model(v)),
{
    match v {
        FixedValue::Bool(b) => owned(crate::text::bool_str(b)),
        FixedValue::Int(i) => i64_text(i),
        FixedValue::Str(s) => owned(s),
    }
}

/// Views of a list of string slices.
pub open spec fn strs_model(v: Seq<&'static str>) -> Seq<Seq<char>> {
    v.map_values(|w: &'static str| w@)
}

/// Options for validating one parameter.
pub struct ValidationContext<'a> {
    pub encode_mode: &'a str,
    pub bitrate_sets: &'a Vec<(&'static str, Vec<u16>)>,
    pub bitrate_hard_max: u16,
}

/// Options for evaluating constraints.
pub struct ConstraintContext<'a> {
    pub profile: &'a str,
    pub encode_mode: &'a str,
    pub allow_fixed_override: bool,
}

/// `Result` with the error taken by its text.
pub open spec fn unit_model(r: Result<(), String>) -> Result<(), Seq<char>> {
    match r {
        Ok(_) => Ok(()),
        Err(e) => Err(e@),
    }
}

pub open spec fn value_result_model(r: Result<ParamValue, String>) -> Result<
    ValueModel,
    Seq<char>,
> {
    match r {
        Ok(v) => Ok(v@),
        Err(e) => Err(e@),
    }
}

pub open spec fn availability_allows(mode: AvailModel, encode_mode: Seq<char>) -> bool {
    match mode {
        AvailModel::All => true,
        AvailModel::Only(values) => values.contains(encode_mode),
        AvailModel::Except(values) => !values.contains(encode_mode),
    }
}

pub open spec fn availability_error(key: Seq<char>, encode_mode: Seq<char>) -> Seq<char> {
    "parameter '"@ + key + "' is not available for encode_mode '"@ + encode_mode + "'"@
}

/// Checks that a parameter may be set in the encode mode.
pub fn validate_mode_availability(key: &str, mode: &ModeAvailability, encode_mode: &str) -> (r:
    Result<(), String>)
    ensures
        unit_model(r) == (if availability_allows(mode@, encode_mode@) {
            Ok(())
        } else {
            Err(availability_error(key@, encode_mode@))
        }),
{
    let is_allowed = match mode {
        ModeAvailability::All => true,
        ModeAvailability::Only(values) => crate::text::contains_str(values, encode_mode),
        ModeAvailability::Except(values) => !crate::text::contains_str(values, encode_mode),
    };
    if is_allowed {
        Ok(())
    } else {
        let mut e = owned("parameter '");
        e.append(key);
        e.append("' is not available for encode_mode '");
        e.append(encode_mode);
        e.append("'");
        Err(e)
    }
}

/// The first allowed value that equals `raw` up to ASCII case.
pub open spec fn find_enum(allowed: Seq<Seq<char>>, raw: Seq<char>) -> Option<Seq<char>>
    decreases allowed.len(),
{
    if allowed.len() == 0 {
        None
    } else if seq_lower(allowed[0]) == seq_lower(raw) {
        Some(allowed[0])
    } else {
        find_enum(allowed.drop_first(), raw)
    }
}

/// The bitrates allowed for a mode: the first entry of the table for it.
pub open spec fn find_rates(sets: Seq<(Seq<char>, Seq<u16>)>, mode: Seq<char>) -> Option<Seq<u16>>
    decreases sets.len(),
{
    if sets.len() == 0 {
        None
    } else if sets[0].0 == mode {
        Some(sets[0].1)
    } else {
        find_rates(sets.drop_first(), mode)
    }
}

pub open spec fn rates_model(sets: Seq<(&'static str, Vec<u16>)>) -> Seq<(Seq<char>, Seq<u16>)> {
    sets.map_values(|p: (&'static str, Vec<u16>)| (p.0@, p.1@))
}

pub open spec fn rates_text(rates: Seq<u16>) -> Seq<char> {
    join(rates.map_values(|r: u16| nat_digits(r as nat)), ", "@)
}

/// Outcome of validating a data rate against the bitrate table of a mode.
pub open spec fn data_rate_outcome(
    value: u16,
    mode: Seq<char>,
    sets: Seq<(Seq<char>, Seq<u16>)>,
    hard_max: u16,
) -> Result<(), Seq<char>> {
    if value > hard_max {
        Err("invalid data_rate '"@ + nat_digits(value as nat) + "'; hard max is "@ + nat_digits(
            hard_max as nat,
        ))
    } else {
        match find_rates(sets, mode) {
            None => Err("unsupported encode_mode '"@ + mode + "'"@),
            Some(allowed) => if allowed.contains(value) {
                Ok(())
            } else {
                Err("invalid data_rate '"@ + nat_digits(value as nat) + "' for mode '"@ + mode
                    + "'; allowed: "@ + rates_text(allowed))
            },
        }
    }
}

/// Outcome of validating one parameter value against its rule.
pub open spec fn value_outcome(
    key: Seq<char>,
    rule: RuleModel,
    value: ValueModel,
    mode: Seq<char>,
    sets: Seq<(Seq<char>, Seq<u16>)>,
    hard_max: u16,
) -> Result<ValueModel, Seq<char>> {
    match (rule, value) {
        (RuleModel::Enum(allowed), ValueModel::Str(raw)) => match find_enum(allowed, raw) {
            Some(found) => Ok(ValueModel::Str(found)),
            None => Err("invalid value '"@ + raw + "' for "@ + key + "; allowed: "@ + join(
                allowed,
                ", "@,
            )),
        },
        (RuleModel::IntRange { min, max }, ValueModel::Int(raw)) => if min <= raw && raw <= max {
            Ok(ValueModel::Int(raw))
        } else {
            Err("invalid value '"@ + int_text(raw) + "' for "@ + key + "; expected "@ + int_text(min)
                + ".."@ + int_text(max))
        },
        (RuleModel::DataRate, ValueModel::Int(raw)) => if 0 <= raw && raw <= 65535 {
            match data_rate_outcome(raw as u16, mode, sets, hard_max) {
                Ok(_) => Ok(ValueModel::Int(raw)),
                Err(e) => Err(e),
            }
        } else {
            Err("invalid value '"@ + int_text(raw) + "' for "@ + key + "; expected u16"@)
        },
        (RuleModel::Bool, ValueModel::Bool(b)) => Ok(ValueModel::Bool(b)),
        (RuleModel::FreeString, ValueModel::Str(s)) => Ok(ValueModel::Str(s)),
        (RuleModel::Enum(_), _) => Err("parameter "@ + key + " is not enum"@),
        (RuleModel::IntRange { .. }, _) => Err("parameter "@ + key + " is not integer range"@),
        (RuleModel::DataRate, _) => Err("parameter "@ + key + " is not data_rate"@),
        (RuleModel::Bool, _) => Err("parameter "@ + key + " is not bool"@),
        (RuleModel::FreeString, _) => Err("parameter "@ + key + " is not string"@),
    }
}

pub fn find_enum_exec(allowed: &Vec<&'static str>, raw: &str) -> (r: Option<&'static str>)
    ensures
        match r {
            Some(s) => find_enum(strs_model(allowed@), raw@) == Some(s@),
            None => find_enum(strs_model(allowed@), raw@) is None,
        },
{
    let lower = to_lower(raw);
    let ghost m = strs_model(allowed@);
    let mut i: usize = 0;
    assert(m.skip(0) == m);
    while i < allowed.len()
        invariant
            i <= allowed.len(),
            m == strs_model(allowed@),
            lower@ == seq_lower(raw@),
            find_enum(m, raw@) == find_enum(m.skip(i as int), raw@),
        decreases allowed.len() - i,
    {
        let cand = to_lower(allowed[i]);
        assert(m.skip(i as int)[0] == allowed@[i as int]@);
        if str_eq(cand.as_str(), lower.as_str()) {
            return Some(allowed[i]);
        }
        assert(m.skip(i as int).drop_first() == m.skip(i + 1));
        i += 1;
    }
    None
}

fn find_rates_exec<'a>(sets: &'a Vec<(&'static str, Vec<u16>)>, mode: &str) -> (r: Option<&'a Vec<u16>>)
    ensures
        match r {
            Some(v) => find_rates(rates_model(sets@), mode@) == Some(v@),
            None => find_rates(rates_model(sets@), mode@) is None,
        },
{
    let ghost m = rates_model(sets@);
    let mut i: usize = 0;
    assert(m.skip(0) == m);
    while i < sets.len()
        invariant
            i <= sets.len(),
            m == rates_model(sets@),
            find_rates(m, mode@) == find_rates(m.skip(i as int), mode@),
        decreases sets.len() - i,
    {
        assert(m.skip(i as int)[0] == (sets@[i as int].0@, sets@[i as int].1@));
        if str_eq(sets[i].0, mode) {
            return Some(&sets[i].1);
        }
        assert(m.skip(i as int).drop_first() == m.skip(i + 1));
        i += 1;
    }
    None
}

pub fn u16_list_text(rates: &Vec<u16>) -> (r: String)
    ensures
        r@ == rates_text(rates@),
{
    let mut words: Vec<String> = Vec::new();
    let mut i: usize = 0;
    while i < rates.len()
        invariant
            i <= rates.len(),
            words@.len() == i,
            forall|j: int| 0 <= j < i ==> (#[trigger] words@[j])@ == nat_digits(rates@[j] as nat),
        decreases rates.len() - i,
    {
        words.push(u64_text(rates[i] as u64));
        i += 1;
    }
    assert(words@.map_values(|w: String| w@) =~= rates@.map_values(
        |r: u16| nat_digits(r as nat),
    ));
    join_strings(&words, ", ")
}

pub fn u16_contains(v: &Vec<u16>, x: u16) -> (r: bool)
    ensures
        r == v@.contains(x),
{
    let mut i: usize = 0;
    while i < v.len()
        invariant
            i <= v.len(),
            forall|j: int| 0 <= j < i ==> v@[j] != x,
        decreases v.len() - i,
    {
        if v[i] == x {
            return true;
        }
        i += 1;
    }
    false
}

/// Checks a data rate against the hard maximum and the bitrates of the mode.
pub fn validate_data_rate(value: u16, ctx: &ValidationContext) -> (r: Result<(), String>)
    ensures
        unit_model(r) == data_rate_outcome(
            value,
            ctx.encode_mode@,
            rates_model(ctx.bitrate_sets@),
            ctx.bitrate_hard_max,
        ),
{
    if value > ctx.bitrate_hard_max {
        let mut e = owned("invalid data_rate '");
        e.append(u64_text(value as u64).as_str());
        e.append("'; hard max is ");
        e.append(u64_text(ctx.bitrate_hard_max as u64).as_str());
        return Err(e);
    }
    match find_rates_exec(ctx.bitrate_sets, ctx.encode_mode) {
        None => {
            let mut e = owned("unsupported encode_mode '");
            e.append(ctx.encode_mode);
            e.append("'");
            Err(e)
        },
        Some(allowed) => {
            if u16_contains(allowed, value) {
                Ok(())
            } else {
                let mut e = owned("invalid data_rate '");
                e.append(u64_text(value as u64).as_str());
                e.append("' for mode '");
                e.append(ctx.encode_mode);
                e.append("'; allowed: ");
                e.append(u16_list_text(allowed).as_str());
                Err(e)
            }
        },
    }
}

/// Validates one parameter value against its rule; enum values come back in
/// their canonical spelling.
pub fn validate_value(key: &str, rule: &ParamRule, value: ParamValue, ctx: &ValidationContext) -> (r:
    Result<ParamValue, String>)
    ensures
        value_result_model(r) == value_outcome(
            key@,
            rule@,
            value@,
            ctx.encode_mode@,
            rates_model(ctx.bitrate_sets@),
            ctx.bitrate_hard_max,
        ),
{
    match (rule, value) {
        (ParamRule::Enum(allowed), ParamValue::Str(raw)) => {
            match find_enum_exec(allowed, raw.as_str()) {
                Some(found) => Ok(ParamValue::Str(owned(found))),
                None => {
                    let mut e = owned("invalid value '");
                    e.append(raw.as_str());
                    e.append("' for ");
                    e.append(key);
                    e.append("; allowed: ");
                    e.append(crate::text::join_strs(allowed, ", ").as_str());
                    Err(e)
                },
            }
        },
        (ParamRule::IntRange { min, max }, ParamValue::Int(raw)) => {
            if *min <= raw && raw <= *max {
                Ok(ParamValue::Int(raw))
            } else {
                let mut e = owned("invalid value '");
                e.append(i64_text(raw).as_str());
                e.append("' for ");
                e.append(key);
                e.append("; expected ");
                e.append(i64_text(*min).as_str());
                e.append("..");
                e.append(i64_text(*max).as_str());
                Err(e)
            }
        },
        (ParamRule::DataRate, ParamValue::Int(raw)) => {
            if 0 <= raw && raw <= 65535 {
                match validate_data_rate(raw as u16, ctx) {
                    Ok(()) => Ok(ParamValue::Int(raw)),
                    Err(e) => Err(e),
                }
            } else {
                let mut e = owned("invalid value '");
                e.append(i64_text(raw).as_str());
                e.append("' for ");
                e.append(key);
                e.append("; expected u16");
                Err(e)
            }
        },
        (ParamRule::Bool, ParamValue::Bool(b)) => Ok(ParamValue::Bool(b)),
        (ParamRule::FreeString, ParamValue::Str(s)) => Ok(ParamValue::Str(s)),
        (ParamRule::Enum(_), _) => Err(crate::text::cat3("parameter ", key, " is not enum")),
        (ParamRule::IntRange { .. }, _) => Err(
            crate::text::cat3("parameter ", key, " is not integer range"),
        ),
        (ParamRule::DataRate, _) => Err(crate::text::cat3("parameter ", key, " is not data_rate")),
        (ParamRule::Bool, _) => Err(crate::text::cat3("parameter ", key, " is not bool")),
        (ParamRule::FreeString, _) => Err(crate::text::cat3("parameter ", key, " is not string")),
    }
}

/// Parameter values of a resolved filter, by key.
pub open spec fn values_model(values: Seq<(&'static str, Value)>) -> Seq<(Seq<char>, ValueModel)> {
    values.map_values(|p: (&'static str, Value)| (p.0@, p.1@))
}

/// The table with an entry for an optional string parameter, if it is set.
pub open spec fn optional_value(
    values: Seq<(Seq<char>, ValueModel)>,
    key: Seq<char>,
    v: Option<Seq<char>>,
) -> Seq<(Seq<char>, ValueModel)> {
    match v {
        Some(s) => values.push((key, ValueModel::Str(s))),
        None => values,
    }
}

/// The value of `key` in the table: its first entry, or none.
pub open spec fn read_value(values: Seq<(Seq<char>, ValueModel)>, key: Seq<char>) -> Option<
    ValueModel,
>
    decreases values.len(),
{
    if values.len() == 0 {
        None
    } else if values[0].0 == key {
        Some(values[0].1)
    } else {
        read_value(values.drop_first(), key)
    }
}

/// The value of the first entry with the key.
pub proof fn lemma_read_value_at(values: Seq<(Seq<char>, ValueModel)>, key: Seq<char>, i: int)
    requires
        0 <= i < values.len(),
        values[i].0 == key,
        forall|j: int| 0 <= j < i ==> values[j].0 != key,
    ensures
        read_value(values, key) == Some(values[i].1),
    decreases i,
{
    if i > 0 {
        assert(values[0].0 != key);
        lemma_read_value_at(values.drop_first(), key, i - 1);
    }
}

/// No value for a key that no entry has.
pub proof fn lemma_read_value_absent(values: Seq<(Seq<char>, ValueModel)>, key: Seq<char>)
    requires
        forall|j: int| 0 <= j < values.len() ==> values[j].0 != key,
    ensures
        read_value(values, key) is None,
    decreases values.len(),
{
    if values.len() > 0 {
        assert(values[0].0 != key);
        lemma_read_value_absent(values.drop_first(), key);
    }
}

pub open spec fn fields_model(fields: Seq<(&'static str, FixedValue)>) -> Seq<
    (Seq<char>, ValueModel),
> {
    fields.map_values(|p: (&'static str, FixedValue)| (p.0@, fixed_model(p.1)))
}

/// The pinned fields whose value differs from the pinned one, in order.
pub open spec fn conflicting_fields(
    fields: Seq<(Seq<char>, ValueModel)>,
    values: Seq<(Seq<char>, ValueModel)>,
) -> Seq<Seq<char>>
    decreases fields.len(),
{
    if fields.len() == 0 {
        Seq::empty()
    } else {
        let rest = conflicting_fields(fields.drop_last(), values);
        if read_value(values, fields.last().0) == Some(fields.last().1) {
            rest
        } else {
            rest.push(fields.last().0)
        }
    }
}

pub open spec fn fixed_values_error(profile: Seq<char>, conflicts: Seq<Seq<char>>) -> Seq<char> {
    "profile="@ + profile + " locks fixed fields by default. conflicting fields: "@ + join(
        conflicts,
        ", "@,
    ) + ". Use --allow-fixed-override to bypass."@
}

pub open spec fn required_error(mode: Seq<char>, param: Seq<char>, value: ValueModel) -> Seq<
    char,
> {
    mode + " mode requires "@ + param + "="@ + value_text(value)
}

/// Outcome of one constraint.
pub open spec fn constraint_outcome(
    c: ConstraintModel,
    profile: Seq<char>,
    mode: Seq<char>,
    allow_fixed_override: bool,
    values: Seq<(Seq<char>, ValueModel)>,
) -> Result<(), Seq<char>> {
    match c {
        ConstraintModel::FixedValues { when_profile, fields, allow_override } => {
            if profile != when_profile {
                Ok(())
            } else if allow_override && allow_fixed_override {
                Ok(())
            } else {
                let conflicts = conflicting_fields(fields, values);
                if conflicts.len() > 0 {
                    Err(fixed_values_error(when_profile, conflicts))
                } else {
                    Ok(())
                }
            }
        },
        ConstraintModel::Forbidden { param, when_mode, message } => {
            if when_mode.contains(mode) && read_value(values, param) is Some {
                Err(message)
            } else {
                Ok(())
            }
        },
        ConstraintModel::Required { param, when_mode, value } => {
            if mode != when_mode {
                Ok(())
            } else if read_value(values, param) != Some(value) {
                Err(required_error(when_mode, param, value))
            } else {
                Ok(())
            }
        },
    }
}

/// Outcome of a list of constraints: the first failing one decides.
pub open spec fn constraints_outcome(
    cs: Seq<ConstraintModel>,
    profile: Seq<char>,
    mode: Seq<char>,
    allow_fixed_override: bool,
    values: Seq<(Seq<char>, ValueModel)>,
) -> Result<(), Seq<char>>
    decreases cs.len(),
{
    if cs.len() == 0 {
        Ok(())
    } else {
        match constraint_outcome(cs[0], profile, mode, allow_fixed_override, values) {
            Err(e) => Err(e),
            Ok(_) => constraints_outcome(cs.drop_first(), profile, mode, allow_fixed_override, values),
        }
    }
}

/// The constraints of a template pass exactly when each one does; where
/// they fail, the error is that of the first failing one.
pub proof fn law_constraints_pass_iff_each_passes(
    cs: Seq<ConstraintModel>,
    profile: Seq<char>,
    mode: Seq<char>,
    allow_fixed_override: bool,
    values: Seq<(Seq<char>, ValueModel)>,
)
    ensures
        (constraints_outcome(cs, profile, mode, allow_fixed_override, values) is Ok) <==> (forall|i: int|
            0 <= i < cs.len() ==> #[trigger] constraint_outcome(cs[i], profile, mode, allow_fixed_override, values) is Ok),
        constraints_outcome(cs, profile, mode, allow_fixed_override, values) is Err ==> exists|i: int|
            0 <= i < cs.len() && constraints_outcome(cs, profile, mode, allow_fixed_override, values) == #[trigger] constraint_outcome(
                cs[i],
                profile,
                mode,
                allow_fixed_override,
                values,
            ) && (forall|j: int| 0 <= j < i ==> constraint_outcome(cs[j], profile, mode, allow_fixed_override, values) is Ok),
    decreases cs.len(),
{
    if cs.len() > 0 {
        let rest = cs.drop_first();
        law_constraints_pass_iff_each_passes(rest, profile, mode, allow_fixed_override, values);
        assert forall|i: int| 0 <= i < rest.len() implies #[trigger] rest[i] == cs[i + 1] by {}
        if constraint_outcome(cs[0], profile, mode, allow_fixed_override, values) is Ok {
            if constraints_outcome(rest, profile, mode, allow_fixed_override, values) is Ok {
                assert forall|i: int| 0 <= i < cs.len() implies #[trigger] constraint_outcome(
                    cs[i],
                    profile,
                    mode,
                    allow_fixed_override,
                    values,
                ) is Ok by {
                    if i > 0 {
                        assert(cs[i] == rest[i - 1]);
                    }
                }
            } else {
                let k = choose|k: int|
                    0 <= k < rest.len() && constraints_outcome(rest, profile, mode, allow_fixed_override, values)
                        == #[trigger] constraint_outcome(rest[k], profile, mode, allow_fixed_override, values) && (forall|j: int|
                        0 <= j < k ==> constraint_outcome(rest[j], profile, mode, allow_fixed_override, values) is Ok);
                assert(rest[k] == cs[k + 1]);
                assert forall|j: int| 0 <= j < k + 1 implies constraint_outcome(cs[j], profile, mode, allow_fixed_override, values) is Ok by {
                    if j > 0 {
                        assert(cs[j] == rest[j - 1]);
                    }
                }
                assert(!(constraint_outcome(cs[k + 1], profile, mode, allow_fixed_override, values) is Ok));
            }
        } else {
            assert(!(constraint_outcome(cs[0], profile, mode, allow_fixed_override, values) is Ok));
        }
    }
}

/// Equality of two parameter values.
pub fn value_eq(a: &Value, b: &Value) -> (r: bool)
    ensures
        r == (a@ == b@),
{
    match (a, b) {
        (Value::Bool(x), Value::Bool(y)) => *x == *y,
        (Value::Int(x), Value::Int(y)) => *x == *y,
        (Value::Str(x), Value::Str(y)) => str_eq(x.as_str(), y.as_str()),
        _ => false,
    }
}

/// The value of `key` in the table.
pub fn read_value_exec<'a>(values: &'a Vec<(&'static str, Value)>, key: &str) -> (r: Option<
    &'a Value,
>)
    ensures
        match r {
            Some(v) => read_value(values_model(values@), key@) == Some(v@),
            None => read_value(values_model(values@), key@) is None,
        },
{
    let ghost m = values_model(values@);
    let mut i: usize = 0;
    assert(m.skip(0) == m);
    while i < values.len()
        invariant
            i <= values.len(),
            m == values_model(values@),
            read_value(m, key@) == read_value(m.skip(i as int), key@),
        decreases values.len() - i,
    {
        assert(m.skip(i as int)[0] == (values@[i as int].0@, values@[i as int].1@));
        if str_eq(values[i].0, key) {
            return Some(&values[i].1);
        }
        assert(m.skip(i as int).drop_first() == m.skip(i + 1));
        i += 1;
    }
    None
}

fn value_is(values: &Vec<(&'static str, Value)>, key: &str, expected: FixedValue) -> (r: bool)
    ensures
        r == (read_value(values_model(values@), key@) == Some(fixed_model(expected))),
{
    let e = value_of_fixed(expected);
    match read_value_exec(values, key) {
        Some(v) => value_eq(v, &e),
        None => false,
    }
}

fn conflicting_fields_exec(
    fields: &Vec<(&'static str, FixedValue)>,
    values: &Vec<(&'static str, Value)>,
) -> (r: Vec<String>)
    ensures
        r@.map_values(|w: String| w@) == conflicting_fields(
            fields_model(fields@),
            values_model(values@),
        ),
{
    let ghost fm = fields_model(fields@);
    let mut out: Vec<String> = Vec::new();
    let mut i: usize = 0;
    while i < fields.len()
        invariant
            i <= fields.len(),
            fm == fields_model(fields@),
            out@.map_values(|w: String| w@) == conflicting_fields(
                fm.take(i as int),
                values_model(values@),
            ),
        decreases fields.len() - i,
    {
        let ghost prev = out@;
        assert(fm.take(i + 1).drop_last() == fm.take(i as int));
        assert(fm.take(i + 1).last() == (fields@[i as int].0@, fixed_model(fields@[i as int].1)));
        if !value_is(values, fields[i].0, fields[i].1) {
            out.push(owned(fields[i].0));
            assert(out@.map_values(|w: String| w@) =~= prev.map_values(|w: String| w@).push(
                fields@[i as int].0@,
            ));
        }
        i += 1;
    }
    assert(fm.take(fields.len() as int) == fm);
    out
}

fn evaluate_one(c: &Constraint, ctx: &ConstraintContext, values: &Vec<(&'static str, Value)>) -> (r:
    Result<(), String>)
    ensures
        unit_model(r) == constraint_outcome(
            c@,
            ctx.profile@,
            ctx.encode_mode@,
            ctx.allow_fixed_override,
            values_model(values@),
        ),
{
    match c {
        Constraint::FixedValues { when_profile, fields, override_policy } => {
            if !str_eq(ctx.profile, when_profile) {
                return Ok(());
            }
            if *override_policy == OverridePolicy::AllowFixedOverride && ctx.allow_fixed_override {
                return Ok(());
            }
            let conflicts = conflicting_fields_exec(fields, values);
            if conflicts.len() > 0 {
                let mut e = owned("profile=");
                e.append(when_profile);
                e.append(" locks fixed fields by default. conflicting fields: ");
                e.append(join_strings(&conflicts, ", ").as_str());
                e.append(". Use --allow-fixed-override to bypass.");
                Err(e)
            } else {
                Ok(())
            }
        },
        Constraint::Forbidden { param, when_mode, message } => {
            if crate::text::contains_str(when_mode, ctx.encode_mode) && read_value_exec(
                values,
                param,
            ).is_some() {
                Err(owned(message))
            } else {
                Ok(())
            }
        },
        Constraint::Required { param, when_mode, value } => {
            if !str_eq(ctx.encode_mode, when_mode) {
                return Ok(());
            }
            if !value_is(values, param, *value) {
                let mut e = owned(when_mode);
                e.append(" mode requires ");
                e.append(param);
                e.append("=");
                e.append(fixed_value_for_error(*value).as_str());
                Err(e)
            } else {
                Ok(())
            }
        },
    }
}

/// Evaluates the constraints in order against the parameter values; the first
/// violated constraint gives the error.
pub fn evaluate_constraints(
    constraints: &Vec<Constraint>,
    ctx: &ConstraintContext,
    values: &Vec<(&'static str, Value)>,
) -> (r: Result<(), String>)
    ensures
        unit_model(r) == constraints_outcome(
            constraints_model(constraints@),
            ctx.profile@,
            ctx.encode_mode@,
            ctx.allow_fixed_override,
            values_model(values@),
        ),
{
    let ghost vm = values_model(values@);
    let ghost cm = constraints_model(constraints@);
    let mut i: usize = 0;
    assert(cm.skip(0) == cm);
    while i < constraints.len()
        invariant
            i <= constraints.len(),
            vm == values_model(values@),
            cm == constraints_model(constraints@),
            constraints_outcome(
                cm,
                ctx.profile@,
                ctx.encode_mode@,
                ctx.allow_fixed_override,
                vm,
            ) == constraints_outcome(
                cm.skip(i as int),
                ctx.profile@,
                ctx.encode_mode@,
                ctx.allow_fixed_override,
                vm,
            ),
        decreases constraints.len() - i,
    {
        assert(cm.skip(i as int)[0] == constraints@[i as int]@);
        assert(cm.skip(i as int).drop_first() == cm.skip(i + 1));
        match evaluate_one(&constraints[i], ctx, values) {
            Err(e) => {
                return Err(e);
            },
            Ok(()) => {},
        }
        i += 1;
    }
    Ok(())
}

/// Allowing fixed overrides never makes the constraints reject values they
/// accepted without it.
pub proof fn law_constraints_override_monotone(
    cs: Seq<ConstraintModel>,
    profile: Seq<char>,
    mode: Seq<char>,
    values: Seq<(Seq<char>, ValueModel)>,
)
    requires
        constraints_outcome(cs, profile, mode, false, values) is Ok,
    ensures
        constraints_outcome(cs, profile, mode, true, values) is Ok,
    decreases cs.len(),
{
    if cs.len() > 0 {
        law_constraints_override_monotone(cs.drop_first(), profile, mode, values);
    }
}

/// The value `find_enum` finds is one of the allowed values and spells the
/// same word, up to ASCII case.
pub proof fn lemma_find_enum_found(allowed: Seq<Seq<char>>, raw: Seq<char>)
    ensures
        find_enum(allowed, raw) matches Some(f) ==> allowed.contains(f) && seq_lower(f) == seq_lower(raw),
    decreases allowed.len(),
{
    if allowed.len() > 0 && seq_lower(allowed[0]) != seq_lower(raw) {
        lemma_find_enum_found(allowed.drop_first(), raw);
        if let Some(f) = find_enum(allowed, raw) {
            let i = choose|i: int| 0 <= i < allowed.drop_first().len() && allowed.drop_first()[i] == f;
            assert(allowed[i + 1] == f);
        }
    } else if allowed.len() > 0 {
        assert(allowed[0] == allowed[0]);
    }
}

/// `find_enum` reads its argument only up to ASCII case.
pub proof fn lemma_find_enum_case(allowed: Seq<Seq<char>>, x: Seq<char>, y: Seq<char>)
    requires
        seq_lower(x) == seq_lower(y),
    ensures
        find_enum(allowed, x) == find_enum(allowed, y),
    decreases allowed.len(),
{
    if allowed.len() > 0 {
        lemma_find_enum_case(allowed.drop_first(), x, y);
    }
}

} // verus!
