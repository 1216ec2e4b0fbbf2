//! A binding-friendly surface: job text in, plain records or a classified
//! error out.
use vstd::prelude::*;

use crate::decode::{parse_job_str, yaml_then_json};
use crate::render::{law_xml_always_renders, render_config, render_outcome};
use crate::resolve::{resolve_job, resolve_outcome, JobModel, ResolveOptionsModel};
use crate::spec::{
    spec_ac4_output_mode_name, spec_encode_mode_name, spec_job_mode_name,
    spec_output_container_name, spec_profile_name,
};
use crate::text::{is_alpha, owned, seq_trim, trim, upper_char};

verus! {

/// Output format of a generated configuration.
#[allow(non_camel_case_types)]
#[derive(Debug, Clone, Copy)]
pub enum RenderFormat {
    XML {},
    JSON {},
}

/// Options of resolution; the drive letter is text, and unset or blank
/// means `Y`.
#[derive(Debug, Clone)]
pub struct ResolveOptions {
    pub template_override: Option<String>,
    pub allow_fixed_override: bool,
    pub windows_drive: Option<String>,
}

/// Options of generation; unset parts take their defaults.
#[derive(Debug, Clone)]
pub struct GenerateOptions {
    pub resolve: Option<ResolveOptions>,
    pub format: Option<RenderFormat>,
}

/// What validation reports of a job.
#[derive(Debug, Clone)]
pub struct ValidateOutput {
    pub template_id: String,
    pub profile: String,
    pub job_mode: String,
    pub encode_mode: String,
    pub output_container: String,
}

/// A generated configuration and what it was generated for.
#[derive(Debug, Clone)]
pub struct GenerateOutput {
    pub rendered_config: String,
    pub format: RenderFormat,
    pub template_id: String,
    pub output_container: String,
}

/// The stage that failed, with its message.
#[allow(non_camel_case_types)]
#[derive(Debug)]
pub enum BridgeError {
    INVALID_ARGUMENT { message: String },
    PARSE_ERROR { message: String },
    RESOLVE_ERROR { message: String },
    RENDER_ERROR { message: String },
    INTERNAL_ERROR { message: String },
    PANIC { message: String },
}

/// Model of a classified error.
pub enum BridgeErrorModel {
    InvalidArgument(Seq<char>),
    Parse(Seq<char>),
    Resolve(Seq<char>),
    Render(Seq<char>),
    Internal(Seq<char>),
    Panic(Seq<char>),
}

impl View for BridgeError {
    type V = BridgeErrorModel;

    open spec fn view(&self) -> BridgeErrorModel {
        match self {
            BridgeError::INVALID_ARGUMENT { message } => BridgeErrorModel::InvalidArgument(message@),
            BridgeError::PARSE_ERROR { message } => BridgeErrorModel::Parse(message@),
            BridgeError::RESOLVE_ERROR { message } => BridgeErrorModel::Resolve(message@),
            BridgeError::RENDER_ERROR { message } => BridgeErrorModel::Render(message@),
            BridgeError::INTERNAL_ERROR { message } => BridgeErrorModel::Internal(message@),
            BridgeError::PANIC { message } => BridgeErrorModel::Panic(message@),
        }
    }
}

impl BridgeError {
    /// `KIND: message`, the text the error displays.
    pub fn to_text(&self) -> (r: String)
        ensures
            r@ == error_text(self@),
    {
        let (kind, message) = match self {
            BridgeError::INVALID_ARGUMENT { message } => ("INVALID_ARGUMENT: ", message),
            BridgeError::PARSE_ERROR { message } => ("PARSE_ERROR: ", message),
            BridgeError::RESOLVE_ERROR { message } => ("RESOLVE_ERROR: ", message),
            BridgeError::RENDER_ERROR { message } => ("RENDER_ERROR: ", message),
            BridgeError::INTERNAL_ERROR { message } => ("INTERNAL_ERROR: ", message),
            BridgeError::PANIC { message } => ("PANIC: ", message),
        };
        crate::text::cat(kind, message.as_str())
    }
}

/// The text of an error.
pub open spec fn error_text(e: BridgeErrorModel) -> Seq<char> {
    match e {
        BridgeErrorModel::InvalidArgument(m) => "INVALID_ARGUMENT: "@ + m,
        BridgeErrorModel::Parse(m) => "PARSE_ERROR: "@ + m,
        BridgeErrorModel::Resolve(m) => "RESOLVE_ERROR: "@ + m,
        BridgeErrorModel::Render(m) => "RENDER_ERROR: "@ + m,
        BridgeErrorModel::Internal(m) => "INTERNAL_ERROR: "@ + m,
        BridgeErrorModel::Panic(m) => "PANIC: "@ + m,
    }
}

pub fn invalid_argument(message: String) -> (r: BridgeError)
    ensures
        r@ == BridgeErrorModel::InvalidArgument(message@),
{
    BridgeError::INVALID_ARGUMENT { message }
}

pub fn parse_error(message: String) -> (r: BridgeError)
    ensures
        r@ == BridgeErrorModel::Parse(message@),
{
    BridgeError::PARSE_ERROR { message }
}

pub fn resolve_error(message: String) -> (r: BridgeError)
    ensures
        r@ == BridgeErrorModel::Resolve(message@),
{
    BridgeError::RESOLVE_ERROR { message }
}

pub fn render_error(message: String) -> (r: BridgeError)
    ensures
        r@ == BridgeErrorModel::Render(message@),
{
    BridgeError::RENDER_ERROR { message }
}

pub open spec fn drive_text_error(raw: Seq<char>) -> Seq<char> {
    "windows_drive must be a single ASCII letter, got '"@ + raw + "'"@
}

/// The drive of a text option: unset or blank is `Y`; else one ASCII
/// letter, upper-cased.
pub open spec fn drive_option(v: Option<Seq<char>>) -> Result<char, Seq<char>> {
    match v {
        None => Ok('Y'),
        Some(raw) => {
            let t = seq_trim(raw);
            if t.len() == 0 {
                Ok('Y')
            } else if t.len() == 1 && is_alpha(t[0]) {
                Ok(upper_char(t[0]))
            } else {
                Err(drive_text_error(raw))
            }
        },
    }
}

pub open spec fn opt_view(o: Option<String>) -> Option<Seq<char>> {
    match o {
        Some(s) => Some(s@),
        None => None,
    }
}

/// Reads the drive letter option.
pub fn parse_windows_drive(value: Option<String>) -> (r: Result<char, BridgeError>)
    ensures
        match r {
            Ok(c) => drive_option(opt_view(value)) == Ok::<char, Seq<char>>(c),
            Err(e) => drive_option(opt_view(value)) matches Err(m) && e@ == BridgeErrorModel::InvalidArgument(m),
        },
{
    let raw = match value {
        None => {
            return Ok('Y');
        },
        Some(raw) => raw,
    };
    let t = trim(raw.as_str());
    let cs = crate::text::chars_of(t.as_str());
    if cs.len() == 0 {
        return Ok('Y');
    }
    if cs.len() == 1 && crate::text::is_alpha_exec(cs[0]) {
        return Ok(crate::text::upper_char_exec(cs[0]));
    }
    let mut m = owned("windows_drive must be a single ASCII letter, got '");
    m.append(raw.as_str());
    m.append("'");
    Err(invalid_argument(m))
}

pub open spec fn resolve_options_view(o: ResolveOptions) -> (Option<Seq<char>>, bool, Option<Seq<char>>) {
    (opt_view(o.template_override), o.allow_fixed_override, opt_view(o.windows_drive))
}

/// The core options of the binding options: unset is the defaults.
pub open spec fn core_options(o: Option<(Option<Seq<char>>, bool, Option<Seq<char>>)>) -> Result<
    ResolveOptionsModel,
    Seq<char>,
> {
    match o {
        None => Ok(ResolveOptionsModel { template_override: None, allow_fixed_override: false, windows_drive: 'Y' }),
        Some((t, a, d)) => match drive_option(d) {
            Err(m) => Err(m),
            Ok(c) => Ok(ResolveOptionsModel { template_override: t, allow_fixed_override: a, windows_drive: c }),
        },
    }
}

pub open spec fn opt_options_view(o: Option<ResolveOptions>) -> Option<(Option<Seq<char>>, bool, Option<Seq<char>>)> {
    match o {
        Some(x) => Some(resolve_options_view(x)),
        None => None,
    }
}

/// Converts the binding's resolution options.
pub fn to_core_resolve_options(input: Option<ResolveOptions>) -> (r: Result<crate::resolve::ResolveOptions, BridgeError>)
    ensures
        match r {
            Ok(o) => core_options(opt_options_view(input)) == Ok::<ResolveOptionsModel, Seq<char>>(o@),
            Err(e) => core_options(opt_options_view(input)) matches Err(m) && e@ == BridgeErrorModel::InvalidArgument(m),
        },
{
    match input {
        None => Ok(crate::resolve::ResolveOptions::default()),
        Some(input) => {
            let drive = match parse_windows_drive(input.windows_drive) {
                Ok(c) => c,
                Err(e) => {
                    return Err(e);
                },
            };
            Ok(crate::resolve::ResolveOptions {
                template_override: input.template_override,
                allow_fixed_override: input.allow_fixed_override,
                windows_drive: drive,
            })
        },
    }
}

/// The core format of a binding format.
pub open spec fn core_format(f: RenderFormat) -> crate::render::RenderFormat {
    match f {
        RenderFormat::XML {  } => crate::render::RenderFormat::Xml,
        RenderFormat::JSON {  } => crate::render::RenderFormat::Json,
    }
}

pub fn core_render_format(value: RenderFormat) -> (r: crate::render::RenderFormat)
    ensures
        r == core_format(value),
{
    match value {
        RenderFormat::XML {  } => crate::render::RenderFormat::Xml,
        RenderFormat::JSON {  } => crate::render::RenderFormat::Json,
    }
}

/// The format the options ask for: XML unless they say otherwise.
pub open spec fn chosen_format(o: Option<GenerateOptions>) -> RenderFormat {
    match o {
        Some(x) => match x.format {
            Some(f) => f,
            None => RenderFormat::XML {  },
        },
        None => RenderFormat::XML {  },
    }
}

pub open spec fn generate_resolve_view(o: Option<GenerateOptions>) -> Option<(Option<Seq<char>>, bool, Option<Seq<char>>)> {
    match o {
        Some(x) => opt_options_view(x.resolve),
        None => None,
    }
}

/// Converts the binding's generation options.
pub fn to_core_generate_options(input: Option<GenerateOptions>) -> (r: Result<
    (crate::resolve::ResolveOptions, RenderFormat),
    BridgeError,
>)
    ensures
        match r {
            Ok((o, f)) => core_options(generate_resolve_view(input)) == Ok::<ResolveOptionsModel, Seq<char>>(o@)
                && f == chosen_format(input),
            Err(e) => core_options(generate_resolve_view(input)) matches Err(m) && e@
                == BridgeErrorModel::InvalidArgument(m),
        },
{
    match input {
        None => Ok((crate::resolve::ResolveOptions::default(), RenderFormat::XML {  })),
        Some(input) => {
            let resolve = match to_core_resolve_options(input.resolve) {
                Ok(o) => o,
                Err(e) => {
                    return Err(e);
                },
            };
            let format = match input.format {
                Some(f) => f,
                None => RenderFormat::XML {  },
            };
            Ok((resolve, format))
        },
    }
}

/// Outcome of validating a job text: the resolved job, or the stage that
/// failed with its message.
pub open spec fn validate_outcome(
    text: Seq<char>,
    options: Option<(Option<Seq<char>>, bool, Option<Seq<char>>)>,
) -> Result<JobModel, BridgeErrorModel> {
    if text.len() == 0 {
        Err(BridgeErrorModel::InvalidArgument("job_text must not be empty"@))
    } else {
        match core_options(options) {
            Err(m) => Err(BridgeErrorModel::InvalidArgument(m)),
            Ok(ro) => match yaml_then_json(text) {
                None => Err(BridgeErrorModel::Parse("failed to parse input as YAML or JSON"@)),
                Some(spec) => match resolve_outcome(spec, ro) {
                    Err(e) => Err(BridgeErrorModel::Resolve(e)),
                    Ok(j) => Ok(j),
                },
            },
        }
    }
}

/// What validation reports of a resolved job.
pub open spec fn reports(out: ValidateOutput, j: JobModel) -> bool {
    &&& out.template_id@ == j.template_id
    &&& out.profile@ == spec_profile_name(j.profile)
    &&& out.job_mode@ == spec_job_mode_name(j.job_mode)
    &&& out.encode_mode@ == spec_encode_mode_name(j.encode_mode)
    &&& out.output_container@ == spec_output_container_name(j.output.container)
}

/// Parses and resolves a job text.
pub fn validate_job(job_text: String, options: Option<ResolveOptions>) -> (r: Result<
    ValidateOutput,
    BridgeError,
>)
    ensures
        match validate_outcome(job_text@, opt_options_view(options)) {
            Ok(j) => r matches Ok(out) && reports(out, j),
            Err(e) => r matches Err(x) && x@ == e,
        },
{
    if job_text.as_str().unicode_len() == 0 {
        return Err(invalid_argument(owned("job_text must not be empty")));
    }
    let resolve_options = match to_core_resolve_options(options) {
        Ok(o) => o,
        Err(e) => {
            return Err(e);
        },
    };
    let spec = match parse_job_str(job_text.as_str()) {
        Ok(s) => s,
        Err(e) => {
            return Err(parse_error(e));
        },
    };
    let resolved = match resolve_job(spec, &resolve_options) {
        Ok(j) => j,
        Err(e) => {
            return Err(resolve_error(e));
        },
    };
    Ok(ValidateOutput {
        template_id: resolved.template_id,
        profile: owned(resolved.profile.as_str()),
        job_mode: owned(resolved.job_mode.as_str()),
        encode_mode: owned(resolved.encode_mode.as_str()),
        output_container: owned(resolved.output.container.as_str()),
    })
}

/// Outcome of generating from a job text: the resolved job and its text, or
/// the stage that failed with its message.
pub open spec fn generate_outcome(text: Seq<char>, options: Option<GenerateOptions>) -> Result<
    (JobModel, Seq<char>),
    BridgeErrorModel,
> {
    if text.len() == 0 {
        Err(BridgeErrorModel::InvalidArgument("job_text must not be empty"@))
    } else {
        match core_options(generate_resolve_view(options)) {
            Err(m) => Err(BridgeErrorModel::InvalidArgument(m)),
            Ok(ro) => match yaml_then_json(text) {
                None => Err(BridgeErrorModel::Parse("failed to parse input as YAML or JSON"@)),
                Some(spec) => match resolve_outcome(spec, ro) {
                    Err(e) => Err(BridgeErrorModel::Resolve(e)),
                    Ok(j) => match render_outcome(j, core_format(chosen_format(options))) {
                        Err(e) => Err(BridgeErrorModel::Render(e)),
                        Ok(t) => Ok((j, t)),
                    },
                },
            },
        }
    }
}

/// Parses, resolves and renders a job text.
pub fn generate_config(job_text: String, options: Option<GenerateOptions>) -> (r: Result<
    GenerateOutput,
    BridgeError,
>)
    ensures
        match generate_outcome(job_text@, options) {
            Ok((j, t)) => r matches Ok(out) && out.rendered_config@ == t && out.format == chosen_format(
                options,
            ) && out.template_id@ == j.template_id && out.output_container@
                == spec_output_container_name(j.output.container),
            Err(e) => r matches Err(x) && x@ == e,
        },
{
    if job_text.as_str().unicode_len() == 0 {
        return Err(invalid_argument(owned("job_text must not be empty")));
    }
    let ghost chosen = chosen_format(options);
    let (resolve_options, format) = match to_core_generate_options(options) {
        Ok(x) => x,
        Err(e) => {
            return Err(e);
        },
    };
    let spec = match parse_job_str(job_text.as_str()) {
        Ok(s) => s,
        Err(e) => {
            return Err(parse_error(e));
        },
    };
    let resolved = match resolve_job(spec, &resolve_options) {
        Ok(j) => j,
        Err(e) => {
            return Err(resolve_error(e));
        },
    };
    let rendered = match render_config(&resolved, core_render_format(format)) {
        Ok(s) => s,
        Err(e) => {
            return Err(render_error(e));
        },
    };
    Ok(GenerateOutput {
        rendered_config: rendered,
        format,
        template_id: resolved.template_id,
        output_container: owned(resolved.output.container.as_str()),
    })
}

/// Validation and generation agree: with the same text and resolve
/// options, generation fails with validation's error where validation
/// fails, and where validation succeeds, generating XML succeeds on the
/// same resolved job.
pub proof fn law_generate_agrees_with_validate(text: Seq<char>, options: Option<GenerateOptions>)
    ensures
        validate_outcome(text, generate_resolve_view(options)) matches Err(e) ==> generate_outcome(text, options)
            == Err::<(JobModel, Seq<char>), BridgeErrorModel>(e),
        validate_outcome(text, generate_resolve_view(options)) matches Ok(j) ==> (chosen_format(options) is XML
            ==> (generate_outcome(text, options) matches Ok(g) && g.0 == j)),
{
    if let Ok(j) = validate_outcome(text, generate_resolve_view(options)) {
        law_xml_always_renders(j);
    }
}

} // verus!
