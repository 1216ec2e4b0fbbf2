//! The decisions behind the C interface: status codes, option decoding and
//! the classification of failures by stage.
use vstd::prelude::*;

use crate::decode::{parse_job_str, yaml_then_json};
use crate::media::InputMediaInfo;
use crate::render::{render_config, render_outcome, RenderFormat};
use crate::resolve::{resolve_job, resolve_outcome, JobModel, ResolveOptions, ResolveOptionsModel, ResolvedJob};
use crate::spec::JobSpec;
use crate::text::{is_alpha, owned, upper_char};

verus! {

/// Version of the C interface.
pub const DCG_ABI_VERSION: u32 = 1;
/// Version of the C header, as a number.
pub const DCG_FFI_HEADER_VERSION: u32 = 10100;
/// Version of the C header, as text.
pub const DCG_FFI_HEADER_VERSION_STR: &'static str = "1.1.0";

/// Outcome of a call through the C interface.
#[derive(Debug, Clone, Copy, PartialEq, Eq, Structural)]
pub enum DcgStatusCode {
    Success,
    InvalidArgument,
    ParseError,
    ResolveError,
    RenderError,
    InternalError,
    Panic,
}

impl Default for DcgStatusCode {
    fn default() -> (r: Self)
        ensures
            r == DcgStatusCode::Success,
    {
        DcgStatusCode::Success
    }
}

/// The number of a status on the C side.
pub open spec fn status_number(c: DcgStatusCode) -> u32 {
    match c {
        DcgStatusCode::Success => 0,
        DcgStatusCode::InvalidArgument => 1,
        DcgStatusCode::ParseError => 2,
        DcgStatusCode::ResolveError => 3,
        DcgStatusCode::RenderError => 4,
        DcgStatusCode::InternalError => 5,
        DcgStatusCode::Panic => 6,
    }
}

impl DcgStatusCode {
    /// The number of the status on the C side.
    pub fn as_u32(self) -> (r: u32)
        ensures
            r == status_number(self),
    {
        match self {
            DcgStatusCode::Success => 0,
            DcgStatusCode::InvalidArgument => 1,
            DcgStatusCode::ParseError => 2,
            DcgStatusCode::ResolveError => 3,
            DcgStatusCode::RenderError => 4,
            DcgStatusCode::InternalError => 5,
            DcgStatusCode::Panic => 6,
        }
    }
}

/// A render format by its number on the C side: 0 is XML, 1 is JSON.
#[derive(Debug, Clone, Copy, PartialEq, Eq, Structural)]
pub struct DcgRenderFormat(pub u32);

impl DcgRenderFormat {
    /// XML, number 0.
    pub fn xml() -> (r: Self)
        ensures
            r.0 == 0,
    {
        DcgRenderFormat(0)
    }

    /// JSON, number 1.
    pub fn json() -> (r: Self)
        ensures
            r.0 == 1,
    {
        DcgRenderFormat(1)
    }

    /// The number of a core format.
    pub fn from_format(f: RenderFormat) -> (r: Self)
        ensures
            r.0 == (if f == RenderFormat::Xml { 0u32 } else { 1u32 }),
    {
        match f {
            RenderFormat::Xml => DcgRenderFormat(0),
            RenderFormat::Json => DcgRenderFormat(1),
        }
    }
}

impl Default for DcgRenderFormat {
    fn default() -> (r: Self)
        ensures
            r.0 == 0,
    {
        DcgRenderFormat(0)
    }
}

/// A failure with its status and message.
#[derive(Debug)]
pub struct BridgeError {
    pub code: DcgStatusCode,
    pub message: String,
}

impl BridgeError {
    /// An invalid argument.
    pub fn invalid_argument(message: String) -> (r: Self)
        ensures
            r.code == DcgStatusCode::InvalidArgument,
            r.message@ == message@,
    {
        BridgeError { code: DcgStatusCode::InvalidArgument, message }
    }

    /// A failure of a stage, with the stage's error text.
    pub fn stage(code: DcgStatusCode, err: String) -> (r: Self)
        ensures
            r.code == code,
            r.message@ == err@,
    {
        BridgeError { code, message: err }
    }
}

pub open spec fn format_error(n: u32) -> Seq<char> {
    "invalid format value "@ + crate::text::nat_digits(n as nat) + "; expected 0 (xml) or 1 (json)"@
}

/// The core format of a C format number.
pub fn parse_render_format(raw: DcgRenderFormat) -> (r: Result<RenderFormat, BridgeError>)
    ensures
        raw.0 == 0 ==> r == Ok::<RenderFormat, BridgeError>(RenderFormat::Xml),
        raw.0 == 1 ==> r == Ok::<RenderFormat, BridgeError>(RenderFormat::Json),
        raw.0 > 1 ==> (r matches Err(e) && e.code == DcgStatusCode::InvalidArgument && e.message@
            == format_error(raw.0)),
{
    if raw.0 == 0 {
        Ok(RenderFormat::Xml)
    } else if raw.0 == 1 {
        Ok(RenderFormat::Json)
    } else {
        let mut m = owned("invalid format value ");
        m.append(crate::text::u64_text(raw.0 as u64).as_str());
        m.append("; expected 0 (xml) or 1 (json)");
        Err(BridgeError::invalid_argument(m))
    }
}

/// Lower-case hexadecimal digits of a number below 256, without leading
/// zeros.
pub open spec fn hex_text(n: nat) -> Seq<char> {
    if n < 16 {
        seq![hex_digit(n)]
    } else {
        seq![hex_digit(n / 16), hex_digit(n % 16)]
    }
}

pub open spec fn hex_digit(d: nat) -> char {
    if d < 10 {
        ((d + 48) as u32) as char
    } else {
        ((d + 87) as u32) as char
    }
}

/// `char::escape_default` of the character of a byte.
pub open spec fn escape_byte(b: u8) -> Seq<char> {
    if b == 9 {
        seq!['\\', 't']
    } else if b == 13 {
        seq!['\\', 'r']
    } else if b == 10 {
        seq!['\\', 'n']
    } else if b == 39 {
        seq!['\\', '\'']
    } else if b == 34 {
        seq!['\\', '"']
    } else if b == 92 {
        seq!['\\', '\\']
    } else if 32 <= b <= 126 {
        seq![(b as u32) as char]
    } else {
        seq!['\\', 'u', '{'] + hex_text(b as nat) + seq!['}']
    }
}

fn hex_digit_exec(d: u8) -> (r: char)
    requires
        d < 16,
    ensures
        r == hex_digit(d as nat),
{
    if d < 10 {
        (d + 48) as char
    } else {
        (d + 87) as char
    }
}

fn escape_byte_exec(b: u8) -> (r: Vec<char>)
    ensures
        r@ == escape_byte(b),
{
    let mut v: Vec<char> = Vec::new();
    if b == 9 {
        v.push('\\');
        v.push('t');
    } else if b == 13 {
        v.push('\\');
        v.push('r');
    } else if b == 10 {
        v.push('\\');
        v.push('n');
    } else if b == 39 {
        v.push('\\');
        v.push('\'');
    } else if b == 34 {
        v.push('\\');
        v.push('"');
    } else if b == 92 {
        v.push('\\');
        v.push('\\');
    } else if 32 <= b && b <= 126 {
        v.push(b as char);
    } else {
        v.push('\\');
        v.push('u');
        v.push('{');
        if b < 16 {
            v.push(hex_digit_exec(b));
        } else {
            v.push(hex_digit_exec(b / 16));
            v.push(hex_digit_exec(b % 16));
        }
        v.push('}');
    }
    assert(v@ =~= escape_byte(b));
    v
}

pub open spec fn drive_byte_error(b: u8) -> Seq<char> {
    "invalid windows_drive '"@ + escape_byte(b) + "'; expected ASCII drive letter"@
}

/// The drive of a byte option: 0 means `Y`; else an ASCII letter,
/// upper-cased.
pub open spec fn drive_byte(raw: u8) -> Result<char, Seq<char>> {
    let b: u8 = if raw == 0 { 89u8 } else { raw };
    let c = (b as u32) as char;
    if is_alpha(c) {
        Ok(upper_char(c))
    } else {
        Err(drive_byte_error(b))
    }
}

/// Reads the drive letter byte.
pub fn parse_windows_drive(raw: u8) -> (r: Result<char, BridgeError>)
    ensures
        match drive_byte(raw) {
            Ok(c) => r == Ok::<char, BridgeError>(c),
            Err(m) => r matches Err(e) && e.code == DcgStatusCode::InvalidArgument && e.message@ == m,
        },
{
    let value: u8 = if raw == 0 { 89 } else { raw };
    let ch = value as char;
    if !crate::text::is_alpha_exec(ch) {
        let mut m = owned("invalid windows_drive '");
        let esc = crate::text::string_of(&escape_byte_exec(value));
        m.append(esc.as_str());
        m.append("'; expected ASCII drive letter");
        return Err(BridgeError::invalid_argument(m));
    }
    Ok(crate::text::upper_char_exec(ch))
}

/// Outcome of validating a job text through the C interface.
pub open spec fn c_validate_outcome(text: Seq<char>, options: ResolveOptionsModel) -> Result<
    JobModel,
    (DcgStatusCode, Seq<char>),
> {
    if text.len() == 0 {
        Err((DcgStatusCode::InvalidArgument, "job must not be empty"@))
    } else {
        match yaml_then_json(text) {
            None => Err((DcgStatusCode::ParseError, "failed to parse input as YAML or JSON"@)),
            Some(spec) => match resolve_outcome(spec, options) {
                Err(e) => Err((DcgStatusCode::ResolveError, e)),
                Ok(j) => Ok(j),
            },
        }
    }
}

/// Parses and resolves a job text, classifying a failure by stage.
pub fn validate_text(job_text: &str, options: &ResolveOptions) -> (r: Result<ResolvedJob, BridgeError>)
    ensures
        match c_validate_outcome(job_text@, options@) {
            Ok(j) => r matches Ok(x) && x@ == j,
            Err((c, m)) => r matches Err(e) && e.code == c && e.message@ == m,
        },
        r matches Ok(x) ==> crate::render::filter_fits(x) && crate::render::mode_fits(x),
{
    if job_text.unicode_len() == 0 {
        return Err(BridgeError::invalid_argument(owned("job must not be empty")));
    }
    let spec = match parse_job_str(job_text) {
        Ok(s) => s,
        Err(e) => {
            return Err(BridgeError::stage(DcgStatusCode::ParseError, e));
        },
    };
    match resolve_job(spec, options) {
        Ok(j) => Ok(j),
        Err(e) => Err(BridgeError::stage(DcgStatusCode::ResolveError, e)),
    }
}

/// Outcome of generating from a job text through the C interface.
pub open spec fn c_generate_outcome(text: Seq<char>, options: ResolveOptionsModel, format: RenderFormat) -> Result<
    (JobModel, Seq<char>),
    (DcgStatusCode, Seq<char>),
> {
    match c_validate_outcome(text, options) {
        Err(e) => Err(e),
        Ok(j) => match render_outcome(j, format) {
            Err(e) => Err((DcgStatusCode::RenderError, e)),
            Ok(t) => Ok((j, t)),
        },
    }
}

/// Parses, resolves and renders a job text, classifying a failure by
/// stage.
pub fn generate_text(job_text: &str, options: &ResolveOptions, format: RenderFormat) -> (r: Result<
    (ResolvedJob, String),
    BridgeError,
>)
    ensures
        match c_generate_outcome(job_text@, options@, format) {
            Ok((j, t)) => r matches Ok((x, s)) && x@ == j && s@ == t,
            Err((c, m)) => r matches Err(e) && e.code == c && e.message@ == m,
        },
{
    let resolved = match validate_text(job_text, options) {
        Ok(j) => j,
        Err(e) => {
            return Err(e);
        },
    };
    match render_config(&resolved, format) {
        Ok(s) => Ok((resolved, s)),
        Err(e) => Err(BridgeError::stage(DcgStatusCode::RenderError, e)),
    }
}


/// Outcome of parsing a job text through the C interface and asking for
/// the names to probe before it resolves.
pub open spec fn c_prepare_outcome(text: Seq<char>, options: ResolveOptionsModel) -> Result<
    (crate::decode::JobSpecModel, Seq<Seq<char>>, Seq<Seq<char>>),
    (DcgStatusCode, Seq<char>),
> {
    if text.len() == 0 {
        Err((DcgStatusCode::InvalidArgument, "job must not be empty"@))
    } else {
        match yaml_then_json(text) {
            None => Err((DcgStatusCode::ParseError, "failed to parse input as YAML or JSON"@)),
            Some(spec) => match crate::mixed_inputs::mixed_prepare_outcome(spec, options) {
                Err(e) => Err((DcgStatusCode::ResolveError, e)),
                Ok((a, w)) => Ok((spec, a, w)),
            },
        }
    }
}

/// Parses a job text and gives the names to probe before it resolves (those
/// of a mixed TrueHD job's mezzanine and WAV file), classifying a failure by
/// stage.
pub fn prepare_text(job_text: &str, options: &ResolveOptions) -> (r: Result<
    (JobSpec, Vec<String>, Vec<String>),
    BridgeError,
>)
    ensures
        match c_prepare_outcome(job_text@, options@) {
            Ok((s, a, w)) => r matches Ok(x) && x.0@ == s && crate::resolve::names_model(x.1@) == a
                && crate::resolve::names_model(x.2@) == w,
            Err((c, m)) => r matches Err(e) && e.code == c && e.message@ == m,
        },
{
    if job_text.unicode_len() == 0 {
        return Err(BridgeError::invalid_argument(owned("job must not be empty")));
    }
    let spec = match parse_job_str(job_text) {
        Ok(s) => s,
        Err(e) => {
            return Err(BridgeError::stage(DcgStatusCode::ParseError, e));
        },
    };
    match crate::mixed_inputs::resolve_mixed_prepare(&spec, options) {
        Ok((a, w)) => Ok((spec, a, w)),
        Err(e) => Err(BridgeError::stage(DcgStatusCode::ResolveError, e)),
    }
}

/// Resolves a parsed job with the probed media of its inputs, a failure
/// being one of resolution.
pub fn validate_with_media(
    spec: JobSpec,
    options: &ResolveOptions,
    atmos: Vec<InputMediaInfo>,
    wav: Vec<InputMediaInfo>,
) -> (r: Result<ResolvedJob, BridgeError>)
    ensures
        match crate::mixed_inputs::mixed_finish_outcome(spec@, options@, atmos@, wav@) {
            Ok(j) => r matches Ok(x) && x@ == j,
            Err(m) => r matches Err(e) && e.code == DcgStatusCode::ResolveError && e.message@ == m,
        },
        r matches Ok(x) ==> crate::render::filter_fits(x) && crate::render::mode_fits(x),
{
    match crate::mixed_inputs::resolve_mixed_finish(spec, options, atmos, wav) {
        Ok(j) => Ok(j),
        Err(e) => Err(BridgeError::stage(DcgStatusCode::ResolveError, e)),
    }
}

/// Resolves a parsed job with the probed media of its inputs and renders
/// it, classifying a failure by stage.
pub fn generate_with_media(
    spec: JobSpec,
    options: &ResolveOptions,
    format: RenderFormat,
    atmos: Vec<InputMediaInfo>,
    wav: Vec<InputMediaInfo>,
) -> (r: Result<(ResolvedJob, String), BridgeError>)
    ensures
        match crate::mixed_inputs::mixed_finish_outcome(spec@, options@, atmos@, wav@) {
            Ok(j) => match render_outcome(j, format) {
                Ok(t) => r matches Ok((x, s)) && x@ == j && s@ == t,
                Err(m) => r matches Err(e) && e.code == DcgStatusCode::RenderError && e.message@ == m,
            },
            Err(m) => r matches Err(e) && e.code == DcgStatusCode::ResolveError && e.message@ == m,
        },
{
    let resolved = match validate_with_media(spec, options, atmos, wav) {
        Ok(j) => j,
        Err(e) => {
            return Err(e);
        },
    };
    match render_config(&resolved, format) {
        Ok(s) => Ok((resolved, s)),
        Err(e) => Err(BridgeError::stage(DcgStatusCode::RenderError, e)),
    }
}

/// Through the C interface, generating fails as validating does on a job
/// text that validation refuses (with the same status code and message);
/// on one that validation accepts, XML generation succeeds with the same
/// resolved job.
pub proof fn law_c_generate_agrees_with_validate(text: Seq<char>, options: ResolveOptionsModel, format: RenderFormat)
    ensures
        c_validate_outcome(text, options) matches Err(e) ==> c_generate_outcome(text, options, format) == Err::<
            (JobModel, Seq<char>),
            (DcgStatusCode, Seq<char>),
        >(e),
        c_validate_outcome(text, options) matches Ok(j) ==> (format == RenderFormat::Xml ==> (c_generate_outcome(
            text,
            options,
            format,
        ) matches Ok(g) && g.0 == j)),
{
    if let Ok(j) = c_validate_outcome(text, options) {
        crate::render::law_xml_always_renders(j);
    }
}

} // verus!
