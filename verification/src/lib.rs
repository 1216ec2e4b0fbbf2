//! Generation of Dolby Encoding Engine job configurations from job specs:
//! parsing, resolution of defaults and constraints, and rendering as DEE XML
//! or JSON.
use vstd::prelude::*;

pub mod bridge;
pub mod catalog;
pub mod decode;
pub mod doc;
pub mod ffi;
pub mod json;
pub mod media;
pub mod metadata;
pub mod mixed_inputs;
pub mod registry;
pub mod render;
pub mod resolve;
pub mod runner;
pub mod schema;
pub mod spec;
pub mod template;
pub mod text;

pub use crate::decode::{parse_job_str, parse_job_str_json_first};
pub use crate::media::InputMediaInfo;
pub use crate::render::{render_config, render_xml, RenderFormat};
pub use crate::resolve::{resolve_job, ResolveOptions, ResolvedFilter, ResolvedJob, ResolvedOutput};
pub use crate::spec::{
    Ac4OutputMode, EncodeMode, FilterOverrides, InputsSpec, IoSpec, JobMode, JobSpec, MiscSpec,
    OutputContainer, OutputSpec, Profile, RunSpec, DEFAULT_TEMPLATE_ID,
};

use crate::render::{format_name, law_xml_always_renders, render_outcome, xml_declaration};
use crate::text::owned;
use crate::decode::JobSpecModel;
use crate::resolve::{job_result, resolve_outcome, JobModel, ResolveOptionsModel};

verus! {

/// Options of generation: how to resolve and in which format to render.
#[derive(Debug, Clone)]
pub struct GenerateOptions {
    pub resolve: ResolveOptions,
    pub format: RenderFormat,
}

impl Default for GenerateOptions {
    fn default() -> (r: Self)
        ensures
            r.resolve.template_override is None,
            !r.resolve.allow_fixed_override,
            r.resolve.windows_drive == 'Y',
            r.format == RenderFormat::Xml,
    {
        GenerateOptions { resolve: ResolveOptions::default(), format: RenderFormat::Xml }
    }
}

/// A resolved job with its rendered configuration.
#[derive(Debug, Clone)]
pub struct GeneratedConfig {
    pub resolved: ResolvedJob,
    pub rendered: String,
    pub format: RenderFormat,
}

/// Resolves a job spec; the same as `resolve_job`.
pub fn validate_job(spec: JobSpec, options: &ResolveOptions) -> (r: Result<ResolvedJob, String>)
    ensures
        job_result(r) == resolve_outcome(spec@, options@),
        r matches Ok(j) ==> crate::render::filter_fits(j) && crate::render::mode_fits(j),
{
    resolve_job(spec, options)
}

/// Outcome of generation: the resolved job and its text, or the first error.
pub open spec fn generate_outcome(spec: JobSpecModel, options: ResolveOptionsModel, format: RenderFormat) -> Result<
    (JobModel, Seq<char>),
    Seq<char>,
> {
    match resolve_outcome(spec, options) {
        Err(e) => Err(e),
        Ok(j) => match render_outcome(j, format) {
            Err(e) => Err(e),
            Ok(text) => Ok((j, text)),
        },
    }
}

/// Resolves a job spec and renders it in the requested format.
pub fn generate_config(spec: JobSpec, options: &GenerateOptions) -> (r: Result<GeneratedConfig, String>)
    ensures
        match r {
            Ok(g) => generate_outcome(spec@, options.resolve@, options.format) == Ok::<(JobModel, Seq<char>), Seq<char>>(
                (g.resolved@, g.rendered@),
            ) && g.format == options.format,
            Err(e) => generate_outcome(spec@, options.resolve@, options.format) == Err::<(JobModel, Seq<char>), Seq<char>>(e@),
        },
{
    let resolved = match validate_job(spec, &options.resolve) {
        Ok(j) => j,
        Err(e) => {
            return Err(e);
        },
    };
    let rendered = match render_config(&resolved, options.format) {
        Ok(s) => s,
        Err(e) => {
            return Err(e);
        },
    };
    Ok(GeneratedConfig { resolved, rendered, format: options.format })
}

/// Outcome of generation with the probed media of a job's inputs: the
/// resolved job and its text, or the first error.
pub open spec fn generate_with_media_outcome(
    spec: JobSpecModel,
    options: ResolveOptionsModel,
    format: RenderFormat,
    atmos: Seq<InputMediaInfo>,
    wav: Seq<InputMediaInfo>,
) -> Result<(JobModel, Seq<char>), Seq<char>> {
    match crate::mixed_inputs::mixed_finish_outcome(spec, options, atmos, wav) {
        Err(e) => Err(e),
        Ok(j) => match render_outcome(j, format) {
            Err(e) => Err(e),
            Ok(text) => Ok((j, text)),
        },
    }
}

/// Resolves a job spec with the probed media of its inputs (see
/// `resolve_mixed_prepare` for the names to probe) and renders it in the
/// requested format.
pub fn generate_config_with_media(
    spec: JobSpec,
    options: &GenerateOptions,
    atmos: Vec<InputMediaInfo>,
    wav: Vec<InputMediaInfo>,
) -> (r: Result<GeneratedConfig, String>)
    ensures
        match r {
            Ok(g) => generate_with_media_outcome(spec@, options.resolve@, options.format, atmos@, wav@) == Ok::<
                (JobModel, Seq<char>),
                Seq<char>,
            >((g.resolved@, g.rendered@)) && g.format == options.format,
            Err(e) => generate_with_media_outcome(spec@, options.resolve@, options.format, atmos@, wav@) == Err::<
                (JobModel, Seq<char>),
                Seq<char>,
            >(e@),
        },
{
    let resolved = match crate::mixed_inputs::resolve_mixed_finish(spec, &options.resolve, atmos, wav) {
        Ok(j) => j,
        Err(e) => {
            return Err(e);
        },
    };
    let rendered = match render_config(&resolved, options.format) {
        Ok(s) => s,
        Err(e) => {
            return Err(e);
        },
    };
    Ok(GeneratedConfig { resolved, rendered, format: options.format })
}

/// Debug name of a profile.
pub open spec fn profile_debug(p: Profile) -> Seq<char> {
    match p {
        Profile::Standard => "Standard"@,
        Profile::Music => "Music"@,
    }
}

/// Debug name of a job mode.
pub open spec fn job_mode_debug(m: JobMode) -> Seq<char> {
    match m {
        JobMode::Single => "Single"@,
        JobMode::Album => "Album"@,
    }
}

/// Debug name of an encode mode.
pub open spec fn encode_mode_debug(m: EncodeMode) -> Seq<char> {
    match m {
        EncodeMode::Streaming => "Streaming"@,
        EncodeMode::Dd => "Dd"@,
        EncodeMode::Ddp => "Ddp"@,
        EncodeMode::Mlp => "Mlp"@,
        EncodeMode::Bluray => "Bluray"@,
        EncodeMode::Ddp71 => "Ddp71"@,
        EncodeMode::Ac4 => "Ac4"@,
    }
}

/// The one-line report of a resolved job that `validate` and a dry run print.
pub open spec fn summary_text(j: JobModel, format: RenderFormat) -> Seq<char> {
    "template_id="@ + j.template_id + ", profile="@ + profile_debug(j.profile) + ", job_mode="@
        + job_mode_debug(j.job_mode) + ", encode_mode="@ + encode_mode_debug(j.encode_mode)
        + ", format="@ + format_name(format)
}

/// Reports the template, profile, modes and format of a resolved job.
pub fn job_summary(job: &ResolvedJob, format: RenderFormat) -> (r: String)
    ensures
        r@ == summary_text(job@, format),
{
    let mut s = owned("template_id=");
    s.append(job.template_id.as_str());
    s.append(", profile=");
    s.append(
        match job.profile {
            Profile::Standard => "Standard",
            Profile::Music => "Music",
        },
    );
    s.append(", job_mode=");
    s.append(
        match job.job_mode {
            JobMode::Single => "Single",
            JobMode::Album => "Album",
        },
    );
    s.append(", encode_mode=");
    s.append(
        match job.encode_mode {
            EncodeMode::Streaming => "Streaming",
            EncodeMode::Dd => "Dd",
            EncodeMode::Ddp => "Ddp",
            EncodeMode::Mlp => "Mlp",
            EncodeMode::Bluray => "Bluray",
            EncodeMode::Ddp71 => "Ddp71",
            EncodeMode::Ac4 => "Ac4",
        },
    );
    s.append(", format=");
    s.append(format.as_str());
    s
}

/// Generating is validating then rendering: it succeeds exactly when
/// validation succeeds and the resolved job renders, and then yields that
/// job and its text; otherwise it fails with the first of their errors.
pub proof fn law_generate_is_validate_then_render(
    spec: JobSpecModel,
    options: ResolveOptionsModel,
    format: RenderFormat,
)
    ensures
        resolve_outcome(spec, options) matches Err(e) ==> generate_outcome(spec, options, format) == Err::<
            (JobModel, Seq<char>),
            Seq<char>,
        >(e),
        resolve_outcome(spec, options) matches Ok(j) ==> (generate_outcome(spec, options, format) matches Ok(
            g,
        ) <==> render_outcome(j, format) is Ok),
        generate_outcome(spec, options, format) matches Ok(g) ==> resolve_outcome(spec, options) == Ok::<
            JobModel,
            Seq<char>,
        >(g.0) && render_outcome(g.0, format) == Ok::<Seq<char>, Seq<char>>(g.1),
{
}

/// A job that validates always generates as XML, and the text starts with
/// the XML declaration.
pub proof fn law_valid_jobs_generate_xml(spec: JobSpecModel, options: ResolveOptionsModel)
    requires
        resolve_outcome(spec, options) is Ok,
    ensures
        generate_outcome(spec, options, RenderFormat::Xml) matches Ok(g) && g.1.take(
            xml_declaration().len() as int,
        ) == xml_declaration(),
{
    let j = resolve_outcome(spec, options)->Ok_0;
    law_xml_always_renders(j);
}

} // verus!
