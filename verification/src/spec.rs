//! The job spec: the input model of a DEE job, and path normalisation.
use vstd::prelude::*;

use crate::text::{
    chars_of, is_alpha, is_alpha_exec, owned, replace_char_vec, seq_replace_char, seq_trim,
    seq_trim_char, slice_vec, string_of, trim, trim_char_vec, trim_vec, upper_char, upper_char_exec,
    is_ws, lead_ws, trail_ws, lead_count, trail_count,
};

verus! {

/// Template used when a job names none.
pub const DEFAULT_TEMPLATE_ID: &'static str = "atmos_ec3_v1";

/// Encoding profile of a job.
#[derive(Debug, Clone, Copy, PartialEq, Eq, Structural)]
pub enum Profile {
    Standard,
    Music,
}

pub open spec fn spec_profile_name(v: Profile) -> Seq<char> {
    match v {
        Profile::Standard => "standard"@,
        Profile::Music => "music"@,
    }
}

impl Profile {
    /// The name the job spec and DEE use for this value.
    pub fn as_str(self) -> (r: &'static str)
        ensures
            r@ == spec_profile_name(self),
    {
        match self {
            Profile::Standard => "standard",
            Profile::Music => "music",
        }
    }
}

impl Default for Profile {
    fn default() -> (r: Self)
        ensures
            r == Profile::Standard,
    {
        Profile::Standard
    }
}

/// Whether a job encodes one file or an album of files.
#[derive(Debug, Clone, Copy, PartialEq, Eq, Structural)]
pub enum JobMode {
    Single,
    Album,
}

pub open spec fn spec_job_mode_name(v: JobMode) -> Seq<char> {
    match v {
        JobMode::Single => "single"@,
        JobMode::Album => "album"@,
    }
}

impl JobMode {
    /// The name the job spec and DEE use for this value.
    pub fn as_str(self) -> (r: &'static str)
        ensures
            r@ == spec_job_mode_name(self),
    {
        match self {
            JobMode::Single => "single",
            JobMode::Album => "album",
        }
    }
}

impl Default for JobMode {
    fn default() -> (r: Self)
        ensures
            r == JobMode::Single,
    {
        JobMode::Single
    }
}

/// Target encoding mode.
#[derive(Debug, Clone, Copy, PartialEq, Eq, Structural)]
pub enum EncodeMode {
    Streaming,
    Dd,
    Ddp,
    Mlp,
    Bluray,
    Ddp71,
    Ac4,
}

pub open spec fn spec_encode_mode_name(v: EncodeMode) -> Seq<char> {
    match v {
        EncodeMode::Streaming => "streaming"@,
        EncodeMode::Dd => "dd"@,
        EncodeMode::Ddp => "ddp"@,
        EncodeMode::Mlp => "mlp"@,
        EncodeMode::Bluray => "bluray"@,
        EncodeMode::Ddp71 => "ddp71"@,
        EncodeMode::Ac4 => "ac4"@,
    }
}

impl EncodeMode {
    /// The name the job spec and DEE use for this value.
    pub fn as_str(self) -> (r: &'static str)
        ensures
            r@ == spec_encode_mode_name(self),
    {
        match self {
            EncodeMode::Streaming => "streaming",
            EncodeMode::Dd => "dd",
            EncodeMode::Ddp => "ddp",
            EncodeMode::Mlp => "mlp",
            EncodeMode::Bluray => "bluray",
            EncodeMode::Ddp71 => "ddp71",
            EncodeMode::Ac4 => "ac4",
        }
    }
}

impl Default for EncodeMode {
    fn default() -> (r: Self)
        ensures
            r == EncodeMode::Streaming,
    {
        EncodeMode::Streaming
    }
}

/// Container of an AC-4 output.
#[derive(Debug, Clone, Copy, PartialEq, Eq, Structural)]
pub enum OutputContainer {
    Ac4,
    Mp4,
}

pub open spec fn spec_output_container_name(v: OutputContainer) -> Seq<char> {
    match v {
        OutputContainer::Ac4 => "ac4"@,
        OutputContainer::Mp4 => "mp4"@,
    }
}

impl OutputContainer {
    /// The name the job spec and DEE use for this value.
    pub fn as_str(self) -> (r: &'static str)
        ensures
            r@ == spec_output_container_name(self),
    {
        match self {
            OutputContainer::Ac4 => "ac4",
            OutputContainer::Mp4 => "mp4",
        }
    }
}

impl Default for OutputContainer {
    fn default() -> (r: Self)
        ensures
            r == OutputContainer::Ac4,
    {
        OutputContainer::Ac4
    }
}

/// Number of AC-4 outputs.
#[derive(Debug, Clone, Copy, PartialEq, Eq, Structural)]
pub enum Ac4OutputMode {
    Single,
    Multi3,
}

pub open spec fn spec_ac4_output_mode_name(v: Ac4OutputMode) -> Seq<char> {
    match v {
        Ac4OutputMode::Single => "single"@,
        Ac4OutputMode::Multi3 => "multi3"@,
    }
}

impl Ac4OutputMode {
    /// The name the job spec and DEE use for this value.
    pub fn as_str(self) -> (r: &'static str)
        ensures
            r@ == spec_ac4_output_mode_name(self),
    {
        match self {
            Ac4OutputMode::Single => "single",
            Ac4OutputMode::Multi3 => "multi3",
        }
    }
}

impl Default for Ac4OutputMode {
    fn default() -> (r: Self)
        ensures
            r == Ac4OutputMode::Single,
    {
        Ac4OutputMode::Single
    }
}

/// A storage location and the file names in it.
#[derive(Debug, Clone)]
pub struct IoSpec {
    pub storage_path: String,
    pub file_names: Vec<String>,
}

impl IoSpec {
    /// No storage path (after trimming) and no file names.
    pub fn is_empty(&self) -> (r: bool)
        ensures
            r == (seq_trim(self.storage_path@).len() == 0 && self.file_names@.len() == 0),
    {
        let t = trim(self.storage_path.as_str());
        t.as_str().unicode_len() == 0 && self.file_names.len() == 0
    }

    /// The empty location.
    pub fn empty() -> (r: IoSpec)
        ensures
            r.storage_path@ == Seq::<char>::empty(),
            r.file_names@.len() == 0,
    {
        IoSpec { storage_path: String::new(), file_names: Vec::new() }
    }
}

/// The output location, with the AC-4 container settings.
#[derive(Debug, Clone)]
pub struct OutputSpec {
    pub storage_path: String,
    pub file_names: Vec<String>,
    pub container: OutputContainer,
    pub ac4_output_mode: Ac4OutputMode,
}

/// Input groups of the mixed TrueHD templates.
#[derive(Debug, Clone)]
pub struct InputsSpec {
    pub atmos_mezz: Option<IoSpec>,
    pub wav: Option<IoSpec>,
    pub wav_list: Option<IoSpec>,
}

/// Temporary directory settings.
#[derive(Debug, Clone)]
pub struct MiscSpec {
    pub temp_dir: String,
    pub clean_temp: bool,
}

/// Extra runner arguments, and the environment variables of the runner as
/// name/value pairs in which each name occurs once.
#[derive(Debug, Clone)]
pub struct RunSpec {
    pub runner_args: Vec<String>,
    pub env: Vec<(String, String)>,
}

impl Default for RunSpec {
    fn default() -> (r: Self)
        ensures
            r.runner_args@.len() == 0,
            r.env@.len() == 0,
    {
        RunSpec { runner_args: Vec::new(), env: Vec::new() }
    }
}

/// Per-parameter overrides of the template defaults.
#[derive(Debug, Clone)]
pub struct FilterOverrides {
    pub channel_configuration: Option<String>,
    pub input_timecode_frame_rate: Option<String>,
    pub offset: Option<String>,
    pub ffoa: Option<String>,
    pub metering_mode: Option<String>,
    pub dialogue_intelligence: Option<bool>,
    pub speech_threshold: Option<u8>,
    pub data_rate: Option<u16>,
    pub ac4_frame_rate: Option<String>,
    pub ims_legacy_presentation: Option<bool>,
    pub iframe_interval: Option<u16>,
    pub language: Option<String>,
    pub encoding_profile: Option<String>,
    pub bitstream_mode: Option<String>,
    pub downmix_config: Option<String>,
    pub timecode_frame_rate: Option<String>,
    pub start: Option<String>,
    pub end: Option<String>,
    pub time_base: Option<String>,
    pub prepend_silence_duration: Option<String>,
    pub append_silence_duration: Option<String>,
    pub lfe_on: Option<bool>,
    pub dolby_surround_mode: Option<String>,
    pub dolby_surround_ex_mode: Option<String>,
    pub user_data: Option<i32>,
    pub line_mode_drc_profile: Option<String>,
    pub rf_mode_drc_profile: Option<String>,
    pub ddp_drc_profile: Option<String>,
    pub flat_panel_drc_profile: Option<String>,
    pub home_theatre_drc_profile: Option<String>,
    pub portable_hp_drc_profile: Option<String>,
    pub portable_spkr_drc_profile: Option<String>,
    pub lfe_lowpass_filter: Option<bool>,
    pub surround_90_degree_phase_shift: Option<bool>,
    pub surround_3db_attenuation: Option<bool>,
    pub loro_center_mix_level: Option<String>,
    pub loro_surround_mix_level: Option<String>,
    pub ltrt_center_mix_level: Option<String>,
    pub ltrt_surround_mix_level: Option<String>,
    pub preferred_downmix_mode: Option<String>,
    pub allow_hybrid_downmix: Option<bool>,
    pub starting_timecode: Option<String>,
    pub frame_rate: Option<String>,
    pub surround_trim_5_1: Option<String>,
    pub height_trim_5_1: Option<String>,
    pub custom_dialnorm: Option<i8>,
    pub encoding_backend: Option<String>,
    pub encoder_mode: Option<String>,
    pub atmos_presentation_drc_profile: Option<String>,
    pub spatial_clusters: Option<String>,
    pub legacy_authoring_compatibility: Option<bool>,
    pub presentation_8ch_drc_profile: Option<String>,
    pub presentation_6ch_drc_profile: Option<String>,
    pub presentation_2ch_drc_profile: Option<String>,
    pub optimize_data_rate: Option<bool>,
}

impl FilterOverrides {
    /// No parameter is overridden.
    pub open spec fn spec_is_empty(&self) -> bool {
        self.channel_configuration is None
        && self.input_timecode_frame_rate is None
        && self.offset is None
        && self.ffoa is None
        && self.metering_mode is None
        && self.dialogue_intelligence is None
        && self.speech_threshold is None
        && self.data_rate is None
        && self.ac4_frame_rate is None
        && self.ims_legacy_presentation is None
        && self.iframe_interval is None
        && self.language is None
        && self.encoding_profile is None
        && self.bitstream_mode is None
        && self.downmix_config is None
        && self.timecode_frame_rate is None
        && self.start is None
        && self.end is None
        && self.time_base is None
        && self.prepend_silence_duration is None
        && self.append_silence_duration is None
        && self.lfe_on is None
        && self.dolby_surround_mode is None
        && self.dolby_surround_ex_mode is None
        && self.user_data is None
        && self.line_mode_drc_profile is None
        && self.rf_mode_drc_profile is None
        && self.ddp_drc_profile is None
        && self.flat_panel_drc_profile is None
        && self.home_theatre_drc_profile is None
        && self.portable_hp_drc_profile is None
        && self.portable_spkr_drc_profile is None
        && self.lfe_lowpass_filter is None
        && self.surround_90_degree_phase_shift is None
        && self.surround_3db_attenuation is None
        && self.loro_center_mix_level is None
        && self.loro_surround_mix_level is None
        && self.ltrt_center_mix_level is None
        && self.ltrt_surround_mix_level is None
        && self.preferred_downmix_mode is None
        && self.allow_hybrid_downmix is None
        && self.starting_timecode is None
        && self.frame_rate is None
        && self.surround_trim_5_1 is None
        && self.height_trim_5_1 is None
        && self.custom_dialnorm is None
        && self.encoding_backend is None
        && self.encoder_mode is None
        && self.atmos_presentation_drc_profile is None
        && self.spatial_clusters is None
        && self.legacy_authoring_compatibility is None
        && self.presentation_8ch_drc_profile is None
        && self.presentation_6ch_drc_profile is None
        && self.presentation_2ch_drc_profile is None
        && self.optimize_data_rate is None
    }

    /// No parameter is overridden.
    pub fn is_empty(&self) -> (r: bool)
        ensures
            r == self.spec_is_empty(),
    {
        self.channel_configuration.is_none()
            && self.input_timecode_frame_rate.is_none()
            && self.offset.is_none()
            && self.ffoa.is_none()
            && self.metering_mode.is_none()
            && self.dialogue_intelligence.is_none()
            && self.speech_threshold.is_none()
            && self.data_rate.is_none()
            && self.ac4_frame_rate.is_none()
            && self.ims_legacy_presentation.is_none()
            && self.iframe_interval.is_none()
            && self.language.is_none()
            && self.encoding_profile.is_none()
            && self.bitstream_mode.is_none()
            && self.downmix_config.is_none()
            && self.timecode_frame_rate.is_none()
            && self.start.is_none()
            && self.end.is_none()
            && self.time_base.is_none()
            && self.prepend_silence_duration.is_none()
            && self.append_silence_duration.is_none()
            && self.lfe_on.is_none()
            && self.dolby_surround_mode.is_none()
            && self.dolby_surround_ex_mode.is_none()
            && self.user_data.is_none()
            && self.line_mode_drc_profile.is_none()
            && self.rf_mode_drc_profile.is_none()
            && self.ddp_drc_profile.is_none()
            && self.flat_panel_drc_profile.is_none()
            && self.home_theatre_drc_profile.is_none()
            && self.portable_hp_drc_profile.is_none()
            && self.portable_spkr_drc_profile.is_none()
            && self.lfe_lowpass_filter.is_none()
            && self.surround_90_degree_phase_shift.is_none()
            && self.surround_3db_attenuation.is_none()
            && self.loro_center_mix_level.is_none()
            && self.loro_surround_mix_level.is_none()
            && self.ltrt_center_mix_level.is_none()
            && self.ltrt_surround_mix_level.is_none()
            && self.preferred_downmix_mode.is_none()
            && self.allow_hybrid_downmix.is_none()
            && self.starting_timecode.is_none()
            && self.frame_rate.is_none()
            && self.surround_trim_5_1.is_none()
            && self.height_trim_5_1.is_none()
            && self.custom_dialnorm.is_none()
            && self.encoding_backend.is_none()
            && self.encoder_mode.is_none()
            && self.atmos_presentation_drc_profile.is_none()
            && self.spatial_clusters.is_none()
            && self.legacy_authoring_compatibility.is_none()
            && self.presentation_8ch_drc_profile.is_none()
            && self.presentation_6ch_drc_profile.is_none()
            && self.presentation_2ch_drc_profile.is_none()
            && self.optimize_data_rate.is_none()
    }
}

impl Default for FilterOverrides {
    fn default() -> (r: Self)
        ensures
            r.spec_is_empty(),
    {
        FilterOverrides {
            channel_configuration: None,
            input_timecode_frame_rate: None,
            offset: None,
            ffoa: None,
            metering_mode: None,
            dialogue_intelligence: None,
            speech_threshold: None,
            data_rate: None,
            ac4_frame_rate: None,
            ims_legacy_presentation: None,
            iframe_interval: None,
            language: None,
            encoding_profile: None,
            bitstream_mode: None,
            downmix_config: None,
            timecode_frame_rate: None,
            start: None,
            end: None,
            time_base: None,
            prepend_silence_duration: None,
            append_silence_duration: None,
            lfe_on: None,
            dolby_surround_mode: None,
            dolby_surround_ex_mode: None,
            user_data: None,
            line_mode_drc_profile: None,
            rf_mode_drc_profile: None,
            ddp_drc_profile: None,
            flat_panel_drc_profile: None,
            home_theatre_drc_profile: None,
            portable_hp_drc_profile: None,
            portable_spkr_drc_profile: None,
            lfe_lowpass_filter: None,
            surround_90_degree_phase_shift: None,
            surround_3db_attenuation: None,
            loro_center_mix_level: None,
            loro_surround_mix_level: None,
            ltrt_center_mix_level: None,
            ltrt_surround_mix_level: None,
            preferred_downmix_mode: None,
            allow_hybrid_downmix: None,
            starting_timecode: None,
            frame_rate: None,
            surround_trim_5_1: None,
            height_trim_5_1: None,
            custom_dialnorm: None,
            encoding_backend: None,
            encoder_mode: None,
            atmos_presentation_drc_profile: None,
            spatial_clusters: None,
            legacy_authoring_compatibility: None,
            presentation_8ch_drc_profile: None,
            presentation_6ch_drc_profile: None,
            presentation_2ch_drc_profile: None,
            optimize_data_rate: None,
        }
    }
}

/// Input model for a DEE job spec.
#[derive(Debug, Clone)]
pub struct JobSpec {
    pub template_id: Option<String>,
    pub profile: Profile,
    pub job_mode: JobMode,
    pub encode_mode: EncodeMode,
    pub input: IoSpec,
    pub inputs: Option<InputsSpec>,
    pub output: OutputSpec,
    pub misc: MiscSpec,
    pub filter: FilterOverrides,
    pub run: RunSpec,
}

/// The names of the encode modes are distinct.
pub proof fn lemma_mode_names(mode: EncodeMode)
    ensures
        (spec_encode_mode_name(mode) == "streaming"@) == (mode == EncodeMode::Streaming),
        (spec_encode_mode_name(mode) == "dd"@) == (mode == EncodeMode::Dd),
        (spec_encode_mode_name(mode) == "ddp"@) == (mode == EncodeMode::Ddp),
        (spec_encode_mode_name(mode) == "mlp"@) == (mode == EncodeMode::Mlp),
        (spec_encode_mode_name(mode) == "bluray"@) == (mode == EncodeMode::Bluray),
        (spec_encode_mode_name(mode) == "ddp71"@) == (mode == EncodeMode::Ddp71),
        (spec_encode_mode_name(mode) == "ac4"@) == (mode == EncodeMode::Ac4),
{
    reveal_strlit("streaming");
    reveal_strlit("dd");
    reveal_strlit("ddp");
    reveal_strlit("mlp");
    reveal_strlit("bluray");
    reveal_strlit("ddp71");
    reveal_strlit("ac4");
    assert("streaming"@ != "dd"@) by {
        assert("streaming"@.len() != "dd"@.len());
    }
    assert("streaming"@ != "ddp"@) by {
        assert("streaming"@.len() != "ddp"@.len());
    }
    assert("streaming"@ != "mlp"@) by {
        assert("streaming"@.len() != "mlp"@.len());
    }
    assert("streaming"@ != "bluray"@) by {
        assert("streaming"@.len() != "bluray"@.len());
    }
    assert("streaming"@ != "ddp71"@) by {
        assert("streaming"@.len() != "ddp71"@.len());
    }
    assert("streaming"@ != "ac4"@) by {
        assert("streaming"@.len() != "ac4"@.len());
    }
    assert("dd"@ != "ddp"@) by {
        assert("dd"@.len() != "ddp"@.len());
    }
    assert("dd"@ != "mlp"@) by {
        assert("dd"@.len() != "mlp"@.len());
    }
    assert("dd"@ != "bluray"@) by {
        assert("dd"@.len() != "bluray"@.len());
    }
    assert("dd"@ != "ddp71"@) by {
        assert("dd"@.len() != "ddp71"@.len());
    }
    assert("dd"@ != "ac4"@) by {
        assert("dd"@.len() != "ac4"@.len());
    }
    assert("ddp"@ != "mlp"@) by {
        assert("ddp"@[0] != "mlp"@[0]);
    }
    assert("ddp"@ != "bluray"@) by {
        assert("ddp"@.len() != "bluray"@.len());
    }
    assert("ddp"@ != "ddp71"@) by {
        assert("ddp"@.len() != "ddp71"@.len());
    }
    assert("ddp"@ != "ac4"@) by {
        assert("ddp"@[0] != "ac4"@[0]);
    }
    assert("mlp"@ != "bluray"@) by {
        assert("mlp"@.len() != "bluray"@.len());
    }
    assert("mlp"@ != "ddp71"@) by {
        assert("mlp"@.len() != "ddp71"@.len());
    }
    assert("mlp"@ != "ac4"@) by {
        assert("mlp"@[0] != "ac4"@[0]);
    }
    assert("bluray"@ != "ddp71"@) by {
        assert("bluray"@.len() != "ddp71"@.len());
    }
    assert("bluray"@ != "ac4"@) by {
        assert("bluray"@.len() != "ac4"@.len());
    }
    assert("ddp71"@ != "ac4"@) by {
        assert("ddp71"@.len() != "ac4"@.len());
    }
}

/// Error text for a drive that is not an ASCII letter.
pub open spec fn drive_error(drive: char) -> Seq<char> {
    "win_drive must be an ASCII drive letter, got '"@ + seq![drive] + "'"@
}

/// Checks that `drive` is an ASCII letter and upper-cases it.
pub fn normalize_drive(drive: char) -> (r: Result<char, String>)
    ensures
        r is Ok <==> is_alpha(drive),
        r matches Ok(c) ==> c == upper_char(drive),
        r matches Err(e) ==> e@ == drive_error(drive),
{
    if !is_alpha_exec(drive) {
        let mut e = owned("win_drive must be an ASCII drive letter, got '");
        let mut d: Vec<char> = Vec::new();
        d.push(drive);
        let ds = string_of(&d);
        e.append(ds.as_str());
        e.append("'");
        return Err(e);
    }
    Ok(upper_char_exec(drive))
}

/// The path text after trimming, dropping surrounding quotes and turning
/// backslashes into slashes.
pub open spec fn cleaned_path(path: Seq<char>) -> Seq<char> {
    seq_replace_char(seq_trim_char(seq_trim(path), '"'), '\\', '/')
}

/// A Windows path on `drive` for `path`: a path that already names a drive
/// keeps it (upper-cased); an absolute path gets the drive prefixed; a
/// relative path gets the drive root prefixed.
pub open spec fn windows_path(path: Seq<char>, drive: char) -> Seq<char> {
    let t = cleaned_path(path);
    if t.len() >= 3 && is_alpha(t[0]) && t[1] == ':' && t[2] == '/' {
        seq![upper_char(t[0]), ':'] + t.skip(2)
    } else if t.len() >= 1 && t[0] == '/' {
        seq![drive, ':'] + t
    } else {
        seq![drive, ':', '/'] + t
    }
}

/// Converts a job path to the Windows form that DEE reads.
pub fn normalize_windows_path(path: &str, drive: char) -> (r: String)
    ensures
        r@ == windows_path(path@, drive),
{
    let v = chars_of(path);
    let a = trim_vec(&v);
    let b = trim_char_vec(&a, '"');
    let t = replace_char_vec(&b, '\\', '/');
    let mut out: Vec<char> = Vec::new();
    if t.len() >= 3 && is_alpha_exec(t[0]) && t[1] == ':' && t[2] == '/' {
        out.push(upper_char_exec(t[0]));
        out.push(':');
        let rest = slice_vec(&t, 2, t.len());
        let mut i: usize = 0;
        while i < rest.len()
            invariant
                i <= rest.len(),
                out@ == seq![upper_char(t@[0]), ':'] + rest@.take(i as int),
            decreases rest.len() - i,
        {
            out.push(rest[i]);
            assert(rest@.take(i + 1) == rest@.take(i as int).push(rest@[i as int]));
            i += 1;
        }
        assert(rest@.take(rest.len() as int) == rest@);
        assert(rest@ == t@.skip(2));
    } else {
        out.push(drive);
        out.push(':');
        if !(t.len() >= 1 && t[0] == '/') {
            out.push('/');
        }
        let ghost pre = out@;
        let mut i: usize = 0;
        while i < t.len()
            invariant
                i <= t.len(),
                out@ == pre + t@.take(i as int),
            decreases t.len() - i,
        {
            out.push(t[i]);
            assert(t@.take(i + 1) == t@.take(i as int).push(t@[i as int]));
            i += 1;
        }
        assert(t@.take(t.len() as int) == t@);
    }
    string_of(&out)
}

/// Whether `c` is an upper-case ASCII letter, the form of a drive letter.
pub open spec fn is_drive_letter(c: char) -> bool {
    'A' <= c && c <= 'Z'
}

/// Whether `p` is a Windows path that DEE reads: an upper-case drive
/// letter, a colon, a slash, and no backslash anywhere.
pub open spec fn is_windows_path(p: Seq<char>) -> bool {
    &&& p.len() >= 3
    &&& is_drive_letter(p[0])
    &&& p[1] == ':'
    &&& p[2] == '/'
    &&& forall|i: int| 0 <= i < p.len() ==> #[trigger] p[i] != '\\'
}

/// Every normalised path is a Windows path: it starts with an upper-case
/// drive letter (the path's own, or `drive` where it names none), a colon
/// and a slash, and uses forward slashes only.
pub proof fn law_windows_path_shape(path: Seq<char>, drive: char)
    requires
        is_drive_letter(drive),
    ensures
        is_windows_path(windows_path(path, drive)),
{
    let t = cleaned_path(path);
    let r = windows_path(path, drive);
    assert(forall|i: int| 0 <= i < t.len() ==> #[trigger] t[i] != '\\');
    if t.len() >= 3 && is_alpha(t[0]) && t[1] == ':' && t[2] == '/' {
        assert(r[0] == upper_char(t[0]));
        assert forall|i: int| 0 <= i < r.len() implies #[trigger] r[i] != '\\' by {
            if i >= 2 {
                assert(r[i] == t[i]);
            }
        }
    } else if t.len() >= 1 && t[0] == '/' {
        assert forall|i: int| 0 <= i < r.len() implies #[trigger] r[i] != '\\' by {
            if i >= 2 {
                assert(r[i] == t[i - 2]);
            }
        }
    } else {
        assert forall|i: int| 0 <= i < r.len() implies #[trigger] r[i] != '\\' by {
            if i >= 3 {
                assert(r[i] == t[i - 3]);
            }
        }
    }
}

/// Normalising a normalised path changes nothing, unless the path ends in
/// whitespace or a double quote (which normalisation trims).
pub proof fn law_windows_path_idempotent(path: Seq<char>, drive: char)
    requires
        is_drive_letter(drive),
        !is_ws(windows_path(path, drive).last()),
        windows_path(path, drive).last() != '"',
    ensures
        windows_path(windows_path(path, drive), drive) == windows_path(path, drive),
{
    let r = windows_path(path, drive);
    law_windows_path_shape(path, drive);
    assert(!is_ws(r[0]));
    assert(lead_ws(r) == 0);
    assert(r.skip(0) =~= r);
    assert(trail_ws(r) == 0);
    assert(r.take(r.len() as int) =~= r);
    assert(seq_trim(r) == r);
    assert(lead_count(r, '"') == 0);
    assert(trail_count(r, '"') == 0);
    assert(seq_trim_char(r, '"') == r);
    assert(seq_replace_char(r, '\\', '/') =~= r);
    assert(cleaned_path(r) == r);
    assert(r.skip(2) =~= r.subrange(2, r.len() as int));
    assert(seq![upper_char(r[0]), ':'] + r.skip(2) =~= r);
}

} // verus!
