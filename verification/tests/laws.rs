use dee_config_gen::schema::{evaluate_constraints, ConstraintContext};
use dee_config_gen::template::{atmos_ec3_v1, pcm_ddp_v1};
use dee_config_gen::bridge;
use dee_config_gen::registry::{canonicalize_enum, validate_data_rate};
use dee_config_gen::render::xml_escape;
use dee_config_gen::spec::normalize_windows_path;
use dee_config_gen::{
    generate_config, job_summary, render_config, resolve_job, validate_job, Ac4OutputMode,
    EncodeMode, FilterOverrides, GenerateOptions, IoSpec, JobMode, JobSpec, MiscSpec,
    OutputContainer, OutputSpec, Profile, RenderFormat, ResolveOptions, RunSpec,
};

fn job(profile: Profile, mode: JobMode, inputs: &[&str], outputs: &[&str]) -> JobSpec {
    JobSpec {
        template_id: Some("atmos_ec3_v1".to_string()),
        profile,
        job_mode: mode,
        encode_mode: EncodeMode::Streaming,
        input: IoSpec {
            storage_path: "C:\\media\\in".to_string(),
            file_names: inputs.iter().map(|s| s.to_string()).collect(),
        },
        inputs: None,
        output: OutputSpec {
            storage_path: "/srv/out".to_string(),
            file_names: outputs.iter().map(|s| s.to_string()).collect(),
            container: OutputContainer::Ac4,
            ac4_output_mode: Ac4OutputMode::Single,
        },
        misc: MiscSpec { temp_dir: "tmp".to_string(), clean_temp: true },
        filter: FilterOverrides::default(),
        run: RunSpec::default(),
    }
}

fn opts(allow: bool) -> ResolveOptions {
    ResolveOptions { template_override: None, allow_fixed_override: allow, windows_drive: 'y' }
}

fn is_windows_path(p: &str) -> bool {
    let c: Vec<char> = p.chars().collect();
    c.len() >= 3 && c[0].is_ascii_uppercase() && c[1] == ':' && c[2] == '/' && !p.contains('\\')
}

#[test]
fn windows_paths_have_a_drive_and_forward_slashes() {
    for p in ["/tmp/in", "tmp\\in", "\"d:\\x y\\z\"", "", "  C:/a  "] {
        let r = normalize_windows_path(p, 'Y');
        assert!(is_windows_path(&r), "{p} -> {r}");
    }
}

#[test]
fn normalising_twice_changes_nothing() {
    for p in ["/tmp/in", "tmp\\in", "\"d:\\x y\\z\"", "c:/a", ""] {
        let once = normalize_windows_path(p, 'Y');
        assert_eq!(normalize_windows_path(&once, 'Y'), once);
    }
    let once = normalize_windows_path("\" x \"", 'Y');
    assert_eq!(once, "Y:/ x ");
    assert_eq!(normalize_windows_path(&once, 'Y'), "Y:/ x");
}

#[test]
fn escaped_text_has_no_markup() {
    let e = xml_escape("<a href=\"x\">'&'</a>");
    assert_eq!(e, "&lt;a href=&quot;x&quot;&gt;&apos;&amp;&apos;&lt;/a&gt;");
    assert!(!e.contains(['<', '>', '"', '\'']));
}

#[test]
fn valid_jobs_always_generate_xml() {
    let spec = job(Profile::Standard, JobMode::Single, &["a.wav"], &["a.ec3"]);
    let resolved = validate_job(spec.clone(), &opts(false)).unwrap();
    let generated = generate_config(spec, &GenerateOptions { resolve: opts(false), format: RenderFormat::Xml }).unwrap();
    assert!(generated.rendered.starts_with("<?xml version=\"1.0\"?>\n"));
    assert_eq!(render_config(&resolved, RenderFormat::Xml).unwrap(), generated.rendered);
}

#[test]
fn generate_fails_with_the_validation_error() {
    let spec = job(Profile::Standard, JobMode::Single, &["a.wav", "b.wav"], &["a.ec3"]);
    let v = validate_job(spec.clone(), &opts(false)).unwrap_err();
    let g = generate_config(spec, &GenerateOptions { resolve: opts(false), format: RenderFormat::Json }).unwrap_err();
    assert_eq!(v, g);
    assert_eq!(v, "job_mode=single requires exactly one input and one output file name");
}

#[test]
fn allowing_fixed_overrides_keeps_accepted_jobs() {
    let spec = job(Profile::Music, JobMode::Single, &["a.wav"], &["a.ec3"]);
    let strict = resolve_job(spec.clone(), &opts(false)).unwrap();
    let lenient = resolve_job(spec, &opts(true)).unwrap();
    assert_eq!(
        render_config(&strict, RenderFormat::Xml).unwrap(),
        render_config(&lenient, RenderFormat::Xml).unwrap()
    );
}

#[test]
fn resolved_jobs_pair_inputs_with_outputs() {
    let album = job(Profile::Standard, JobMode::Album, &["a.wav", " b.wav "], &["a.ec3", "b.ec3"]);
    let r = resolve_job(album, &opts(false)).unwrap();
    assert_eq!(r.input.file_names, vec!["a.wav", "b.wav"]);
    assert_eq!(r.output.file_names.len(), 2);
    let bad = job(Profile::Standard, JobMode::Album, &["a.wav", "b.wav"], &["a.ec3"]);
    assert_eq!(
        resolve_job(bad, &opts(false)).unwrap_err(),
        "job_mode=album requires equal input/output counts; got 2 and 1"
    );
    let none = job(Profile::Standard, JobMode::Album, &[], &[]);
    assert_eq!(
        resolve_job(none, &opts(false)).unwrap_err(),
        "input.file_names and output.file_names must not be empty"
    );
}

#[test]
fn resolved_paths_are_windows_paths() {
    let r = resolve_job(job(Profile::Standard, JobMode::Single, &["a.wav"], &["a.ec3"]), &opts(false)).unwrap();
    assert_eq!(r.input.storage_path, "C:/media/in");
    assert_eq!(r.output.storage_path, "Y:/srv/out");
    assert_eq!(r.misc.temp_dir, "Y:/tmp");
    assert_eq!(
        job_summary(&r, RenderFormat::Xml),
        "template_id=atmos_ec3_v1, profile=Standard, job_mode=Single, encode_mode=Streaming, format=xml"
    );
}

#[test]
fn canonical_values_are_fixed_points() {
    let c = canonicalize_enum("preferred_downmix_mode", "LoRo").unwrap();
    assert_eq!(c, "loro");
    assert_eq!(canonicalize_enum("preferred_downmix_mode", &c).unwrap(), c);
    assert_eq!(canonicalize_enum("preferred_downmix_mode", "LORO").unwrap(), c);
    assert_eq!(canonicalize_enum("metering_mode", "leqa").unwrap(), "LeqA");
    assert!(canonicalize_enum("preferred_downmix_mode", "lo ro").is_err());
    assert_eq!(canonicalize_enum("no_such_key", "x").unwrap_err(), "unknown parameter: no_such_key");
}

#[test]
fn accepted_data_rates_stay_under_the_hard_max() {
    for rate in [0_u16, 383, 384, 1024, 1152, 1664, 1665, 2000, u16::MAX] {
        for mode in ["streaming", "bluray"] {
            if validate_data_rate(rate, mode).is_ok() {
                assert!(rate <= 1664);
            }
        }
    }
    assert_eq!(validate_data_rate(448, "ac4").unwrap_err(), "unsupported atmos_mode 'ac4'");
}

#[test]
fn bridge_generate_agrees_with_validate() {
    let text = "template_id: atmos_ec3_v1\ninput:\n  storage_path: ./in\n  file_names: [i.wav]\noutput:\n  storage_path: ./out\n  file_names: [o.ec3]\nmisc:\n  temp_dir: ./tmp\n";
    let v = bridge::validate_job(text.to_string(), None).unwrap();
    let g = bridge::generate_config(text.to_string(), None).unwrap();
    assert_eq!(v.template_id, g.template_id);
    assert!(g.rendered_config.starts_with("<?xml version=\"1.0\"?>"));
    let bad = "template_id: nope\n";
    let ve = bridge::validate_job(bad.to_string(), None).unwrap_err();
    let ge = bridge::generate_config(bad.to_string(), None).unwrap_err();
    assert_eq!(ve.to_text(), ge.to_text());
}

#[test]
fn atmos_defaults_meet_their_own_constraints() {
    for (profile, pname) in [(Profile::Standard, "standard"), (Profile::Music, "music")] {
        for (mode, mname) in [(EncodeMode::Streaming, "streaming"), (EncodeMode::Bluray, "bluray")] {
            let f = atmos_ec3_v1::defaults(profile, mode);
            let values = atmos_ec3_v1::constraint_values(&f);
            let ctx = ConstraintContext { profile: pname, encode_mode: mname, allow_fixed_override: false };
            assert_eq!(evaluate_constraints(&atmos_ec3_v1::constraints(), &ctx, &values), Ok(()));
            assert_eq!(f.data_rate, if mode == EncodeMode::Bluray { 1280 } else { 448 });
        }
    }
}

#[test]
fn pcm_defaults_meet_their_own_constraints() {
    for (profile, pname) in [(Profile::Standard, "standard"), (Profile::Music, "music")] {
        for (mode, mname) in [
            (EncodeMode::Dd, "dd"),
            (EncodeMode::Ddp, "ddp"),
            (EncodeMode::Bluray, "bluray"),
            (EncodeMode::Ddp71, "ddp71"),
        ] {
            let f = pcm_ddp_v1::defaults(profile, mode);
            let values = pcm_ddp_v1::constraint_values(&f);
            let ctx = ConstraintContext { profile: pname, encode_mode: mname, allow_fixed_override: false };
            assert_eq!(evaluate_constraints(&pcm_ddp_v1::constraints(), &ctx, &values), Ok(()));
        }
    }
}

#[test]
fn pcm_jobs_resolve_with_their_mode_downmix() {
    let mut spec = job(Profile::Standard, JobMode::Single, &["a.wav"], &["a.ac3"]);
    spec.template_id = Some("pcm_ddp_v1".to_string());
    let opts = ResolveOptions::default();
    for (mode, downmix) in [(EncodeMode::Dd, "5.1"), (EncodeMode::Ddp, "5.1"), (EncodeMode::Bluray, "off"), (EncodeMode::Ddp71, "off")] {
        spec.encode_mode = mode;
        let j = resolve_job(spec.clone(), &opts).unwrap();
        match j.filter {
            dee_config_gen::ResolvedFilter::PcmDdpV1(f) => assert_eq!(f.downmix_config, downmix),
            _ => panic!("expected a pcm filter"),
        }
    }
}
