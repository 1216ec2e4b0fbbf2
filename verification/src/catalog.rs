//! The catalog of templates and starter job specs that the command line
//! lists and shows.
use vstd::prelude::*;

use crate::metadata::{describes, template_metadata};
use crate::schema::{schemas_model, strs_model, AvailModel, ModeAvailability, ParamRule, ParamSchema, RuleModel, SchemaModel, SourceTag};
use crate::template::{kind_modes, kind_profiles, kind_schemas, template_of, unsupported_template_error};
use crate::text::{chars_of, i64_text, int_text, join, join_strs, owned, str_eq, string_of};

verus! {

/// A template as the catalog describes it.
#[derive(Debug, Clone)]
pub struct TemplateCatalogEntry {
    pub template_id: &'static str,
    pub description: &'static str,
    pub examples: Vec<&'static str>,
    pub canonical_example: &'static str,
}

/// Model of a catalog entry.
#[verifier::ext_equal]
pub struct EntryModel {
    pub id: Seq<char>,
    pub description: Seq<char>,
    pub examples: Seq<Seq<char>>,
    pub canonical: Seq<char>,
}

impl View for TemplateCatalogEntry {
    type V = EntryModel;

    open spec fn view(&self) -> EntryModel {
        EntryModel {
            id: self.template_id@,
            description: self.description@,
            examples: strs_model(self.examples@),
            canonical: self.canonical_example@,
        }
    }
}

/// A starter job spec, by its file name.
#[derive(Debug, Clone, Copy)]
pub struct ExampleAsset {
    pub name: &'static str,
}

pub open spec fn entry(id: Seq<char>, description: Seq<char>, examples: Seq<Seq<char>>, canonical: Seq<char>) -> EntryModel {
    EntryModel { id, description, examples, canonical }
}

/// The catalog, in listing order.
pub open spec fn catalog() -> Seq<EntryModel> {
    seq![
        entry(
            "ac4_ims_atmos_v1"@,
            "AC-4 IMS from atmos_mezz-family immersive inputs to .ac4 or .mp4"@,
            seq!["ac4_ims_atmos_single.ac4.yaml"@, "ac4_ims_atmos_single.mp4.yaml"@, "ac4_ims_atmos_multi3.ac4.yaml"@],
            "ac4_ims_atmos_single.ac4.yaml"@,
        ),
        entry(
            "ac4_ims_pcm_v1"@,
            "AC-4 IMS from PCM WAV or WAV-list inputs to .ac4 or .mp4"@,
            seq!["ac4_ims_pcm_single.ac4.yaml"@, "ac4_ims_pcm_single.mp4.yaml"@],
            "ac4_ims_pcm_single.ac4.yaml"@,
        ),
        entry(
            "atmos_ec3_v1"@,
            "Atmos Dolby Digital Plus configs for streaming or Blu-ray workflows"@,
            seq!["atmos_ec3_single.streaming.yaml"@, "atmos_ec3_single.bluray.yaml"@, "atmos_ec3_album.music.json"@],
            "atmos_ec3_single.streaming.yaml"@,
        ),
        entry(
            "pcm_ddp_v1"@,
            "PCM to Dolby Digital or Dolby Digital Plus configs"@,
            seq![
                "pcm_ddp_single.dd.yaml"@,
                "pcm_ddp_single.ddp.yaml"@,
                "pcm_ddp_single.ddp71.yaml"@,
                "pcm_ddp_single.bluray.yaml"@,
            ],
            "pcm_ddp_single.ddp.yaml"@,
        ),
        entry("thd_v1"@, "TrueHD MLP from atmos_mezz input"@, seq!["thd_single.mlp.yaml"@], "thd_single.mlp.yaml"@),
        entry(
            "thd_wav_v1"@,
            "TrueHD MLP from a single WAV input"@,
            seq!["thd_wav_single.mlp.yaml"@],
            "thd_wav_single.mlp.yaml"@,
        ),
        entry(
            "thd_wav_list_v1"@,
            "TrueHD MLP from ordered mono WAV stems"@,
            seq!["thd_wav_list_single.mlp.yaml"@],
            "thd_wav_list_single.mlp.yaml"@,
        ),
        entry(
            "thd_atmos_wav_v1"@,
            "TrueHD MLP from mixed atmos_mezz and WAV inputs"@,
            seq!["thd_atmos_wav_single.mlp.yaml"@],
            "thd_atmos_wav_single.mlp.yaml"@,
        ),
        entry(
            "thd_atmos_wav_list_v1"@,
            "TrueHD MLP from mixed atmos_mezz and ordered WAV stems"@,
            seq!["thd_atmos_wav_list_single.mlp.yaml"@],
            "thd_atmos_wav_list_single.mlp.yaml"@,
        ),
    ]
}

/// The starter job specs, by name.
pub open spec fn example_names() -> Seq<Seq<char>> {
    seq![
        "ac4_ims_atmos_multi3.ac4.yaml"@,
        "ac4_ims_atmos_single.ac4.yaml"@,
        "ac4_ims_atmos_single.mp4.yaml"@,
        "ac4_ims_pcm_single.ac4.yaml"@,
        "ac4_ims_pcm_single.mp4.yaml"@,
        "atmos_ec3_album.music.json"@,
        "atmos_ec3_single.bluray.yaml"@,
        "atmos_ec3_single.streaming.yaml"@,
        "pcm_ddp_single.bluray.yaml"@,
        "pcm_ddp_single.dd.yaml"@,
        "pcm_ddp_single.ddp.yaml"@,
        "pcm_ddp_single.ddp71.yaml"@,
        "thd_atmos_wav_list_single.mlp.yaml"@,
        "thd_atmos_wav_single.mlp.yaml"@,
        "thd_single.mlp.yaml"@,
        "thd_wav_list_single.mlp.yaml"@,
        "thd_wav_single.mlp.yaml"@,
    ]
}

pub open spec fn entries_view(v: Seq<TemplateCatalogEntry>) -> Seq<EntryModel> {
    v.map_values(|e: TemplateCatalogEntry| e@)
}

fn catalog_entry(
    template_id: &'static str,
    description: &'static str,
    examples: Vec<&'static str>,
    canonical_example: &'static str,
) -> (r: TemplateCatalogEntry)
    ensures
        r@ == entry(template_id@, description@, strs_model(examples@), canonical_example@),
{
    TemplateCatalogEntry { template_id, description, examples, canonical_example }
}

/// The catalog of templates.
pub fn template_catalog() -> (r: Vec<TemplateCatalogEntry>)
    ensures
        entries_view(r@) == catalog(),
{
    let mut v: Vec<TemplateCatalogEntry> = Vec::new();
    v.push(
        catalog_entry(
            "ac4_ims_atmos_v1",
            "AC-4 IMS from atmos_mezz-family immersive inputs to .ac4 or .mp4",
            vec!["ac4_ims_atmos_single.ac4.yaml", "ac4_ims_atmos_single.mp4.yaml", "ac4_ims_atmos_multi3.ac4.yaml"],
            "ac4_ims_atmos_single.ac4.yaml",
        ),
    );
    v.push(
        catalog_entry(
            "ac4_ims_pcm_v1",
            "AC-4 IMS from PCM WAV or WAV-list inputs to .ac4 or .mp4",
            vec!["ac4_ims_pcm_single.ac4.yaml", "ac4_ims_pcm_single.mp4.yaml"],
            "ac4_ims_pcm_single.ac4.yaml",
        ),
    );
    v.push(
        catalog_entry(
            "atmos_ec3_v1",
            "Atmos Dolby Digital Plus configs for streaming or Blu-ray workflows",
            vec!["atmos_ec3_single.streaming.yaml", "atmos_ec3_single.bluray.yaml", "atmos_ec3_album.music.json"],
            "atmos_ec3_single.streaming.yaml",
        ),
    );
    v.push(
        catalog_entry(
            "pcm_ddp_v1",
            "PCM to Dolby Digital or Dolby Digital Plus configs",
            vec![
                "pcm_ddp_single.dd.yaml",
                "pcm_ddp_single.ddp.yaml",
                "pcm_ddp_single.ddp71.yaml",
                "pcm_ddp_single.bluray.yaml",
            ],
            "pcm_ddp_single.ddp.yaml",
        ),
    );
    v.push(catalog_entry("thd_v1", "TrueHD MLP from atmos_mezz input", vec!["thd_single.mlp.yaml"], "thd_single.mlp.yaml"));
    v.push(
        catalog_entry(
            "thd_wav_v1",
            "TrueHD MLP from a single WAV input",
            vec!["thd_wav_single.mlp.yaml"],
            "thd_wav_single.mlp.yaml",
        ),
    );
    v.push(
        catalog_entry(
            "thd_wav_list_v1",
            "TrueHD MLP from ordered mono WAV stems",
            vec!["thd_wav_list_single.mlp.yaml"],
            "thd_wav_list_single.mlp.yaml",
        ),
    );
    v.push(
        catalog_entry(
            "thd_atmos_wav_v1",
            "TrueHD MLP from mixed atmos_mezz and WAV inputs",
            vec!["thd_atmos_wav_single.mlp.yaml"],
            "thd_atmos_wav_single.mlp.yaml",
        ),
    );
    v.push(
        catalog_entry(
            "thd_atmos_wav_list_v1",
            "TrueHD MLP from mixed atmos_mezz and ordered WAV stems",
            vec!["thd_atmos_wav_list_single.mlp.yaml"],
            "thd_atmos_wav_list_single.mlp.yaml",
        ),
    );
    assert(entries_view(v@) =~~= catalog());
    v
}

fn copy_strs(v: &Vec<&'static str>) -> (r: Vec<&'static str>)
    ensures
        r@ == v@,
{
    let mut out: Vec<&'static str> = Vec::new();
    let mut i: usize = 0;
    while i < v.len()
        invariant
            i <= v.len(),
            out@ == v@.take(i as int),
        decreases v.len() - i,
    {
        out.push(v[i]);
        assert(v@.take(i + 1) =~= v@.take(i as int).push(v@[i as int]));
        i += 1;
    }
    assert(v@.take(v.len() as int) =~= v@);
    out
}

/// A copy of a catalog entry.
pub fn copy_entry(e: &TemplateCatalogEntry) -> (r: TemplateCatalogEntry)
    ensures
        r@ == e@,
{
    TemplateCatalogEntry {
        template_id: e.template_id,
        description: e.description,
        examples: copy_strs(&e.examples),
        canonical_example: e.canonical_example,
    }
}

/// The names of the starter job specs.
pub fn example_assets() -> (r: Vec<ExampleAsset>)
    ensures
        r@.map_values(|a: ExampleAsset| a.name@) == example_names(),
{
    let names: Vec<&'static str> = vec![
        "ac4_ims_atmos_multi3.ac4.yaml",
        "ac4_ims_atmos_single.ac4.yaml",
        "ac4_ims_atmos_single.mp4.yaml",
        "ac4_ims_pcm_single.ac4.yaml",
        "ac4_ims_pcm_single.mp4.yaml",
        "atmos_ec3_album.music.json",
        "atmos_ec3_single.bluray.yaml",
        "atmos_ec3_single.streaming.yaml",
        "pcm_ddp_single.bluray.yaml",
        "pcm_ddp_single.dd.yaml",
        "pcm_ddp_single.ddp.yaml",
        "pcm_ddp_single.ddp71.yaml",
        "thd_atmos_wav_list_single.mlp.yaml",
        "thd_atmos_wav_single.mlp.yaml",
        "thd_single.mlp.yaml",
        "thd_wav_list_single.mlp.yaml",
        "thd_wav_single.mlp.yaml",
    ];
    assert(strs_model(names@) =~= example_names());
    let mut out: Vec<ExampleAsset> = Vec::new();
    let mut i: usize = 0;
    while i < names.len()
        invariant
            i <= names.len(),
            strs_model(names@) == example_names(),
            out@.map_values(|a: ExampleAsset| a.name@) == strs_model(names@).take(i as int),
        decreases names.len() - i,
    {
        let ghost before = out@;
        out.push(ExampleAsset { name: names[i] });
        assert(out@.map_values(|a: ExampleAsset| a.name@) =~= before.map_values(|a: ExampleAsset| a.name@).push(
            names@[i as int]@,
        ));
        assert(strs_model(names@).take(i + 1) =~= strs_model(names@).take(i as int).push(names@[i as int]@));
        i += 1;
    }
    assert(strs_model(names@).take(names.len() as int) =~= strs_model(names@));
    out
}

/// Index of the first catalog entry with the id, from `i` on.
pub open spec fn find_entry_from(cat: Seq<EntryModel>, id: Seq<char>, i: int) -> Option<int>
    decreases cat.len() - i,
{
    if i < 0 || i >= cat.len() {
        None
    } else if cat[i].id == id {
        Some(i)
    } else {
        find_entry_from(cat, id, i + 1)
    }
}

pub open spec fn unknown_template_error(id: Seq<char>) -> Seq<char> {
    "unknown template '"@ + id + "'; supported templates: "@ + join(
        catalog().map_values(|e: EntryModel| e.id),
        ", "@,
    )
}

/// The catalog entry with the id.
pub open spec fn find_template_outcome(id: Seq<char>) -> Result<EntryModel, Seq<char>> {
    match find_entry_from(catalog(), id, 0) {
        Some(i) => Ok(catalog()[i]),
        None => Err(unknown_template_error(id)),
    }
}

/// Looks up the catalog entry of a template.
pub fn find_template(template_id: &str) -> (r: Result<TemplateCatalogEntry, String>)
    ensures
        match r {
            Ok(e) => find_template_outcome(template_id@) == Ok::<EntryModel, Seq<char>>(e@),
            Err(e) => find_template_outcome(template_id@) == Err::<EntryModel, Seq<char>>(e@),
        },
{
    let cat = template_catalog();
    let mut i: usize = 0;
    while i < cat.len()
        invariant
            i <= cat.len(),
            entries_view(cat@) == catalog(),
            find_entry_from(catalog(), template_id@, 0) == find_entry_from(catalog(), template_id@, i as int),
        decreases cat.len() - i,
    {
        assert(catalog()[i as int] == cat@[i as int]@);
        if str_eq(cat[i].template_id, template_id) {
            return Ok(copy_entry(&cat[i]));
        }
        i += 1;
    }
    let mut ids: Vec<&'static str> = Vec::new();
    let mut j: usize = 0;
    while j < cat.len()
        invariant
            j <= cat.len(),
            entries_view(cat@) == catalog(),
            strs_model(ids@) == catalog().map_values(|e: EntryModel| e.id).take(j as int),
        decreases cat.len() - j,
    {
        let ghost before = ids@;
        ids.push(cat[j].template_id);
        assert(catalog()[j as int] == cat@[j as int]@);
        assert(strs_model(ids@) =~= strs_model(before).push(cat@[j as int].template_id@));
        assert(catalog().map_values(|e: EntryModel| e.id).take(j + 1) =~= catalog().map_values(
            |e: EntryModel| e.id,
        ).take(j as int).push(catalog()[j as int].id));
        j += 1;
    }
    assert(catalog().map_values(|e: EntryModel| e.id).take(cat.len() as int) =~= catalog().map_values(
        |e: EntryModel| e.id,
    ));
    let mut e = owned("unknown template '");
    e.append(template_id);
    e.append("'; supported templates: ");
    e.append(join_strs(&ids, ", ").as_str());
    Err(e)
}

/// `name` without a leading `examples/`.
pub open spec fn example_key(name: Seq<char>) -> Seq<char> {
    if name.len() >= 9 && name.take(9) == "examples/"@ {
        name.skip(9)
    } else {
        name
    }
}

pub open spec fn unknown_example_error(name: Seq<char>) -> Seq<char> {
    "unknown example '"@ + name + "'; supported examples: "@ + join(example_names(), ", "@)
}

/// The starter job spec with the name (a leading `examples/` is ignored).
pub open spec fn find_example_outcome(name: Seq<char>) -> Result<Seq<char>, Seq<char>> {
    if example_names().contains(example_key(name)) {
        Ok(example_key(name))
    } else {
        Err(unknown_example_error(name))
    }
}

/// Looks up a starter job spec by name.
pub fn find_example(example_name: &str) -> (r: Result<ExampleAsset, String>)
    ensures
        match r {
            Ok(a) => find_example_outcome(example_name@) == Ok::<Seq<char>, Seq<char>>(a.name@),
            Err(e) => find_example_outcome(example_name@) == Err::<Seq<char>, Seq<char>>(e@),
        },
{
    let v = chars_of(example_name);
    proof {
        reveal_strlit("examples/");
    }
    let prefixed = v.len() >= 9 && v[0] == 'e' && v[1] == 'x' && v[2] == 'a' && v[3] == 'm' && v[4] == 'p'
        && v[5] == 'l' && v[6] == 'e' && v[7] == 's' && v[8] == '/';
    let key: Vec<char> = if prefixed {
        assert(v@.take(9) =~= "examples/"@);
        let mut k: Vec<char> = Vec::new();
        let mut i: usize = 9;
        while i < v.len()
            invariant
                9 <= i <= v.len(),
                k@ == v@.subrange(9, i as int),
            decreases v.len() - i,
        {
            k.push(v[i]);
            assert(v@.subrange(9, i + 1) =~= v@.subrange(9, i as int).push(v@[i as int]));
            i += 1;
        }
        k
    } else {
        assert(v@.len() >= 9 ==> v@.take(9) != "examples/"@) by {
            if v@.len() >= 9 && v@.take(9) == "examples/"@ {
                assert(v@.take(9)[0] == v@[0] && v@.take(9)[1] == v@[1] && v@.take(9)[2] == v@[2]);
                assert(v@.take(9)[3] == v@[3] && v@.take(9)[4] == v@[4] && v@.take(9)[5] == v@[5]);
                assert(v@.take(9)[6] == v@[6] && v@.take(9)[7] == v@[7] && v@.take(9)[8] == v@[8]);
            }
        }
        v
    };
    assert(key@ == example_key(example_name@));
    let key_s = string_of(&key);
    let assets = example_assets();
    let ghost names = assets@.map_values(|a: ExampleAsset| a.name@);
    let mut i: usize = 0;
    while i < assets.len()
        invariant
            i <= assets.len(),
            names == assets@.map_values(|a: ExampleAsset| a.name@),
            names == example_names(),
            key_s@ == example_key(example_name@),
            forall|j: int| 0 <= j < i ==> names[j] != key_s@,
        decreases assets.len() - i,
    {
        if str_eq(assets[i].name, key_s.as_str()) {
            assert(names[i as int] == key_s@);
            return Ok(assets[i]);
        }
        i += 1;
    }
    let mut all: Vec<&'static str> = Vec::new();
    let mut j: usize = 0;
    while j < assets.len()
        invariant
            j <= assets.len(),
            names == assets@.map_values(|a: ExampleAsset| a.name@),
            strs_model(all@) == names.take(j as int),
        decreases assets.len() - j,
    {
        let ghost before = all@;
        all.push(assets[j].name);
        assert(strs_model(all@) =~= strs_model(before).push(assets@[j as int].name@));
        assert(names.take(j + 1) =~= names.take(j as int).push(names[j as int]));
        j += 1;
    }
    assert(names.take(assets.len() as int) =~= names);
    let mut e = owned("unknown example '");
    e.append(example_name);
    e.append("'; supported examples: ");
    e.append(join_strs(&all, ", ").as_str());
    Err(e)
}

/// The starter job spec to write: the named example, else the canonical
/// example of the template (by default `atmos_ec3_v1`).
pub open spec fn init_example_outcome(template: Option<Seq<char>>, example: Option<Seq<char>>) -> Result<Seq<char>, Seq<char>> {
    match example {
        Some(x) => find_example_outcome(x),
        None => {
            let id = match template {
                Some(t) => t,
                None => "atmos_ec3_v1"@,
            };
            match find_template_outcome(id) {
                Err(e) => Err(e),
                Ok(en) => find_example_outcome(en.canonical),
            }
        },
    }
}

pub open spec fn opt_str(o: Option<&str>) -> Option<Seq<char>> {
    match o {
        Some(s) => Some(s@),
        None => None,
    }
}

/// Picks the starter job spec for `init`.
pub fn select_init_example(template: Option<&str>, example: Option<&str>) -> (r: Result<ExampleAsset, String>)
    ensures
        match r {
            Ok(a) => init_example_outcome(opt_str(template), opt_str(example)) == Ok::<Seq<char>, Seq<char>>(a.name@),
            Err(e) => init_example_outcome(opt_str(template), opt_str(example)) == Err::<Seq<char>, Seq<char>>(e@),
        },
{
    if let Some(x) = example {
        return find_example(x);
    }
    let id = match template {
        Some(t) => t,
        None => "atmos_ec3_v1",
    };
    let en = match find_template(id) {
        Ok(en) => en,
        Err(e) => {
            return Err(e);
        },
    };
    find_example(en.canonical_example)
}

/// The file `init` writes to by default: `job.json` for a JSON example,
/// else `job.yaml`.
pub open spec fn init_output_name(example: Seq<char>) -> Seq<char> {
    if example.len() >= 5 && example.skip(example.len() - 5) == ".json"@ {
        "job.json"@
    } else {
        "job.yaml"@
    }
}

/// Default output file of `init` for an example.
pub fn default_init_output_path(example_name: &str) -> (r: String)
    ensures
        r@ == init_output_name(example_name@),
{
    let v = chars_of(example_name);
    let n = v.len();
    proof {
        reveal_strlit(".json");
    }
    if n >= 5 && v[n - 5] == '.' && v[n - 4] == 'j' && v[n - 3] == 's' && v[n - 2] == 'o' && v[n - 1] == 'n' {
        assert(v@.skip(n - 5) =~= ".json"@);
        owned("job.json")
    } else {
        assert(!(v@.len() >= 5 && v@.skip(n - 5) == ".json"@)) by {
            if v@.len() >= 5 && v@.skip(n - 5) == ".json"@ {
                let t = v@.skip(n - 5);
                assert(t[0] == v@[n - 5] && t[1] == v@[n - 4] && t[2] == v@[n - 3]);
                assert(t[3] == v@[n - 2] && t[4] == v@[n - 1]);
            }
        }
        owned("job.yaml")
    }
}

/// `s` padded on the right with `c` to `width` characters.
pub open spec fn pad(s: Seq<char>, width: nat, c: char) -> Seq<char> {
    if s.len() >= width {
        s
    } else {
        s + Seq::new((width - s.len()) as nat, |i: int| c)
    }
}

fn push_padded(out: &mut String, s: &str, width: usize, c: char)
    ensures
        final(out)@ == old(out)@ + pad(s@, width as nat, c),
{
    let v = chars_of(s);
    let mut buf: Vec<char> = Vec::new();
    let mut i: usize = 0;
    while i < v.len()
        invariant
            i <= v.len(),
            buf@ == v@.take(i as int),
        decreases v.len() - i,
    {
        buf.push(v[i]);
        assert(v@.take(i + 1) =~= v@.take(i as int).push(v@[i as int]));
        i += 1;
    }
    assert(v@.take(v.len() as int) =~= v@);
    let mut k: usize = v.len();
    while k < width
        invariant
            v.len() <= k <= width || (k == v.len() && width < v.len()),
            buf@ == v@ + Seq::new((k - v.len()) as nat, |j: int| c),
        decreases width - k,
    {
        buf.push(c);
        assert(buf@ =~= v@ + Seq::new((k + 1 - v.len()) as nat, |j: int| c));
        k += 1;
    }
    if v.len() >= width {
        assert(buf@ =~= v@);
    }
    out.append(string_of(&buf).as_str());
}

/// The text of a list row: the template, its profiles and modes, its
/// canonical example and its description, in columns.
pub open spec fn list_row(e: EntryModel, profiles: Seq<Seq<char>>, modes: Seq<Seq<char>>) -> Seq<char> {
    pad(e.id, 28, ' ') + "  "@ + pad(join(profiles, ","@), 16, ' ') + "  "@ + pad(join(modes, ","@), 24, ' ')
        + "  "@ + pad(e.canonical, 36, ' ') + "  "@ + e.description + "\n"@
}

pub open spec fn list_header() -> Seq<char> {
    pad("Template"@, 28, ' ') + "  "@ + pad("Profiles"@, 16, ' ') + "  "@ + pad("Encode modes"@, 24, ' ')
        + "  "@ + pad("Canonical example"@, 36, ' ') + "  Description\n"@ + pad(Seq::empty(), 28, '-') + "  "@
        + pad(Seq::empty(), 16, '-') + "  "@ + pad(Seq::empty(), 24, '-') + "  "@ + pad(Seq::empty(), 36, '-')
        + "  "@ + pad(Seq::empty(), 60, '-') + "\n"@
}

/// The rows of the entries, or the error of the first one whose template
/// is not registered.
pub open spec fn list_rows(cat: Seq<EntryModel>) -> Result<Seq<char>, Seq<char>>
    decreases cat.len(),
{
    if cat.len() == 0 {
        Ok(Seq::empty())
    } else {
        match list_rows(cat.drop_last()) {
            Err(e) => Err(e),
            Ok(t) => match template_of(cat.last().id) {
                None => Err(unsupported_template_error(cat.last().id)),
                Some(k) => Ok(t + list_row(cat.last(), kind_profiles(k), kind_modes(k))),
            },
        }
    }
}

/// The text of `templates list`.
pub open spec fn list_outcome() -> Result<Seq<char>, Seq<char>> {
    match list_rows(catalog()) {
        Err(e) => Err(e),
        Ok(rows) => Ok(list_header() + rows),
    }
}

/// Lists the templates of the catalog as a table.
#[verifier::rlimit(40)]
pub fn list_templates_text() -> (r: Result<String, String>)
    ensures
        match r {
            Ok(s) => list_outcome() == Ok::<Seq<char>, Seq<char>>(s@),
            Err(e) => list_outcome() == Err::<Seq<char>, Seq<char>>(e@),
        },
{
    let cat = template_catalog();
    let mut rows = String::new();
    let mut i: usize = 0;
    while i < cat.len()
        invariant
            i <= cat.len(),
            entries_view(cat@) == catalog(),
            list_rows(catalog().take(i as int)) == Ok::<Seq<char>, Seq<char>>(rows@),
        decreases cat.len() - i,
    {
        assert(catalog().take(i + 1).drop_last() =~= catalog().take(i as int));
        assert(catalog().take(i + 1).last() == cat@[i as int]@);
        let m = match template_metadata(cat[i].template_id) {
            Ok(m) => m,
            Err(e) => {
                proof {
                    lemma_rows_err_prefix(catalog(), (i + 1) as int, e@);
                }
                return Err(e);
            },
        };
        let ghost k = template_of(cat@[i as int].template_id@)->0;
        let ghost before = rows@;
        let ps = join_strs(&m.valid_profiles, ",");
        let ms = join_strs(&m.valid_encode_modes, ",");
        proof {
            assert(describes(m, cat@[i as int].template_id@));
            assert(strs_model(m.valid_profiles@) == kind_profiles(k));
            assert(strs_model(m.valid_encode_modes@) == kind_modes(k));
        }
        push_padded(&mut rows, cat[i].template_id, 28, ' ');
        rows.append("  ");
        push_padded(&mut rows, ps.as_str(), 16, ' ');
        rows.append("  ");
        push_padded(&mut rows, ms.as_str(), 24, ' ');
        rows.append("  ");
        push_padded(&mut rows, cat[i].canonical_example, 36, ' ');
        rows.append("  ");
        rows.append(cat[i].description);
        rows.append("\n");
        assert(rows@ =~= before + list_row(cat@[i as int]@, kind_profiles(k), kind_modes(k)));
        i += 1;
    }
    assert(catalog().take(cat.len() as int) =~= catalog());
    let mut out = String::new();
    push_padded(&mut out, "Template", 28, ' ');
    out.append("  ");
    push_padded(&mut out, "Profiles", 16, ' ');
    out.append("  ");
    push_padded(&mut out, "Encode modes", 24, ' ');
    out.append("  ");
    push_padded(&mut out, "Canonical example", 36, ' ');
    out.append("  Description\n");
    push_padded(&mut out, "", 28, '-');
    out.append("  ");
    push_padded(&mut out, "", 16, '-');
    out.append("  ");
    push_padded(&mut out, "", 24, '-');
    out.append("  ");
    push_padded(&mut out, "", 36, '-');
    out.append("  ");
    push_padded(&mut out, "", 60, '-');
    out.append("\n");
    proof {
        reveal_strlit("");
    }
    out.append(rows.as_str());
    Ok(out)
}

/// An error among the first `n` entries is the error of the whole list.
proof fn lemma_rows_err_prefix(cat: Seq<EntryModel>, n: int, e: Seq<char>)
    requires
        0 <= n <= cat.len(),
        list_rows(cat.take(n)) == Err::<Seq<char>, Seq<char>>(e),
    ensures
        list_rows(cat) == Err::<Seq<char>, Seq<char>>(e),
    decreases cat.len() - n,
{
    if n < cat.len() {
        assert(cat.take(n + 1).drop_last() =~= cat.take(n));
        lemma_rows_err_prefix(cat, n + 1, e);
    } else {
        assert(cat.take(n) =~= cat);
    }
}

pub open spec fn source_text(s: SourceTag) -> Seq<char> {
    match s {
        SourceTag::DolbyOfficial => "dolby_official"@,
        SourceTag::DeewObserved => "deew_observed"@,
        SourceTag::DeezyObserved => "deezy_observed"@,
    }
}

/// Name of a parameter source.
pub fn source_label(source: SourceTag) -> (r: &'static str)
    ensures
        r@ == source_text(source),
{
    match source {
        SourceTag::DolbyOfficial => "dolby_official",
        SourceTag::DeewObserved => "deew_observed",
        SourceTag::DeezyObserved => "deezy_observed",
    }
}

/// Label of a parameter rule.
pub open spec fn rule_label(r: RuleModel) -> Seq<char> {
    match r {
        RuleModel::Enum(values) => "enum("@ + join(values, "|"@) + ")"@,
        RuleModel::IntRange { min, max } => "int("@ + int_text(min) + ".."@ + int_text(max) + ")"@,
        RuleModel::Bool => "bool"@,
        RuleModel::FreeString => "string"@,
        RuleModel::DataRate => "data_rate"@,
    }
}

/// Label of a mode availability.
pub open spec fn availability_label(a: AvailModel) -> Seq<char> {
    match a {
        AvailModel::All => "all"@,
        AvailModel::Only(modes) => "only("@ + join(modes, "|"@) + ")"@,
        AvailModel::Except(modes) => "except("@ + join(modes, "|"@) + ")"@,
    }
}

/// Text label of a parameter rule.
pub fn rule_text_label(rule: &ParamRule) -> (r: String)
    ensures
        r@ == rule_label(rule@),
{
    match rule {
        ParamRule::Enum(values) => {
            let mut s = owned("enum(");
            s.append(join_strs(values, "|").as_str());
            s.append(")");
            s
        },
        ParamRule::IntRange { min, max } => {
            let mut s = owned("int(");
            s.append(i64_text(*min).as_str());
            s.append("..");
            s.append(i64_text(*max).as_str());
            s.append(")");
            s
        },
        ParamRule::Bool => owned("bool"),
        ParamRule::FreeString => owned("string"),
        ParamRule::DataRate => owned("data_rate"),
    }
}

/// Text label of a mode availability.
pub fn availability_text_label(a: &ModeAvailability) -> (r: String)
    ensures
        r@ == availability_label(a@),
{
    match a {
        ModeAvailability::All => owned("all"),
        ModeAvailability::Only(modes) => {
            let mut s = owned("only(");
            s.append(join_strs(modes, "|").as_str());
            s.append(")");
            s
        },
        ModeAvailability::Except(modes) => {
            let mut s = owned("except(");
            s.append(join_strs(modes, "|").as_str());
            s.append(")");
            s
        },
    }
}

/// The line of a parameter in `templates show`.
pub open spec fn parameter_line(p: SchemaModel) -> Seq<char> {
    "  - "@ + p.key + ": "@ + rule_label(p.rule) + "; modes="@ + availability_label(p.avail) + "; sources="@
        + join(p.sources.map_values(|s: SourceTag| source_text(s)), ","@) + "\n"@
}

pub open spec fn lines_of(items: Seq<Seq<char>>) -> Seq<char>
    decreases items.len(),
{
    if items.len() == 0 {
        Seq::empty()
    } else {
        lines_of(items.drop_last()) + items.last()
    }
}

/// The text of `templates show` for a catalog entry and its template.
pub open spec fn details_text(
    e: EntryModel,
    profiles: Seq<Seq<char>>,
    modes: Seq<Seq<char>>,
    params: Seq<SchemaModel>,
) -> Seq<char> {
    "Template: "@ + e.id + "\n"@ + "Description: "@ + e.description + "\n"@ + "Profiles: "@ + join(profiles, ", "@)
        + "\n"@ + "Encode modes: "@ + join(modes, ", "@) + "\n"@ + "Canonical example: "@ + e.canonical + "\n"@
        + "Examples:\n"@ + lines_of(e.examples.map_values(|x: Seq<char>| "  - "@ + x + "\n"@)) + "Parameters:\n"@
        + if params.len() == 0 {
        "  (none)\n"@
    } else {
        lines_of(params.map_values(|p: SchemaModel| parameter_line(p)))
    }
}

/// The text of `templates show`: the catalog entry, then the template's
/// profiles, modes and parameters.
pub open spec fn show_outcome(id: Seq<char>) -> Result<Seq<char>, Seq<char>> {
    match find_template_outcome(id) {
        Err(e) => Err(e),
        Ok(en) => match template_of(id) {
            None => Err(unsupported_template_error(id)),
            Some(k) => Ok(details_text(en, kind_profiles(k), kind_modes(k), kind_schemas(k))),
        },
    }
}

fn sources_text(sources: &Vec<SourceTag>) -> (r: String)
    ensures
        r@ == join(sources@.map_values(|s: SourceTag| source_text(s)), ","@),
{
    let mut labels: Vec<&'static str> = Vec::new();
    let mut i: usize = 0;
    while i < sources.len()
        invariant
            i <= sources.len(),
            strs_model(labels@) == sources@.map_values(|s: SourceTag| source_text(s)).take(i as int),
        decreases sources.len() - i,
    {
        let ghost before = labels@;
        labels.push(source_label(sources[i]));
        assert(strs_model(labels@) =~= strs_model(before).push(source_text(sources@[i as int])));
        assert(sources@.map_values(|s: SourceTag| source_text(s)).take(i + 1) =~= sources@.map_values(
            |s: SourceTag| source_text(s),
        ).take(i as int).push(source_text(sources@[i as int])));
        i += 1;
    }
    assert(sources@.map_values(|s: SourceTag| source_text(s)).take(sources.len() as int) =~= sources@.map_values(
        |s: SourceTag| source_text(s),
    ));
    join_strs(&labels, ",")
}

/// The line of a parameter in `templates show`.
pub fn parameter_line_text(p: &ParamSchema) -> (r: String)
    ensures
        r@ == parameter_line(p@),
{
    let mut out = owned("  - ");
    out.append(p.key);
    out.append(": ");
    out.append(rule_text_label(&p.rule).as_str());
    out.append("; modes=");
    out.append(availability_text_label(&p.mode_availability).as_str());
    out.append("; sources=");
    out.append(sources_text(&p.sources).as_str());
    out.append("\n");
    assert(out@ =~= parameter_line(p@));
    out
}

/// Describes a template: its catalog entry, profiles, modes and parameters.
pub fn show_template_text(template_id: &str) -> (r: Result<String, String>)
    ensures
        match r {
            Ok(s) => show_outcome(template_id@) == Ok::<Seq<char>, Seq<char>>(s@),
            Err(e) => show_outcome(template_id@) == Err::<Seq<char>, Seq<char>>(e@),
        },
{
    let en = match find_template(template_id) {
        Ok(en) => en,
        Err(e) => {
            return Err(e);
        },
    };
    let m = match template_metadata(template_id) {
        Ok(m) => m,
        Err(e) => {
            return Err(e);
        },
    };
    let ghost k = template_of(template_id@)->0;
    proof {
        assert(describes(m, template_id@));
    }
    let mut out = owned("Template: ");
    out.append(en.template_id);
    out.append("\n");
    out.append("Description: ");
    out.append(en.description);
    out.append("\n");
    out.append("Profiles: ");
    out.append(join_strs(&m.valid_profiles, ", ").as_str());
    out.append("\n");
    out.append("Encode modes: ");
    out.append(join_strs(&m.valid_encode_modes, ", ").as_str());
    out.append("\n");
    out.append("Canonical example: ");
    out.append(en.canonical_example);
    out.append("\n");
    out.append("Examples:\n");
    let ghost head = out@;
    assert(head =~= "Template: "@ + en@.id + "\n"@ + "Description: "@ + en@.description + "\n"@ + "Profiles: "@
        + join(kind_profiles(k), ", "@) + "\n"@ + "Encode modes: "@ + join(kind_modes(k), ", "@) + "\n"@
        + "Canonical example: "@ + en@.canonical + "\n"@ + "Examples:\n"@);
    let ghost ex = en@.examples.map_values(|x: Seq<char>| "  - "@ + x + "\n"@);
    let mut i: usize = 0;
    while i < en.examples.len()
        invariant
            i <= en.examples.len(),
            ex == en@.examples.map_values(|x: Seq<char>| "  - "@ + x + "\n"@),
            out@ == head + lines_of(ex.take(i as int)),
        decreases en.examples.len() - i,
    {
        out.append("  - ");
        out.append(en.examples[i]);
        out.append("\n");
        assert(ex.take(i + 1).drop_last() =~= ex.take(i as int));
        i += 1;
    }
    assert(ex.take(en.examples.len() as int) =~= ex);
    out.append("Parameters:\n");
    let ghost mid = out@;
    let ps = &m.param_schemas;
    let ghost pl = schemas_model(ps@).map_values(|p: SchemaModel| parameter_line(p));
    if ps.len() == 0 {
        out.append("  (none)\n");
    } else {
        let mut j: usize = 0;
        while j < ps.len()
            invariant
                j <= ps.len(),
                pl == schemas_model(ps@).map_values(|p: SchemaModel| parameter_line(p)),
                out@ == mid + lines_of(pl.take(j as int)),
            decreases ps.len() - j,
        {
            let line = parameter_line_text(&ps[j]);
            let ghost before = out@;
            out.append(line.as_str());
            assert(out@ =~= mid + (lines_of(pl.take(j as int)) + pl[j as int]));
            assert(pl.take(j + 1).drop_last() =~= pl.take(j as int));
            j += 1;
        }
        assert(pl.take(ps.len() as int) =~= pl);
    }
    proof {
        assert(schemas_model(ps@) == kind_schemas(k));
        let d = details_text(en@, kind_profiles(k), kind_modes(k), kind_schemas(k));
        assert(out@ =~= d);
    }
    Ok(out)
}

} // verus!
