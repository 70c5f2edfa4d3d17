//! Rules of the PBR material import tool: which image file of a material
//! package plays which role, how the material is named, and what the imported
//! material refers to.

use std::path::Path;

use vstd::prelude::*;

use crate::text::{contains, occurs_at, ends_with, seq_contains, seq_ends_with, strip_suffix, trim_end_all, trim_end_all_matches};

verus! {

/// Command line of the import tool.
pub struct CmdlineArgs {
    /// A material package: a zip file or a directory of images.
    pub input_pbr: String,
    pub asset_dir: String,
    pub name: Option<String>,
    pub existing: bool,
    pub batch: bool,
}

/// The role of an image in a PBR material.
#[derive(Debug, Clone, Copy, PartialEq, Eq, Hash, Structural)]
pub enum ImageKind {
    Albedo,
    Normal,
    Ao,
    Roughness,
    Metallic,
    Emissive,
}

/// Unicode lower-case mapping of a string, as `str::to_lowercase` performs it.
pub uninterp spec fn lowercase(s: Seq<char>) -> Seq<char>;

/// Whether every character is ASCII.
pub open spec fn is_ascii_chars(s: Seq<char>) -> bool {
    forall|i: int| 0 <= i < s.len() ==> (s[i] as u32) < 128
}

/// `c` with `A`..`Z` mapped to `a`..`z`.
pub open spec fn ascii_lower_char(c: char) -> char {
    if 'A' <= c <= 'Z' {
        ((c as u32) + 32) as char
    } else {
        c
    }
}

/// `c` with `a`..`z` mapped to `A`..`Z`.
pub open spec fn ascii_upper_char(c: char) -> char {
    if 'a' <= c <= 'z' {
        ((c as u32) - 32) as char
    } else {
        c
    }
}

/// The string with its ASCII letters lower-cased, the rest unchanged.
pub open spec fn ascii_lower(s: Seq<char>) -> Seq<char> {
    s.map_values(|c: char| ascii_lower_char(c))
}

/// The string with its ASCII letters upper-cased, the rest unchanged.
pub open spec fn ascii_upper(s: Seq<char>) -> Seq<char> {
    s.map_values(|c: char| ascii_upper_char(c))
}

/// Calls `str::to_lowercase`. Claimed: the result is a function of the
/// characters of `s` alone (named `lowercase`); on an ASCII string it maps
/// `A`..`Z` to `a`..`z` and keeps every other character, as the Unicode
/// lower-case mapping that the function follows does for these characters.
/// What the mapping does to other characters is left unsaid.
#[verifier::external_body]
fn to_lowercase(s: &str) -> (res: String)
    ensures
        res@ == lowercase(s@),
        is_ascii_chars(s@) ==> res@ == ascii_lower(s@),
{
    s.to_lowercase()
}

/// The role of an image, given its lower-cased file name.
pub open spec fn kind_of_lowercase(lower: Seq<char>) -> Option<ImageKind> {
    if !seq_ends_with(lower, ".png"@) || seq_contains(lower, "preview"@) {
        None
    } else if seq_contains(lower, "albedo"@) || seq_contains(lower, "basecolor"@) || seq_contains(
        lower,
        "base_color"@,
    ) || seq_contains(lower, "default_color"@) || seq_ends_with(lower, "-alb.png"@) {
        Some(ImageKind::Albedo)
    } else if seq_contains(lower, "emissive"@) {
        Some(ImageKind::Emissive)
    } else if seq_contains(lower, "normal"@) || seq_contains(lower, "nmap"@) || seq_contains(
        lower,
        "norrmal"@,
    ) || seq_contains(lower, "norma-ogl"@) {
        Some(ImageKind::Normal)
    } else if seq_contains(lower, "rough"@) {
        Some(ImageKind::Roughness)
    } else if seq_contains(lower, "metal"@) {
        Some(ImageKind::Metallic)
    } else if seq_contains(lower, "ao"@) || seq_contains(lower, "ambient_occlusion"@) {
        Some(ImageKind::Ao)
    } else {
        None
    }
}

impl ImageKind {
    /// The role of an image file by its name: only `.png` files that are not
    /// previews count; the name is lower-cased (Unicode lower-casing; for an
    /// ASCII name, `A`..`Z` become `a`..`z`) and matched against the usual
    /// markers, albedo first, then emissive, normal, roughness, metallic and
    /// ambient occlusion.
    pub fn guess_kind(name: &str) -> (res: Option<ImageKind>)
        ensures
            res == kind_of_lowercase(lowercase(name@)),
            is_ascii_chars(name@) ==> res == kind_of_lowercase(ascii_lower(name@)),
    {
        let lower = to_lowercase(name);
        ImageKind::guess_kind_from_lowercase(lower.as_str())
    }

    /// The role of an image whose file name is already lower-cased.
    pub fn guess_kind_from_lowercase(lower: &str) -> (res: Option<ImageKind>)
        ensures
            res == kind_of_lowercase(lower@),
    {
        if !ends_with(lower, ".png") || contains(lower, "preview") {
            return None;
        }
        if contains(lower, "albedo") || contains(lower, "basecolor") || contains(lower, "base_color")
            || contains(lower, "default_color") || ends_with(lower, "-alb.png") {
            Some(ImageKind::Albedo)
        } else if contains(lower, "emissive") {
            Some(ImageKind::Emissive)
        } else if contains(lower, "normal") || contains(lower, "nmap") || contains(lower, "norrmal")
            || contains(lower, "norma-ogl") {
            Some(ImageKind::Normal)
        } else if contains(lower, "rough") {
            Some(ImageKind::Roughness)
        } else if contains(lower, "metal") {
            Some(ImageKind::Metallic)
        } else if contains(lower, "ao") || contains(lower, "ambient_occlusion") {
            Some(ImageKind::Ao)
        } else {
            None
        }
    }
}

/// The role of an ASCII file name does not depend on the case of its
/// letters: upper-casing or lower-casing the name leaves it an ASCII name
/// with the same role.
pub proof fn lemma_guess_kind_ignores_ascii_case(name: Seq<char>)
    requires
        is_ascii_chars(name),
    ensures
        is_ascii_chars(ascii_upper(name)),
        is_ascii_chars(ascii_lower(name)),
        kind_of_lowercase(ascii_lower(ascii_upper(name))) == kind_of_lowercase(ascii_lower(name)),
        kind_of_lowercase(ascii_lower(ascii_lower(name))) == kind_of_lowercase(ascii_lower(name)),
{
    assert forall|i: int| 0 <= i < name.len() implies (ascii_upper(name)[i] as u32) < 128
        && (ascii_lower(name)[i] as u32) < 128 by {
        let c = name[i];
        assert((c as u32) < 128);
    }
    assert(ascii_lower(ascii_upper(name)) =~= ascii_lower(name)) by {
        assert forall|i: int| 0 <= i < name.len() implies ascii_lower(ascii_upper(name))[i]
            == ascii_lower(name)[i] by {
            let c = name[i];
            if 'a' <= c <= 'z' {
                assert(((c as u32) - 32) as char == ((c as u32) - 32) as char);
            }
        }
    }
    assert(ascii_lower(ascii_lower(name)) =~= ascii_lower(name));
}

/// The markers in a lower-cased file name that name an image's role.
pub open spec fn carries_marker(lower: Seq<char>, kind: ImageKind) -> bool {
    match kind {
        ImageKind::Albedo => seq_contains(lower, "albedo"@) || seq_contains(lower, "basecolor"@)
            || seq_contains(lower, "base_color"@) || seq_contains(lower, "default_color"@)
            || seq_ends_with(lower, "-alb.png"@),
        ImageKind::Emissive => seq_contains(lower, "emissive"@),
        ImageKind::Normal => seq_contains(lower, "normal"@) || seq_contains(lower, "nmap"@)
            || seq_contains(lower, "norrmal"@) || seq_contains(lower, "norma-ogl"@),
        ImageKind::Roughness => seq_contains(lower, "rough"@),
        ImageKind::Metallic => seq_contains(lower, "metal"@),
        ImageKind::Ao => seq_contains(lower, "ao"@) || seq_contains(lower, "ambient_occlusion"@),
    }
}

/// A lower-cased `.png` name that is no preview and holds one of the base
/// colour words (`albedo`, `basecolor`, `base_color`, `default_color`) at
/// some position is an albedo image, whatever other markers it carries.
pub proof fn lemma_base_color_names_are_albedo(lower: Seq<char>, word: Seq<char>, at: int)
    requires
        seq_ends_with(lower, ".png"@),
        !seq_contains(lower, "preview"@),
        word == "albedo"@ || word == "basecolor"@ || word == "base_color"@ || word == "default_color"@,
        0 <= at,
        at + word.len() <= lower.len(),
        lower.subrange(at, at + word.len()) == word,
    ensures
        kind_of_lowercase(lower) == Some(ImageKind::Albedo),
{
    assert(occurs_at(lower, word, at));
}

/// An ASCII file name, in any mix of cases, whose lower-cased form is a
/// `.png` name, no preview, and holds `base_color` is recognised as albedo.
pub proof fn lemma_base_color_any_case_is_albedo(name: Seq<char>, at: int)
    requires
        is_ascii_chars(name),
        seq_ends_with(ascii_lower(name), ".png"@),
        !seq_contains(ascii_lower(name), "preview"@),
        0 <= at,
        at + 10 <= name.len(),
        ascii_lower(name).subrange(at, at + 10) == "base_color"@,
    ensures
        kind_of_lowercase(ascii_lower(name)) == Some(ImageKind::Albedo),
{
    reveal_strlit("base_color");
    lemma_base_color_names_are_albedo(ascii_lower(name), "base_color"@, at);
}

/// A recognised image always carries a marker of the role it was given, is
/// a `.png` file and no preview; a name that is not `.png`, or is a preview,
/// is never recognised.
pub proof fn lemma_recognised_names_carry_their_marker(lower: Seq<char>)
    ensures
        kind_of_lowercase(lower) matches Some(k) ==> carries_marker(lower, k) && seq_ends_with(lower, ".png"@)
            && !seq_contains(lower, "preview"@),
        (!seq_ends_with(lower, ".png"@) || seq_contains(lower, "preview"@)) ==> kind_of_lowercase(lower) is None,
{
}

/// Roles are tried in a fixed order (albedo, emissive, normal, roughness,
/// metallic, ambient occlusion): a `.png` name that is no preview gets the
/// first role whose marker it carries, and no role if it carries none.
pub proof fn lemma_role_priority(lower: Seq<char>)
    requires
        seq_ends_with(lower, ".png"@),
        !seq_contains(lower, "preview"@),
    ensures
        carries_marker(lower, ImageKind::Albedo) ==> kind_of_lowercase(lower) == Some(ImageKind::Albedo),
        !carries_marker(lower, ImageKind::Albedo) && carries_marker(lower, ImageKind::Emissive)
            ==> kind_of_lowercase(lower) == Some(ImageKind::Emissive),
        !carries_marker(lower, ImageKind::Albedo) && !carries_marker(lower, ImageKind::Emissive)
            && carries_marker(lower, ImageKind::Normal) ==> kind_of_lowercase(lower) == Some(ImageKind::Normal),
        !carries_marker(lower, ImageKind::Albedo) && !carries_marker(lower, ImageKind::Emissive)
            && !carries_marker(lower, ImageKind::Normal) && carries_marker(lower, ImageKind::Roughness)
            ==> kind_of_lowercase(lower) == Some(ImageKind::Roughness),
        !carries_marker(lower, ImageKind::Albedo) && !carries_marker(lower, ImageKind::Emissive)
            && !carries_marker(lower, ImageKind::Normal) && !carries_marker(lower, ImageKind::Roughness)
            && carries_marker(lower, ImageKind::Metallic) ==> kind_of_lowercase(lower) == Some(ImageKind::Metallic),
        !carries_marker(lower, ImageKind::Albedo) && !carries_marker(lower, ImageKind::Emissive)
            && !carries_marker(lower, ImageKind::Normal) && !carries_marker(lower, ImageKind::Roughness)
            && !carries_marker(lower, ImageKind::Metallic) && carries_marker(lower, ImageKind::Ao)
            ==> kind_of_lowercase(lower) == Some(ImageKind::Ao),
        !carries_marker(lower, ImageKind::Albedo) && !carries_marker(lower, ImageKind::Emissive)
            && !carries_marker(lower, ImageKind::Normal) && !carries_marker(lower, ImageKind::Roughness)
            && !carries_marker(lower, ImageKind::Metallic) && !carries_marker(lower, ImageKind::Ao)
            ==> kind_of_lowercase(lower) is None,
{
}

/// Whether an image file taken as a normal map lacks the `ogl` marker of
/// the OpenGL convention, so that its handedness should be checked.
pub fn normal_map_without_ogl(name: &str) -> (res: bool)
    ensures
        res == (kind_of_lowercase(lowercase(name@)) == Some(ImageKind::Normal) && !seq_contains(
            lowercase(name@),
            "ogl"@,
        )),
{
    let lower = to_lowercase(name);
    let kind = ImageKind::guess_kind_from_lowercase(lower.as_str());
    match kind {
        Some(ImageKind::Normal) => !contains(lower.as_str(), "ogl"),
        _ => false,
    }
}

/// The file stem of a path, as `Path::file_stem` computes it.
pub uninterp spec fn path_file_stem(path: Seq<char>) -> Option<Seq<char>>;

pub open spec fn opt_chars(o: Option<String>) -> Option<Seq<char>> {
    match o {
        Some(s) => Some(s@),
        None => None,
    }
}

/// Calls `Path::file_stem` on `path`. Claimed: the stem is a function of the
/// path's characters alone (named `path_file_stem`), `None` when the path has
/// no file name; the rules of path parsing are left unsaid. The stem of a path
/// given as a string is valid Unicode, so the conversion back loses nothing.
#[verifier::external_body]
fn file_stem(path: &str) -> (res: Option<String>)
    ensures
        opt_chars(res) == path_file_stem(path@),
{
    match Path::new(path).file_stem() {
        Some(stem) => Some(stem.to_string_lossy().into_owned()),
        None => None,
    }
}

/// Suffix of the directories and archives of the bulk material package.
pub const BUNDLE_SUFFIX: &'static str = "-bl";

/// The material name suggested for a package: its file stem, without the
/// bundle suffix.
pub fn guess_name(pbr_zip: &str) -> (res: String)
    ensures
        res@ == trim_end_all(
            match path_file_stem(pbr_zip@) {
                Some(s) => s,
                None => Seq::empty(),
            },
            "-bl"@,
        ),
{
    let stem = match file_stem(pbr_zip) {
        Some(s) => s,
        None => String::new(),
    };
    name_from_stem(stem.as_str())
}

/// The material name for a package with file stem `stem`: every trailing
/// `-bl` is removed.
pub fn name_from_stem(stem: &str) -> (res: String)
    ensures
        res@ == trim_end_all(stem@, "-bl"@),
{
    if ends_with(stem, BUNDLE_SUFFIX) {
        trim_end_all_matches(stem, BUNDLE_SUFFIX)
    } else {
        stem.to_owned()
    }
}

/// The name of a category or material directory of the bulk package: the
/// directory name without its `-bl` suffix. Other directories are skipped
/// (`None`).
pub fn bundle_entry_name(dir_name: &str) -> (res: Option<String>)
    ensures
        seq_ends_with(dir_name@, "-bl"@) ==> (res matches Some(r) && r@ == dir_name@.subrange(
            0,
            dir_name@.len() - 3,
        )),
        !seq_ends_with(dir_name@, "-bl"@) ==> res is None,
{
    proof {
        reveal_strlit("-bl");
    }
    strip_suffix(dir_name, BUNDLE_SUFFIX)
}

/// A package given by a path with this extension is a zip archive; any
/// other package is a directory of images.
pub fn is_zip_package(extension: &Option<String>) -> (res: bool)
    ensures
        res == (extension matches Some(e) && e@ == "zip"@),
{
    match extension {
        Some(e) => {
            let zip = String::from_str("zip");
            *e == zip
        },
        None => false,
    }
}

/// Key of an imported material in its category's material file:
/// `material/<category>/<material>`.
pub fn material_key(category: &str, material: &str) -> (res: String)
    ensures
        res@ == "material/"@ + category@ + "/"@ + material@,
{
    let s = String::from_str("material/");
    let s = s.concat(category);
    let s = s.concat("/");
    s.concat(material)
}


/// Index of the last name of role `kind` among the first `n` roles.
pub open spec fn last_of_kind(kinds: Seq<Option<ImageKind>>, kind: ImageKind, n: nat) -> Option<int>
    decreases n,
{
    if n == 0 {
        None
    } else if kinds[n - 1] == Some(kind) {
        Some(n - 1)
    } else {
        last_of_kind(kinds, kind, (n - 1) as nat)
    }
}

/// For each role, which image of a package plays it: when several file names
/// claim the same role, the one listed last wins.
#[derive(Debug, Clone, Copy, PartialEq, Eq)]
pub struct ImageSelection {
    pub albedo: Option<usize>,
    pub normal: Option<usize>,
    pub ao: Option<usize>,
    pub roughness: Option<usize>,
    pub metallic: Option<usize>,
    pub emissive: Option<usize>,
}

pub open spec fn opt_int(o: Option<usize>) -> Option<int> {
    match o {
        Some(i) => Some(i as int),
        None => None,
    }
}

impl ImageSelection {
    /// The image chosen for `kind`.
    pub open spec fn spec_get(self, kind: ImageKind) -> Option<usize> {
        match kind {
            ImageKind::Albedo => self.albedo,
            ImageKind::Normal => self.normal,
            ImageKind::Ao => self.ao,
            ImageKind::Roughness => self.roughness,
            ImageKind::Metallic => self.metallic,
            ImageKind::Emissive => self.emissive,
        }
    }

    /// The image chosen for `kind`.
    pub fn get(&self, kind: ImageKind) -> (res: Option<usize>)
        ensures
            res == self.spec_get(kind),
    {
        match kind {
            ImageKind::Albedo => self.albedo,
            ImageKind::Normal => self.normal,
            ImageKind::Ao => self.ao,
            ImageKind::Roughness => self.roughness,
            ImageKind::Metallic => self.metallic,
            ImageKind::Emissive => self.emissive,
        }
    }

    /// The first of the images every material needs (albedo, normal,
    /// roughness, in that order) that is missing, if any.
    pub fn missing_required(&self) -> (res: Option<ImageKind>)
        ensures
            self.albedo is None ==> res == Some(ImageKind::Albedo),
            self.albedo is Some && self.normal is None ==> res == Some(ImageKind::Normal),
            self.albedo is Some && self.normal is Some && self.roughness is None ==> res == Some(
                ImageKind::Roughness,
            ),
            self.albedo is Some && self.normal is Some && self.roughness is Some ==> res is None,
    {
        if self.albedo.is_none() {
            Some(ImageKind::Albedo)
        } else if self.normal.is_none() {
            Some(ImageKind::Normal)
        } else if self.roughness.is_none() {
            Some(ImageKind::Roughness)
        } else {
            None
        }
    }
}

/// The roles of a list of file names.
pub open spec fn kinds_of(names: Seq<String>) -> Seq<Option<ImageKind>> {
    names.map_values(|n: String| kind_of_lowercase(lowercase(n@)))
}

/// Chooses, for each role, the image of the package that plays it, among the
/// file names in the order they were listed.
pub fn select_images(names: &Vec<String>) -> (res: ImageSelection)
    ensures
        forall|k: ImageKind| #![auto] opt_int(res.spec_get(k)) == last_of_kind(kinds_of(names@), k, names@.len()),
{
    let ghost kinds = kinds_of(names@);
    let mut sel = ImageSelection { albedo: None, normal: None, ao: None, roughness: None, metallic: None, emissive: None };
    let mut i: usize = 0;
    while i < names.len()
        invariant
            kinds == kinds_of(names@),
            i <= names@.len(),
            forall|k: ImageKind| #![auto] opt_int(sel.spec_get(k)) == last_of_kind(kinds, k, i as nat),
        decreases names@.len() - i,
    {
        let kind = ImageKind::guess_kind(names[i].as_str());
        assert(kind == kinds[i as int]);
        let ghost prev = sel;
        match kind {
            Some(ImageKind::Albedo) => sel.albedo = Some(i),
            Some(ImageKind::Normal) => sel.normal = Some(i),
            Some(ImageKind::Ao) => sel.ao = Some(i),
            Some(ImageKind::Roughness) => sel.roughness = Some(i),
            Some(ImageKind::Metallic) => sel.metallic = Some(i),
            Some(ImageKind::Emissive) => sel.emissive = Some(i),
            None => {},
        }
        assert forall|k: ImageKind| #![auto] opt_int(sel.spec_get(k)) == last_of_kind(kinds, k, (i + 1) as nat) by {
            assert(last_of_kind(kinds, k, (i + 1) as nat) == if kinds[i as int] == Some(k) {
                Some(i as int)
            } else {
                last_of_kind(kinds, k, i as nat)
            });
            if kinds[i as int] != Some(k) {
                assert(sel.spec_get(k) == prev.spec_get(k));
            }
        }
        i = i + 1;
    }
    sel
}

/// File names, inside the material's image directory, of the images written
/// for material `name`.
#[derive(Debug)]
pub struct MaterialFiles {
    pub albedo: String,
    pub normal: String,
    pub ao: String,
    pub metallic_roughness: String,
    pub emissive: String,
}

/// `name` followed by `suffix`.
fn suffixed(name: &str, suffix: &str) -> (res: String)
    ensures
        res@ == name@ + suffix@,
{
    String::from_str(name).concat(suffix)
}

/// The image files written for material `name`: `<name>_albedo.png`,
/// `<name>_normal.norm`, `<name>_ao.norm`, `<name>_mr.norm` and
/// `<name>_emissive.norm`.
pub fn material_files(name: &str) -> (res: MaterialFiles)
    ensures
        res.albedo@ == name@ + "_albedo.png"@,
        res.normal@ == name@ + "_normal.norm"@,
        res.ao@ == name@ + "_ao.norm"@,
        res.metallic_roughness@ == name@ + "_mr.norm"@,
        res.emissive@ == name@ + "_emissive.norm"@,
{
    MaterialFiles {
        albedo: suffixed(name, "_albedo.png"),
        normal: suffixed(name, "_normal.norm"),
        ao: suffixed(name, "_ao.norm"),
        metallic_roughness: suffixed(name, "_mr.norm"),
        emissive: suffixed(name, "_emissive.norm"),
    }
}

/// The asset path of an image file of material `name`: `images/<name>/<file>`.
pub fn image_asset_path(name: &str, file: &str) -> (res: String)
    ensures
        res@ == "images/"@ + name@ + "/"@ + file@,
{
    String::from_str("images/").concat(name).concat("/").concat(file)
}

/// The texture references of an imported material.
#[derive(Debug)]
pub struct MaterialTextures {
    pub base: Option<String>,
    pub normal_map: Option<String>,
    pub metallic_roughness_texture: Option<String>,
    pub occlusion: Option<String>,
    pub emissive: Option<String>,
}

/// What an imported material `name` refers to. Albedo, normal and
/// metallic-roughness images are always written. Occlusion and emissive
/// references are set only when `ao_listed` / `emissive_listed` say that the
/// image table still lists the image at the time the material is built (the
/// import tool takes images out of the table as it writes them, so there they
/// are always unset).
pub fn material_textures(name: &str, files: &MaterialFiles, ao_listed: bool, emissive_listed: bool) -> (res: MaterialTextures)
    ensures
        res.base matches Some(b) && b@ == "images/"@ + name@ + "/"@ + files.albedo@,
        res.normal_map matches Some(n) && n@ == "images/"@ + name@ + "/"@ + files.normal@,
        res.metallic_roughness_texture matches Some(m) && m@ == "images/"@ + name@ + "/"@ + files.metallic_roughness@,
        ao_listed ==> (res.occlusion matches Some(o) && o@ == "images/"@ + name@ + "/"@ + files.ao@),
        !ao_listed ==> res.occlusion is None,
        emissive_listed ==> (res.emissive matches Some(e) && e@ == "images/"@ + name@ + "/"@ + files.emissive@),
        !emissive_listed ==> res.emissive is None,
{
    MaterialTextures {
        base: Some(image_asset_path(name, files.albedo.as_str())),
        normal_map: Some(image_asset_path(name, files.normal.as_str())),
        metallic_roughness_texture: Some(image_asset_path(name, files.metallic_roughness.as_str())),
        occlusion: if ao_listed { Some(image_asset_path(name, files.ao.as_str())) } else { None },
        emissive: if emissive_listed { Some(image_asset_path(name, files.emissive.as_str())) } else { None },
    }
}


/// A single-channel image, row by row.
pub struct LumaImage {
    pub width: u32,
    pub height: u32,
    pub pixels: Vec<u8>,
}

impl LumaImage {
    /// Its pixel buffer holds exactly `width * height` pixels.
    pub open spec fn well_formed(&self) -> bool {
        self.pixels@.len() == self.width * self.height
    }

    /// The pixel in column `x` of row `y`.
    pub open spec fn at(&self, x: int, y: int) -> u8 {
        self.pixels@[y * self.width + x]
    }
}

proof fn lemma_pixel_index(x: int, y: int, w: int, h: int)
    by (nonlinear_arith)
    requires
        0 <= x < w,
        0 <= y < h,
    ensures
        0 <= y * w + x < w * h,
        y * w + x + 1 <= (y + 1) * w,
        (y + 1) * w <= w * h,
{
}

/// The metallic-roughness texture of a material, `width` by `height` pixels
/// of three bytes: 0, the roughness and the metallic value of the pixel at
/// the same place (green and blue channels, as glTF expects).
pub fn pack_metallic_roughness(width: u32, height: u32, roughness: &LumaImage, metallic: &LumaImage) -> (res: Vec<u8>)
    requires
        roughness.well_formed(),
        metallic.well_formed(),
        width <= roughness.width,
        height <= roughness.height,
        width <= metallic.width,
        height <= metallic.height,
    ensures
        res@.len() == 3 * (width * height),
        forall|x: int, y: int|
            0 <= x < width && 0 <= y < height ==> {
                &&& #[trigger] res@[3 * (y * width + x)] == 0
                &&& res@[3 * (y * width + x) + 1] == roughness.at(x, y)
                &&& res@[3 * (y * width + x) + 2] == metallic.at(x, y)
            },
{
    let w = width as usize;
    let h = height as usize;
    let rw = roughness.width as usize;
    let mw = metallic.width as usize;
    let mut res: Vec<u8> = Vec::new();
    let mut y: usize = 0;
    while y < h
        invariant
            w == width,
            h == height,
            rw == roughness.width,
            mw == metallic.width,
            roughness.well_formed(),
            metallic.well_formed(),
            width <= roughness.width,
            height <= roughness.height,
            width <= metallic.width,
            height <= metallic.height,
            y <= h,
            res@.len() == 3 * (y * width),
            forall|px: int, py: int|
                0 <= px < w && 0 <= py < y ==> {
                    &&& #[trigger] res@[3 * (py * width + px)] == 0
                    &&& res@[3 * (py * width + px) + 1] == roughness.at(px, py)
                    &&& res@[3 * (py * width + px) + 2] == metallic.at(px, py)
                },
        decreases h - y,
    {
        let mut x: usize = 0;
        while x < w
            invariant
                w == width,
                h == height,
                rw == roughness.width,
                mw == metallic.width,
                roughness.well_formed(),
                metallic.well_formed(),
                width <= roughness.width,
                height <= roughness.height,
                width <= metallic.width,
                height <= metallic.height,
                y < h,
                x <= w,
                res@.len() == 3 * (y * width + x),
                forall|px: int, py: int|
                    (0 <= px < w && 0 <= py < y) || (0 <= px < x && py == y) ==> {
                        &&& #[trigger] res@[3 * (py * width + px)] == 0
                        &&& res@[3 * (py * width + px) + 1] == roughness.at(px, py)
                        &&& res@[3 * (py * width + px) + 2] == metallic.at(px, py)
                    },
            decreases w - x,
        {
            proof {
                assert(roughness.pixels@.len() == roughness.pixels.len());
                assert(metallic.pixels@.len() == metallic.pixels.len());
                lemma_pixel_index(x as int, y as int, rw as int, roughness.height as int);
                lemma_pixel_index(x as int, y as int, mw as int, metallic.height as int);
                lemma_pixel_index(x as int, y as int, w as int, h as int);
            }
            let r = roughness.pixels[y * rw + x];
            let m = metallic.pixels[y * mw + x];
            let ghost before = res@;
            res.push(0u8);
            res.push(r);
            res.push(m);
            assert forall|px: int, py: int|
                (0 <= px < w && 0 <= py < y) || (0 <= px < x + 1 && py == y) implies {
                    &&& #[trigger] res@[3 * (py * width + px)] == 0
                    &&& res@[3 * (py * width + px) + 1] == roughness.at(px, py)
                    &&& res@[3 * (py * width + px) + 2] == metallic.at(px, py)
                } by {
                let k = 3 * (py * width + px);
                if py < y {
                    lemma_pixel_index(px, py, width as int, y as int);
                    assert(py * width + px < y * width);
                    assert(res@[k] == before[k] && res@[k + 1] == before[k + 1] && res@[k + 2] == before[k + 2]);
                } else if px < x {
                    assert(py * width + px < y * width + x);
                    assert(res@[k] == before[k] && res@[k + 1] == before[k + 1] && res@[k + 2] == before[k + 2]);
                } else {
                    assert(k == before.len());
                }
            }
            x = x + 1;
        }
        assert((y + 1) * width == y * width + width) by (nonlinear_arith);
        y = y + 1;
    }
    assert(h * width == width * height) by (nonlinear_arith)
        requires
            h == height,
    ;
    res
}

/// A three-channel image, row by row, three bytes per pixel.
pub struct RgbImage {
    pub width: u32,
    pub height: u32,
    pub pixels: Vec<u8>,
}

/// Width, height and pixel bytes of an image.
pub open spec fn rgb_view(i: RgbImage) -> (u32, u32, Seq<u8>) {
    (i.width, i.height, i.pixels@)
}

pub open spec fn luma_view(i: LumaImage) -> (u32, u32, Seq<u8>) {
    (i.width, i.height, i.pixels@)
}

/// The image that the bytes of an image file decode to, as 8-bit RGB:
/// width, height and pixels (`None` when the bytes are no image the decoder
/// reads).
pub uninterp spec fn decoded_rgb8(data: Seq<u8>) -> Option<(u32, u32, Seq<u8>)>;

/// The image that the bytes of an image file decode to, as 8-bit luminance.
pub uninterp spec fn decoded_luma8(data: Seq<u8>) -> Option<(u32, u32, Seq<u8>)>;

/// Calls `image::load_from_memory` on the bytes and converts the decoded
/// image with `DynamicImage::into_rgb8`. Claimed: the result is a function
/// of the bytes alone (named `decoded_rgb8`), and its pixel buffer holds
/// three bytes for each of `width * height` pixels. How files are decoded and
/// colours converted is left unsaid.
#[verifier::external_body]
fn decode_rgb8(data: &[u8]) -> (res: Option<RgbImage>)
    ensures
        match res {
            Some(i) => decoded_rgb8(data@) == Some(rgb_view(i)) && i.pixels@.len() == 3 * (i.width * i.height),
            None => decoded_rgb8(data@) is None,
        },
{
    match image::load_from_memory(data) {
        Ok(img) => {
            let b = img.into_rgb8();
            Some(RgbImage { width: b.width(), height: b.height(), pixels: b.into_raw() })
        },
        Err(_) => None,
    }
}

/// Calls `image::load_from_memory` on the bytes and converts the decoded
/// image with `DynamicImage::into_luma8`. Claimed: the result is a function
/// of the bytes alone (named `decoded_luma8`), and its pixel buffer holds one
/// byte for each of `width * height` pixels. How files are decoded and
/// colours converted is left unsaid.
#[verifier::external_body]
fn decode_luma8(data: &[u8]) -> (res: Option<LumaImage>)
    ensures
        match res {
            Some(i) => decoded_luma8(data@) == Some(luma_view(i)) && i.well_formed(),
            None => decoded_luma8(data@) is None,
        },
{
    match image::load_from_memory(data) {
        Ok(img) => {
            let b = img.into_luma8();
            Some(LumaImage { width: b.width(), height: b.height(), pixels: b.into_raw() })
        },
        Err(_) => None,
    }
}

/// Why the images of a package cannot make a material.
#[derive(Debug, Clone, Copy, PartialEq, Eq)]
pub enum ImportError {
    /// The file at this position has a role but its bytes are no image.
    Undecodable(usize),
    /// No file plays this role, which every material needs.
    Missing(ImageKind),
    /// The roughness or metallic image is smaller than the albedo image, so
    /// the packed texture would read pixels that do not exist.
    PixelOutOfBounds,
}

/// The images written for a material.
pub struct MaterialImages {
    pub albedo: RgbImage,
    pub normal: RgbImage,
    pub metallic_roughness: RgbImage,
    pub ao: Option<LumaImage>,
    pub emissive: Option<RgbImage>,
}

/// Whether the file at `i` has a role.
pub open spec fn has_role(names: Seq<String>, i: int) -> bool {
    kind_of_lowercase(lowercase(names[i]@)) is Some
}

/// The first of the first `n` files that has a role but does not decode.
pub open spec fn first_undecodable(names: Seq<String>, data: Seq<Vec<u8>>, n: nat) -> Option<int>
    decreases n,
{
    if n == 0 {
        None
    } else {
        match first_undecodable(names, data, (n - 1) as nat) {
            Some(i) => Some(i),
            None => if has_role(names, n - 1) && decoded_rgb8(data[n - 1]@) is None {
                Some(n - 1)
            } else {
                None
            },
        }
    }
}

/// The file playing a role, among all files.
pub open spec fn role_index(names: Seq<String>, kind: ImageKind) -> Option<int> {
    last_of_kind(kinds_of(names), kind, names.len())
}

/// The packed metallic-roughness texture: for each pixel of the `w` by `h`
/// albedo, the bytes 0, roughness and metallic of the pixel at the same
/// place.
pub open spec fn is_packed(p: (u32, u32, Seq<u8>), w: u32, h: u32, r: (u32, u32, Seq<u8>), m: (
    u32,
    u32,
    Seq<u8>,
)) -> bool {
    &&& p.0 == w && p.1 == h
    &&& p.2.len() == 3 * (w * h)
    &&& forall|x: int, y: int|
        0 <= x < w && 0 <= y < h ==> {
            &&& #[trigger] p.2[3 * (y * w + x)] == 0
            &&& p.2[3 * (y * w + x) + 1] == r.2[y * r.0 + x]
            &&& p.2[3 * (y * w + x) + 2] == m.2[y * m.0 + x]
        }
}

pub open spec fn opt_rgb(o: Option<RgbImage>) -> Option<(u32, u32, Seq<u8>)> {
    match o {
        Some(i) => Some(rgb_view(i)),
        None => None,
    }
}

pub open spec fn opt_luma(o: Option<LumaImage>) -> Option<(u32, u32, Seq<u8>)> {
    match o {
        Some(i) => Some(luma_view(i)),
        None => None,
    }
}

/// The check on the roughness and metallic images: with a metallic image
/// both must decode as luminance and be at least as large as the albedo.
pub open spec fn packing_check(names: Seq<String>, data: Seq<Vec<u8>>) -> Result<(), ImportError> {
    let r = role_index(names, ImageKind::Roughness)->0;
    let alb = decoded_rgb8(data[role_index(names, ImageKind::Albedo)->0]@)->0;
    match role_index(names, ImageKind::Metallic) {
        Some(m) => match decoded_luma8(data[m]@) {
            None => Err(ImportError::Undecodable(m as usize)),
            Some(ml) => match decoded_luma8(data[r]@) {
                None => Err(ImportError::Undecodable(r as usize)),
                Some(rl) => if alb.0 <= rl.0 && alb.1 <= rl.1 && alb.0 <= ml.0 && alb.1 <= ml.1 {
                    Ok(())
                } else {
                    Err(ImportError::PixelOutOfBounds)
                },
            },
        },
        None => Ok(()),
    }
}

/// The check on the ambient-occlusion image: when present it must decode as
/// luminance.
pub open spec fn ao_check(names: Seq<String>, data: Seq<Vec<u8>>) -> Result<(), ImportError> {
    match role_index(names, ImageKind::Ao) {
        Some(i) => if decoded_luma8(data[i]@) is None {
            Err(ImportError::Undecodable(i as usize))
        } else {
            Ok(())
        },
        None => Ok(()),
    }
}

/// The images made when every check passes.
pub open spec fn images_made(names: Seq<String>, data: Seq<Vec<u8>>, mi: MaterialImages) -> bool {
    let r = role_index(names, ImageKind::Roughness)->0;
    let alb = decoded_rgb8(data[role_index(names, ImageKind::Albedo)->0]@)->0;
    &&& rgb_view(mi.albedo) == alb
    &&& rgb_view(mi.normal) == decoded_rgb8(data[role_index(names, ImageKind::Normal)->0]@)->0
    &&& match role_index(names, ImageKind::Metallic) {
        Some(m) => is_packed(
            rgb_view(mi.metallic_roughness),
            alb.0,
            alb.1,
            decoded_luma8(data[r]@)->0,
            decoded_luma8(data[m]@)->0,
        ),
        None => rgb_view(mi.metallic_roughness) == decoded_rgb8(data[r]@)->0,
    }
    &&& opt_luma(mi.ao) == match role_index(names, ImageKind::Ao) {
        Some(i) => decoded_luma8(data[i]@),
        None => None,
    }
    &&& opt_rgb(mi.emissive) == match role_index(names, ImageKind::Emissive) {
        Some(i) => decoded_rgb8(data[i]@),
        None => None,
    }
}

/// What making the images of a material from package files `names` with
/// contents `data` gives. Every file with a role must decode; albedo, normal
/// and roughness must be present; with a metallic image the roughness and
/// metallic images are packed into one texture the size of the albedo,
/// without one the roughness image is used as it is; the ambient-occlusion
/// and emissive images are optional.
pub open spec fn material_images_result(
    names: Seq<String>,
    data: Seq<Vec<u8>>,
    res: Result<MaterialImages, ImportError>,
) -> bool {
    if first_undecodable(names, data, names.len()) is Some {
        res == Err::<MaterialImages, ImportError>(
            ImportError::Undecodable(first_undecodable(names, data, names.len())->0 as usize),
        )
    } else if role_index(names, ImageKind::Albedo) is None {
        res == Err::<MaterialImages, ImportError>(ImportError::Missing(ImageKind::Albedo))
    } else if role_index(names, ImageKind::Normal) is None {
        res == Err::<MaterialImages, ImportError>(ImportError::Missing(ImageKind::Normal))
    } else if role_index(names, ImageKind::Roughness) is None {
        res == Err::<MaterialImages, ImportError>(ImportError::Missing(ImageKind::Roughness))
    } else if packing_check(names, data) is Err {
        res == Err::<MaterialImages, ImportError>(packing_check(names, data)->Err_0)
    } else if ao_check(names, data) is Err {
        res == Err::<MaterialImages, ImportError>(ao_check(names, data)->Err_0)
    } else {
        res matches Ok(mi) && images_made(names, data, mi)
    }
}

proof fn lemma_last_of_kind_has_kind(kinds: Seq<Option<ImageKind>>, kind: ImageKind, n: nat)
    requires
        n <= kinds.len(),
    ensures
        last_of_kind(kinds, kind, n) matches Some(i) ==> 0 <= i < n && kinds[i] == Some(kind),
    decreases n,
{
    if n > 0 {
        lemma_last_of_kind_has_kind(kinds, kind, (n - 1) as nat);
    }
}

/// Decodes the file at `i`, which has a role and is known to decode.
fn decode_known_rgb8(names: &Vec<String>, data: &Vec<Vec<u8>>, i: usize) -> (res: RgbImage)
    requires
        names@.len() == data@.len(),
        i < names@.len(),
        decoded_rgb8(data@[i as int]@) is Some,
    ensures
        decoded_rgb8(data@[i as int]@) == Some(rgb_view(res)),
        res.pixels@.len() == 3 * (res.width * res.height),
{
    match decode_rgb8(data[i].as_slice()) {
        Some(img) => img,
        None => {
            proof {
                assert(false);
            }
            RgbImage { width: 0, height: 0, pixels: Vec::new() }
        },
    }
}

/// Makes the images of a material from the files of a package: `names[i]`
/// is the name of a file and `data[i]` its bytes.
pub fn material_images(names: &Vec<String>, data: &Vec<Vec<u8>>) -> (res: Result<MaterialImages, ImportError>)
    requires
        names@.len() == data@.len(),
    ensures
        material_images_result(names@, data@, res),
{
    let mut i: usize = 0;
    while i < names.len()
        invariant
            i <= names@.len(),
            names@.len() == data@.len(),
            first_undecodable(names@, data@, i as nat) is None,
            forall|k: int| 0 <= k < i && has_role(names@, k) ==> decoded_rgb8(data@[k]@) is Some,
        decreases names@.len() - i,
    {
        if ImageKind::guess_kind(names[i].as_str()).is_some() {
            if decode_rgb8(data[i].as_slice()).is_none() {
                proof {
                    assert(first_undecodable(names@, data@, (i + 1) as nat) == Some(i as int));
                    lemma_first_undecodable_stays(names@, data@, (i + 1) as nat, names@.len());
                }
                return Err(ImportError::Undecodable(i));
            }
        }
        i = i + 1;
    }
    let ghost kinds = kinds_of(names@);
    let sel = select_images(names);
    proof {
        lemma_last_of_kind_has_kind(kinds, ImageKind::Albedo, names@.len());
        lemma_last_of_kind_has_kind(kinds, ImageKind::Normal, names@.len());
        lemma_last_of_kind_has_kind(kinds, ImageKind::Roughness, names@.len());
        lemma_last_of_kind_has_kind(kinds, ImageKind::Metallic, names@.len());
        lemma_last_of_kind_has_kind(kinds, ImageKind::Ao, names@.len());
        lemma_last_of_kind_has_kind(kinds, ImageKind::Emissive, names@.len());
        assert(opt_int(sel.spec_get(ImageKind::Albedo)) == role_index(names@, ImageKind::Albedo));
        assert(opt_int(sel.spec_get(ImageKind::Normal)) == role_index(names@, ImageKind::Normal));
        assert(opt_int(sel.spec_get(ImageKind::Roughness)) == role_index(names@, ImageKind::Roughness));
        assert(opt_int(sel.spec_get(ImageKind::Metallic)) == role_index(names@, ImageKind::Metallic));
        assert(opt_int(sel.spec_get(ImageKind::Ao)) == role_index(names@, ImageKind::Ao));
        assert(opt_int(sel.spec_get(ImageKind::Emissive)) == role_index(names@, ImageKind::Emissive));
    }
    let (a, n, r) = match (sel.albedo, sel.normal, sel.roughness) {
        (None, _, _) => {
            return Err(ImportError::Missing(ImageKind::Albedo));
        },
        (Some(_), None, _) => {
            return Err(ImportError::Missing(ImageKind::Normal));
        },
        (Some(_), Some(_), None) => {
            return Err(ImportError::Missing(ImageKind::Roughness));
        },
        (Some(a), Some(n), Some(r)) => (a, n, r),
    };
    proof {
        assert(kinds[a as int] == Some(ImageKind::Albedo));
        assert(has_role(names@, a as int));
        assert(has_role(names@, n as int));
        assert(has_role(names@, r as int));
    }
    let albedo = decode_known_rgb8(names, data, a);
    let normal = decode_known_rgb8(names, data, n);
    let metallic_roughness = match sel.metallic {
        Some(m) => {
            let ml = match decode_luma8(data[m].as_slice()) {
                Some(l) => l,
                None => {
                    return Err(ImportError::Undecodable(m));
                },
            };
            let rl = match decode_luma8(data[r].as_slice()) {
                Some(l) => l,
                None => {
                    return Err(ImportError::Undecodable(r));
                },
            };
            if !(albedo.width <= rl.width && albedo.height <= rl.height && albedo.width <= ml.width
                && albedo.height <= ml.height) {
                return Err(ImportError::PixelOutOfBounds);
            }
            let pixels = pack_metallic_roughness(albedo.width, albedo.height, &rl, &ml);
            let packed = RgbImage { width: albedo.width, height: albedo.height, pixels };
            proof {
                assert(decoded_luma8(data@[r as int]@) == Some(luma_view(rl)));
                assert(decoded_luma8(data@[m as int]@) == Some(luma_view(ml)));
                assert(is_packed(rgb_view(packed), albedo.width, albedo.height, luma_view(rl), luma_view(ml)));
            }
            packed
        },
        None => decode_known_rgb8(names, data, r),
    };
    let ao = match sel.ao {
        Some(i) => match decode_luma8(data[i].as_slice()) {
            Some(l) => Some(l),
            None => {
                return Err(ImportError::Undecodable(i));
            },
        },
        None => None,
    };
    let emissive = match sel.emissive {
        Some(i) => {
            proof {
                assert(has_role(names@, i as int));
            }
            Some(decode_known_rgb8(names, data, i))
        },
        None => None,
    };
    let res = MaterialImages { albedo, normal, metallic_roughness, ao, emissive };
    proof {
        assert(first_undecodable(names@, data@, names@.len()) is None);
        assert(packing_check(names@, data@) is Ok);
        assert(ao_check(names@, data@) is Ok);
        assert(rgb_view(res.albedo) == decoded_rgb8(data@[role_index(names@, ImageKind::Albedo)->0]@)->0);
        assert(rgb_view(res.normal) == decoded_rgb8(data@[role_index(names@, ImageKind::Normal)->0]@)->0);
        assert(opt_luma(res.ao) == match role_index(names@, ImageKind::Ao) {
            Some(i) => decoded_luma8(data@[i]@),
            None => None,
        });
        assert(opt_rgb(res.emissive) == match role_index(names@, ImageKind::Emissive) {
            Some(i) => decoded_rgb8(data@[i]@),
            None => None,
        });
        assert(images_made(names@, data@, res));
    }
    Ok(res)
}

/// Once a file that does not decode is found, it stays the first one.
proof fn lemma_first_undecodable_stays(names: Seq<String>, data: Seq<Vec<u8>>, k: nat, n: nat)
    requires
        k <= n,
        first_undecodable(names, data, k) is Some,
    ensures
        first_undecodable(names, data, n) == first_undecodable(names, data, k),
    decreases n - k,
{
    if k < n {
        lemma_first_undecodable_stays(names, data, k, (n - 1) as nat);
    }
}

} // verus!
