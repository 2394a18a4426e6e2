//! Prebuilt engine binaries: which release assets are Windows builds of the
//! engine, how they are named and labelled, and where an installed engine
//! lives.
use vstd::prelude::*;

use crate::paths::{dir_or_default, dir_or_default_exec, path_join, spec_path_join};
use crate::text::{
    append_chars, append_str, chars_eq, chars_of, contains_chars, contains_seq, ends_with,
    ends_with_chars, lower_chars, lower_seq, starts_with, starts_with_chars, string_of,
    strip_prefix, strip_prefix_chars, strip_suffix, strip_suffix_chars, trim_char,
    trim_matches_char, trim_str, trim_ws,
};

verus! {

/// The address of the engine's latest release description.
pub fn release_api() -> (r: &'static str)
    ensures
        r@ == "https://api.github.com/repos/CrispStrobe/CrispASR/releases/latest"@,
{
    "https://api.github.com/repos/CrispStrobe/CrispASR/releases/latest"
}

pub open spec fn unwrap_or_seq(o: Option<Seq<char>>, d: Seq<char>) -> Seq<char> {
    match o {
        Some(s) => s,
        None => d,
    }
}

/// The unique slug of a Windows engine archive
/// (`crispasr-windows-x86_64-cuda-non-cuda.zip` → `cuda-non-cuda`): the
/// lower-cased name without the `crispasr[-windows-x86_64]-` prefix and the
/// `.zip` suffix, `-` trimmed. `None` unless the name mentions `windows` and
/// ends with `.zip`, or when nothing is left.
pub open spec fn spec_asset_slug(name: Seq<char>) -> Option<Seq<char>> {
    let n = lower_seq(name);
    if !contains_seq(n, "windows"@) || !ends_with(n, ".zip"@) {
        None
    } else {
        let stripped = unwrap_or_seq(
            strip_suffix(
                unwrap_or_seq(
                    match strip_prefix(n, "crispasr-windows-x86_64-"@) {
                        Some(s) => Some(s),
                        None => strip_prefix(n, "crispasr-"@),
                    },
                    n,
                ),
                ".zip"@,
            ),
            n,
        );
        let slug = trim_char(stripped, '-');
        if slug.len() == 0 {
            None
        } else {
            Some(slug)
        }
    }
}

fn unwrap_or_chars(o: Option<Vec<char>>, d: &Vec<char>) -> (r: Vec<char>)
    ensures
        r@ == match o {
            Some(s) => s@,
            None => d@,
        },
{
    match o {
        Some(s) => s,
        None => d.clone(),
    }
}

/// The slug of an engine archive name, if it is a Windows build.
pub fn asset_slug(name: &str) -> (r: Option<String>)
    ensures
        match r {
            Some(s) => spec_asset_slug(name@) == Some(s@),
            None => spec_asset_slug(name@) is None,
        },
{
    let n = lower_chars(&chars_of(name));
    if !contains_chars(&n, &chars_of("windows")) || !ends_with_chars(&n, &chars_of(".zip")) {
        return None;
    }
    let first = match strip_prefix_chars(&n, &chars_of("crispasr-windows-x86_64-")) {
        Some(s) => Some(s),
        None => strip_prefix_chars(&n, &chars_of("crispasr-")),
    };
    let a = unwrap_or_chars(first, &n);
    let b = unwrap_or_chars(strip_suffix_chars(&a, &chars_of(".zip")), &n);
    let slug = trim_matches_char(&b, '-');
    if slug.len() == 0 {
        None
    } else {
        Some(string_of(&slug))
    }
}

/// The category and the distinguishing rest of a slug, if the slug names a
/// known kind of build.
pub open spec fn backend_category(slug: Seq<char>) -> Option<(Seq<char>, Seq<char>)> {
    if starts_with(slug, "cpu-legacy"@) {
        Some(("CPU (legacy SSE2)"@, unwrap_or_seq(strip_prefix(slug, "cpu-legacy"@), Seq::empty())))
    } else if starts_with(slug, "cpu"@) {
        Some(("CPU (AVX2)"@, unwrap_or_seq(strip_prefix(slug, "cpu"@), Seq::empty())))
    } else if contains_seq(slug, "cuda"@) {
        Some(("NVIDIA CUDA (GPU)"@, unwrap_or_seq(strip_prefix(slug, "cuda"@), Seq::empty())))
    } else if contains_seq(slug, "rocm"@) || contains_seq(slug, "hip"@) {
        Some(
            (
                "AMD ROCm (GPU)"@,
                match strip_prefix(slug, "rocm"@) {
                    Some(s) => s,
                    None => unwrap_or_seq(strip_prefix(slug, "hip"@), Seq::empty()),
                },
            ),
        )
    } else if contains_seq(slug, "vulkan"@) {
        Some(("Vulkan (GPU)"@, unwrap_or_seq(strip_prefix(slug, "vulkan"@), Seq::empty())))
    } else {
        None
    }
}

/// The slug names a build of category `cat`.
pub open spec fn has_category(slug: Seq<char>, cat: Seq<char>) -> bool {
    match backend_category(slug) {
        Some((c, _)) => c == cat,
        None => false,
    }
}

/// Which kind of build a slug names, by priority: a slug starting with `cpu`
/// is a CPU build (legacy SSE2 when it starts with `cpu-legacy`); otherwise
/// one mentioning `cuda` is an NVIDIA CUDA build; otherwise one mentioning
/// `rocm` or `hip` is an AMD ROCm build; otherwise one mentioning `vulkan` is a
/// Vulkan build; any other slug names no known build.
pub proof fn lemma_backend_categories(slug: Seq<char>)
    ensures
        starts_with(slug, "cpu-legacy"@) ==> has_category(slug, "CPU (legacy SSE2)"@),
        starts_with(slug, "cpu"@) && !starts_with(slug, "cpu-legacy"@) ==> has_category(slug, "CPU (AVX2)"@),
        !starts_with(slug, "cpu"@) && contains_seq(slug, "cuda"@) ==> has_category(slug, "NVIDIA CUDA (GPU)"@),
        !starts_with(slug, "cpu"@) && !contains_seq(slug, "cuda"@) && (contains_seq(slug, "rocm"@)
            || contains_seq(slug, "hip"@)) ==> has_category(slug, "AMD ROCm (GPU)"@),
        !starts_with(slug, "cpu"@) && !contains_seq(slug, "cuda"@) && !contains_seq(slug, "rocm"@)
            && !contains_seq(slug, "hip"@) && contains_seq(slug, "vulkan"@) ==> has_category(slug, "Vulkan (GPU)"@),
        !starts_with(slug, "cpu"@) && !contains_seq(slug, "cuda"@) && !contains_seq(slug, "rocm"@)
            && !contains_seq(slug, "hip"@) && !contains_seq(slug, "vulkan"@) ==> backend_category(slug) is None,
{
    reveal_strlit("cpu");
    reveal_strlit("cpu-legacy");
    if starts_with(slug, "cpu-legacy"@) {
        assert(slug.take(3) =~= slug.take(10).take(3));
        assert("cpu-legacy"@.take(3) =~= "cpu"@);
        assert(starts_with(slug, "cpu"@));
    }
}

/// The backend id and label of an engine archive: the id is the slug; the
/// label is the category, followed by ` [<detail>]` when the slug says more
/// than the category.
pub open spec fn spec_classify_backend(name: Seq<char>) -> Option<(Seq<char>, Seq<char>)> {
    match spec_asset_slug(name) {
        None => None,
        Some(slug) => match backend_category(slug) {
            None => None,
            Some((cat, detail)) => {
                let d = trim_char(detail, '-');
                Some((slug, if d.len() == 0 { cat } else { cat + " ["@ + d + "]"@ }))
            },
        },
    }
}

fn strip_or_empty(slug: &Vec<char>, p: &str) -> (r: Vec<char>)
    ensures
        r@ == unwrap_or_seq(strip_prefix(slug@, p@), Seq::empty()),
{
    match strip_prefix_chars(slug, &chars_of(p)) {
        Some(s) => s,
        None => Vec::new(),
    }
}

fn category_of(slug: &Vec<char>) -> (r: Option<(&'static str, Vec<char>)>)
    ensures
        match (r, backend_category(slug@)) {
            (Some((c, d)), Some((sc, sd))) => c@ == sc && d@ == sd,
            (None, None) => true,
            _ => false,
        },
{
    if starts_with_chars(slug, &chars_of("cpu-legacy")) {
        Some(("CPU (legacy SSE2)", strip_or_empty(slug, "cpu-legacy")))
    } else if starts_with_chars(slug, &chars_of("cpu")) {
        Some(("CPU (AVX2)", strip_or_empty(slug, "cpu")))
    } else if contains_chars(slug, &chars_of("cuda")) {
        Some(("NVIDIA CUDA (GPU)", strip_or_empty(slug, "cuda")))
    } else if contains_chars(slug, &chars_of("rocm")) || contains_chars(slug, &chars_of("hip")) {
        let d = match strip_prefix_chars(slug, &chars_of("rocm")) {
            Some(s) => s,
            None => strip_or_empty(slug, "hip"),
        };
        Some(("AMD ROCm (GPU)", d))
    } else if contains_chars(slug, &chars_of("vulkan")) {
        Some(("Vulkan (GPU)", strip_or_empty(slug, "vulkan")))
    } else {
        None
    }
}

/// Classifies a Windows engine archive: `(id, label)`, or `None` for other
/// assets. Two builds of one category keep distinct ids and get labels that
/// tell them apart.
pub fn classify_backend(name: &str) -> (r: Option<(String, String)>)
    ensures
        match (r, spec_classify_backend(name@)) {
            (Some((id, label)), Some((sid, slabel))) => id@ == sid && label@ == slabel,
            (None, None) => true,
            _ => false,
        },
{
    let slug = match asset_slug(name) {
        Some(s) => s,
        None => return None,
    };
    let sv = chars_of(slug.as_str());
    let (cat, detail) = match category_of(&sv) {
        Some(cd) => cd,
        None => return None,
    };
    let d = trim_matches_char(&detail, '-');
    let mut label = chars_of(cat);
    if d.len() > 0 {
        append_str(&mut label, " [");
        append_chars(&mut label, &d);
        append_str(&mut label, "]");
    }
    Some((slug, string_of(&label)))
}

/// A downloadable engine build.
#[derive(Debug, Clone)]
pub struct EngineBackendInfo {
    pub id: String,
    pub label: String,
    pub asset_name: String,
    pub url: String,
    pub tag: String,
}

/// A file attached to a release.
#[derive(Debug, Clone)]
pub struct ReleaseAsset {
    pub name: String,
    pub browser_download_url: String,
}

/// (id, label, asset name, url, tag) of an engine build.
pub open spec fn backend_view(b: EngineBackendInfo) -> (Seq<char>, Seq<char>, Seq<char>, Seq<char>, Seq<char>) {
    (b.id@, b.label@, b.asset_name@, b.url@, b.tag@)
}

/// The engine builds among a release's assets, in the assets' order.
pub open spec fn release_backends(tag: Seq<char>, assets: Seq<ReleaseAsset>) -> Seq<
    (Seq<char>, Seq<char>, Seq<char>, Seq<char>, Seq<char>),
>
    decreases assets.len(),
{
    if assets.len() == 0 {
        Seq::empty()
    } else {
        let rest = release_backends(tag, assets.drop_last());
        let a = assets.last();
        match spec_classify_backend(a.name@) {
            Some((id, label)) => rest.push((id, label, a.name@, a.browser_download_url@, tag)),
            None => rest,
        }
    }
}

/// The engine builds offered by a release with tag `tag`, or an error when it
/// holds none.
pub fn backends_from_release(tag: &str, assets: Vec<ReleaseAsset>) -> (r: Result<
    Vec<EngineBackendInfo>,
    String,
>)
    ensures
        match r {
            Ok(v) => v@.len() > 0 && v@.map_values(|b: EngineBackendInfo| backend_view(b))
                == release_backends(tag@, assets@),
            Err(e) => release_backends(tag@, assets@).len() == 0 && e@
                == "в релизе не найдено Windows-бинарей движка"@,
        },
{
    let mut out: Vec<EngineBackendInfo> = Vec::new();
    let mut i: usize = 0;
    while i < assets.len()
        invariant
            i <= assets.len(),
            out@.map_values(|b: EngineBackendInfo| backend_view(b)) == release_backends(
                tag@,
                assets@.take(i as int),
            ),
        decreases assets.len() - i,
    {
        let a = &assets[i];
        proof {
            assert(assets@.take(i + 1).drop_last() =~= assets@.take(i as int));
        }
        match classify_backend(a.name.as_str()) {
            Some((id, label)) => {
                let ghost before = out@;
                out.push(
                    EngineBackendInfo {
                        id,
                        label,
                        asset_name: String::from_str(a.name.as_str()),
                        url: String::from_str(a.browser_download_url.as_str()),
                        tag: String::from_str(tag),
                    },
                );
                proof {
                    assert(out@.map_values(|b: EngineBackendInfo| backend_view(b)) =~= before.map_values(
                        |b: EngineBackendInfo| backend_view(b),
                    ).push(backend_view(out@.last())));
                }
            },
            None => {},
        }
        i += 1;
    }
    proof {
        assert(assets@.take(assets.len() as int) =~= assets@);
    }
    if out.len() == 0 {
        return Err(String::from_str("в релизе не найдено Windows-бинарей движка"));
    }
    Ok(out)
}

// ---------------------------------------------------------------------------
// Installed engines
// ---------------------------------------------------------------------------

/// The folder of one engine build: `<engine_dir>/<backend_id>`, where an empty
/// `engine_dir` means `default_engine_dir`.
pub open spec fn spec_engine_backend_dir(engine_dir: Seq<char>, backend_id: Seq<char>, default_engine_dir: Seq<char>) -> Seq<char> {
    spec_path_join(dir_or_default(engine_dir, default_engine_dir), backend_id)
}

/// The folder of one engine build.
pub fn engine_backend_dir(engine_dir: &str, backend_id: &str, default_engine_dir: &str) -> (r: String)
    ensures
        r@ == spec_engine_backend_dir(engine_dir@, backend_id@, default_engine_dir@),
{
    let base = dir_or_default_exec(engine_dir, default_engine_dir);
    path_join(base.as_str(), backend_id)
}

/// Where the engine executable of a build is expected first:
/// `<engine_dir>/<backend_id>/crispasr.exe`.
pub fn engine_exe_direct_path(engine_dir: &str, backend_id: &str, default_engine_dir: &str) -> (r: String)
    ensures
        r@ == spec_path_join(spec_engine_backend_dir(engine_dir@, backend_id@, default_engine_dir@), "crispasr.exe"@),
{
    let folder = engine_backend_dir(engine_dir, backend_id, default_engine_dir);
    path_join(folder.as_str(), "crispasr.exe")
}

/// The engine executable of a build. The archive may unpack straight into the
/// build's folder or into a sub-folder: the direct path is taken when it
/// exists, else the executable found anywhere in the folder, else the direct
/// path again, so that the error names where the engine was expected.
pub fn resolve_engine_exe(
    engine_dir: &str,
    backend_id: &str,
    default_engine_dir: &str,
    direct_exists: bool,
    found_in_folder: Option<String>,
) -> (r: String)
    ensures
        ({
            let direct = spec_path_join(
                spec_engine_backend_dir(engine_dir@, backend_id@, default_engine_dir@),
                "crispasr.exe"@,
            );
            r@ == if direct_exists {
                direct
            } else {
                match found_in_folder {
                    Some(f) => f@,
                    None => direct,
                }
            }
        }),
{
    let direct = engine_exe_direct_path(engine_dir, backend_id, default_engine_dir);
    if direct_exists {
        return direct;
    }
    match found_in_folder {
        Some(f) => f,
        None => direct,
    }
}

/// The file holding the installed version of a build:
/// `<engine_dir>/<backend_id>/version.txt`.
pub fn engine_version_file(engine_dir: &str, backend_id: &str, default_engine_dir: &str) -> (r: String)
    ensures
        r@ == spec_path_join(spec_engine_backend_dir(engine_dir@, backend_id@, default_engine_dir@), "version.txt"@),
{
    let folder = engine_backend_dir(engine_dir, backend_id, default_engine_dir);
    path_join(folder.as_str(), "version.txt")
}

/// Where the archive of a build is downloaded before unpacking:
/// `<target>/crispasr.zip`.
pub fn engine_archive_file(target: &str) -> (r: String)
    ensures
        r@ == spec_path_join(target@, "crispasr.zip"@),
{
    path_join(target, "crispasr.zip")
}

/// Where the release tag of an installed build is stored:
/// `<target>/version.txt`.
pub fn installed_version_file(target: &str) -> (r: String)
    ensures
        r@ == spec_path_join(target@, "version.txt"@),
{
    path_join(target, "version.txt")
}

/// Whether a file name is that of the engine executable.
pub fn is_engine_exe_name(file_name: &str) -> (r: bool)
    ensures
        r == (file_name@ == "crispasr.exe"@),
{
    chars_eq(&chars_of(file_name), &chars_of("crispasr.exe"))
}

/// The installed version of a build: the release tag stored in its
/// `version.txt`, trimmed.
pub fn parse_engine_version(content: &str) -> (r: String)
    ensures
        r@ == trim_ws(content@),
{
    trim_str(content)
}

/// The result of installing an engine build: the executable found after
/// unpacking, or an error naming the build's folder.
pub fn installed_exe_result(target: &str, found: Option<String>) -> (r: Result<String, String>)
    ensures
        match found {
            Some(f) => r matches Ok(p) && p@ == f@,
            None => r matches Err(e) && e@ == "после распаковки не найден crispasr.exe в "@ + target@,
        },
{
    match found {
        Some(f) => Ok(f),
        None => {
            let mut msg = chars_of("после распаковки не найден crispasr.exe в ");
            append_str(&mut msg, target);
            Err(string_of(&msg))
        },
    }
}

} // verus!
