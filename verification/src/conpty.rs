use vstd::prelude::*;

use crate::layout::str_equal;
use crate::payload::strs_view;

verus! {

/// The ConPTY implementation a terminal session runs on.
#[derive(Clone, Copy, Debug, PartialEq, Eq, Structural)]
pub enum ConptyBackend {
    /// The `conpty.dll` shipped with NyaTerm.
    Bundled,
    /// The one built into Windows.
    System,
}

/// What the support page shows about local ConPTY.
#[derive(Debug)]
pub struct LocalConptyInfo {
    pub available: bool,
    pub active_bundled: usize,
    pub active_system: usize,
    pub last_used: Option<&'static str>,
    pub fallback: bool,
    pub version: String,
}

/// The name the support page uses for a backend.
pub open spec fn backend_name_spec(b: ConptyBackend) -> Seq<char> {
    match b {
        ConptyBackend::Bundled => "bundled"@,
        ConptyBackend::System => "system"@,
    }
}

/// The name the support page uses for a backend.
pub fn backend_name(b: ConptyBackend) -> (res: &'static str)
    ensures
        res@ == backend_name_spec(b),
{
    match b {
        ConptyBackend::Bundled => "bundled",
        ConptyBackend::System => "system",
    }
}

/// Builds the support information from the ConPTY status: the counts of
/// sessions on each backend, the backend used last (by name), and whether a
/// fallback to the system backend happened.
pub fn local_conpty_info(
    available: bool,
    active_bundled: usize,
    active_system: usize,
    last_used: Option<ConptyBackend>,
    fallback_happened: bool,
    version: String,
) -> (res: LocalConptyInfo)
    ensures
        res.available == available,
        res.active_bundled == active_bundled,
        res.active_system == active_system,
        match last_used {
            Some(b) => res.last_used matches Some(n) && n@ == backend_name_spec(b),
            None => res.last_used is None,
        },
        res.fallback == fallback_happened,
        res.version == version,
{
    let last_used = match last_used {
        Some(b) => Some(backend_name(b)),
        None => None,
    };
    LocalConptyInfo { available, active_bundled, active_system, last_used, fallback: fallback_happened, version }
}

/// The bundled ConPTY build directory for a Rust architecture name.
pub open spec fn conpty_arch_dir_spec(arch: Seq<char>) -> Option<Seq<char>> {
    if arch == "x86_64"@ {
        Some("x64"@)
    } else if arch == "aarch64"@ {
        Some("arm64"@)
    } else {
        None
    }
}

/// The path of the bundled `conpty.dll` below the installation directory for
/// an architecture, or `None` when no bundled build exists for it.
pub fn bundled_conpty_dll(arch: &str) -> (res: Option<Vec<&'static str>>)
    ensures
        match conpty_arch_dir_spec(arch@) {
            Some(dir) => res matches Some(p) && strs_view(p@) == seq!["conpty"@, dir, "conpty.dll"@],
            None => res is None,
        },
{
    let dir = if str_equal(arch, "x86_64") {
        "x64"
    } else if str_equal(arch, "aarch64") {
        "arm64"
    } else {
        return None;
    };
    let res = vec!["conpty", dir, "conpty.dll"];
    assert(strs_view(res@) =~= seq!["conpty"@, dir@, "conpty.dll"@]);
    Some(res)
}

/// What `serde_json` reads as the string member `key` of the JSON object in
/// `text`: `None` when the text is no JSON, the value no object, or the member
/// missing or not a string.
pub uninterp spec fn json_string_member(text: Seq<char>, key: Seq<char>) -> Option<Seq<char>>;

/// Parses `text` with `serde_json::from_str` into a `serde_json::Value` and
/// reads its string member `key` (`Value::get`, then `as_str`).
#[verifier::external_body]
fn json_member_text(text: &str, key: &str) -> (res: Option<String>)
    ensures
        match res {
            Some(v) => json_string_member(text@, key@) == Some(v@),
            None => json_string_member(text@, key@) is None,
        },
{
    let value: serde_json::Value = serde_json::from_str(text).ok()?;
    value.get(key)?.as_str().map(|s| s.to_string())
}

/// The version recorded in the bundled ConPTY package metadata.
pub fn conpty_package_version(metadata: &str) -> (res: Option<String>)
    ensures
        match res {
            Some(v) => json_string_member(metadata@, "version"@) == Some(v@),
            None => json_string_member(metadata@, "version"@) is None,
        },
{
    json_member_text(metadata, "version")
}

} // verus!
