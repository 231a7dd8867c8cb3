//! Platform path resolution as pure functions: the operating system and
//! the relevant base directories are inputs, so every path this module
//! produces is stated exactly.

use vstd::prelude::*;

verus! {

/// The operating systems the paths differ on.
#[derive(Clone, Copy, PartialEq, Eq, Structural, Debug)]
pub enum OsKind {
    Windows,
    MacOs,
    Linux,
    Other,
}

/// No path is defined for this operating system.
#[derive(Clone, Copy, PartialEq, Eq, Structural, Debug)]
pub struct UnsupportedOsError;

fn join2(base: &str, suffix: &str) -> (r: String)
    ensures
        r@ == base@ + suffix@,
{
    let mut s = base.to_owned();
    s.append(suffix);
    s
}

/// The identity config file's path under the user's home directory.
pub fn resolve_storage_path(os: OsKind, home: &str) -> (r: Result<String, UnsupportedOsError>)
    ensures
        r is Ok <==> os != OsKind::Other,
        os == OsKind::Windows ==> r->Ok_0@ == home@
            + "\\AppData\\Roaming\\Cursor\\User\\globalStorage\\storage.json"@,
        os == OsKind::MacOs ==> r->Ok_0@ == home@
            + "/Library/Application Support/Cursor/User/globalStorage/storage.json"@,
        os == OsKind::Linux ==> r->Ok_0@ == home@
            + "/.config/Cursor/User/globalStorage/storage.json"@,
{
    match os {
        OsKind::Windows => Ok(
            join2(home, "\\AppData\\Roaming\\Cursor\\User\\globalStorage\\storage.json"),
        ),
        OsKind::MacOs => Ok(
            join2(home, "/Library/Application Support/Cursor/User/globalStorage/storage.json"),
        ),
        OsKind::Linux => Ok(join2(home, "/.config/Cursor/User/globalStorage/storage.json")),
        OsKind::Other => Err(UnsupportedOsError),
    }
}

/// The auth store's path. On Windows the base is the roaming app-data
/// directory; elsewhere it is the user's home directory, and any other
/// system is laid out like Linux.
pub fn resolve_db_path(os: OsKind, base: &str) -> (r: String)
    ensures
        os == OsKind::Windows ==> r@ == base@ + "\\Cursor\\User\\globalStorage\\state.vscdb"@,
        os == OsKind::MacOs ==> r@ == base@
            + "/Library/Application Support/Cursor/User/globalStorage/state.vscdb"@,
        (os == OsKind::Linux || os == OsKind::Other) ==> r@ == base@
            + "/.config/Cursor/User/globalStorage/state.vscdb"@,
{
    match os {
        OsKind::Windows => join2(base, "\\Cursor\\User\\globalStorage\\state.vscdb"),
        OsKind::MacOs => join2(
            base,
            "/Library/Application Support/Cursor/User/globalStorage/state.vscdb",
        ),
        _ => join2(base, "/.config/Cursor/User/globalStorage/state.vscdb"),
    }
}

/// The API endpoint config file's path. On Windows and Linux the base is
/// the user's config directory; on macOS it is the home directory.
pub fn resolve_api_config_path(os: OsKind, base: &str) -> (r: String)
    ensures
        os == OsKind::Windows ==> r@ == base@ + "\\Cursor\\api_config.json"@,
        os == OsKind::MacOs ==> r@ == base@
            + "/Library/Application Support/Cursor/api_config.json"@,
        (os == OsKind::Linux || os == OsKind::Other) ==> r@ == base@ + "/cursor/api_config.json"@,
{
    match os {
        OsKind::Windows => join2(base, "\\Cursor\\api_config.json"),
        OsKind::MacOs => join2(base, "/Library/Application Support/Cursor/api_config.json"),
        _ => join2(base, "/cursor/api_config.json"),
    }
}

/// The candidate default locations of the target bundle, in probing
/// order; the caller picks the first that exists on disk.
pub fn default_js_path_candidates(os: OsKind, local_app_data: &Option<String>) -> (r: Vec<
    String,
>)
    ensures
        os == OsKind::Windows && local_app_data is Some ==> r@.len() == 1 && r@[0]@
            == local_app_data->0@ + "\\Programs\\cursor\\resources\\app\\out\\main.js"@,
        os == OsKind::Windows && local_app_data is None ==> r@.len() == 0,
        os == OsKind::MacOs ==> r@.len() == 1 && r@[0]@
            == "/Applications/Cursor.app/Contents/Resources/app/out/main.js"@,
        os == OsKind::Linux ==> r@.len() == 2 && r@[0]@
            == "/opt/Cursor/resources/app/out/main.js"@ && r@[1]@
            == "/usr/share/cursor/resources/app/out/main.js"@,
        os == OsKind::Other ==> r@.len() == 0,
{
    let mut out: Vec<String> = Vec::new();
    match os {
        OsKind::Windows => {
            if let Some(lad) = local_app_data {
                out.push(join2(lad.as_str(), "\\Programs\\cursor\\resources\\app\\out\\main.js"));
            }
        },
        OsKind::MacOs => {
            out.push("/Applications/Cursor.app/Contents/Resources/app/out/main.js".to_owned());
        },
        OsKind::Linux => {
            out.push("/opt/Cursor/resources/app/out/main.js".to_owned());
            out.push("/usr/share/cursor/resources/app/out/main.js".to_owned());
        },
        OsKind::Other => {},
    }
    out
}

/// An optional directory, or a fixed default when it is not set.
pub open spec fn or_default(o: Option<String>, d: Seq<char>) -> Seq<char> {
    if o is Some {
        o->0@
    } else {
        d
    }
}

/// The common Windows install locations of the target application, built
/// from the usual environment directories with their conventional
/// defaults; the caller picks the first that exists on disk.
pub fn windows_launch_candidates(
    program_files: &Option<String>,
    program_files_x86: &Option<String>,
    local_app_data: &Option<String>,
    user_profile: &Option<String>,
) -> (r: Vec<String>)
    ensures
        r@.len() == 3,
        r@[0]@ == or_default(*program_files, "C:\\Program Files"@) + "\\Cursor\\Cursor.exe"@,
        r@[1]@ == or_default(*program_files_x86, "C:\\Program Files (x86)"@)
            + "\\Cursor\\Cursor.exe"@,
        r@[2]@ == (if local_app_data is Some {
            local_app_data->0@
        } else {
            or_default(*user_profile, "C:\\Users\\Default"@) + "\\AppData\\Local"@
        }) + "\\Cursor\\Cursor.exe"@,
{
    let mut out: Vec<String> = Vec::new();
    let pf = match program_files {
        Some(p) => p.clone(),
        None => "C:\\Program Files".to_owned(),
    };
    out.push(join2(pf.as_str(), "\\Cursor\\Cursor.exe"));
    let pfx = match program_files_x86 {
        Some(p) => p.clone(),
        None => "C:\\Program Files (x86)".to_owned(),
    };
    out.push(join2(pfx.as_str(), "\\Cursor\\Cursor.exe"));
    let lad = match local_app_data {
        Some(p) => p.clone(),
        None => {
            let up = match user_profile {
                Some(p) => p.clone(),
                None => "C:\\Users\\Default".to_owned(),
            };
            join2(up.as_str(), "\\AppData\\Local")
        },
    };
    out.push(join2(lad.as_str(), "\\Cursor\\Cursor.exe"));
    out
}

/// The Linux launch candidates of the target application, in probing
/// order.
pub fn linux_launch_candidates() -> (r: Vec<String>)
    ensures
        r@.len() == 3,
        r@[0]@ == "/usr/bin/cursor"@,
        r@[1]@ == "/usr/local/bin/cursor"@,
        r@[2]@ == "/opt/cursor/cursor"@,
{
    let mut out: Vec<String> = Vec::new();
    out.push("/usr/bin/cursor".to_owned());
    out.push("/usr/local/bin/cursor".to_owned());
    out.push("/opt/cursor/cursor".to_owned());
    out
}

} // verus!
