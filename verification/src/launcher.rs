//! Launcher helpers: tool ids, launch arguments, OS app entries and the
//! checks that decide whether a bundled tool binary can be started.

use vstd::prelude::*;

use crate::text::{joined, owned, starts_with, text_eq, text_starts_with};

verus! {

/// The tools of the suite.
#[derive(Debug, Clone, Copy, PartialEq, Eq, Structural)]
pub enum ToolId {
    StudioMonitor,
    TestPatterns,
    ConfigManager,
    DiscoveryServer,
    ScreenCapture,
}

/// The tool named by a launcher / CLI id, if any.
pub open spec fn tool_of_id(id: Seq<char>) -> Option<ToolId> {
    if id == "studio-monitor"@ {
        Some(ToolId::StudioMonitor)
    } else if id == "test-patterns"@ {
        Some(ToolId::TestPatterns)
    } else if id == "config-manager"@ {
        Some(ToolId::ConfigManager)
    } else if id == "discovery-server"@ {
        Some(ToolId::DiscoveryServer)
    } else if id == "screen-capture"@ {
        Some(ToolId::ScreenCapture)
    } else {
        None
    }
}

/// Parse a launcher / CLI tool id (`studio-monitor`, `test-patterns`, ...).
pub fn parse_tool_id(tool_id: &str) -> (r: Result<ToolId, String>)
    ensures
        r matches Ok(t) ==> tool_of_id(tool_id@) == Some(t),
        r matches Err(m) ==> tool_of_id(tool_id@) is None && m@ == "unknown tool: "@ + tool_id@,
{
    if text_eq(tool_id, "studio-monitor") {
        Ok(ToolId::StudioMonitor)
    } else if text_eq(tool_id, "test-patterns") {
        Ok(ToolId::TestPatterns)
    } else if text_eq(tool_id, "config-manager") {
        Ok(ToolId::ConfigManager)
    } else if text_eq(tool_id, "discovery-server") {
        Ok(ToolId::DiscoveryServer)
    } else if text_eq(tool_id, "screen-capture") {
        Ok(ToolId::ScreenCapture)
    } else {
        Err(joined("unknown tool: ", tool_id))
    }
}

/// Screen Capture is part of the suite's catalogue but cannot be launched.
pub fn check_launchable(tool: ToolId) -> (r: Result<(), String>)
    ensures
        r is Ok <==> tool != ToolId::ScreenCapture,
        r matches Err(m) ==> m@ == "Screen Capture is not enabled in this suite build"@,
{
    if tool == ToolId::ScreenCapture {
        Err(owned("Screen Capture is not enabled in this suite build"))
    } else {
        Ok(())
    }
}

/// The tool id requested by `--launch <id>` or `--launch=<id>` among the
/// command-line arguments (program name excluded); the first request wins.
pub open spec fn launch_request(args: Seq<Seq<char>>) -> Option<Seq<char>>
    decreases args.len(),
{
    if args.len() == 0 {
        None
    } else if args[0] == "--launch"@ {
        if args.len() > 1 {
            Some(args[1])
        } else {
            None
        }
    } else if starts_with(args[0], "--launch="@) {
        Some(args[0].skip("--launch="@.len() as int))
    } else {
        launch_request(args.drop_first())
    }
}

pub open spec fn args_view(v: Seq<String>) -> Seq<Seq<char>> {
    v.map_values(|s: String| s@)
}

/// `--launch studio-monitor` / `--launch=test-patterns` for AppImage desktop entries.
pub fn parse_launch_tool_id(args: &Vec<String>) -> (r: Option<String>)
    ensures
        match r {
            Some(s) => launch_request(args_view(args@)) == Some(s@),
            None => launch_request(args_view(args@)) is None,
        },
{
    let ghost all = args_view(args@);
    let mut i: usize = 0;
    assert(all.skip(0) =~= all);
    while i < args.len()
        invariant
            i <= args.len(),
            all == args_view(args@),
            launch_request(all) == launch_request(all.skip(i as int)),
        decreases args.len() - i,
    {
        let arg = args[i].as_str();
        let ghost rest = all.skip(i as int);
        assert(rest[0] == arg@);
        if text_eq(arg, "--launch") {
            if i + 1 < args.len() {
                assert(rest[1] == args@[i + 1]@);
                return Some(args[i + 1].clone());
            }
            return None;
        }
        if text_starts_with(arg, "--launch=") {
            proof {
                reveal_strlit("--launch=");
            }
            return Some(arg.substring_char(9, arg.unicode_len()).to_owned());
        }
        assert(rest.drop_first() =~= all.skip(i + 1));
        i = i + 1;
    }
    assert(all.skip(i as int).len() == 0);
    None
}

/// `needle` occurs somewhere in `s`.
pub open spec fn contains_text(s: Seq<char>, needle: Seq<char>) -> bool {
    exists|i: int| 0 <= i && i + needle.len() <= s.len() && #[trigger] s.subrange(i, i + needle.len()) == needle
}

pub fn text_contains(s: &str, needle: &str) -> (r: bool)
    ensures
        r == contains_text(s@, needle@),
{
    let n = s.unicode_len();
    let m = needle.unicode_len();
    if m > n {
        return false;
    }
    if m == 0 {
        assert(s@.subrange(0int, 0int + needle@.len()) =~= needle@);
        return true;
    }
    let mut i: usize = 0;
    while i <= n - m
        invariant
            n == s@.len(),
            m == needle@.len(),
            0 < m <= n,
            i <= n - m + 1,
            forall|j: int| 0 <= j < i ==> #[trigger] s@.subrange(j, j + m) != needle@,
        decreases n - m + 1 - i,
    {
        if text_eq(s.substring_char(i, i + m), needle) {
            return true;
        }
        i = i + 1;
    }
    false
}

/// OS app entries are only written by release builds that do not run from a
/// cargo `target` directory.
pub open spec fn registers_os_entries(debug_build: bool, exe: Option<Seq<char>>) -> bool {
    match exe {
        None => false,
        Some(p) => !debug_build && !contains_text(p, "/target/"@) && !contains_text(
            p,
            "\\target\\"@,
        ),
    }
}

/// Whether the launcher should register OS app entries, given whether this
/// is a debug build and the launcher's own executable path (if known).
pub fn should_register(debug_build: bool, exe: Option<&str>) -> (r: bool)
    ensures
        r == registers_os_entries(
            debug_build,
            match exe {
                Some(p) => Some(p@),
                None => None,
            },
        ),
{
    if debug_build {
        return false;
    }
    match exe {
        None => false,
        Some(p) => !text_contains(p, "/target/") && !text_contains(p, "\\target\\"),
    }
}

/// Smallest size of a real tool binary (placeholder copies of `cmd.exe` and
/// stubs are smaller or are rejected as clones).
pub const MIN_TOOL_BYTES: u64 = 64 * 1024;

/// A file of `len` bytes is a copy of `cmd.exe` when it has exactly the size
/// of the system `cmd.exe` (`cmd_exe_len`; none outside Windows).
pub fn is_cmd_exe_clone(len: u64, cmd_exe_len: Option<u64>) -> (r: bool)
    ensures
        r == (cmd_exe_len == Some(len)),
{
    match cmd_exe_len {
        Some(c) => c == len,
        None => false,
    }
}

/// Whether a path holds a usable tool binary: `file` is `(is_file, len)` of
/// its metadata when it could be read.
pub fn is_usable_tool_binary(file: Option<(bool, u64)>, cmd_exe_len: Option<u64>) -> (r: bool)
    ensures
        r == usable_binary(file, cmd_exe_len),
{
    match file {
        None => false,
        Some((is_file, len)) => {
            if !is_file || len < MIN_TOOL_BYTES {
                return false;
            }
            !is_cmd_exe_clone(len, cmd_exe_len)
        },
    }
}

/// `s` with every `"` escaped as `\"`.
pub open spec fn escape_quotes(s: Seq<char>) -> Seq<char>
    decreases s.len(),
{
    if s.len() == 0 {
        s
    } else {
        escape_quotes(s.drop_last()) + if s.last() == '"' {
            "\\\""@
        } else {
            seq![s.last()]
        }
    }
}

/// Quote a path for a desktop entry's `Exec=` line.
pub fn quote_desktop_path(path: &str) -> (r: String)
    ensures
        r@ == "\""@ + escape_quotes(path@) + "\""@,
{
    let n = path.unicode_len();
    let mut r = owned("\"");
    let mut i: usize = 0;
    while i < n
        invariant
            n == path@.len(),
            i <= n,
            r@ == "\""@ + escape_quotes(path@.take(i as int)),
        decreases n - i,
    {
        proof {
            assert(path@.take(i + 1).drop_last() =~= path@.take(i as int));
            assert(path@.take(i + 1).last() == path@[i as int]);
        }
        if path.get_char(i) == '"' {
            r.append("\\\"");
        } else {
            let one = path.substring_char(i, i + 1);
            assert(one@ =~= seq![path@[i as int]]);
            r.append(one);
        }
        i = i + 1;
    }
    assert(path@.take(n as int) =~= path@);
    r.append("\"");
    r
}

/// Path rules of the platform a path belongs to.
#[derive(Debug, Clone, Copy, PartialEq, Eq, Structural)]
pub enum PathStyle {
    /// `/` separates components.
    Unix,
    /// `\` separates components (`/` is accepted too); paths may start with
    /// a prefix such as `C:` or `\\server\share`.
    Windows,
}

/// Whether `c` separates path components.
pub open spec fn is_path_sep(style: PathStyle, c: char) -> bool {
    c == '/' || (style == PathStyle::Windows && c == '\\')
}

pub open spec fn is_ascii_letter(c: char) -> bool {
    ('a' <= c && c <= 'z') || ('A' <= c && c <= 'Z')
}

/// `s` starts with a drive prefix such as `C:`.
pub open spec fn has_disk_prefix(s: Seq<char>) -> bool {
    s.len() >= 2 && is_ascii_letter(s[0]) && s[1] == ':'
}

/// `s` starts with two separators.
pub open spec fn starts_with_two_seps(style: PathStyle, s: Seq<char>) -> bool {
    s.len() >= 2 && is_path_sep(style, s[0]) && is_path_sep(style, s[1])
}

/// `s` starts at a root (with a separator).
pub open spec fn is_rooted(style: PathStyle, s: Seq<char>) -> bool {
    s.len() > 0 && is_path_sep(style, s[0])
}

/// The position of the first Windows separator in `s` at or after `i`
/// (`s.len()` when there is none).
pub open spec fn sep_from(s: Seq<char>, i: int) -> int
    decreases s.len() - i,
{
    if i < 0 || i >= s.len() {
        s.len() as int
    } else if is_path_sep(PathStyle::Windows, s[i]) {
        i
    } else {
        sep_from(s, i + 1)
    }
}

/// `s` starts with the verbatim prefix `\\?\`.
pub open spec fn is_verbatim(s: Seq<char>) -> bool {
    s.len() >= 4 && s[0] == '\\' && s[1] == '\\' && s[2] == '?' && s[3] == '\\'
}

/// Length of the Windows prefix that `s` starts with, 0 when it has none:
/// a drive `C:`, a device `\\.\NAME`, a share `\\server\share` (both parts
/// non-empty), or a verbatim `\\?\...` prefix (whose length is not used
/// here, only that there is one).
pub open spec fn win_prefix_len(s: Seq<char>) -> int {
    if has_disk_prefix(s) {
        2
    } else if starts_with_two_seps(PathStyle::Windows, s) {
        if is_verbatim(s) {
            4
        } else if s.len() >= 4 && s[2] == '.' && is_path_sep(PathStyle::Windows, s[3]) {
            sep_from(s, 4)
        } else {
            let e1 = sep_from(s, 2);
            if e1 > 2 && e1 < s.len() && sep_from(s, e1 + 1) > e1 + 1 {
                sep_from(s, e1 + 1)
            } else {
                0
            }
        }
    } else {
        0
    }
}

/// The joins whose result is stated here: every join on Unix; on Windows,
/// every join except a non-empty component without prefix onto a verbatim
/// (`\\?\`) path, which `PathBuf::join` normalizes in a way its
/// documentation does not spell out.
pub open spec fn join_supported(style: PathStyle, base: Seq<char>, rel: Seq<char>) -> bool {
    style == PathStyle::Unix || !(is_verbatim(base) && rel.len() > 0 && win_prefix_len(rel) == 0)
}

/// `base` joined with `rel` (`PathBuf::join` on the platform of `style`): an
/// absolute `rel` replaces `base`; on Windows a `rel` with a prefix replaces
/// `base` and a rooted `rel` keeps only `base`'s prefix; otherwise the
/// platform's separator is put between them unless `base` is empty, already
/// ends with a separator, or is a bare drive such as `C:`.
pub open spec fn join_path_in(style: PathStyle, base: Seq<char>, rel: Seq<char>) -> Seq<char> {
    match style {
        PathStyle::Unix => if is_rooted(style, rel) {
            rel
        } else if base.len() == 0 || base.last() == '/' {
            base + rel
        } else {
            base + "/"@ + rel
        },
        PathStyle::Windows => if win_prefix_len(rel) > 0 {
            rel
        } else if is_rooted(style, rel) {
            base.take(win_prefix_len(base)) + rel
        } else if base.len() == 0 || is_path_sep(style, base.last()) || (base.len() == 2
            && has_disk_prefix(base)) {
            base + rel
        } else {
            base + "\\"@ + rel
        },
    }
}

/// `base` joined with `rel` by the Unix rules (the macOS and Linux paths).
pub open spec fn join_path(base: Seq<char>, rel: Seq<char>) -> Seq<char> {
    join_path_in(PathStyle::Unix, base, rel)
}

fn path_sep_char(style: PathStyle, c: char) -> (r: bool)
    ensures
        r == is_path_sep(style, c),
{
    c == '/' || (style == PathStyle::Windows && c == '\\')
}

fn disk_prefix(s: &str) -> (r: bool)
    ensures
        r == has_disk_prefix(s@),
{
    if s.unicode_len() < 2 {
        return false;
    }
    let c = s.get_char(0);
    (('a' <= c && c <= 'z') || ('A' <= c && c <= 'Z')) && s.get_char(1) == ':'
}

fn next_sep(s: &str, i: usize) -> (r: usize)
    requires
        i <= s@.len(),
    ensures
        r as int == sep_from(s@, i as int),
{
    let n = s.unicode_len();
    let mut j = i;
    while j < n
        invariant
            n == s@.len(),
            i <= j <= n,
            sep_from(s@, i as int) == sep_from(s@, j as int),
        decreases n - j,
    {
        if path_sep_char(PathStyle::Windows, s.get_char(j)) {
            return j;
        }
        j = j + 1;
    }
    j
}

proof fn lemma_sep_from_bounds(s: Seq<char>, i: int)
    requires
        0 <= i <= s.len(),
    ensures
        i <= sep_from(s, i) <= s.len(),
    decreases s.len() - i,
{
    if i < s.len() && !is_path_sep(PathStyle::Windows, s[i]) {
        lemma_sep_from_bounds(s, i + 1);
    }
}

/// Length of the Windows prefix of `s` (see [`win_prefix_len`]).
fn windows_prefix_len(s: &str) -> (r: usize)
    ensures
        r as int == win_prefix_len(s@),
        r <= s@.len(),
{
    let n = s.unicode_len();
    if disk_prefix(s) {
        return 2;
    }
    if n < 2 || !path_sep_char(PathStyle::Windows, s.get_char(0)) || !path_sep_char(
        PathStyle::Windows,
        s.get_char(1),
    ) {
        return 0;
    }
    if n >= 4 && s.get_char(0) == '\\' && s.get_char(1) == '\\' && s.get_char(2) == '?'
        && s.get_char(3) == '\\' {
        return 4;
    }
    if n >= 4 && s.get_char(2) == '.' && path_sep_char(PathStyle::Windows, s.get_char(3)) {
        proof {
            lemma_sep_from_bounds(s@, 4);
        }
        return next_sep(s, 4);
    }
    proof {
        lemma_sep_from_bounds(s@, 2);
    }
    let e1 = next_sep(s, 2);
    if e1 > 2 && e1 < n {
        proof {
            lemma_sep_from_bounds(s@, e1 + 1);
        }
        let e2 = next_sep(s, e1 + 1);
        if e2 > e1 + 1 {
            return e2;
        }
    }
    0
}

/// Join `rel` onto `base` by the rules of `style`.
pub fn join_path_styled(style: PathStyle, base: &str, rel: &str) -> (r: String)
    requires
        join_supported(style, base@, rel@),
    ensures
        r@ == join_path_in(style, base@, rel@),
{
    let n = base.unicode_len();
    let rooted = rel.unicode_len() > 0 && path_sep_char(style, rel.get_char(0));
    match style {
        PathStyle::Unix => {
            if rooted {
                owned(rel)
            } else if n == 0 || base.get_char(n - 1) == '/' {
                joined(base, rel)
            } else {
                let mut r = joined(base, "/");
                r.append(rel);
                r
            }
        },
        PathStyle::Windows => {
            if windows_prefix_len(rel) > 0 {
                owned(rel)
            } else if rooted {
                let p = windows_prefix_len(base);
                let kept = base.substring_char(0, p);
                joined(kept, rel)
            } else if n == 0 || path_sep_char(style, base.get_char(n - 1)) || (n == 2 && disk_prefix(
                base,
            )) {
                joined(base, rel)
            } else {
                let mut r = joined(base, "\\");
                r.append(rel);
                r
            }
        },
    }
}

/// Join `rel` onto `base` by the Unix rules.
pub fn join_path_text(base: &str, rel: &str) -> (r: String)
    ensures
        r@ == join_path(base@, rel@),
{
    join_path_styled(PathStyle::Unix, base, rel)
}

/// `~/Applications`, given the home directory if it is set.
pub fn user_applications_dir(home: Option<&str>) -> (r: Result<String, String>)
    ensures
        match home {
            Some(h) => r matches Ok(p) && p@ == join_path(h@, "Applications"@),
            None => r matches Err(m) && m@ == "HOME is not set"@,
        },
{
    match home {
        Some(h) => Ok(join_path_text(h, "Applications")),
        None => Err(owned("HOME is not set")),
    }
}

} // verus!

verus! {

/// Text of the `Info.plist` written into a macOS `.app` wrapper: `name` is
/// the menu-bar title, `display` the Dock / Launchpad label, `exe` the
/// bundle executable, `id` completes the bundle identifier
/// `lab.mikansei.omt-tools.<id>`, `version` is the suite version.
pub open spec fn info_plist(
    name: Seq<char>,
    display: Seq<char>,
    exe: Seq<char>,
    id: Seq<char>,
    version: Seq<char>,
) -> Seq<char> {
    "<?xml version=\"1.0\" encoding=\"UTF-8\"?>\n<!DOCTYPE plist PUBLIC \"-//Apple//DTD PLIST 1.0//EN\" \"http://www.apple.com/DTDs/PropertyList-1.0.dtd\">\n<plist version=\"1.0\">\n<dict>\n    <key>CFBundleDevelopmentRegion</key>\n    <string>en</string>\n    <key>CFBundleDisplayName</key>\n    <string>"@
        + display
        + "</string>\n    <key>CFBundleExecutable</key>\n    <string>"@
        + exe
        + "</string>\n    <key>CFBundleIconFile</key>\n    <string>AppIcon</string>\n    <key>CFBundleIdentifier</key>\n    <string>lab.mikansei.omt-tools."@
        + id
        + "</string>\n    <key>CFBundleInfoDictionaryVersion</key>\n    <string>6.0</string>\n    <key>CFBundleName</key>\n    <string>"@
        + name
        + "</string>\n    <key>CFBundlePackageType</key>\n    <string>APPL</string>\n    <key>CFBundleShortVersionString</key>\n    <string>"@
        + version
        + "</string>\n    <key>CFBundleVersion</key>\n    <string>"@
        + version
        + "</string>\n    <key>LSMinimumSystemVersion</key>\n    <string>11.0</string>\n    <key>NSHighResolutionCapable</key>\n    <true/>\n</dict>\n</plist>\n"@
}

/// Build the `Info.plist` of a macOS `.app` wrapper.
pub fn macos_info_plist(name: &str, display: &str, exe: &str, id: &str, version: &str) -> (r:
    String)
    ensures
        r@ == info_plist(name@, display@, exe@, id@, version@),
{
    let mut r = String::new();
    r.append("<?xml version=\"1.0\" encoding=\"UTF-8\"?>\n<!DOCTYPE plist PUBLIC \"-//Apple//DTD PLIST 1.0//EN\" \"http://www.apple.com/DTDs/PropertyList-1.0.dtd\">\n<plist version=\"1.0\">\n<dict>\n    <key>CFBundleDevelopmentRegion</key>\n    <string>en</string>\n    <key>CFBundleDisplayName</key>\n    <string>");
    r.append(display);
    r.append("</string>\n    <key>CFBundleExecutable</key>\n    <string>");
    r.append(exe);
    r.append("</string>\n    <key>CFBundleIconFile</key>\n    <string>AppIcon</string>\n    <key>CFBundleIdentifier</key>\n    <string>lab.mikansei.omt-tools.");
    r.append(id);
    r.append("</string>\n    <key>CFBundleInfoDictionaryVersion</key>\n    <string>6.0</string>\n    <key>CFBundleName</key>\n    <string>");
    r.append(name);
    r.append("</string>\n    <key>CFBundlePackageType</key>\n    <string>APPL</string>\n    <key>CFBundleShortVersionString</key>\n    <string>");
    r.append(version);
    r.append("</string>\n    <key>CFBundleVersion</key>\n    <string>");
    r.append(version);
    r.append("</string>\n    <key>LSMinimumSystemVersion</key>\n    <string>11.0</string>\n    <key>NSHighResolutionCapable</key>\n    <true/>\n</dict>\n</plist>\n");
    r
}

/// The `Comment=` of a tool's desktop entry (Screen Capture gets no entry).
pub open spec fn desktop_comment(tool: ToolId) -> Seq<char> {
    match tool {
        ToolId::StudioMonitor => "Browse and view OMT sources on the LAN"@,
        ToolId::TestPatterns => "Pick a pattern and send video + tone over OMT"@,
        ToolId::ConfigManager => "View and edit the global OMT settings.xml"@,
        ToolId::DiscoveryServer => "Run an OMT discovery server for networks that block multicast"@,
        ToolId::ScreenCapture => Seq::empty(),
    }
}

fn desktop_comment_text(tool: ToolId) -> (r: &'static str)
    requires
        tool != ToolId::ScreenCapture,
    ensures
        r@ == desktop_comment(tool),
{
    match tool {
        ToolId::StudioMonitor => "Browse and view OMT sources on the LAN",
        ToolId::TestPatterns => "Pick a pattern and send video + tone over OMT",
        ToolId::ConfigManager => "View and edit the global OMT settings.xml",
        _ => "Run an OMT discovery server for networks that block multicast",
    }
}

/// Text of a tool's `.desktop` file: `name` is its qualified display name,
/// `exec` the `Exec=` command and `wm` its window class (binary name).
pub open spec fn desktop_entry(tool: ToolId, name: Seq<char>, exec: Seq<char>, wm: Seq<char>) -> Seq<
    char,
> {
    "[Desktop Entry]\nType=Application\nVersion=1.0\nName="@
        + name
        + "\nComment="@
        + desktop_comment(tool)
        + "\nExec="@
        + exec
        + "\nIcon=OMT Tools\nTerminal=false\nStartupNotify=true\nStartupWMClass="@
        + wm
        + "\nCategories=AudioVideo;Video;AudioVideoEditing;\nKeywords=OMT;NDI;video;\n"@
}

/// Build a tool's `.desktop` file. Entries are only written for the tools
/// the suite enables, which never include Screen Capture.
pub fn linux_desktop_entry(tool: ToolId, name: &str, exec: &str, wm: &str) -> (r: String)
    requires
        tool != ToolId::ScreenCapture,
    ensures
        r@ == desktop_entry(tool, name@, exec@, wm@),
{
    let comment = desktop_comment_text(tool);
    let mut r = String::new();
    r.append("[Desktop Entry]\nType=Application\nVersion=1.0\nName=");
    r.append(name);
    r.append("\nComment=");
    r.append(comment);
    r.append("\nExec=");
    r.append(exec);
    r.append("\nIcon=OMT Tools\nTerminal=false\nStartupNotify=true\nStartupWMClass=");
    r.append(wm);
    r.append("\nCategories=AudioVideo;Video;AudioVideoEditing;\nKeywords=OMT;NDI;video;\n");
    r
}

} // verus!

verus! {

/// The launcher / CLI id of a tool.
pub open spec fn id_of_tool(tool: ToolId) -> Seq<char> {
    match tool {
        ToolId::StudioMonitor => "studio-monitor"@,
        ToolId::TestPatterns => "test-patterns"@,
        ToolId::ConfigManager => "config-manager"@,
        ToolId::DiscoveryServer => "discovery-server"@,
        ToolId::ScreenCapture => "screen-capture"@,
    }
}

/// The launcher / CLI id of a tool (as shown on its launcher card).
pub fn tool_id_text(tool: ToolId) -> (r: &'static str)
    ensures
        r@ == id_of_tool(tool),
{
    match tool {
        ToolId::StudioMonitor => "studio-monitor",
        ToolId::TestPatterns => "test-patterns",
        ToolId::ConfigManager => "config-manager",
        ToolId::DiscoveryServer => "discovery-server",
        ToolId::ScreenCapture => "screen-capture",
    }
}

/// Every tool's id parses back to that tool.
pub proof fn law_tool_id_round_trip(tool: ToolId)
    ensures
        tool_of_id(id_of_tool(tool)) == Some(tool),
{
    reveal_strlit("studio-monitor");
    reveal_strlit("test-patterns");
    reveal_strlit("config-manager");
    reveal_strlit("discovery-server");
    reveal_strlit("screen-capture");
    match tool {
        ToolId::StudioMonitor => {},
        ToolId::TestPatterns => {
            assert("test-patterns"@[0] != "studio-monitor"@[0]);
        },
        ToolId::ConfigManager => {
            assert("config-manager"@[0] != "studio-monitor"@[0]);
            assert("config-manager"@[0] != "test-patterns"@[0]);
        },
        ToolId::DiscoveryServer => {
            assert("discovery-server"@[0] != "studio-monitor"@[0]);
            assert("discovery-server"@[0] != "test-patterns"@[0]);
            assert("discovery-server"@[0] != "config-manager"@[0]);
        },
        ToolId::ScreenCapture => {
            assert("screen-capture"@[1] != "studio-monitor"@[1]);
            assert("screen-capture"@[0] != "test-patterns"@[0]);
            assert("screen-capture"@[0] != "config-manager"@[0]);
            assert("screen-capture"@[0] != "discovery-server"@[0]);
        },
    }
}

/// Where per-user desktop entries go: `$XDG_DATA_HOME/applications` when
/// that variable is set, else `~/.local/share/applications`.
pub fn linux_applications_dir(xdg_data_home: Option<&str>, home: Option<&str>) -> (r: Result<
    String,
    String,
>)
    ensures
        match xdg_data_home {
            Some(x) => r matches Ok(p) && p@ == join_path(x@, "applications"@),
            None => match home {
                Some(h) => r matches Ok(p) && p@ == join_path(h@, ".local/share/applications"@),
                None => r matches Err(m) && m@ == "HOME is not set"@,
            },
        },
{
    match xdg_data_home {
        Some(x) => Ok(join_path_text(x, "applications")),
        None => match home {
            Some(h) => Ok(join_path_text(h, ".local/share/applications")),
            None => Err(owned("HOME is not set")),
        },
    }
}

/// `Exec=` command of an AppImage desktop entry: the quoted AppImage path,
/// then `--launch <id>`.
pub fn appimage_exec(appimage: &str, entry_id: &str) -> (r: String)
    ensures
        r@ == "\""@ + escape_quotes(appimage@) + "\""@ + " --launch "@ + entry_id@,
{
    let mut r = quote_desktop_path(appimage);
    r.append(" --launch ");
    r.append(entry_id);
    r
}

/// File name of a tool's desktop entry.
pub fn desktop_file_name(entry_id: &str) -> (r: String)
    ensures
        r@ == "lab.mikansei.omt-"@ + entry_id@ + ".desktop"@,
{
    let mut r = joined("lab.mikansei.omt-", entry_id);
    r.append(".desktop");
    r
}

/// Path of the executable inside a tool's `~/Applications` wrapper:
/// `<home>/Applications/<qualified>.app/Contents/MacOS/<binary>`.
pub fn macos_wrapped_executable(home: Option<&str>, qualified_name: &str, binary: &str) -> (r:
    Option<String>)
    ensures
        match home {
            Some(h) => r matches Some(p) && p@ == join_path(
                join_path(
                    join_path(join_path(join_path(h@, "Applications"@), qualified_name@ + ".app"@), "Contents"@),
                    "MacOS"@,
                ),
                binary@,
            ),
            None => r is None,
        },
{
    match home {
        Some(h) => {
            let apps = join_path_text(h, "Applications");
            let bundle_name = joined(qualified_name, ".app");
            let bundle = join_path_text(apps.as_str(), bundle_name.as_str());
            let contents = join_path_text(bundle.as_str(), "Contents");
            let macos = join_path_text(contents.as_str(), "MacOS");
            Some(join_path_text(macos.as_str(), binary))
        },
        None => None,
    }
}

/// Where a bundled tool binary may sit in `dir`, in the order tried:
/// `<name>`, `<name>.exe`, `binaries/<name>`, `binaries/<name>.exe`.
pub open spec fn dir_candidates(style: PathStyle, dir: Seq<char>, name: Seq<char>) -> Seq<Seq<char>> {
    let bins = join_path_in(style, dir, "binaries"@);
    seq![
        join_path_in(style, dir, name),
        join_path_in(style, dir, name + ".exe"@),
        join_path_in(style, bins, name),
        join_path_in(style, bins, name + ".exe"@),
    ]
}

/// The joins [`dir_candidates`] makes are all stated.
pub open spec fn dir_candidates_supported(style: PathStyle, dir: Seq<char>, name: Seq<char>) -> bool {
    let bins = join_path_in(style, dir, "binaries"@);
    &&& join_supported(style, dir, "binaries"@)
    &&& join_supported(style, dir, name)
    &&& join_supported(style, dir, name + ".exe"@)
    &&& join_supported(style, bins, name)
    &&& join_supported(style, bins, name + ".exe"@)
}

pub fn tool_binary_candidates(dir: &str, name: &str, style: PathStyle) -> (r: Vec<String>)
    requires
        dir_candidates_supported(style, dir@, name@),
    ensures
        strings_of(r@) == dir_candidates(style, dir@, name@),
{
    let exe = joined(name, ".exe");
    let bins = join_path_styled(style, dir, "binaries");
    let mut r: Vec<String> = Vec::new();
    r.push(join_path_styled(style, dir, name));
    r.push(join_path_styled(style, dir, exe.as_str()));
    r.push(join_path_styled(style, bins.as_str(), name));
    r.push(join_path_styled(style, bins.as_str(), exe.as_str()));
    assert(strings_of(r@) =~= dir_candidates(style, dir@, name@));
    r
}

/// The text of each path.
pub open spec fn strings_of(v: Seq<String>) -> Seq<Seq<char>> {
    v.map_values(|s: String| s@)
}

/// `<root>/target/<profile>`.
pub open spec fn target_dir(style: PathStyle, root: Seq<char>, profile: Seq<char>) -> Seq<char> {
    join_path_in(style, join_path_in(style, root, "target"@), profile)
}

/// The workspace build outputs tried last: `target/debug` then
/// `target/release`, each with `<name>.exe` before `<name>`.
pub open spec fn target_candidates(style: PathStyle, root: Seq<char>, name: Seq<char>) -> Seq<Seq<char>> {
    seq![
        join_path_in(style, target_dir(style, root, "debug"@), name + ".exe"@),
        join_path_in(style, target_dir(style, root, "debug"@), name),
        join_path_in(style, target_dir(style, root, "release"@), name + ".exe"@),
        join_path_in(style, target_dir(style, root, "release"@), name),
    ]
}

pub open spec fn target_candidates_supported(style: PathStyle, root: Seq<char>, name: Seq<char>) -> bool {
    let t = join_path_in(style, root, "target"@);
    &&& join_supported(style, root, "target"@)
    &&& join_supported(style, t, "debug"@)
    &&& join_supported(style, t, "release"@)
    &&& join_supported(style, target_dir(style, root, "debug"@), name)
    &&& join_supported(style, target_dir(style, root, "debug"@), name + ".exe"@)
    &&& join_supported(style, target_dir(style, root, "release"@), name)
    &&& join_supported(style, target_dir(style, root, "release"@), name + ".exe"@)
}

fn push_target_pair(r: &mut Vec<String>, style: PathStyle, root: &str, profile: &str, name: &str)
    requires
        join_supported(style, root@, "target"@),
        join_supported(style, join_path_in(style, root@, "target"@), profile@),
        join_supported(style, target_dir(style, root@, profile@), name@),
        join_supported(style, target_dir(style, root@, profile@), name@ + ".exe"@),
    ensures
        strings_of(final(r)@) == strings_of(old(r)@).push(
            join_path_in(style, target_dir(style, root@, profile@), name@ + ".exe"@),
        ).push(join_path_in(style, target_dir(style, root@, profile@), name@)),
{
    let t = join_path_styled(style, root, "target");
    let d = join_path_styled(style, t.as_str(), profile);
    let exe = joined(name, ".exe");
    let ghost before = r@;
    r.push(join_path_styled(style, d.as_str(), exe.as_str()));
    r.push(join_path_styled(style, d.as_str(), name));
    assert(strings_of(r@) =~= strings_of(before).push(
        join_path_in(style, target_dir(style, root@, profile@), name@ + ".exe"@),
    ).push(join_path_in(style, target_dir(style, root@, profile@), name@)));
}

/// Every path where the tool binary `name` is looked for, in order: the
/// app's resource directory (when known), the directory of the launcher
/// executable (when known), then the workspace's build outputs under
/// `workspace_root`.
pub open spec fn search_paths(
    style: PathStyle,
    resource_dir: Option<Seq<char>>,
    exe_dir: Option<Seq<char>>,
    workspace_root: Seq<char>,
    name: Seq<char>,
) -> Seq<Seq<char>> {
    (match resource_dir {
        Some(d) => dir_candidates(style, d, name),
        None => Seq::empty(),
    }) + (match exe_dir {
        Some(d) => dir_candidates(style, d, name),
        None => Seq::empty(),
    }) + target_candidates(style, workspace_root, name)
}

pub open spec fn opt_str_view(o: Option<&str>) -> Option<Seq<char>> {
    match o {
        Some(s) => Some(s@),
        None => None,
    }
}

pub fn tool_search_paths(
    style: PathStyle,
    resource_dir: Option<&str>,
    exe_dir: Option<&str>,
    workspace_root: &str,
    name: &str,
) -> (r: Vec<String>)
    requires
        resource_dir matches Some(d) ==> dir_candidates_supported(style, d@, name@),
        exe_dir matches Some(d) ==> dir_candidates_supported(style, d@, name@),
        target_candidates_supported(style, workspace_root@, name@),
    ensures
        strings_of(r@) == search_paths(
            style,
            opt_str_view(resource_dir),
            opt_str_view(exe_dir),
            workspace_root@,
            name@,
        ),
{
    let mut r: Vec<String> = Vec::new();
    match resource_dir {
        Some(d) => {
            let mut c = tool_binary_candidates(d, name, style);
            r.append(&mut c);
        },
        None => {},
    }
    let ghost after_resource = strings_of(r@);
    match exe_dir {
        Some(d) => {
            let mut c = tool_binary_candidates(d, name, style);
            let ghost before = r@;
            let ghost cv = c@;
            r.append(&mut c);
            assert(strings_of(r@) =~= strings_of(before) + strings_of(cv));
        },
        None => {},
    }
    push_target_pair(&mut r, style, workspace_root, "debug", name);
    push_target_pair(&mut r, style, workspace_root, "release", name);
    assert(strings_of(r@) =~= search_paths(
        style,
        opt_str_view(resource_dir),
        opt_str_view(exe_dir),
        workspace_root@,
        name@,
    ));
    r
}

/// The four layouts tried in one directory `d`, in order.
pub open spec fn layouts_in(style: PathStyle, d: Seq<char>, name: Seq<char>) -> Seq<Seq<char>> {
    seq![
        join_path_in(style, d, name),
        join_path_in(style, d, name + ".exe"@),
        join_path_in(style, join_path_in(style, d, "binaries"@), name),
        join_path_in(style, join_path_in(style, d, "binaries"@), name + ".exe"@),
    ]
}

/// The search order of a tool binary: the packaged resource directory's
/// four layouts come first (when it is known), then the launcher's own
/// directory's four (when known), and last the workspace build outputs,
/// `target/debug` before `target/release`, each with `<name>.exe` before
/// `<name>`.
pub proof fn law_tool_search_order(
    style: PathStyle,
    resource_dir: Option<Seq<char>>,
    exe_dir: Option<Seq<char>>,
    root: Seq<char>,
    name: Seq<char>,
)
    ensures
        ({
            let p = search_paths(style, resource_dir, exe_dir, root, name);
            let rc: int = if resource_dir is Some { 4 } else { 0 };
            let ec: int = if exe_dir is Some { 4 } else { 0 };
            let debug = join_path_in(style, join_path_in(style, root, "target"@), "debug"@);
            let release = join_path_in(style, join_path_in(style, root, "target"@), "release"@);
            &&& p.len() == rc + ec + 4
            &&& resource_dir matches Some(d) ==> p.take(4) == layouts_in(style, d, name)
            &&& exe_dir matches Some(e) ==> p.subrange(rc, rc + 4) == layouts_in(style, e, name)
            &&& p.skip(rc + ec) == seq![
                join_path_in(style, debug, name + ".exe"@),
                join_path_in(style, debug, name),
                join_path_in(style, release, name + ".exe"@),
                join_path_in(style, release, name),
            ]
        }),
{
    let p = search_paths(style, resource_dir, exe_dir, root, name);
    let rc: int = if resource_dir is Some { 4 } else { 0 };
    let ec: int = if exe_dir is Some { 4 } else { 0 };
    let a = match resource_dir {
        Some(d) => dir_candidates(style, d, name),
        None => Seq::empty(),
    };
    let b = match exe_dir {
        Some(d) => dir_candidates(style, d, name),
        None => Seq::empty(),
    };
    let c = target_candidates(style, root, name);
    assert(p == a + b + c);
    if let Some(d) = resource_dir {
        assert(p.take(4) =~= layouts_in(style, d, name));
    }
    if let Some(e) = exe_dir {
        assert(p.subrange(rc, rc + 4) =~= layouts_in(style, e, name));
    }
    assert(p.skip(rc + ec) =~= c);
}

/// Whether probed metadata (`(is_file, len)`, when it could be read) is a
/// usable tool binary, given the size of the system `cmd.exe`.
pub open spec fn usable_binary(file: Option<(bool, u64)>, cmd_exe_len: Option<u64>) -> bool {
    match file {
        None => false,
        Some((is_file, len)) => is_file && len >= MIN_TOOL_BYTES && cmd_exe_len != Some(len),
    }
}

/// The first usable candidate, given each candidate's probed metadata in
/// search order; when none is usable, `tool binary not found: <name>`.
pub fn pick_tool_binary(
    probes: &Vec<Option<(bool, u64)>>,
    cmd_exe_len: Option<u64>,
    name: &str,
) -> (r: Result<usize, String>)
    ensures
        match r {
            Ok(i) => i < probes@.len() && usable_binary(probes@[i as int], cmd_exe_len) && forall|j: int|
                0 <= j < i ==> !usable_binary(#[trigger] probes@[j], cmd_exe_len),
            Err(m) => m@ == "tool binary not found: "@ + name@ && forall|j: int|
                0 <= j < probes@.len() ==> !usable_binary(#[trigger] probes@[j], cmd_exe_len),
        },
{
    let mut i: usize = 0;
    while i < probes.len()
        invariant
            i <= probes@.len(),
            forall|j: int| 0 <= j < i ==> !usable_binary(#[trigger] probes@[j], cmd_exe_len),
        decreases probes.len() - i,
    {
        if is_usable_tool_binary(probes[i], cmd_exe_len) {
            return Ok(i);
        }
        i = i + 1;
    }
    Err(joined("tool binary not found: ", name))
}

/// The arguments a tool is launched with after the suite's overrides:
/// `--language <language> --theme <theme>`.
pub fn launch_args(language: &str, theme: &str) -> (r: Vec<String>)
    ensures
        strings_of(r@) == seq!["--language"@, language@, "--theme"@, theme@],
{
    let mut r: Vec<String> = Vec::new();
    r.push(owned("--language"));
    r.push(owned(language));
    r.push(owned("--theme"));
    r.push(owned(theme));
    assert(strings_of(r@) =~= seq!["--language"@, language@, "--theme"@, theme@]);
    r
}

/// `c` with ASCII upper-case letters lowered (`char::to_ascii_lowercase`).
pub open spec fn ascii_lower(c: char) -> char {
    if 'A' <= c && c <= 'Z' {
        ((c as int) + 32) as char
    } else {
        c
    }
}

pub open spec fn ascii_lower_text(s: Seq<char>) -> Seq<char> {
    s.map_values(|c: char| ascii_lower(c))
}

fn lowered(s: &str) -> (r: String)
    ensures
        r@ == ascii_lower_text(s@),
{
    let n = s.unicode_len();
    let letters = "abcdefghijklmnopqrstuvwxyz";
    proof {
        reveal_strlit("abcdefghijklmnopqrstuvwxyz");
    }
    let mut r = String::new();
    let mut i: usize = 0;
    while i < n
        invariant
            n == s@.len(),
            i <= n,
            letters@ == "abcdefghijklmnopqrstuvwxyz"@,
            letters@.len() == 26,
            forall|k: int| 0 <= k < 26 ==> #[trigger] letters@[k] == (('a' as int) + k) as char,
            r@ == ascii_lower_text(s@.take(i as int)),
        decreases n - i,
    {
        let c = s.get_char(i);
        if 'A' <= c && c <= 'Z' {
            let k = (c as u32 - 'A' as u32) as usize;
            let one = letters.substring_char(k, k + 1);
            assert(one@ =~= seq![ascii_lower(c)]);
            r.append(one);
        } else {
            let one = s.substring_char(i, i + 1);
            assert(one@ =~= seq![ascii_lower(c)]);
            r.append(one);
        }
        assert(ascii_lower_text(s@.take(i + 1)) =~= ascii_lower_text(s@.take(i as int)).push(
            ascii_lower(c),
        ));
        i = i + 1;
    }
    assert(s@.take(n as int) =~= s@);
    r
}

/// Whether a process listing mentions `exe`, ignoring ASCII case (Windows
/// `tasklist` output).
pub fn listing_mentions(listing: &str, exe: &str) -> (r: bool)
    ensures
        r == contains_text(ascii_lower_text(listing@), ascii_lower_text(exe@)),
{
    let l = lowered(listing);
    let e = lowered(exe);
    text_contains(l.as_str(), e.as_str())
}

} // verus!
