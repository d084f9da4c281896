//! How the GUI finds and launches the daemon: the binary's name, where it is
//! looked for, and when a (re)launch is attempted. Spawning and inspecting
//! the process, and probing the file system, are the caller's.
use crate::text::{path_join, joined_path};
use vstd::prelude::*;

verus! {

/// The text "inputsync-daemon".
pub open spec fn daemon_bin_name() -> Seq<char> {
    seq!['i', 'n', 'p', 'u', 't', 's', 'y', 'n', 'c', '-', 'd', 'a', 'e', 'm', 'o', 'n']
}

/// The daemon's file name: with `.exe` on Windows.
pub open spec fn spec_daemon_filename(is_windows: bool) -> Seq<char> {
    if is_windows {
        daemon_bin_name() + seq!['.', 'e', 'x', 'e']
    } else {
        daemon_bin_name()
    }
}

/// The daemon's file name on this kind of system.
pub fn daemon_filename(is_windows: bool) -> (s: String)
    ensures
        s@ == spec_daemon_filename(is_windows),
{
    proof {
        reveal_strlit("inputsync-daemon.exe");
        reveal_strlit("inputsync-daemon");
    }
    if is_windows {
        assert("inputsync-daemon.exe"@ =~= spec_daemon_filename(true));
        String::from_str("inputsync-daemon.exe")
    } else {
        assert("inputsync-daemon"@ =~= spec_daemon_filename(false));
        String::from_str("inputsync-daemon")
    }
}

/// The text "InputSync".
pub open spec fn install_dir_name() -> Seq<char> {
    seq!['I', 'n', 'p', 'u', 't', 'S', 'y', 'n', 'c']
}

/// `dir\InputSync\inputsync-daemon.exe`, joined as the caller's paths are.
pub open spec fn program_files_entry(dir: Seq<char>) -> Seq<char> {
    joined_path(joined_path(dir, install_dir_name()), spec_daemon_filename(true))
}

/// The install locations looked at first: on Windows the `InputSync`
/// folder under each of the two program-files folders that is set; else
/// `/usr/bin` and `/usr/local/bin`.
pub open spec fn spec_well_known_paths(
    is_windows: bool,
    program_files: Option<Seq<char>>,
    program_files_x86: Option<Seq<char>>,
) -> Seq<Seq<char>> {
    if is_windows {
        (match program_files {
            Some(d) => seq![program_files_entry(d)],
            None => seq![],
        }) + (match program_files_x86 {
            Some(d) => seq![program_files_entry(d)],
            None => seq![],
        })
    } else {
        seq![
            joined_path(seq!['/', 'u', 's', 'r', '/', 'b', 'i', 'n'], daemon_bin_name()),
            joined_path(seq!['/', 'u', 's', 'r', '/', 'l', 'o', 'c', 'a', 'l', '/', 'b', 'i', 'n'], daemon_bin_name()),
        ]
    }
}

/// The texts of `v`.
pub open spec fn texts(v: Seq<String>) -> Seq<Seq<char>> {
    v.map_values(|s: String| s@)
}

/// The install locations looked at first, given the program-files folders
/// the caller read from the environment.
pub fn well_known_paths(is_windows: bool, program_files: Option<String>, program_files_x86: Option<String>) -> (v:
    Vec<String>)
    ensures
        texts(v@) == spec_well_known_paths(
            is_windows,
            match program_files {
                Some(d) => Some(d@),
                None => None,
            },
            match program_files_x86 {
                Some(d) => Some(d@),
                None => None,
            },
        ),
{
    proof {
        reveal_strlit("InputSync");
        reveal_strlit("inputsync-daemon");
        reveal_strlit("/usr/bin");
        reveal_strlit("/usr/local/bin");
    }
    assert("InputSync"@ =~= install_dir_name());
    assert("inputsync-daemon"@ =~= daemon_bin_name());
    let mut v: Vec<String> = Vec::new();
    if is_windows {
        let exe = daemon_filename(true);
        if let Some(d) = &program_files {
            let dir = path_join(d.as_str(), "InputSync");
            v.push(path_join(dir.as_str(), exe.as_str()));
        }
        if let Some(d) = &program_files_x86 {
            let dir = path_join(d.as_str(), "InputSync");
            v.push(path_join(dir.as_str(), exe.as_str()));
        }
    } else {
        assert("/usr/bin"@ =~= seq!['/', 'u', 's', 'r', '/', 'b', 'i', 'n']);
        assert("/usr/local/bin"@ =~= seq!['/', 'u', 's', 'r', '/', 'l', 'o', 'c', 'a', 'l', '/', 'b', 'i', 'n']);
        v.push(path_join("/usr/bin", "inputsync-daemon"));
        v.push(path_join("/usr/local/bin", "inputsync-daemon"));
    }
    assert(texts(v@) =~= spec_well_known_paths(
        is_windows,
        match program_files {
            Some(d) => Some(d@),
            None => None,
        },
        match program_files_x86 {
            Some(d) => Some(d@),
            None => None,
        },
    ));
    v
}

/// The places the daemon binary is looked for, in order: the install
/// locations, then beside the GUI's own executable (in `exe_dir`, when the
/// caller knows it). The first that is a file wins; failing all, the
/// caller asks the system's path search.
pub fn daemon_candidates(well_known: Vec<String>, exe_dir: Option<String>, is_windows: bool) -> (v: Vec<String>)
    ensures
        texts(v@) == texts(well_known@) + (match exe_dir {
            Some(d) => seq![joined_path(d@, spec_daemon_filename(is_windows))],
            None => seq![],
        }),
{
    let mut v = well_known;
    let ghost start = v@;
    if let Some(d) = &exe_dir {
        let name = daemon_filename(is_windows);
        v.push(path_join(d.as_str(), name.as_str()));
    }
    assert(texts(v@) =~= texts(start) + (match exe_dir {
        Some(d) => seq![joined_path(d@, spec_daemon_filename(is_windows))],
        None => seq![],
    }));
    v
}

/// The text of `s` before its first line break (`\n`, or `\r\n`).
pub open spec fn first_line(s: Seq<char>) -> Seq<char> {
    let line = if exists|i: int| 0 <= i < s.len() && s[i] == '\n' {
        s.subrange(0, choose|i: int| 0 <= i < s.len() && s[i] == '\n' && forall|j: int| 0 <= j < i ==> s[j] != '\n')
    } else {
        s
    };
    if line.len() > 0 && line.last() == '\r' {
        line.drop_last()
    } else {
        line
    }
}

/// The daemon's path as the system's path search printed it: the first
/// line of the output with white space trimmed, unless that is empty. The
/// caller still checks that it is a file.
pub fn path_from_search_output(stdout: &str) -> (r: Option<String>)
    ensures
        r matches Some(p) ==> p@.len() > 0 && p@ == trimmed(first_line(stdout@)),
        r is None ==> stdout@.len() == 0 || trimmed(first_line(stdout@)).len() == 0,
{
    let n = stdout.unicode_len();
    if n == 0 {
        return None;
    }
    let mut end: usize = 0;
    while end < n && stdout.get_char(end) != '\n'
        invariant
            n == stdout@.len(),
            end <= n,
            forall|j: int| 0 <= j < end ==> stdout@[j] != '\n',
        decreases n - end,
    {
        end = end + 1;
    }
    proof {
        if end < n {
            let w = choose|i: int| 0 <= i < stdout@.len() && stdout@[i] == '\n' && forall|j: int| 0 <= j < i ==> stdout@[j] != '\n';
            assert(0 <= end < stdout@.len() && stdout@[end as int] == '\n' && forall|j: int| 0 <= j < end ==> stdout@[j] != '\n');
            if w < end {
                assert(stdout@[w] != '\n');
            } else if w > end {
                assert(stdout@[end as int] != '\n');
            }
            assert(w == end);
        } else {
            assert(stdout@.subrange(0, n as int) =~= stdout@);
        }
    }
    let mut line_end = end;
    if line_end > 0 && stdout.get_char(line_end - 1) == '\r' {
        line_end = line_end - 1;
    }
    let line = stdout.substring_char(0, line_end);
    assert(line@ =~= first_line(stdout@));
    let t = trim_text(line);
    if t.unicode_len() == 0 {
        None
    } else {
        Some(t)
    }
}

/// A character with the Unicode `White_Space` property (what
/// `char::is_whitespace` tests).
pub open spec fn is_white_space(c: char) -> bool {
    let n = c as u32;
    (0x09 <= n && n <= 0x0D) || n == 0x20 || n == 0x85 || n == 0xA0 || n == 0x1680 || (0x2000 <= n && n <= 0x200A)
        || n == 0x2028 || n == 0x2029 || n == 0x202F || n == 0x205F || n == 0x3000
}

/// The text without its leading white space.
pub open spec fn trimmed_start(s: Seq<char>) -> Seq<char>
    decreases s.len(),
{
    if s.len() > 0 && is_white_space(s[0]) {
        trimmed_start(s.drop_first())
    } else {
        s
    }
}

/// The text without its trailing white space.
pub open spec fn trimmed_end(s: Seq<char>) -> Seq<char>
    decreases s.len(),
{
    if s.len() > 0 && is_white_space(s.last()) {
        trimmed_end(s.drop_last())
    } else {
        s
    }
}

/// What `str::trim` gives for a text: the text without its leading and
/// trailing white space, white space as Unicode defines it.
pub open spec fn trimmed(s: Seq<char>) -> Seq<char> {
    trimmed_end(trimmed_start(s))
}

/// `str::trim`, copied into a new `String`. As its documentation says, it
/// removes the leading and trailing characters with the Unicode
/// `White_Space` property.
#[verifier::external_body]
fn trim_text(s: &str) -> (r: String)
    ensures
        r@ == trimmed(s@),
{
    s.trim().to_string()
}

/// The text "daemon binary not found — install InputSync or run from a
/// build output dir".
pub open spec fn msg_binary_not_found() -> Seq<char> {
    seq![
        'd', 'a', 'e', 'm', 'o', 'n', ' ', 'b', 'i', 'n', 'a', 'r', 'y', ' ', 'n', 'o', 't', ' ', 'f', 'o', 'u', 'n',
        'd', ' ', '\u{2014}', ' ', 'i', 'n', 's', 't', 'a', 'l', 'l', ' ', 'I', 'n', 'p', 'u', 't', 'S', 'y', 'n', 'c',
        ' ', 'o', 'r', ' ', 'r', 'u', 'n', ' ', 'f', 'r', 'o', 'm', ' ', 'a', ' ', 'b', 'u', 'i', 'l', 'd', ' ', 'o',
        'u', 't', 'p', 'u', 't', ' ', 'd', 'i', 'r',
    ]
}

/// Fewer than `cooldown_secs` whole seconds passed between the last
/// attempt and `now_ms`.
pub open spec fn too_soon(last: Option<u64>, now_ms: u64, cooldown_secs: u64) -> bool {
    match last {
        Some(t) => (if now_ms >= t { (now_ms - t) / 1000 } else { 0 }) < cooldown_secs,
        None => false,
    }
}

/// What a launch request comes to.
#[derive(Debug)]
pub enum LaunchPlan {
    /// The daemon runs already; nothing to do.
    AlreadyRunning,
    /// The last attempt was too recent; try again later.
    TooSoon,
    /// Spawn `program` with the single argument `run`.
    Spawn { program: String },
}

/// The GUI's launch policy for the daemon: where its binary is, and when a
/// launch was last attempted (milliseconds since the GUI started).
#[derive(Debug)]
pub struct DaemonSupervisor {
    pub binary: Option<String>,
    pub last_launch_attempt_ms: Option<u64>,
}

impl DaemonSupervisor {
    /// A launcher for the binary found (if any), never tried yet.
    pub fn new(binary: Option<String>) -> (l: Self)
        ensures
            l.binary == binary,
            l.last_launch_attempt_ms is None,
    {
        DaemonSupervisor { binary, last_launch_attempt_ms: None }
    }

    /// Start the daemon unless it runs (`running`, as the caller found the
    /// child). An attempt is recorded at `now_ms` even when it fails for
    /// want of a binary.
    pub fn ensure_running(&mut self, running: bool, now_ms: u64) -> (r: Result<LaunchPlan, String>)
        ensures
            running ==> ((r matches Ok(LaunchPlan::AlreadyRunning)) && *final(self) == *old(self)),
            !running ==> final(self).last_launch_attempt_ms == Some(now_ms) && final(self).binary == old(
                self,
            ).binary && match old(self).binary {
                Some(b) => r matches Ok(LaunchPlan::Spawn { program }) && program == b,
                None => r matches Err(m) && m@ == msg_binary_not_found(),
            },
    {
        if running {
            return Ok(LaunchPlan::AlreadyRunning);
        }
        self.last_launch_attempt_ms = Some(now_ms);
        match &self.binary {
            Some(b) => Ok(LaunchPlan::Spawn { program: b.clone() }),
            None => {
                proof {
                    reveal_strlit("daemon binary not found \u{2014} install InputSync or run from a build output dir");
                }
                assert("daemon binary not found \u{2014} install InputSync or run from a build output dir"@
                    =~= msg_binary_not_found());
                Err(String::from_str("daemon binary not found \u{2014} install InputSync or run from a build output dir"))
            },
        }
    }

    /// Like [`DaemonSupervisor::ensure_running`], but no sooner than
    /// `cooldown_secs` whole seconds after the last attempt, so that a
    /// persistent failure is not retried in a tight loop.
    pub fn ensure_running_throttled(&mut self, running: bool, now_ms: u64, cooldown_secs: u64) -> (r: Result<
        LaunchPlan,
        String,
    >)
        ensures
            running ==> ((r matches Ok(LaunchPlan::AlreadyRunning)) && *final(self) == *old(self)),
            !running && too_soon(old(self).last_launch_attempt_ms, now_ms, cooldown_secs) ==> ((r matches Ok(
                LaunchPlan::TooSoon,
            )) && *final(self) == *old(self)),
            !running && !too_soon(old(self).last_launch_attempt_ms, now_ms, cooldown_secs) ==> {
                &&& final(self).last_launch_attempt_ms == Some(now_ms)
                &&& final(self).binary == old(self).binary
                &&& match old(self).binary {
                    Some(b) => r matches Ok(LaunchPlan::Spawn { program }) && program == b,
                    None => r matches Err(m) && m@ == msg_binary_not_found(),
                }
            },
    {
        if running {
            return Ok(LaunchPlan::AlreadyRunning);
        }
        if let Some(last) = self.last_launch_attempt_ms {
            let elapsed = if now_ms >= last {
                (now_ms - last) / 1000
            } else {
                0
            };
            if elapsed < cooldown_secs {
                return Ok(LaunchPlan::TooSoon);
            }
        }
        self.ensure_running(running, now_ms)
    }
}

} // verus!
