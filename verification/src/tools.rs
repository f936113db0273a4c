//! The tools that the application runs: where they are looked for, how
//! they are installed, and what is said of them.
//!
//! Nothing is run or looked up here. A caller tries the places, and hands
//! back what it found.

use crate::compose::{string_texts};
use crate::config::{join_path, joined, path_model};
use crate::models::{text_model, DependencyStatus, DownloadProgress};
use crate::text::{contains, includes, lines_of, split_lines, string_of, texts, to_chars};
use crate::transfer::{push_all, push_text};
use vstd::prelude::*;

verus! {

/// The kinds of operating system that the application tells apart.
#[derive(Clone, Copy, Debug, PartialEq, Eq, Structural)]
pub enum Platform {
    Windows,
    MacOs,
    Linux,
}

/// The name by which the transfer tool is found by the system.
pub const RCLONE: &'static str = "rclone";

/// The word by which a profile asks for the transfer tool that comes with
/// the application.
pub const BUNDLED: &'static str = "bundled";

/// The transfer tool to run for a profile that names `profile_rclone_bin`:
/// the tool that comes with the application if the profile asks for it and
/// it is at `bundled_path`, the tool that the system finds if it is not
/// there, and else the tool that the profile names.
pub open spec fn resolved_binary(profile_rclone_bin: Seq<char>, bundled_path: Option<Seq<char>>) -> Seq<
    char,
> {
    if contains(profile_rclone_bin, BUNDLED@) {
        match bundled_path {
            Some(path) => path,
            None => RCLONE@,
        }
    } else {
        profile_rclone_bin
    }
}

/// Tells whether a profile that names `profile_rclone_bin` asks for the
/// transfer tool that comes with the application.
pub fn wants_bundled(profile_rclone_bin: &str) -> (wants: bool)
    ensures
        wants == contains(profile_rclone_bin@, BUNDLED@),
{
    let name = to_chars(profile_rclone_bin);
    let word = to_chars(BUNDLED);
    includes(name.as_slice(), word.as_slice())
}

/// The transfer tool to run for a profile that names `profile_rclone_bin`,
/// where `bundled_path` is the place of the tool that comes with the
/// application, if it is there. It never fails.
pub fn resolve_rclone_binary(profile_rclone_bin: &str, bundled_path: Option<&str>) -> (binary: Result<
    String,
    String,
>)
    ensures
        binary matches Ok(path) && path@ == resolved_binary(
            profile_rclone_bin@,
            match bundled_path {
                Some(p) => Some(p@),
                None => None,
            },
        ),
{
    if wants_bundled(profile_rclone_bin) {
        match bundled_path {
            Some(path) => Ok(String::from_str(path)),
            None => Ok(String::from_str(RCLONE)),
        }
    } else {
        Ok(String::from_str(profile_rclone_bin))
    }
}

/// The places where the transfer tool is commonly installed, and last its
/// bare name, in the order in which they are shown.
pub open spec fn common_places() -> Seq<Seq<char>> {
    seq!["/usr/local/bin/rclone"@, "/opt/homebrew/bin/rclone"@, "/usr/bin/rclone"@, "rclone"@]
}

/// The places where the transfer tool is commonly installed, in the order
/// in which they are tried when a profile is set up.
pub open spec fn setup_places() -> Seq<Seq<char>> {
    seq!["/opt/homebrew/bin/rclone"@, "/usr/local/bin/rclone"@, "/usr/bin/rclone"@, "rclone"@]
}

/// The places where the transfer tool is commonly installed.
pub fn common_paths() -> (paths: Vec<String>)
    ensures
        string_texts(paths@) == common_places(),
{
    let mut paths: Vec<String> = Vec::new();
    assert(string_texts(paths@) =~= Seq::<Seq<char>>::empty());
    push_text(&mut paths, "/usr/local/bin/rclone");
    push_text(&mut paths, "/opt/homebrew/bin/rclone");
    push_text(&mut paths, "/usr/bin/rclone");
    push_text(&mut paths, "rclone");
    assert(string_texts(paths@) =~= common_places());
    paths
}

/// The places where the transfer tool is tried when a profile is set up.
pub fn setup_paths() -> (paths: Vec<String>)
    ensures
        string_texts(paths@) == setup_places(),
{
    let mut paths: Vec<String> = Vec::new();
    assert(string_texts(paths@) =~= Seq::<Seq<char>>::empty());
    push_text(&mut paths, "/opt/homebrew/bin/rclone");
    push_text(&mut paths, "/usr/local/bin/rclone");
    push_text(&mut paths, "/usr/bin/rclone");
    push_text(&mut paths, "rclone");
    assert(string_texts(paths@) =~= setup_places());
    paths
}

/// How a tool found at `path` is shown: with `bundled` behind it if it
/// lies among the application's own files, with `system` if not.
pub open spec fn shown_candidate(path: Seq<char>) -> Seq<char> {
    if contains(path, "Resources/binaries"@) {
        path + " (bundled)"@
    } else {
        path + " (system)"@
    }
}

/// How a tool found at the common place `path` is shown.
pub open spec fn shown_system(path: Seq<char>) -> Seq<char> {
    path + " (system)"@
}

/// What is shown where no tool works but one comes with the application.
pub const BUNDLED_AVAILABLE: &'static str = "bundled rclone available";

/// What is shown where no tool works and none comes with the application.
pub const NOT_FOUND: &'static str = "rclone (not found - will need to install or bundle)";

/// The common places that work, as they are shown, in order.
pub open spec fn shown_working(places: Seq<Seq<char>>, works: Seq<bool>) -> Seq<Seq<char>>
    decreases places.len(),
{
    if places.len() == 0 {
        Seq::empty()
    } else {
        let before = shown_working(places.drop_last(), works);
        if places.len() <= works.len() && works[places.len() - 1] {
            before.push(shown_system(places.last()))
        } else {
            before
        }
    }
}

/// What is shown of the transfer tools found: the tool at `bundled_path`
/// if it works, then each of `places` that works. If none works: that the
/// tool which comes with the application is there, or that none is found.
pub open spec fn shown_candidates(
    bundled_path: Option<Seq<char>>,
    bundled_works: bool,
    places: Seq<Seq<char>>,
    works: Seq<bool>,
) -> Seq<Seq<char>> {
    let own = match bundled_path {
        Some(path) => if bundled_works {
            seq![shown_candidate(path)]
        } else {
            Seq::empty()
        },
        None => Seq::empty(),
    };
    let all = own + shown_working(places, works);
    if all.len() > 0 {
        all
    } else if bundled_path is Some {
        seq![BUNDLED_AVAILABLE@]
    } else {
        seq![NOT_FOUND@]
    }
}

/// What is shown of the transfer tools found. `bundled_path` is the place
/// of the tool that comes with the application, if it is there, and
/// `bundled_works` whether it runs; `works` tells of each of `places`
/// whether a tool runs there.
pub fn describe_candidates(
    bundled_path: Option<&str>,
    bundled_works: bool,
    places: &[String],
    works: &[bool],
) -> (shown: Vec<String>)
    ensures
        string_texts(shown@) == shown_candidates(
            match bundled_path {
                Some(p) => Some(p@),
                None => None,
            },
            bundled_works,
            string_texts(places@),
            works@,
        ),
{
    let mut shown: Vec<String> = Vec::new();
    assert(string_texts(shown@) =~= Seq::<Seq<char>>::empty());
    match bundled_path {
        Some(path) => {
            if bundled_works {
                let chars = to_chars(path);
                let inside = to_chars("Resources/binaries");
                let mut entry = String::from_str(path);
                if includes(chars.as_slice(), inside.as_slice()) {
                    entry.append(" (bundled)");
                } else {
                    entry.append(" (system)");
                }
                push_text(&mut shown, entry.as_str());
            }
        },
        None => {},
    }
    let ghost own = string_texts(shown@);
    let mut i: usize = 0;
    assert(string_texts(places@).take(0) =~= Seq::<Seq<char>>::empty());
    while i < places.len()
        invariant
            i <= places.len(),
            string_texts(shown@) == own + shown_working(string_texts(places@).take(i as int), works@),
        decreases places.len() - i,
    {
        proof {
            let seen = string_texts(places@).take(i + 1);
            assert(seen.drop_last() =~= string_texts(places@).take(i as int));
            assert(seen.last() == places@[i as int]@);
        }
        if i < works.len() && works[i] {
            let mut entry = places[i].clone();
            entry.append(" (system)");
            let ghost before = string_texts(shown@);
            push_text(&mut shown, entry.as_str());
            assert(string_texts(shown@) =~= own + shown_working(
                string_texts(places@).take(i + 1),
                works@,
            ));
        }
        i = i + 1;
    }
    assert(string_texts(places@).take(places.len() as int) =~= string_texts(places@));
    if shown.len() == 0 {
        assert(string_texts(shown@).len() == shown@.len());
        if bundled_path.is_some() {
            push_text(&mut shown, BUNDLED_AVAILABLE);
        } else {
            push_text(&mut shown, NOT_FOUND);
        }
        assert(string_texts(shown@) =~= seq![string_texts(shown@)[0]]);
    } else {
        assert(string_texts(shown@).len() == shown@.len());
    }
    shown
}

/// The first of the places `0` to `count - 1` at which a tool runs, where
/// `works` tells of each place whether one does, as far as it goes.
pub open spec fn first_working_place(count: nat, works: Seq<bool>) -> Option<int>
    decreases count,
{
    if count == 0 {
        None
    } else {
        match first_working_place((count - 1) as nat, works) {
            Some(at) => Some(at),
            None => if count - 1 < works.len() && works[count - 1] {
                Some(count - 1)
            } else {
                None
            },
        }
    }
}

/// What is said when no transfer tool runs anywhere.
pub const NO_RCLONE: &'static str = "Could not find rclone binary. Please install rclone first.";

/// The first of `places` at which a tool runs, where `works` tells of each
/// place whether one does. Fails if none does.
pub fn first_working(places: &[String], works: &[bool]) -> (found: Result<String, String>)
    ensures
        match first_working_place(places@.len(), works@) {
            Some(at) => found matches Ok(path) && 0 <= at < places@.len() && path@
                == places@[at]@,
            None => found matches Err(message) && message@ == NO_RCLONE@,
        },
{
    let mut i: usize = 0;
    while i < places.len()
        invariant
            i <= places.len(),
            first_working_place(i as nat, works@) is None,
        decreases places.len() - i,
    {
        if i < works.len() && works[i] {
            proof {
                lemma_first_working_stays(places@.len(), works@, i + 1);
            }
            return Ok(places[i].clone());
        }
        i = i + 1;
    }
    Err(String::from_str(NO_RCLONE))
}

/// What is found among the first `n` places is found among all.
proof fn lemma_first_working_stays(count: nat, works: Seq<bool>, n: int)
    requires
        0 <= n <= count,
        first_working_place(n as nat, works) is Some,
    ensures
        first_working_place(count, works) == first_working_place(n as nat, works),
    decreases count - n,
{
    if n < count {
        lemma_first_working_stays(count, works, n + 1);
    }
}

/// The first line of `text`, if it has one.
pub open spec fn first_line_of(text: Seq<char>) -> Option<Seq<char>> {
    if lines_of(text).len() > 0 {
        Some(lines_of(text)[0])
    } else {
        None
    }
}

/// The command that installs the cloud's command-line client.
pub open spec fn aws_install_command(platform: Platform) -> Seq<char> {
    match platform {
        Platform::Windows => "winget install --id=Amazon.AWSCLI"@,
        Platform::MacOs => "brew install awscli"@,
        Platform::Linux => "curl 'https://awscli.amazonaws.com/awscli-exe-linux-x86_64.zip' -o 'awscliv2.zip' && unzip awscliv2.zip && sudo ./aws/install"@,
    }
}

/// The command that installs the transfer tool.
pub open spec fn rclone_install_command(platform: Platform) -> Seq<char> {
    match platform {
        Platform::Windows => "choco install rclone"@,
        Platform::MacOs => "brew install rclone"@,
        Platform::Linux => "curl https://rclone.org/install.sh | sudo bash"@,
    }
}

/// The command that installs the cloud's command-line client on
/// `platform`.
pub fn get_aws_cli_install_command(platform: Platform) -> (command: String)
    ensures
        command@ == aws_install_command(platform),
{
    match platform {
        Platform::Windows => String::from_str("winget install --id=Amazon.AWSCLI"),
        Platform::MacOs => String::from_str("brew install awscli"),
        Platform::Linux => String::from_str(
            "curl 'https://awscli.amazonaws.com/awscli-exe-linux-x86_64.zip' -o 'awscliv2.zip' && unzip awscliv2.zip && sudo ./aws/install",
        ),
    }
}

/// The command that installs the transfer tool on `platform`.
pub fn get_rclone_install_command(platform: Platform) -> (command: String)
    ensures
        command@ == rclone_install_command(platform),
{
    match platform {
        Platform::Windows => String::from_str("choco install rclone"),
        Platform::MacOs => String::from_str("brew install rclone"),
        Platform::Linux => String::from_str("curl https://rclone.org/install.sh | sudo bash"),
    }
}

/// The tools that the application depends on.
#[derive(Clone, Copy, Debug, PartialEq, Eq, Structural)]
pub enum Dependency {
    AwsCli,
    Rclone,
}

/// The name under which a tool is shown.
pub open spec fn dependency_name(dependency: Dependency) -> Seq<char> {
    match dependency {
        Dependency::AwsCli => "AWS CLI"@,
        Dependency::Rclone => "rclone"@,
    }
}

/// What is said of a name that is the name of no tool.
pub open spec fn unknown_dependency(name: Seq<char>) -> Seq<char> {
    "Unknown dependency: "@ + name
}

/// The tool that is shown as `name`. Fails if there is none.
pub fn dependency_named(name: &str) -> (found: Result<Dependency, String>)
    ensures
        if name@ == dependency_name(Dependency::AwsCli) {
            found == Ok::<Dependency, String>(Dependency::AwsCli)
        } else if name@ == dependency_name(Dependency::Rclone) {
            found == Ok::<Dependency, String>(Dependency::Rclone)
        } else {
            found matches Err(message) && message@ == unknown_dependency(name@)
        },
{
    let given = String::from_str(name);
    if given == String::from_str("AWS CLI") {
        Ok(Dependency::AwsCli)
    } else if given == String::from_str("rclone") {
        Ok(Dependency::Rclone)
    } else {
        let mut message = String::from_str("Unknown dependency: ");
        message.append(name);
        Err(message)
    }
}

/// What is shown of a tool on `platform`, given what it printed when asked
/// for its version, or nothing if it did not run: it is installed if it
/// ran, and its version is the first line it printed.
pub fn dependency_status(dependency: Dependency, platform: Platform, printed: Option<&str>) -> (status:
    DependencyStatus)
    ensures
        status.name@ == dependency_name(dependency),
        status.installed == printed is Some,
        text_model(status.version) == (match printed {
            Some(text) => first_line_of(text@),
            None => None,
        }),
        status.install_command@ == (match dependency {
            Dependency::AwsCli => aws_install_command(platform),
            Dependency::Rclone => rclone_install_command(platform),
        }),
{
    let version = match printed {
        Some(text) => {
            let chars = to_chars(text);
            let lines = split_lines(chars.as_slice());
            assert(texts(lines@).len() == lines@.len());
            if lines.len() > 0 {
                assert(texts(lines@)[0] == lines@[0]@);
                Some(string_of(lines[0]))
            } else {
                None
            }
        },
        None => None,
    };
    DependencyStatus {
        name: match dependency {
            Dependency::AwsCli => String::from_str("AWS CLI"),
            Dependency::Rclone => String::from_str("rclone"),
        },
        installed: printed.is_some(),
        version,
        install_command: match dependency {
            Dependency::AwsCli => get_aws_cli_install_command(platform),
            Dependency::Rclone => get_rclone_install_command(platform),
        },
    }
}

/// Tells whether everything is installed that the application installs by
/// the package manager: the package manager itself, the transfer tool and
/// the command-line client.
pub fn all_installed(brew: bool, rclone: bool, aws: bool) -> (all: bool)
    ensures
        all == (brew && rclone && aws),
{
    brew && rclone && aws
}

/// Tells whether tools must be installed before the application can work:
/// not if a transfer tool was found, and else unless everything is
/// installed.
pub fn installation_needed(rclone_found: bool, installed: bool) -> (needed: bool)
    ensures
        needed == (!rclone_found && !installed),
{
    !rclone_found && !installed
}

/// A step of an installation, as it is shown: so many parts of a hundred
/// done, and what is being done.
pub fn progress(downloaded: u64, status: &str) -> (shown: DownloadProgress)
    ensures
        shown.downloaded == downloaded,
        shown.total == Some(100u64),
        shown.status@ == status@,
{
    DownloadProgress { downloaded, total: Some(100), status: String::from_str(status) }
}

/// The name of the transfer tool among the application's own files while
/// the application is being built, for a processor of kind `arch`.
pub open spec fn dev_binary_name_of(arch: Seq<char>, platform: Platform) -> Seq<char> {
    match platform {
        Platform::MacOs => "rclone-"@ + arch + "-apple-darwin"@,
        Platform::Windows => "rclone-"@ + arch + "-pc-windows-msvc.exe"@,
        Platform::Linux => "rclone-"@ + arch + "-unknown-linux-gnu"@,
    }
}

/// The name of the transfer tool among the application's own files while
/// the application is being built.
pub fn dev_binary_name(arch: &str, platform: Platform) -> (name: String)
    ensures
        name@ == dev_binary_name_of(arch@, platform),
{
    let mut name = String::from_str("rclone-");
    name.append(arch);
    match platform {
        Platform::MacOs => name.append("-apple-darwin"),
        Platform::Windows => name.append("-pc-windows-msvc.exe"),
        Platform::Linux => name.append("-unknown-linux-gnu"),
    }
    name
}

/// The directories, seen from the directory of the running program, in
/// which the application's own tools lie while it is being built.
pub open spec fn dev_binary_dirs() -> Seq<Seq<char>> {
    seq!["../binaries"@, "../../binaries"@, "../../../binaries"@, "../../../../src-tauri/binaries"@]
}

/// The places where the tool `name` may lie while the application is being
/// built, seen from `exe_dir`, the directory of the running program.
pub open spec fn dev_binary_places(exe_dir: Seq<char>, name: Seq<char>) -> Seq<Seq<char>> {
    dev_binary_dirs().map_values(|dir: Seq<char>| joined(joined(exe_dir, dir), name))
}

/// The places where the tool `name` may lie while the application is being
/// built, in the order in which they are tried.
pub fn dev_binary_candidates(exe_dir: &str, name: &str) -> (places: Vec<String>)
    ensures
        string_texts(places@) == dev_binary_places(exe_dir@, name@),
{
    let mut places: Vec<String> = Vec::new();
    assert(string_texts(places@) =~= Seq::<Seq<char>>::empty());
    let first = join_path(join_path(exe_dir, "../binaries").as_str(), name);
    push_text(&mut places, first.as_str());
    let second = join_path(join_path(exe_dir, "../../binaries").as_str(), name);
    push_text(&mut places, second.as_str());
    let third = join_path(join_path(exe_dir, "../../../binaries").as_str(), name);
    push_text(&mut places, third.as_str());
    let fourth = join_path(join_path(exe_dir, "../../../../src-tauri/binaries").as_str(), name);
    push_text(&mut places, fourth.as_str());
    assert(string_texts(places@) =~= dev_binary_places(exe_dir@, name@));
    places
}

/// The name of the transfer tool beside the running program.
pub fn bundled_binary_name(platform: Platform) -> (name: &'static str)
    ensures
        name@ == bundled_name(platform),
{
    match platform {
        Platform::Windows => "rclone.exe",
        _ => "rclone",
    }
}

/// The places where the package manager puts the tool `tool`: for newer
/// machines first, then for older ones.
pub open spec fn brew_places(tool: Seq<char>) -> Seq<Seq<char>> {
    seq!["/opt/homebrew/bin/"@ + tool, "/usr/local/bin/"@ + tool]
}

/// The places where the package manager puts the tool `tool`.
pub fn brew_paths(tool: &str) -> (places: Vec<String>)
    ensures
        string_texts(places@) == brew_places(tool@),
{
    let mut places: Vec<String> = Vec::new();
    assert(string_texts(places@) =~= Seq::<Seq<char>>::empty());
    let mut newer = String::from_str("/opt/homebrew/bin/");
    newer.append(tool);
    push_text(&mut places, newer.as_str());
    let mut older = String::from_str("/usr/local/bin/");
    older.append(tool);
    push_text(&mut places, older.as_str());
    assert(string_texts(places@) =~= brew_places(tool@));
    places
}

/// The name of the transfer tool beside the running program.
pub open spec fn bundled_name(platform: Platform) -> Seq<char> {
    match platform {
        Platform::Windows => "rclone.exe"@,
        _ => "rclone"@,
    }
}

/// The places where an installed transfer tool is looked for, in the order
/// in which they are tried: beside the running program, whose directory is
/// `exe_dir`, if `beside_program` asks for it; on a Mac, among the
/// resources of the application, whose contents lie in `contents_dir`, and
/// where the package manager puts its tools.
pub open spec fn installed_places(
    exe_dir: Option<Seq<char>>,
    contents_dir: Option<Seq<char>>,
    platform: Platform,
    beside_program: bool,
) -> Seq<Seq<char>> {
    let beside = match exe_dir {
        Some(dir) => if beside_program {
            seq![joined(dir, bundled_name(platform))]
        } else {
            Seq::empty()
        },
        None => Seq::empty(),
    };
    let resources = match contents_dir {
        Some(dir) => if platform == Platform::MacOs {
            seq![joined(joined(dir, "Resources"@), "rclone"@)]
        } else {
            Seq::empty()
        },
        None => Seq::empty(),
    };
    let brew = if platform == Platform::MacOs {
        brew_places("rclone"@)
    } else {
        Seq::empty()
    };
    beside + resources + brew
}

/// The places where an installed transfer tool is looked for, in the order
/// in which they are tried.
pub fn installed_paths(
    exe_dir: Option<&str>,
    contents_dir: Option<&str>,
    platform: Platform,
    beside_program: bool,
) -> (places: Vec<String>)
    ensures
        string_texts(places@) == installed_places(
            match exe_dir {
                Some(dir) => Some(dir@),
                None => None,
            },
            match contents_dir {
                Some(dir) => Some(dir@),
                None => None,
            },
            platform,
            beside_program,
        ),
{
    let mut places: Vec<String> = Vec::new();
    assert(string_texts(places@) =~= Seq::<Seq<char>>::empty());
    match exe_dir {
        Some(dir) => {
            if beside_program {
                let beside = join_path(dir, bundled_binary_name(platform));
                push_text(&mut places, beside.as_str());
            }
        },
        None => {},
    }
    let ghost beside = string_texts(places@);
    match contents_dir {
        Some(dir) => {
            if platform == Platform::MacOs {
                let resources = join_path(join_path(dir, "Resources").as_str(), "rclone");
                push_text(&mut places, resources.as_str());
            }
        },
        None => {},
    }
    let ghost resources = string_texts(places@);
    if platform == Platform::MacOs {
        let brew = brew_paths("rclone");
        push_all(&mut places, brew.as_slice());
    }
    assert(string_texts(places@) =~= installed_places(
        match exe_dir {
            Some(dir) => Some(dir@),
            None => None,
        },
        match contents_dir {
            Some(dir) => Some(dir@),
            None => None,
        },
        platform,
        beside_program,
    ));
    places
}

/// The texts of what was found in a row of places.
pub open spec fn found_texts(found: Seq<Option<String>>) -> Seq<Option<Seq<char>>> {
    found.map_values(|place: Option<String>| text_model(place))
}

/// The first thing found in a row of places, each of which holds
/// something or nothing.
pub open spec fn first_found(found: Seq<Option<Seq<char>>>) -> Option<Seq<char>>
    decreases found.len(),
{
    if found.len() == 0 {
        None
    } else {
        match first_found(found.drop_last()) {
            Some(path) => Some(path),
            None => found.last(),
        }
    }
}

/// The tool to run: the first found among the places of a build, else the
/// first found among the places of an installation, else the one that the
/// system looked up. If there is none of these, `missing` is said.
pub open spec fn chosen_binary(
    built: Seq<Option<Seq<char>>>,
    installed: Seq<Option<Seq<char>>>,
    looked_up: Option<Seq<char>>,
    missing: Seq<char>,
) -> Result<Seq<char>, Seq<char>> {
    match first_found(built) {
        Some(path) => Ok(path),
        None => match first_found(installed) {
            Some(path) => Ok(path),
            None => match looked_up {
                Some(path) => Ok(path),
                None => Err(missing),
            },
        },
    }
}

/// Something found among the first `n` places is the first thing found
/// among all.
proof fn lemma_first_found_stays(found: Seq<Option<Seq<char>>>, n: int)
    requires
        0 <= n <= found.len(),
        first_found(found.take(n)) is Some,
    ensures
        first_found(found) == first_found(found.take(n)),
    decreases found.len() - n,
{
    if n == found.len() {
        assert(found.take(n) =~= found);
    } else {
        assert(found.take(n + 1).drop_last() =~= found.take(n));
        lemma_first_found_stays(found, n + 1);
    }
}

/// The first thing found in a row of places.
pub fn first_of(found: &[Option<String>]) -> (first: Option<String>)
    ensures
        text_model(first) == first_found(found_texts(found@)),
{
    let mut i: usize = 0;
    assert(found_texts(found@).take(0) =~= Seq::<Option<Seq<char>>>::empty());
    while i < found.len()
        invariant
            i <= found.len(),
            first_found(found_texts(found@).take(i as int)) is None,
        decreases found.len() - i,
    {
        proof {
            let seen = found_texts(found@).take(i + 1);
            assert(seen.drop_last() =~= found_texts(found@).take(i as int));
            assert(seen.last() == text_model(found@[i as int]));
        }
        match &found[i] {
            Some(path) => {
                proof {
                    lemma_first_found_stays(found_texts(found@), i + 1);
                }
                return Some(path.clone());
            },
            None => {},
        }
        i = i + 1;
    }
    assert(found_texts(found@).take(found.len() as int) =~= found_texts(found@));
    None
}

/// Chooses the tool to run from what was found in the places of a build
/// and of an installation, and from what the system looked up.
pub fn choose_binary(
    built: &[Option<String>],
    installed: &[Option<String>],
    looked_up: Option<String>,
    missing: &str,
) -> (chosen: Result<String, String>)
    ensures
        path_model(chosen) == chosen_binary(
            found_texts(built@),
            found_texts(installed@),
            text_model(looked_up),
            missing@,
        ),
{
    match first_of(built) {
        Some(path) => Ok(path),
        None => match first_of(installed) {
            Some(path) => Ok(path),
            None => match looked_up {
                Some(path) => Ok(path),
                None => Err(String::from_str(missing)),
            },
        },
    }
}

/// What is said when the transfer tool is nowhere.
pub const RCLONE_MISSING: &'static str =
    "rclone not found. Please ensure rclone is bundled with the app or install it via Homebrew/Chocolatey.";

/// What is said when the transfer tool is nowhere on a Mac.
pub const RCLONE_MISSING_ON_MAC: &'static str =
    "rclone not found. Please ensure rclone is bundled with the app or install it via Homebrew.";

/// What is said when the command-line client is nowhere.
pub const AWS_MISSING: &'static str = "AWS CLI not found. Please run dependency installation first.";

/// The name of the file that holds the keys of the user `user_id`.
pub open spec fn iam_file_name_of(user_id: Seq<char>) -> Seq<char> {
    "iam-"@ + user_id + ".json"@
}

/// The name of the file that holds the keys of the user `user_id`.
pub fn iam_file_name(user_id: &str) -> (name: String)
    ensures
        name@ == iam_file_name_of(user_id@),
{
    let mut name = String::from_str("iam-");
    name.append(user_id);
    name.append(".json");
    name
}

} // verus!
