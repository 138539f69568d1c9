//! The spec-session bootstrap: the names and places it uses, the snapshot
//! record it writes, and the decisions it takes at each step.

use crate::audit::{compact_stamp_shape, millis_stamp_shape, now_compact_utc, now_rfc3339_millis};
use crate::text::{chars_of, push_all, string_of};
use vstd::prelude::*;

verus! {

/// The loopback port of the companion UI service.
pub const SPEC_DEFAULT_PORT: u16 = 8840;

/// The session slug for a compact UTC time stamp.
pub open spec fn slug_text(stamp: Seq<char>) -> Seq<char> {
    "codex-session-"@ + stamp
}

/// The address of the companion UI service.
pub open spec fn ui_url_text() -> Seq<char> {
    "http://localhost:8840/"@
}

fn owned(s: &str) -> (r: String)
    ensures
        r@ == s@,
{
    string_of(&chars_of(s))
}

fn concat(a: &str, b: &str) -> (r: String)
    ensures
        r@ == a@ + b@,
{
    let mut out = chars_of(a);
    push_all(&mut out, &chars_of(b));
    string_of(&out)
}

/// The session slug for a compact UTC time stamp (`YYYYMMDDTHHMMSSZ`).
pub fn session_slug(stamp: &str) -> (r: String)
    ensures
        r@ == slug_text(stamp@),
{
    concat("codex-session-", stamp)
}

/// The session slug for the current UTC time; none where the clock cannot
/// be read.
pub fn session_slug_now() -> (r: Option<String>)
    ensures
        r matches Some(slug) ==> exists|stamp: Seq<char>|
            compact_stamp_shape(stamp) && slug@ == slug_text(stamp),
{
    match now_compact_utc() {
        Some(stamp) => Some(session_slug(stamp.as_str())),
        None => None,
    }
}

/// The name of a session's snapshot file, under `snapshots/`.
pub fn snapshot_file_name(slug: &str) -> (r: String)
    ensures
        r@ == slug@ + ".json"@,
{
    concat(slug, ".json")
}

/// The name of a session's log file, under `logs/`.
pub fn log_file_name(slug: &str) -> (r: String)
    ensures
        r@ == slug@ + ".log"@,
{
    concat(slug, ".log")
}

/// The address of the companion UI service.
pub fn spec_ui_url() -> (r: String)
    ensures
        r@ == ui_url_text(),
{
    owned("http://localhost:8840/")
}

/// The subdirectories that the spec home holds.
pub fn spec_subdirs() -> (r: Vec<String>)
    ensures
        r@.len() == 5,
        r@[0]@ == "snapshots"@,
        r@[1]@ == "clarifications"@,
        r@[2]@ == "logs"@,
        r@[3]@ == "reports"@,
        r@[4]@ == "specs"@,
{
    let mut r: Vec<String> = Vec::new();
    r.push(owned("snapshots"));
    r.push(owned("clarifications"));
    r.push(owned("logs"));
    r.push(owned("reports"));
    r.push(owned("specs"));
    r
}

/// The path components of the spec home: the override where one is given,
/// else `.codex/extensions/spec-tool` under the home directory (or under `.`
/// where no home directory is known).
pub fn spec_home_parts(override_dir: Option<&str>, home: Option<&str>) -> (r: Vec<String>)
    ensures
        override_dir matches Some(d) ==> r@.len() == 1 && r@[0]@ == d@,
        override_dir is None ==> {
            &&& r@.len() == 4
            &&& r@[0]@ == match home {
                Some(h) => h@,
                None => "."@,
            }
            &&& r@[1]@ == ".codex"@
            &&& r@[2]@ == "extensions"@
            &&& r@[3]@ == "spec-tool"@
        },
{
    let mut r: Vec<String> = Vec::new();
    match override_dir {
        Some(d) => {
            r.push(owned(d));
        },
        None => {
            match home {
                Some(h) => r.push(owned(h)),
                None => r.push(owned(".")),
            }
            r.push(owned(".codex"));
            r.push(owned("extensions"));
            r.push(owned("spec-tool"));
        },
    }
    r
}

/// The file whose presence marks a directory as the companion UI project.
pub fn ui_marker_file() -> (r: String)
    ensures
        r@ == "package.json"@,
{
    owned("package.json")
}

/// The record of a session's start that is written to its snapshot file.
pub struct SnapshotRecord {
    pub feature: String,
    pub repo: String,
    pub paths: Vec<String>,
    pub captured_at: String,
    pub intent: String,
    pub context: String,
    pub meta_summary: String,
}

/// The snapshot record of session `slug` started in `cwd` at `captured_at`.
pub fn snapshot_record(slug: &str, cwd: &str, captured_at: &str) -> (r: SnapshotRecord)
    ensures
        r.feature@ == slug@,
        r.repo@ == cwd@,
        r.paths@.len() == 1,
        r.paths@[0]@ == cwd@,
        r.captured_at@ == captured_at@,
        r.intent@ == "Codex -spec session"@,
        r.context@ == "Auto-generated spec session from Codex -spec mode."@,
        r.meta_summary@ == "Codex session captured via -spec mode."@,
{
    let mut paths: Vec<String> = Vec::new();
    paths.push(owned(cwd));
    SnapshotRecord {
        feature: owned(slug),
        repo: owned(cwd),
        paths,
        captured_at: owned(captured_at),
        intent: owned("Codex -spec session"),
        context: owned("Auto-generated spec session from Codex -spec mode."),
        meta_summary: owned("Codex session captured via -spec mode."),
    }
}

/// The snapshot record of session `slug` started in `cwd`, stamped with the
/// current time; none where the clock cannot be read.
pub fn snapshot_record_now(slug: &str, cwd: &str) -> (r: Option<SnapshotRecord>)
    ensures
        r matches Some(rec) ==> {
            &&& rec.feature@ == slug@
            &&& rec.repo@ == cwd@
            &&& rec.paths@.len() == 1
            &&& rec.paths@[0]@ == cwd@
            &&& millis_stamp_shape(rec.captured_at@)
            &&& rec.intent@ == "Codex -spec session"@
            &&& rec.context@ == "Auto-generated spec session from Codex -spec mode."@
            &&& rec.meta_summary@ == "Codex session captured via -spec mode."@
        },
{
    match now_rfc3339_millis() {
        Some(captured_at) => Some(snapshot_record(slug, cwd, captured_at.as_str())),
        None => None,
    }
}

/// The contents of a list of path components.
pub open spec fn parts_view(v: Seq<String>) -> Seq<Seq<char>> {
    v.map_values(|s: String| s@)
}

/// The companion UI project's components below a searched directory.
pub open spec fn ui_suffix() -> Seq<Seq<char>> {
    seq!["extensions"@, "spec-tool"@, "ui"@, "spec-flow-console"@]
}

/// The `i`-th place searched upward from `cwd`: the UI project below the
/// directory `i` levels above `cwd`.
pub open spec fn ui_candidate(cwd: Seq<Seq<char>>, i: int) -> Seq<Seq<char>> {
    cwd.take(cwd.len() - i) + ui_suffix()
}

/// Appends a copy of the string to `out`.
fn push_copy(out: &mut Vec<String>, s: &str)
    ensures
        parts_view(final(out)@) == parts_view(old(out)@).push(s@),
{
    let ghost before = parts_view(out@);
    out.push(owned(s));
    assert(parts_view(out@) =~= before.push(s@));
}

/// The places where the companion UI project is looked for, in order: the
/// override directory where one is given, then the UI project below `cwd`
/// and below each directory above it, up to the root. The first of them that
/// holds the marker file is the UI directory; where none does, there is none.
pub fn ui_candidates(override_dir: Option<&str>, cwd: &Vec<String>) -> (r: Vec<Vec<String>>)
    ensures
        override_dir is None ==> r@.len() == cwd@.len(),
        override_dir is None ==> forall|i: int|
            0 <= i < cwd@.len() ==> parts_view(#[trigger] r@[i]@) == ui_candidate(
                parts_view(cwd@),
                i,
            ),
        override_dir is Some ==> r@.len() == 1 + cwd@.len(),
        override_dir is Some ==> forall|i: int|
            1 <= i < 1 + cwd@.len() ==> parts_view(#[trigger] r@[i]@) == ui_candidate(
                parts_view(cwd@),
                i - 1,
            ),
        override_dir matches Some(d) ==> parts_view(r@[0]@) == seq![d@],
{
    let ghost off: int = if override_dir is Some {
        1int
    } else {
        0int
    };
    let ghost cv = parts_view(cwd@);
    let mut r: Vec<Vec<String>> = Vec::new();
    match override_dir {
        Some(d) => {
            let mut one: Vec<String> = Vec::new();
            push_copy(&mut one, d);
            assert(parts_view(one@) =~= seq![d@]);
            r.push(one);
        },
        None => {},
    }
    let n = cwd.len();
    let mut i: usize = 0;
    while i < n
        invariant
            n == cwd@.len(),
            cv == parts_view(cwd@),
            i <= n,
            off == (if override_dir is Some { 1int } else { 0int }),
            r@.len() == off + i,
            override_dir matches Some(d) ==> parts_view(r@[0]@) == seq![d@],
            forall|j: int| 0 <= j < i ==> parts_view(#[trigger] r@[off + j]@) == ui_candidate(cv, j),
        decreases n - i,
    {
        let mut c: Vec<String> = Vec::new();
        let mut k: usize = 0;
        assert(parts_view(c@) =~= cv.take(0));
        while k < n - i
            invariant
                n == cwd@.len(),
                cv == parts_view(cwd@),
                i < n,
                k <= n - i,
                parts_view(c@) == cv.take(k as int),
            decreases n - i - k,
        {
            push_copy(&mut c, cwd[k].as_str());
            assert(cv.take(k + 1) =~= cv.take(k as int).push(cwd@[k as int]@));
            k += 1;
        }
        push_copy(&mut c, "extensions");
        push_copy(&mut c, "spec-tool");
        push_copy(&mut c, "ui");
        push_copy(&mut c, "spec-flow-console");
        assert(parts_view(c@) =~= ui_candidate(cv, i as int));
        let ghost before = r@;
        r.push(c);
        assert(forall|j: int| 0 <= j < before.len() ==> r@[j] == before[j]);
        assert(parts_view(r@[off + i]@) == ui_candidate(cv, i as int));
        i += 1;
    }
    assert forall|j: int| off <= j < off + n implies parts_view(#[trigger] r@[j]@) == ui_candidate(
        cv,
        j - off,
    ) by {
        assert(r@[off + (j - off)] == r@[j]);
    }
    r
}

/// The path components of the retrieval tool: `scripts/swarm` under the tool
/// root, or none where no tool root is configured, in which case no tool is
/// run and no injection is made.
pub fn swarm_script_location(root: Option<&str>) -> (r: Option<Vec<String>>)
    ensures
        r is None <==> root is None,
        root matches Some(d) ==> r matches Some(p) && p@.len() == 3 && p@[0]@ == d@
            && p@[1]@ == "scripts"@ && p@[2]@ == "swarm"@,
{
    match root {
        Some(d) => {
            let mut r: Vec<String> = Vec::new();
            r.push(owned(d));
            r.push(owned("scripts"));
            r.push(owned("swarm"));
            Some(r)
        },
        None => None,
    }
}

/// How the companion UI service is started: the program, its arguments, its
/// environment, and whether its output goes to the caller's streams (else it
/// is discarded). Its input is always closed.
pub struct UiLaunch {
    pub program: String,
    pub args: Vec<String>,
    pub env: Vec<(String, String)>,
    pub inherit_output: bool,
}

/// The launch of the companion UI service: `pnpm dev`, with the port and the
/// spec home in its environment; its output is shown in debug mode only.
pub fn ui_launch(spec_home: &str, debug: bool) -> (r: UiLaunch)
    ensures
        r.program@ == "pnpm"@,
        r.args@.len() == 1,
        r.args@[0]@ == "dev"@,
        r.env@.len() == 2,
        r.env@[0].0@ == "PORT"@,
        r.env@[0].1@ == "8840"@,
        r.env@[1].0@ == "CODEX_SPEC_TOOL_HOME"@,
        r.env@[1].1@ == spec_home@,
        r.inherit_output == debug,
{
    let mut args: Vec<String> = Vec::new();
    args.push(owned("dev"));
    let mut env: Vec<(String, String)> = Vec::new();
    env.push((owned("PORT"), owned("8840")));
    env.push((owned("CODEX_SPEC_TOOL_HOME"), owned(spec_home)));
    UiLaunch { program: owned("pnpm"), args, env, inherit_output: debug }
}

} // verus!
