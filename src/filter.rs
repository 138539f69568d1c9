//! The escape/noise filter over a retrieval tool's output, the classification
//! of its result, and the formatting of the snippet injected into a prompt.

use crate::text::{
    lemma_trim_idempotent, lemma_trim_keeps_leading_char, is_space, chars_of, contains, contains_chars, has_prefix, push_all, slice_chars, starts_with_chars,
    string_of, trim, trim_chars,
};
use regex_lite::Regex;
use vstd::prelude::*;

verus! {

/// Scans `s` from the left: the lines already ended by a `'\n'`, and the line
/// that is still open.
pub open spec fn scan_lines(s: Seq<char>) -> (Seq<Seq<char>>, Seq<char>)
    decreases s.len(),
{
    if s.len() == 0 {
        (seq![], seq![])
    } else {
        let (ls, cur) = scan_lines(s.drop_last());
        if s.last() == '\n' {
            (ls.push(cur), seq![])
        } else {
            (ls, cur.push(s.last()))
        }
    }
}

/// The lines of `s`, split at each `'\n'`.
pub open spec fn split_lines(s: Seq<char>) -> Seq<Seq<char>> {
    scan_lines(s).0.push(scan_lines(s).1)
}

/// The contents of a vector of lines.
pub open spec fn lines_view(v: Seq<Vec<char>>) -> Seq<Seq<char>> {
    v.map_values(|l: Vec<char>| l@)
}

/// A line that starts the trailing help section of the tool's output.
pub open spec fn is_terminator(l: Seq<char>) -> bool {
    has_prefix(l, "Commands:"@)
}

/// A banner line of the tool's output.
pub open spec fn is_banner(l: Seq<char>) -> bool {
    has_prefix(l, "Vector search"@) || has_prefix(l, "Relevant Memories"@) || has_prefix(
        l,
        "Showing "@,
    )
}

/// The lines that survive the filter: everything before the first
/// terminator line, without banner lines, trimmed, without empty lines.
pub open spec fn kept_lines(ls: Seq<Seq<char>>) -> Seq<Seq<char>>
    decreases ls.len(),
{
    if ls.len() == 0 {
        seq![]
    } else if is_terminator(ls[0]) {
        seq![]
    } else if is_banner(ls[0]) || trim(ls[0]).len() == 0 {
        kept_lines(ls.drop_first())
    } else {
        seq![trim(ls[0])] + kept_lines(ls.drop_first())
    }
}

/// The lines joined with `'\n'` between them.
pub open spec fn join_lines(ls: Seq<Seq<char>>) -> Seq<char>
    decreases ls.len(),
{
    if ls.len() == 0 {
        seq![]
    } else if ls.len() == 1 {
        ls[0]
    } else {
        join_lines(ls.drop_last()) + seq!['\n'] + ls.last()
    }
}

/// The filtered snippet of a tool output from which escape codes were removed.
pub open spec fn snippet_of(s: Seq<char>) -> Seq<char> {
    join_lines(kept_lines(split_lines(s)))
}

/// What the tool prints when it found nothing, once case-folded.
pub open spec fn has_noise_marker(folded: Seq<char>) -> bool {
    contains(folded, "no matches"@) || contains(folded, "no results"@) || contains(
        folded,
        "0 records"@,
    )
}

/// The longest snippet that is injected whole.
pub const MAX_INJECTED_CHARS: usize = 1200;

/// The snippet as injected: clipped to its first `MAX_INJECTED_CHARS`
/// characters and marked with `"..."` when longer.
pub open spec fn injection_body(snippet: Seq<char>) -> Seq<char> {
    if snippet.len() > MAX_INJECTED_CHARS {
        snippet.take(MAX_INJECTED_CHARS as int) + "..."@
    } else {
        snippet
    }
}

/// The label that precedes every injected snippet.
pub open spec fn memory_prefix() -> Seq<char> {
    "Memories which may be helpful:\n"@
}

/// The injection made of a snippet.
pub open spec fn injection_text(snippet: Seq<char>) -> Seq<char> {
    memory_prefix() + injection_body(snippet)
}

/// What `to_lowercase` returns for a string.
pub uninterp spec fn lower_of(s: Seq<char>) -> Seq<char>;

/// A character that may stand between `ESC [` and `m` in an escape sequence.
pub open spec fn is_param_char(c: char) -> bool {
    ('0' <= c && c <= '9') || c == ';'
}

/// The number of parameter characters at the start of `s`.
pub open spec fn params_len(s: Seq<char>) -> nat
    decreases s.len(),
{
    if s.len() > 0 && is_param_char(s[0]) {
        1 + params_len(s.drop_first())
    } else {
        0
    }
}

/// The length of the escape sequence `ESC [ [0-9;]* m` that starts `s`, if one does.
pub open spec fn escape_len(s: Seq<char>) -> Option<nat> {
    if s.len() >= 2 && s[0] == '\u{1b}' && s[1] == '[' && 2 + params_len(s.skip(2)) < s.len()
        && s[2 + params_len(s.skip(2)) as int] == 'm' {
        Some(3 + params_len(s.skip(2)))
    } else {
        None
    }
}

/// `s` with each escape sequence `ESC [ [0-9;]* m` removed, scanning from the
/// left; all other characters are kept in order.
pub open spec fn ansi_stripped(s: Seq<char>) -> Seq<char>
    decreases s.len(),
{
    if s.len() == 0 {
        seq![]
    } else {
        match escape_len(s) {
            Some(n) => ansi_stripped(s.skip(n as int)),
            None => seq![s[0]] + ansi_stripped(s.drop_first()),
        }
    }
}

/// A text without an escape character has no escape sequence to remove.
pub proof fn lemma_plain_text_unchanged(s: Seq<char>)
    requires
        !s.contains('\u{1b}'),
    ensures
        ansi_stripped(s) == s,
    decreases s.len(),
{
    if s.len() > 0 {
        assert(s[0] != '\u{1b}');
        assert(!s.drop_first().contains('\u{1b}')) by {
            if s.drop_first().contains('\u{1b}') {
                let i = choose|i: int| 0 <= i < s.drop_first().len() && s.drop_first()[i] == '\u{1b}';
                assert(s[i + 1] == '\u{1b}');
            }
        }
        lemma_plain_text_unchanged(s.drop_first());
        assert(seq![s[0]] + s.drop_first() =~= s);
    }
}

/// The injection for the tool's output once escape codes were removed, or none.
pub open spec fn injection_for(cleaned: Seq<char>) -> Option<Seq<char>> {
    let snippet = snippet_of(cleaned);
    if trim(snippet).len() == 0 || has_noise_marker(lower_of(snippet)) {
        None
    } else {
        Some(injection_text(snippet))
    }
}

/// Relies on `str::to_lowercase`: the result depends on the characters alone.
#[verifier::external_body]
fn lowercase(s: &str) -> (r: String)
    ensures
        r@ == lower_of(s@),
{
    s.to_lowercase()
}

/// A compiled regular expression of `regex_lite`, carried opaquely.
#[verifier::external_type_specification]
#[verifier::external_body]
pub struct ExRegex(Regex);

/// The compiled escape-sequence pattern; only `compile_ansi_pattern` makes one.
pub struct AnsiPattern {
    re: Regex,
}

/// Relies on `regex_lite::Regex::new`: compiles the escape-sequence pattern.
/// The pattern is fixed and valid, so the error arm is never taken.
#[verifier::external_body]
fn compile_ansi_pattern() -> (r: Option<AnsiPattern>)
    ensures
        r is Some,
{
    match Regex::new(r"\x1b\[[0-9;]*m") {
        Ok(re) => Some(AnsiPattern { re }),
        Err(_) => None,
    }
}

/// Relies on `regex_lite::Regex::replace_all` with an empty replacement, on the
/// pattern `\x1b\[[0-9;]*m` that `compile_ansi_pattern` compiled: it removes the
/// leftmost matches, one after another, without overlap. Since `m` is no
/// parameter character, a match at a position is the longest run of parameter
/// characters followed by `m`, as `escape_len` states.
#[verifier::external_body]
fn remove_matches(pattern: &AnsiPattern, s: &str) -> (r: String)
    ensures
        r@ == ansi_stripped(s@),
{
    pattern.re.replace_all(s, "").into_owned()
}


/// Splits `s` at each `'\n'`; the last line is the text after the last `'\n'`.
pub fn split_lines_chars(s: &Vec<char>) -> (r: Vec<Vec<char>>)
    ensures
        lines_view(r@) == split_lines(s@),
{
    let mut ls: Vec<Vec<char>> = Vec::new();
    let mut cur: Vec<char> = Vec::new();
    let mut i: usize = 0;
    assert(s@.take(0) =~= Seq::<char>::empty());
    assert(lines_view(ls@) =~= Seq::<Seq<char>>::empty());
    while i < s.len()
        invariant
            i <= s.len(),
            (lines_view(ls@), cur@) == scan_lines(s@.take(i as int)),
        decreases s.len() - i,
    {
        assert(s@.take(i + 1).drop_last() =~= s@.take(i as int));
        let ghost before = lines_view(ls@);
        if s[i] == '\n' {
            ls.push(cur);
            cur = Vec::new();
            assert(lines_view(ls@) =~= before.push(ls@.last()@));
        } else {
            cur.push(s[i]);
        }
        i += 1;
    }
    assert(s@.take(i as int) =~= s@);
    let ghost before = lines_view(ls@);
    ls.push(cur);
    assert(lines_view(ls@) =~= before.push(ls@.last()@));
    ls
}

/// Keeps the lines before the first terminator line, drops banner lines,
/// trims the rest and drops those left empty.
pub fn filter_lines(lines: &Vec<Vec<char>>) -> (r: Vec<Vec<char>>)
    ensures
        lines_view(r@) == kept_lines(lines_view(lines@)),
{
    let ghost all = lines_view(lines@);
    let commands = chars_of("Commands:");
    let vector = chars_of("Vector search");
    let relevant = chars_of("Relevant Memories");
    let showing = chars_of("Showing ");
    let mut out: Vec<Vec<char>> = Vec::new();
    let mut i: usize = 0;
    assert(all.skip(0) =~= all);
    assert(lines_view(out@) =~= Seq::<Seq<char>>::empty());
    while i < lines.len()
        invariant
            i <= lines.len(),
            all == lines_view(lines@),
            commands@ == "Commands:"@,
            vector@ == "Vector search"@,
            relevant@ == "Relevant Memories"@,
            showing@ == "Showing "@,
            lines_view(out@) + kept_lines(all.skip(i as int)) == kept_lines(all),
        decreases lines.len() - i,
    {
        let line = &lines[i];
        let ghost rest = all.skip(i as int);
        assert(rest[0] == line@);
        assert(rest.drop_first() =~= all.skip(i + 1));
        if starts_with_chars(line, &commands) {
            assert(lines_view(out@) + kept_lines(rest) =~= lines_view(out@));
            assert(lines_view(out@) =~= kept_lines(all));
            return out;
        }
        if starts_with_chars(line, &vector) || starts_with_chars(line, &relevant)
            || starts_with_chars(line, &showing) {
            i += 1;
            continue;
        }
        let trimmed = trim_chars(line);
        if trimmed.len() == 0 {
            i += 1;
            continue;
        }
        let ghost before = lines_view(out@);
        out.push(trimmed);
        assert(lines_view(out@) =~= before.push(trim(line@)));
        assert(lines_view(out@) + kept_lines(all.skip(i + 1)) =~= before + (seq![trim(line@)]
            + kept_lines(all.skip(i + 1))));
        i += 1;
    }
    assert(all.skip(i as int) =~= Seq::<Seq<char>>::empty());
    assert(lines_view(out@) + kept_lines(all.skip(i as int)) =~= lines_view(out@));
    out
}

/// Joins the lines with `'\n'` between them.
pub fn join_lines_chars(lines: &Vec<Vec<char>>) -> (r: Vec<char>)
    ensures
        r@ == join_lines(lines_view(lines@)),
{
    let ghost all = lines_view(lines@);
    let mut out: Vec<char> = Vec::new();
    let mut i: usize = 0;
    assert(all.take(0) =~= Seq::<Seq<char>>::empty());
    while i < lines.len()
        invariant
            i <= lines.len(),
            all == lines_view(lines@),
            out@ == join_lines(all.take(i as int)),
        decreases lines.len() - i,
    {
        assert(all.take(i + 1).drop_last() =~= all.take(i as int));
        assert(all.take(i + 1).last() == lines@[i as int]@);
        if i > 0 {
            out.push('\n');
        }
        push_all(&mut out, &lines[i]);
        if i == 0 {
            assert(out@ =~= join_lines(all.take(1)));
        }
        i += 1;
    }
    assert(all.take(i as int) =~= all);
    out
}

/// The filtered snippet of a tool output: the surviving lines, trimmed, one
/// per line.
pub fn trim_swarm_output(raw: &str) -> (r: String)
    ensures
        r@ == snippet_of(raw@),
{
    let chars = chars_of(raw);
    let lines = split_lines_chars(&chars);
    let kept = filter_lines(&lines);
    let joined = join_lines_chars(&kept);
    string_of(&joined)
}

/// Removes the terminal escape sequences from the tool's output. Were the
/// pattern ever refused, the text would be returned as it is.
pub fn strip_ansi(input: &str) -> (r: String)
    ensures
        r@ == ansi_stripped(input@),
        !input@.contains('\u{1b}') ==> r@ == input@,
{
    proof {
        if !input@.contains('\u{1b}') {
            lemma_plain_text_unchanged(input@);
        }
    }
    match compile_ansi_pattern() {
        Some(pattern) => remove_matches(&pattern, input),
        None => string_of(&chars_of(input)),
    }
}

/// Tells whether a snippet is empty once trimmed, or its case-folded form
/// `lowered` carries one of the tool's "found nothing" messages.
pub fn is_empty_or_noise_folded(text: &str, lowered: &str) -> (r: bool)
    ensures
        r == (trim(text@).len() == 0 || has_noise_marker(lowered@)),
{
    let chars = chars_of(text);
    let folded = chars_of(lowered);
    let trimmed = trim_chars(&chars);
    trimmed.len() == 0 || contains_chars(&folded, &chars_of("no matches")) || contains_chars(
        &folded,
        &chars_of("no results"),
    ) || contains_chars(&folded, &chars_of("0 records"))
}

/// Tells whether a snippet is empty once trimmed, or carries one of the
/// tool's "found nothing" messages in any letter case.
pub fn is_empty_or_noise(text: &str) -> (r: bool)
    ensures
        r == (trim(text@).len() == 0 || has_noise_marker(lower_of(text@))),
{
    let lowered = lowercase(text);
    is_empty_or_noise_folded(text, lowered.as_str())
}

/// The injection for a snippet: the label, then the snippet clipped to
/// `MAX_INJECTED_CHARS` characters with a `"..."` marker when longer.
pub fn format_injection(snippet: &str) -> (r: String)
    ensures
        r@ == injection_text(snippet@),
{
    let chars = chars_of(snippet);
    let mut out = chars_of("Memories which may be helpful:\n");
    if chars.len() > MAX_INJECTED_CHARS {
        let head = slice_chars(&chars, 0, MAX_INJECTED_CHARS);
        push_all(&mut out, &head);
        push_all(&mut out, &chars_of("..."));
        assert(out@ =~= injection_text(snippet@));
    } else {
        push_all(&mut out, &chars);
    }
    string_of(&out)
}

/// The injection for the tool's output once escape codes were removed:
/// none where the snippet is empty or says that nothing was found.
pub fn injection_from_clean_output(cleaned: &str) -> (r: Option<String>)
    ensures
        match r {
            Some(t) => injection_for(cleaned@) == Some(t@),
            None => injection_for(cleaned@) is None,
        },
{
    let snippet = trim_swarm_output(cleaned);
    if is_empty_or_noise(snippet.as_str()) {
        return None;
    }
    Some(format_injection(snippet.as_str()))
}

/// The injection for one run of the retrieval tool: none where it did not
/// exit successfully; else that of its output with escape codes removed.
pub fn injection_from_run(succeeded: bool, stdout: &str) -> (r: Option<String>)
    ensures
        !succeeded ==> r is None,
        succeeded ==> match r {
            Some(t) => injection_for(ansi_stripped(stdout@)) == Some(t@),
            None => injection_for(ansi_stripped(stdout@)) is None,
        },
{
    if !succeeded {
        return None;
    }
    let cleaned = strip_ansi(stdout);
    injection_from_clean_output(cleaned.as_str())
}

/// The query as it is handed to the tool: trimmed, or none where nothing is
/// left, in which case the tool is not run.
pub fn search_query(query: &str) -> (r: Option<String>)
    ensures
        r is None <==> trim(query@).len() == 0,
        r matches Some(q) ==> q@ == trim(query@),
{
    let trimmed = trim_chars(&chars_of(query));
    if trimmed.len() == 0 {
        None
    } else {
        Some(string_of(&trimmed))
    }
}

/// The arguments the retrieval tool is run with: compact and verbose output,
/// the query, and at most five results.
pub fn search_args(query: &str) -> (r: Vec<String>)
    ensures
        r@.len() == 5,
        r@[0]@ == "-c"@,
        r@[1]@ == "-v"@,
        r@[2]@ == query@,
        r@[3]@ == "--limit"@,
        r@[4]@ == "5"@,
{
    let mut r: Vec<String> = Vec::new();
    r.push(string_of(&chars_of("-c")));
    r.push(string_of(&chars_of("-v")));
    r.push(string_of(&chars_of(query)));
    r.push(string_of(&chars_of("--limit")));
    r.push(string_of(&chars_of("5")));
    r
}

/// A terminator line ends the filter: the lines from it onward contribute
/// nothing, so the result is that of the lines before it alone.
pub proof fn lemma_terminator_cuts_lines(ls: Seq<Seq<char>>, k: int)
    requires
        0 <= k < ls.len(),
        is_terminator(ls[k]),
    ensures
        kept_lines(ls) == kept_lines(ls.take(k)),
    decreases k,
{
    if k == 0 {
        assert(ls.take(0) =~= Seq::<Seq<char>>::empty());
    } else {
        let tk = ls.take(k);
        assert(tk[0] == ls[0]);
        assert(tk.drop_first() =~= ls.drop_first().take(k - 1));
        lemma_terminator_cuts_lines(ls.drop_first(), k - 1);
    }
}

/// Any output holding a line that starts with `"Commands:"` gives the
/// snippet of the lines before that line alone: that line and all after it
/// are left out.
pub proof fn lemma_terminator_ends_output(raw: Seq<char>, k: int)
    requires
        0 <= k < split_lines(raw).len(),
        has_prefix(split_lines(raw)[k], "Commands:"@),
    ensures
        snippet_of(raw) == join_lines(kept_lines(split_lines(raw).take(k))),
{
    lemma_terminator_cuts_lines(split_lines(raw), k);
}

/// Output whose filtered, case-folded snippet says "no matches", "no
/// results" or "0 records" gives no injection.
pub proof fn lemma_noise_gives_no_injection(cleaned: Seq<char>)
    requires
        has_noise_marker(lower_of(snippet_of(cleaned))),
    ensures
        injection_for(cleaned) is None,
{
}

/// A snippet longer than `MAX_INJECTED_CHARS` is injected as exactly its
/// first `MAX_INJECTED_CHARS` characters and the `"..."` marker; no injected
/// body is ever longer than that.
pub proof fn lemma_injection_is_clipped(snippet: Seq<char>)
    ensures
        injection_body(snippet).len() <= MAX_INJECTED_CHARS + 3,
        injection_text(snippet).len() == memory_prefix().len() + injection_body(snippet).len(),
        snippet.len() > MAX_INJECTED_CHARS ==> {
            &&& injection_body(snippet).len() == MAX_INJECTED_CHARS + 3
            &&& injection_body(snippet).take(MAX_INJECTED_CHARS as int) == snippet.take(
                MAX_INJECTED_CHARS as int,
            )
            &&& injection_body(snippet).skip(MAX_INJECTED_CHARS as int) == "..."@
        },
{
    reveal_strlit("...");
    if snippet.len() > MAX_INJECTED_CHARS {
        let b = injection_body(snippet);
        assert(b.take(MAX_INJECTED_CHARS as int) =~= snippet.take(MAX_INJECTED_CHARS as int));
        assert(b.skip(MAX_INJECTED_CHARS as int) =~= "..."@);
    }
}

/// Every line of the filtered snippet is non-empty and already trimmed.
pub proof fn lemma_kept_lines_clean(ls: Seq<Seq<char>>)
    ensures
        forall|i: int|
            0 <= i < kept_lines(ls).len() ==> (#[trigger] kept_lines(ls)[i]).len() > 0 && trim(
                kept_lines(ls)[i],
            ) == kept_lines(ls)[i],
    decreases ls.len(),
{
    if ls.len() > 0 && !is_terminator(ls[0]) {
        lemma_kept_lines_clean(ls.drop_first());
        if !(is_banner(ls[0]) || trim(ls[0]).len() == 0) {
            lemma_trim_idempotent(ls[0]);
            let k = kept_lines(ls);
            let rest = kept_lines(ls.drop_first());
            assert forall|i: int| 0 <= i < k.len() implies (#[trigger] k[i]).len() > 0 && trim(k[i])
                == k[i] by {
                if i > 0 {
                    assert(k[i] == rest[i - 1]);
                }
            }
        }
    }
}

/// A banner line or a blank line is never a terminator line.
pub proof fn lemma_noise_line_not_terminator(l: Seq<char>)
    requires
        is_banner(l) || trim(l).len() == 0,
    ensures
        !is_terminator(l),
{
    reveal_strlit("Commands:");
    reveal_strlit("Vector search");
    reveal_strlit("Relevant Memories");
    reveal_strlit("Showing ");
    if is_terminator(l) {
        assert(l.subrange(0, 9)[0] == 'C');
        assert(l[0] == 'C');
        if has_prefix(l, "Vector search"@) {
            assert(l.subrange(0, 13)[0] == 'V');
        } else if has_prefix(l, "Relevant Memories"@) {
            assert(l.subrange(0, 17)[0] == 'R');
        } else if has_prefix(l, "Showing "@) {
            assert(l.subrange(0, 8)[0] == 'S');
        } else {
            assert(!is_space(l[0]));
            lemma_trim_keeps_leading_char(l);
        }
    }
}

/// Dropping a banner line or a blank line from the tool's output leaves the
/// filtered snippet as it is.
pub proof fn lemma_noise_line_dropped(ls: Seq<Seq<char>>, k: int)
    requires
        0 <= k < ls.len(),
        is_banner(ls[k]) || trim(ls[k]).len() == 0,
    ensures
        kept_lines(ls.remove(k)) == kept_lines(ls),
    decreases k,
{
    lemma_noise_line_not_terminator(ls[k]);
    if k == 0 {
        assert(ls.remove(0) =~= ls.drop_first());
    } else {
        let r = ls.remove(k);
        assert(r[0] == ls[0]);
        assert(r.drop_first() =~= ls.drop_first().remove(k - 1));
        lemma_noise_line_dropped(ls.drop_first(), k - 1);
    }
}

} // verus!
