//! Launch planning: which program to start for an entry or a typed command.
use vstd::prelude::*;

use crate::launcher::desktop_entry::{
    drop_field_codes, parse_exec, shell_words, tilde_applies, tilde_outcome,
};
use crate::launcher::search::{join_spaces, rank, ranking, entry_views, result_views};
use crate::launcher::types::{views, AppEntry, LauncherError, SearchResult};
use crate::text::{chars_of, concat, push_all, str_eq, string_from_chars};

verus! {

/// How many results a launcher search returns.
pub open spec fn result_limit() -> nat {
    10
}

/// The launcher's search: the ranking of `entries` for `query`, at most ten results.
pub fn search(query: &str, entries: &[AppEntry], usage_counts: &[(String, u32)]) -> (r: Vec<
    SearchResult,
>)
    ensures
        result_views(r@) == ranking(query@, entry_views(entries@), usage_counts@, result_limit()),
{
    rank(query, entries, usage_counts, 10)
}

/// The terminal emulators tried, in order of preference.
pub fn terminal_emulators() -> (r: Vec<String>)
    ensures
        views(r@) == seq!["foot"@, "alacritty"@, "kitty"@, "wezterm"@, "xterm"@],
{
    let mut r: Vec<String> = Vec::new();
    r.push("foot".to_string());
    r.push("alacritty".to_string());
    r.push("kitty".to_string());
    r.push("wezterm".to_string());
    r.push("xterm".to_string());
    assert(views(r@) =~= seq!["foot"@, "alacritty"@, "kitty"@, "wezterm"@, "xterm"@]);
    r
}

/// The position of the first entry with the given id, if any.
pub fn find_entry(entries: &[AppEntry], app_id: &str) -> (r: Option<usize>)
    ensures
        match r {
            Some(i) => i < entries.len() && entries@[i as int].id@ == app_id@ && forall|j: int|
                0 <= j < i ==> entries@[j].id@ != app_id@,
            None => forall|j: int| 0 <= j < entries.len() ==> entries@[j].id@ != app_id@,
        },
{
    let mut i: usize = 0;
    while i < entries.len()
        invariant
            i <= entries.len(),
            forall|j: int| 0 <= j < i ==> entries@[j].id@ != app_id@,
        decreases entries.len() - i,
    {
        if str_eq(entries[i].id.as_str(), app_id) {
            return Some(i);
        }
        i += 1;
    }
    None
}

/// What to start for a launcher entry.
#[derive(Debug)]
pub struct LaunchPlan {
    /// The entry's display name.
    pub name: String,
    pub program: String,
    pub args: Vec<String>,
    /// Whether the program must run inside a terminal emulator.
    pub terminal: bool,
}

/// The message for an unknown app id.
pub open spec fn unknown_app_message(id: Seq<char>) -> Seq<char> {
    "unknown app id: "@ + id
}

/// Plans the launch of the entry with id `app_id`: its argv from the `Exec` field and
/// whether it runs in a terminal. Fails for an unknown id or an `Exec` without a program.
pub fn plan_launch(entries: &[AppEntry], app_id: &str) -> (r: Result<LaunchPlan, LauncherError>)
    ensures
        match find_entry_spec(entries@, app_id@) {
            None => r matches Err(e) && e.message@ == unknown_app_message(app_id@),
            Some(i) => {
                let e = entries@[i];
                exists|expanded: Seq<char>|
                    #![trigger tilde_outcome(e.command@, expanded)]
                    {
                        &&& tilde_outcome(e.command@, expanded)
                        &&& {
                            let argv = drop_field_codes(shell_words(expanded));
                            match r {
                                Ok(p) => argv.len() > 0 && p.program@ == argv[0] && views(p.args@)
                                    == argv.drop_first() && p.terminal == e.terminal && p.name@
                                    == e.name@,
                                Err(err) => argv.len() == 0 && err.message@ == "empty Exec field for "@
                                    + e.name@,
                            }
                        }
                    }
            },
        },
{
    match find_entry(entries, app_id) {
        None => {
            proof {
                lemma_find_none(entries@, app_id@);
            }
            Err(LauncherError { message: concat("unknown app id: ", app_id) })
        },
        Some(i) => {
            proof {
                lemma_find_entry_spec(entries@, app_id@, i as int);
            }
            let e = &entries[i];
            match parse_exec(e.command.as_str(), e.name.as_str()) {
                Ok((program, args)) => Ok(
                    LaunchPlan { name: e.name.clone(), program, args, terminal: e.terminal },
                ),
                Err(err) => Err(err),
            }
        },
    }
}

/// The position of the first entry with id `id`, if any.
pub open spec fn find_entry_spec(entries: Seq<AppEntry>, id: Seq<char>) -> Option<int>
    decreases entries.len(),
{
    if entries.len() == 0 {
        None
    } else if entries.last().id@ == id {
        match find_entry_spec(entries.drop_last(), id) {
            Some(i) => Some(i),
            None => Some(entries.len() - 1),
        }
    } else {
        find_entry_spec(entries.drop_last(), id)
    }
}

proof fn lemma_find_entry_spec(entries: Seq<AppEntry>, id: Seq<char>, i: int)
    requires
        0 <= i < entries.len(),
        entries[i].id@ == id,
        forall|j: int| 0 <= j < i ==> entries[j].id@ != id,
    ensures
        find_entry_spec(entries, id) == Some(i),
    decreases entries.len(),
{
    if i < entries.len() - 1 {
        lemma_find_entry_spec(entries.drop_last(), id, i);
    } else {
        lemma_find_none(entries.drop_last(), id);
    }
}

proof fn lemma_find_none(entries: Seq<AppEntry>, id: Seq<char>)
    requires
        forall|j: int| 0 <= j < entries.len() ==> entries[j].id@ != id,
    ensures
        find_entry_spec(entries, id) is None,
    decreases entries.len(),
{
    if entries.len() > 0 {
        lemma_find_none(entries.drop_last(), id);
    }
}

/// The argv that runs `program args…` inside `terminal`: `terminal -e "program args…"`.
pub fn terminal_invocation(terminal: &str, program: &str, args: &[String]) -> (r: (
    String,
    Vec<String>,
))
    ensures
        r.0@ == terminal@,
        views(r.1@) == seq!["-e"@, join_spaces(seq![program@] + views(args@))],
{
    let mut line = chars_of(program);
    let mut i: usize = 0;
    assert(seq![program@] + views(args@).take(0) =~= seq![program@]);
    while i < args.len()
        invariant
            i <= args.len(),
            line@ == join_spaces(seq![program@] + views(args@).take(i as int)),
        decreases args.len() - i,
    {
        proof {
            let p = seq![program@] + views(args@).take(i + 1);
            assert(p.drop_last() =~= seq![program@] + views(args@).take(i as int));
            assert(p.last() == args@[i as int]@);
        }
        line.push(' ');
        let w = chars_of(args[i].as_str());
        push_all(&mut line, w.as_slice());
        i += 1;
    }
    proof {
        assert(views(args@).take(args.len() as int) =~= views(args@));
    }
    let mut argv: Vec<String> = Vec::new();
    argv.push("-e".to_string());
    argv.push(string_from_chars(line.as_slice()));
    assert(views(argv@) =~= seq!["-e"@, join_spaces(seq![program@] + views(args@))]);
    (terminal.to_string(), argv)
}

/// Whether `c` is whitespace in Unicode's sense (`char::is_whitespace`).
pub open spec fn is_unicode_ws(c: char) -> bool {
    ||| c == '\t' || c == '\n' || c == '\x0B' || c == '\x0C' || c == '\r' || c == ' '
    ||| c == '\u{85}' || c == '\u{A0}' || c == '\u{1680}'
    ||| ('\u{2000}' <= c && c <= '\u{200A}')
    ||| c == '\u{2028}' || c == '\u{2029}' || c == '\u{202F}' || c == '\u{205F}' || c == '\u{3000}'
}

/// Whether `c` is whitespace in Unicode's sense.
pub(crate) fn is_ws(c: char) -> (r: bool)
    ensures
        r == is_unicode_ws(c),
{
    c == '\t' || c == '\n' || c == '\x0B' || c == '\x0C' || c == '\r' || c == ' ' || c == '\u{85}'
        || c == '\u{A0}' || c == '\u{1680}' || ('\u{2000}' <= c && c <= '\u{200A}') || c
        == '\u{2028}' || c == '\u{2029}' || c == '\u{202F}' || c == '\u{205F}' || c == '\u{3000}'
}

/// The whitespace-separated words of `s` (`str::split_whitespace`): state after a prefix.
pub open spec fn ws_run(s: Seq<char>) -> (Seq<Seq<char>>, Seq<char>)
    decreases s.len(),
{
    if s.len() == 0 {
        (seq![], seq![])
    } else {
        let (done, cur) = ws_run(s.drop_last());
        if is_unicode_ws(s.last()) {
            (if cur.len() > 0 { done.push(cur) } else { done }, seq![])
        } else {
            (done, cur.push(s.last()))
        }
    }
}

/// The whitespace-separated words of `s`, in order.
pub open spec fn ws_words(s: Seq<char>) -> Seq<Seq<char>> {
    let (done, cur) = ws_run(s);
    if cur.len() > 0 { done.push(cur) } else { done }
}

/// The whitespace-separated words of `s`, as `str::split_whitespace` yields them.
pub fn whitespace_words(s: &[char]) -> (r: Vec<String>)
    ensures
        views(r@) == ws_words(s@),
{
    let mut words: Vec<String> = Vec::new();
    let mut cur: Vec<char> = Vec::new();
    let mut k: usize = 0;
    while k < s.len()
        invariant
            k <= s.len(),
            views(words@) == ws_run(s@.take(k as int)).0,
            cur@ == ws_run(s@.take(k as int)).1,
        decreases s.len() - k,
    {
        proof {
            assert(s@.take(k + 1).drop_last() =~= s@.take(k as int));
        }
        if is_ws(s[k]) {
            if cur.len() > 0 {
                let ghost before = views(words@);
                words.push(string_from_chars(cur.as_slice()));
                assert(views(words@) =~= before.push(cur@));
            }
            cur = Vec::new();
        } else {
            cur.push(s[k]);
        }
        k += 1;
    }
    proof {
        assert(s@.take(s.len() as int) =~= s@);
    }
    if cur.len() > 0 {
        let ghost before = views(words@);
        words.push(string_from_chars(cur.as_slice()));
        assert(views(words@) =~= before.push(cur@));
    }
    words
}

/// Splits a typed command line: the program is everything before the first space, the
/// arguments are the whitespace-separated words after it.
pub fn split_command(line: &str) -> (r: (String, Vec<String>))
    ensures
        ({
            let s = line@;
            if exists|i: int| 0 <= i < s.len() && s[i] == ' ' {
                exists|i: int|
                    #![trigger s[i]]
                    0 <= i < s.len() && s[i] == ' ' && (forall|j: int| 0 <= j < i ==> s[j] != ' ')
                        && r.0@ == s.take(i) && views(r.1@) == ws_words(s.skip(i + 1))
            } else {
                r.0@ == s && r.1@.len() == 0
            }
        }),
{
    let chars = chars_of(line);
    let mut i: usize = 0;
    while i < chars.len() && chars[i] != ' '
        invariant
            i <= chars.len(),
            chars@ == line@,
            forall|j: int| 0 <= j < i ==> line@[j] != ' ',
        decreases chars.len() - i,
    {
        i += 1;
    }
    if i == chars.len() {
        return (line.to_string(), Vec::new());
    }
    let (head, tail) = chars.as_slice().split_at(i);
    let program = string_from_chars(head);
    let rest = tail.split_at(1).1;
    assert(rest@ =~= line@.skip(i + 1));
    let words = whitespace_words(rest);
    assert(line@[i as int] == ' ');
    (program, words)
}

/// `shellexpand::full`: expands environment variables and a leading `~`. Trusted: a line
/// without `$` expands as `~`-expansion alone would (`tilde_outcome`), and successfully;
/// a line with `$` expands to whatever the environment gives, or fails (`None`).
#[verifier::external_body]
fn expand_full(line: &str) -> (r: Option<String>)
    ensures
        match r {
            Some(out) => line@.contains('$') || tilde_outcome(line@, out@),
            None => line@.contains('$'),
        },
{
    shellexpand::full(line).ok().map(|s| s.into_owned())
}

/// The argv for a typed command: the line expanded (environment variables and `~`; left
/// as typed when expansion fails), then split by `split_command`.
pub fn command_argv(cmd: &str) -> (r: (String, Vec<String>))
    ensures
        exists|line: Seq<char>| #[trigger] split_command_spec(line, r),
        !cmd@.contains('$') ==> exists|expanded: Seq<char>|
            #![trigger tilde_outcome(cmd@, expanded)]
            tilde_outcome(cmd@, expanded) && split_command_spec(expanded, r),
{
    let expanded = match expand_full(cmd) {
        Some(s) => s,
        None => cmd.to_string(),
    };
    let r = split_command(expanded.as_str());
    proof {
        assert(split_command_spec(expanded@, r));
        if !cmd@.contains('$') {
            assert(tilde_outcome(cmd@, expanded@));
        }
    }
    r
}

/// What `split_command` returns for `s`.
pub open spec fn split_command_spec(s: Seq<char>, r: (String, Vec<String>)) -> bool {
    if exists|i: int| 0 <= i < s.len() && s[i] == ' ' {
        exists|i: int|
            #![trigger s[i]]
            0 <= i < s.len() && s[i] == ' ' && (forall|j: int| 0 <= j < i ==> s[j] != ' ') && r.0@
                == s.take(i) && views(r.1@) == ws_words(s.skip(i + 1))
    } else {
        r.0@ == s && r.1@.len() == 0
    }
}

/// The first available terminal emulator, given for each of `terminal_emulators()`, in
/// order, whether it is installed.
pub fn first_available_terminal(installed: &[bool]) -> (r: Option<String>)
    requires
        installed.len() == 5,
    ensures
        ({
            let names = seq!["foot"@, "alacritty"@, "kitty"@, "wezterm"@, "xterm"@];
            match r {
                Some(t) => exists|i: int|
                    0 <= i < 5 && installed@[i] && t@ == names[i] && forall|j: int|
                        0 <= j < i ==> !installed@[j],
                None => forall|j: int| 0 <= j < 5 ==> !installed@[j],
            }
        }),
{
    let names = terminal_emulators();
    assert(names@.len() == views(names@).len());
    let mut i: usize = 0;
    while i < 5
        invariant
            i <= 5,
            installed.len() == 5,
            views(names@) == seq!["foot"@, "alacritty"@, "kitty"@, "wezterm"@, "xterm"@],
            names.len() == 5,
            forall|j: int| 0 <= j < i ==> !installed@[j],
        decreases 5 - i,
    {
        if installed[i] {
            let t = names[i].clone();
            assert(t@ == views(names@)[i as int]);
            return Some(t);
        }
        i += 1;
    }
    None
}

} // verus!
