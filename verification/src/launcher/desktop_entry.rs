//! Desktop-file `Exec` parsing and the selection of launchable entries.
use vstd::prelude::*;

use crate::launcher::types::{views, AppEntry, LauncherError};
use crate::launcher::service::is_ws;
use crate::services::brightness::trim_start;
use crate::text::{chars_of, concat, has_prefix, join_path, path_join, string_from_chars, str_eq};

verus! {

// ── Word splitting ──────────────────────────────────────────────────────────

/// Whether `c` is ASCII whitespace (space, tab, line feed, form feed, carriage return).
pub open spec fn is_ascii_ws(c: char) -> bool {
    c == ' ' || c == '\t' || c == '\n' || c == '\x0C' || c == '\r'
}

/// The state of the word splitter after part of its input.
pub struct SplitState {
    pub words: Seq<Seq<char>>,
    pub current: Seq<char>,
    pub in_single: bool,
    pub in_double: bool,
    pub escaped: bool,
}

/// One character of POSIX-like word splitting: backslash escapes the next character
/// (outside single quotes), quotes toggle quoting, unquoted whitespace ends a word.
pub open spec fn split_step(st: SplitState, c: char) -> SplitState {
    if st.escaped {
        SplitState { current: st.current.push(c), escaped: false, ..st }
    } else if c == '\\' && !st.in_single {
        SplitState { escaped: true, ..st }
    } else if c == '\'' && !st.in_double {
        SplitState { in_single: !st.in_single, ..st }
    } else if c == '"' && !st.in_single {
        SplitState { in_double: !st.in_double, ..st }
    } else if is_ascii_ws(c) && !st.in_single && !st.in_double {
        if st.current.len() > 0 {
            SplitState { words: st.words.push(st.current), current: seq![], ..st }
        } else {
            st
        }
    } else {
        SplitState { current: st.current.push(c), ..st }
    }
}

/// The splitter state after all of `s`.
pub open spec fn split_run(s: Seq<char>) -> SplitState
    decreases s.len(),
{
    if s.len() == 0 {
        SplitState { words: seq![], current: seq![], in_single: false, in_double: false, escaped: false }
    } else {
        split_step(split_run(s.drop_last()), s.last())
    }
}

/// The words of `s`: those ended by whitespace, then the pending one if non-empty.
pub open spec fn shell_words(s: Seq<char>) -> Seq<Seq<char>> {
    let st = split_run(s);
    if st.current.len() > 0 { st.words.push(st.current) } else { st.words }
}


/// The ASCII-whitespace splitter after part of its input: finished words and the pending
/// one.
pub open spec fn ascii_words_run(s: Seq<char>) -> (Seq<Seq<char>>, Seq<char>)
    decreases s.len(),
{
    if s.len() == 0 {
        (seq![], seq![])
    } else {
        let (done, cur) = ascii_words_run(s.drop_last());
        if is_ascii_ws(s.last()) {
            (if cur.len() > 0 { done.push(cur) } else { done }, seq![])
        } else {
            (done, cur.push(s.last()))
        }
    }
}

/// The words of `s` between runs of ASCII whitespace (`str::split_ascii_whitespace`).
pub open spec fn ascii_words(s: Seq<char>) -> Seq<Seq<char>> {
    let (done, cur) = ascii_words_run(s);
    if cur.len() > 0 { done.push(cur) } else { done }
}

/// Whether `s` holds no quote and no backslash.
pub open spec fn quote_free(s: Seq<char>) -> bool {
    forall|i: int| 0 <= i < s.len() ==> s[i] != '\\' && s[i] != '\'' && s[i] != '"'
}

proof fn lemma_split_run_plain(s: Seq<char>)
    requires
        quote_free(s),
    ensures
        split_run(s) == (SplitState {
            words: ascii_words_run(s).0,
            current: ascii_words_run(s).1,
            in_single: false,
            in_double: false,
            escaped: false,
        }),
    decreases s.len(),
{
    if s.len() > 0 {
        assert forall|i: int| 0 <= i < s.drop_last().len() implies s.drop_last()[i] != '\\'
            && s.drop_last()[i] != '\'' && s.drop_last()[i] != '"' by {
            assert(s.drop_last()[i] == s[i]);
        }
        lemma_split_run_plain(s.drop_last());
        assert(s.last() == s[s.len() - 1]);
    }
}

proof fn lemma_split_run_words_nonempty(s: Seq<char>)
    ensures
        forall|k: int| 0 <= k < split_run(s).words.len() ==> (#[trigger] split_run(s).words[k]).len() > 0,
    decreases s.len(),
{
    if s.len() > 0 {
        lemma_split_run_words_nonempty(s.drop_last());
        let prev = split_run(s.drop_last());
        let now = split_run(s);
        assert forall|k: int| 0 <= k < now.words.len() implies (#[trigger] now.words[k]).len() > 0 by {
            if k < prev.words.len() {
                assert(now.words[k] == prev.words[k] || now.words == prev.words);
                if now.words != prev.words {
                    assert(now.words == prev.words.push(prev.current));
                }
            }
        }
    }
}

/// Word splitting never yields an empty word; and a line without quotes or backslashes
/// splits exactly at runs of ASCII whitespace, as `str::split_ascii_whitespace` does.
pub proof fn lemma_shell_words_plain(s: Seq<char>)
    ensures
        forall|k: int| 0 <= k < shell_words(s).len() ==> (#[trigger] shell_words(s)[k]).len() > 0,
        quote_free(s) ==> shell_words(s) == ascii_words(s),
{
    lemma_split_run_words_nonempty(s);
    let st = split_run(s);
    if st.current.len() > 0 {
        assert forall|k: int| 0 <= k < shell_words(s).len() implies (#[trigger] shell_words(s)[k]).len()
            > 0 by {
            if k < st.words.len() {
                assert(shell_words(s)[k] == st.words[k]);
            }
        }
    }
    if quote_free(s) {
        lemma_split_run_plain(s);
    }
}

/// Inside double quotes every character but a backslash or a closing `"` is kept
/// literally, single quotes and whitespace included: splitting on from any point inside
/// double quotes (not after a backslash) through such a segment only appends it to the
/// pending word.
pub proof fn lemma_double_quoted_literal(p: Seq<char>, seg: Seq<char>)
    requires
        split_run(p).in_double,
        !split_run(p).in_single,
        !split_run(p).escaped,
        forall|i: int| 0 <= i < seg.len() ==> seg[i] != '\\' && seg[i] != '"',
    ensures
        split_run(p + seg) == (SplitState { current: split_run(p).current + seg, ..split_run(p) }),
    decreases seg.len(),
{
    if seg.len() == 0 {
        assert(p + seg =~= p);
        assert(split_run(p).current + seg =~= split_run(p).current);
    } else {
        let s = seg.drop_last();
        assert forall|i: int| 0 <= i < s.len() implies s[i] != '\\' && s[i] != '"' by {
            assert(s[i] == seg[i]);
        }
        lemma_double_quoted_literal(p, s);
        let c = seg[seg.len() - 1];
        assert(c != '\\' && c != '"');
        assert((p + seg).drop_last() =~= p + s);
        assert((p + seg).last() == c);
        assert(split_run(p + seg) == split_step(split_run(p + s), c));
        assert(split_run(p).current + s + seq![c] =~= split_run(p).current + seg);
        assert((split_run(p).current + s).push(c) =~= split_run(p).current + seg);
    }
}

/// A double-quoted word whose inside holds no backslash and no `"` is one word: its
/// inside verbatim, single quotes and spaces included (`"a'b c"` gives `a'b c`).
pub proof fn lemma_double_quoted_word(seg: Seq<char>)
    requires
        seg.len() > 0,
        forall|i: int| 0 <= i < seg.len() ==> seg[i] != '\\' && seg[i] != '"',
    ensures
        shell_words(seq!['"'] + seg + seq!['"']) == seq![seg],
{
    let open = seq!['"'];
    let empty = Seq::<char>::empty();
    assert(open.drop_last() =~= empty);
    assert(open.last() == '"');
    assert(split_run(empty).current == empty);
    assert(split_run(open) == split_step(split_run(empty), '"'));
    assert(split_run(open).in_double);
    lemma_double_quoted_literal(open, seg);
    let whole = open + seg + seq!['"'];
    assert(whole.drop_last() =~= open + seg);
    assert(split_run(open).current =~= Seq::<char>::empty());
    assert(split_run(open + seg).current =~= seg);
}

fn push_string(out: &mut Vec<String>, word: &Vec<char>)
    ensures
        views(final(out)@) == views(old(out)@).push(word@),
{
    out.push(string_from_chars(word.as_slice()));
    proof {
        assert(views(out@) =~= views(old(out)@).push(word@));
    }
}

/// Minimal POSIX shell-style word splitting (single/double quotes and backslash).
pub fn shell_words_split(s: &str) -> (r: Result<Vec<String>, LauncherError>)
    ensures
        r matches Ok(w) && views(w@) == shell_words(s@),
{
    let chars = chars_of(s);
    let mut words: Vec<String> = Vec::new();
    let mut current: Vec<char> = Vec::new();
    let mut in_single = false;
    let mut in_double = false;
    let mut escaped = false;
    let mut i: usize = 0;
    while i < chars.len()
        invariant
            i <= chars.len(),
            chars@ == s@,
            ({
                let st = split_run(s@.take(i as int));
                &&& views(words@) == st.words
                &&& current@ == st.current
                &&& in_single == st.in_single
                &&& in_double == st.in_double
                &&& escaped == st.escaped
            }),
        decreases chars.len() - i,
    {
        let c = chars[i];
        proof {
            assert(s@.take(i + 1).drop_last() =~= s@.take(i as int));
        }
        if escaped {
            current.push(c);
            escaped = false;
        } else if c == '\\' && !in_single {
            escaped = true;
        } else if c == '\'' && !in_double {
            in_single = !in_single;
        } else if c == '"' && !in_single {
            in_double = !in_double;
        } else if (c == ' ' || c == '\t' || c == '\n' || c == '\x0C' || c == '\r') && !in_single
            && !in_double {
            if current.len() > 0 {
                push_string(&mut words, &current);
                current = Vec::new();
            }
        } else {
            current.push(c);
        }
        i += 1;
    }
    proof {
        assert(s@.take(chars.len() as int) =~= s@);
    }
    if current.len() > 0 {
        push_string(&mut words, &current);
    }
    Ok(words)
}

// ── Exec field ──────────────────────────────────────────────────────────────

/// Whether a word is a single-letter XDG field code such as `%u` or `%F`
/// (a `%` and one more byte).
pub open spec fn is_field_code(w: Seq<char>) -> bool {
    w.len() == 2 && w[0] == '%' && (w[1] as u32) < 128
}

/// The words of `w` that are not field codes, in order.
pub open spec fn drop_field_codes(w: Seq<Seq<char>>) -> Seq<Seq<char>>
    decreases w.len(),
{
    if w.len() == 0 {
        w
    } else if is_field_code(w.last()) {
        drop_field_codes(w.drop_last())
    } else {
        drop_field_codes(w.drop_last()).push(w.last())
    }
}

/// Whether `~`-expansion applies to `s`: a leading `~` alone or followed by `/`.
pub open spec fn tilde_applies(s: Seq<char>) -> bool {
    s.len() > 0 && s[0] == '~' && (s.len() == 1 || s[1] == '/')
}

/// What `~`-expansion may make of `input`: where it applies, the input itself (no home
/// directory is known) or some home directory followed by the rest; elsewhere the input.
pub open spec fn tilde_outcome(input: Seq<char>, out: Seq<char>) -> bool {
    if tilde_applies(input) {
        out == input || exists|home: Seq<char>| out == home + input.drop_first()
    } else {
        out == input
    }
}

/// `shellexpand::tilde`: replaces a leading `~` by the user's home directory.
/// Trusted: the outcome is as `tilde_outcome` says; which home directory is used
/// depends on the environment and is left open.
#[verifier::external_body]
fn expand_tilde(input: &str) -> (r: String)
    ensures
        tilde_outcome(input@, r@),
{
    shellexpand::tilde(input).into_owned()
}

/// The message of the error for an `Exec` field without a program.
pub open spec fn empty_exec_message(name: Seq<char>) -> Seq<char> {
    "empty Exec field for "@ + name
}

/// The argv of an already `~`-expanded `Exec` value: its words without field codes.
/// Fails when no word is left.
pub fn parse_expanded_exec(expanded: &str, entry_name: &str) -> (r: Result<
    (String, Vec<String>),
    LauncherError,
>)
    ensures
        ({
            let argv = drop_field_codes(shell_words(expanded@));
            match r {
                Ok((program, args)) => argv.len() > 0 && program@ == argv[0] && views(args@)
                    == argv.drop_first(),
                Err(e) => argv.len() == 0 && e.message@ == empty_exec_message(entry_name@),
            }
        }),
{
    let words = match shell_words_split(expanded) {
        Ok(w) => w,
        Err(e) => return Err(e),
    };
    let ghost all = views(words@);
    let mut kept: Vec<String> = Vec::new();
    let mut i: usize = 0;
    while i < words.len()
        invariant
            i <= words.len(),
            all == views(words@),
            all == shell_words(expanded@),
            views(kept@) == drop_field_codes(all.take(i as int)),
        decreases words.len() - i,
    {
        proof {
            assert(all.take(i + 1).drop_last() =~= all.take(i as int));
        }
        let w = chars_of(words[i].as_str());
        let code = w.len() == 2 && w[0] == '%' && (w[1] as u32) < 128;
        if !code {
            kept.push(words[i].clone());
            proof {
                assert(views(kept@) =~= drop_field_codes(all.take(i as int)).push(all[i as int]));
            }
        }
        i += 1;
    }
    proof {
        assert(all.take(words.len() as int) =~= all);
    }
    if kept.len() == 0 {
        let message = concat("empty Exec field for ", entry_name);
        return Err(LauncherError { message });
    }
    let program = kept.remove(0);
    proof {
        assert(views(kept@) =~= drop_field_codes(all).drop_first());
    }
    Ok((program, kept))
}

/// Builds the argv for the process spawner: expands `~`, splits into words and
/// strips XDG field codes (`%f`, `%u`, `%F`, `%U`, ...).
pub fn parse_exec(exec: &str, entry_name: &str) -> (r: Result<(String, Vec<String>), LauncherError>)
    ensures
        exists|expanded: Seq<char>|
            #![trigger tilde_outcome(exec@, expanded)]
            {
                &&& tilde_outcome(exec@, expanded)
                &&& {
                    let argv = drop_field_codes(shell_words(expanded));
                    match r {
                        Ok((program, args)) => argv.len() > 0 && program@ == argv[0]
                            && views(args@) == argv.drop_first(),
                        Err(e) => argv.len() == 0 && e.message@ == empty_exec_message(
                            entry_name@,
                        ),
                    }
                }
            },
{
    let expanded = expand_tilde(exec);
    let r = parse_expanded_exec(expanded.as_str(), entry_name);
    assert(tilde_outcome(exec@, expanded@));
    r
}

// ── Desktop files ───────────────────────────────────────────────────────────

/// The state of a splitter at `sep`: finished non-empty pieces and the pending piece.
pub open spec fn sep_run(s: Seq<char>, sep: char) -> (Seq<Seq<char>>, Seq<char>)
    decreases s.len(),
{
    if s.len() == 0 {
        (seq![], seq![])
    } else {
        let (done, cur) = sep_run(s.drop_last(), sep);
        if s.last() == sep {
            (if cur.len() > 0 { done.push(cur) } else { done }, seq![])
        } else {
            (done, cur.push(s.last()))
        }
    }
}

/// The non-empty pieces of `s` between `sep` separators, in order.
pub open spec fn fields(s: Seq<char>, sep: char) -> Seq<Seq<char>> {
    let (done, cur) = sep_run(s, sep);
    if cur.len() > 0 { done.push(cur) } else { done }
}

/// The non-empty pieces of `s` between `;` separators, in order.
pub open spec fn semicolon_fields(s: Seq<char>) -> Seq<Seq<char>> {
    fields(s, ';')
}

/// Splits `s` at `sep`, dropping empty pieces (`s.split(sep).filter(|p| !p.is_empty())`).
pub fn split_nonempty(s: &str, sep: char) -> (r: Vec<String>)
    ensures
        views(r@) == fields(s@, sep),
{
    let chars = chars_of(s);
    let mut out: Vec<String> = Vec::new();
    let mut cur: Vec<char> = Vec::new();
    let mut i: usize = 0;
    while i < chars.len()
        invariant
            i <= chars.len(),
            chars@ == s@,
            views(out@) == sep_run(s@.take(i as int), sep).0,
            cur@ == sep_run(s@.take(i as int), sep).1,
        decreases chars.len() - i,
    {
        proof {
            assert(s@.take(i + 1).drop_last() =~= s@.take(i as int));
        }
        if chars[i] == sep {
            if cur.len() > 0 {
                push_string(&mut out, &cur);
            }
            cur = Vec::new();
        } else {
            cur.push(chars[i]);
        }
        i += 1;
    }
    proof {
        assert(s@.take(chars.len() as int) =~= s@);
    }
    if cur.len() > 0 {
        push_string(&mut out, &cur);
    }
    out
}

/// Splits a `;`-separated desktop-file list, dropping empty items.
pub fn split_semicolons(s: &str) -> (r: Vec<String>)
    ensures
        views(r@) == semicolon_fields(s@),
{
    split_nonempty(s, ';')
}

/// The keys of a decoded desktop file that the launcher reads.
#[derive(Debug)]
pub struct DesktopFields {
    pub no_display: bool,
    /// The raw value of the `Hidden` key.
    pub hidden: Option<String>,
    pub type_: Option<String>,
    /// `Name`, localized.
    pub name: Option<String>,
    pub command: Option<String>,
    /// `Comment`, localized.
    pub comment: Option<String>,
    pub icon: Option<String>,
    pub terminal: bool,
    pub categories: Option<String>,
    /// `Keywords`, localized.
    pub keywords: Option<String>,
}

/// The lines of a desktop file as its decoder reads them: the non-empty pieces between
/// line feeds, each without its leading whitespace.
pub open spec fn desktop_lines(text: Seq<char>) -> Seq<Seq<char>> {
    fields(text, '\n').map_values(|l: Seq<char>| trim_start(l))
}

/// Whether some line of a desktop file has an empty key: it starts with `=`. The decoder
/// of `freedesktop_desktop_entry` panics on such a line.
pub open spec fn has_empty_key(text: Seq<char>) -> bool {
    exists|i: int|
        0 <= i < desktop_lines(text).len() && #[trigger] desktop_lines(text)[i].len() > 0
            && desktop_lines(text)[i][0] == '='
}

/// Whether a desktop file names an Ubuntu gettext domain (`X-Ubuntu-Gettext-Domain=`):
/// then a localized value it lacks is looked up in the system's message catalogs.
pub open spec fn names_gettext_domain(text: Seq<char>) -> bool {
    exists|i: int|
        0 <= i < desktop_lines(text).len() && has_prefix(
            #[trigger] desktop_lines(text)[i],
            "X-Ubuntu-Gettext-Domain="@,
        )
}

/// The first character of `v` that is not whitespace.
fn first_non_ws(v: &[char]) -> (r: Option<char>)
    ensures
        match r {
            Some(c) => trim_start(v@).len() > 0 && trim_start(v@)[0] == c,
            None => trim_start(v@).len() == 0,
        },
{
    let mut a: usize = 0;
    proof {
        assert(v@.skip(0) =~= v@);
    }
    while a < v.len() && is_ws(v[a])
        invariant
            a <= v.len(),
            trim_start(v@) == trim_start(v@.skip(a as int)),
        decreases v.len() - a,
    {
        proof {
            assert(v@.skip(a as int).skip(1) =~= v@.skip(a + 1));
        }
        a += 1;
    }
    if a < v.len() {
        proof {
            assert(v@.skip(a as int)[0] == v@[a as int]);
        }
        Some(v[a])
    } else {
        proof {
            assert(v@.skip(a as int).len() == 0);
        }
        None
    }
}

/// Whether some line of `text` has an empty key (starts with `=` after its leading
/// whitespace), which the desktop-file decoder cannot read.
pub fn has_empty_key_line(text: &str) -> (r: bool)
    ensures
        r == has_empty_key(text@),
{
    let lines = split_nonempty(text, '\n');
    let ghost ls = desktop_lines(text@);
    let mut i: usize = 0;
    while i < lines.len()
        invariant
            i <= lines.len(),
            views(lines@) == fields(text@, '\n'),
            ls == desktop_lines(text@),
            ls.len() == lines.len(),
            forall|k: int| 0 <= k < i ==> !(#[trigger] ls[k].len() > 0 && ls[k][0] == '='),
        decreases lines.len() - i,
    {
        let chars = chars_of(&lines[i]);
        proof {
            assert(ls[i as int] == trim_start(views(lines@)[i as int]));
        }
        match first_non_ws(chars.as_slice()) {
            Some(c) => {
                if c == '=' {
                    return true;
                }
            },
            None => {},
        }
        i += 1;
    }
    false
}

/// What `freedesktop_desktop_entry::DesktopEntry::decode` yields for a file at `path`
/// with contents `text`, read for `locale`, when the file names no gettext domain.
pub uninterp spec fn decoded_desktop_entry(
    path: Seq<char>,
    text: Seq<char>,
    locale: Option<Seq<char>>,
) -> Option<DesktopFields>;

/// `DesktopEntry::decode` and the accessors the launcher reads (`Name`, `Comment` and
/// `Keywords` localized). Trusted: for a file that names no gettext domain the result is
/// `decoded_desktop_entry` of the path, text and locale (`None` when decoding fails). For
/// one that does, a missing localized value is read from the system's message catalogs,
/// so nothing is stated of the result. The decoder panics on a line with an empty key,
/// hence the `requires`.
#[verifier::external_body]
fn decode_desktop_entry(path: &str, text: &str, locale: Option<&str>) -> (r: Option<DesktopFields>)
    requires
        !has_empty_key(text@),
    ensures
        !names_gettext_domain(text@) ==> r == decoded_desktop_entry(
            path@,
            text@,
            match locale { Some(l) => Some(l@), None => None },
        ),
{
    let e = freedesktop_desktop_entry::DesktopEntry::decode(std::path::Path::new(path), text).ok()?;
    let s = |v: Option<&str>| v.map(String::from);
    let own = |v: Option<std::borrow::Cow<str>>| v.map(|c| c.into_owned());
    Some(DesktopFields {
        no_display: e.no_display(), hidden: s(e.desktop_entry("Hidden")), type_: s(e.type_()),
        name: own(e.name(locale)), command: s(e.exec()), comment: own(e.comment(locale)),
        icon: s(e.icon()), terminal: e.terminal(), categories: s(e.categories()),
        keywords: own(e.desktop_entry_localized("Keywords", locale)),
    })
}

/// Whether an optional string holds exactly `lit`.
pub open spec fn opt_is(v: Option<String>, lit: Seq<char>) -> bool {
    v matches Some(s) && s@ == lit
}

fn opt_eq(v: &Option<String>, lit: &str) -> (r: bool)
    ensures
        r == opt_is(*v, lit@),
{
    match v {
        Some(s) => str_eq(s.as_str(), lit),
        None => false,
    }
}

fn list_or_empty(v: &Option<String>) -> (r: Vec<String>)
    ensures
        views(r@) == semicolon_fields(match v { Some(s) => s@, None => seq![] }),
{
    match v {
        Some(s) => split_semicolons(s.as_str()),
        None => {
            proof {
                reveal_strlit("");
            }
            split_semicolons("")
        },
    }
}

/// Whether decoded fields describe a visible application with a name and a command.
pub open spec fn is_launchable(f: DesktopFields) -> bool {
    &&& !f.no_display
    &&& !opt_is(f.hidden, "true"@)
    &&& opt_is(f.type_, "Application"@)
    &&& f.name is Some
    &&& f.command is Some
}

/// Whether `e` is the entry for the launchable file at `path` with fields `f`: identified by
/// its path, with its name, command, comment, icon and terminal flag, and its categories
/// and keywords split at `;`.
pub open spec fn entry_of(path: Seq<char>, f: DesktopFields, e: AppEntry) -> bool {
    &&& e.id@ == path && e.desktop_file@ == path
    &&& Some(e.name) == f.name && Some(e.command) == f.command
    &&& e.description == f.comment && e.icon == f.icon
    &&& e.terminal == f.terminal
    &&& views(e.categories@) == semicolon_fields(
        match f.categories { Some(s) => s@, None => seq![] },
    )
    &&& views(e.keywords@) == semicolon_fields(
        match f.keywords { Some(s) => s@, None => seq![] },
    )
}

/// The launcher entry for the decoded desktop file at `path`, or `None` when the file is
/// hidden, not an application, or lacks a name or a command.
pub fn entry_from_fields(path: &str, f: DesktopFields) -> (r: Option<AppEntry>)
    ensures
        match r {
            None => !is_launchable(f),
            Some(e) => is_launchable(f) && entry_of(path@, f, e),
        },
{
    if f.no_display || opt_eq(&f.hidden, "true") {
        return None;
    }
    if !opt_eq(&f.type_, "Application") {
        return None;
    }
    let categories = list_or_empty(&f.categories);
    let keywords = list_or_empty(&f.keywords);
    match (f.name, f.command) {
        (Some(name), Some(exec)) => Some(AppEntry {
            id: path.to_string(),
            name,
            description: f.comment,
            icon: f.icon,
            command: exec,
            terminal: f.terminal,
            categories,
            keywords,
            desktop_file: path.to_string(),
        }),
        _ => None,
    }
}

/// Whether `r` is what the launcher takes from the desktop file at `path` with contents
/// `text`, decoded for `locale`: for a file that names no gettext domain, the entry of its
/// decoded fields when they are launchable, else nothing; for one that does, nothing or
/// the entry of some launchable fields.
pub open spec fn file_entry(path: Seq<char>, text: Seq<char>, locale: Option<Seq<char>>, r: Option<AppEntry>) -> bool {
    if names_gettext_domain(text) {
        match r {
            None => true,
            Some(e) => exists|f: DesktopFields| is_launchable(f) && #[trigger] entry_of(path, f, e),
        }
    } else {
        match decoded_desktop_entry(path, text, locale) {
            None => r is None,
            Some(f) => match r {
                None => !is_launchable(f),
                Some(e) => is_launchable(f) && entry_of(path, f, e),
            },
        }
    }
}

/// The launcher entry for the desktop file at `path` with contents `text`, decoded for
/// `locale`; `None` when it does not decode or is not launchable.
pub fn entry_from_desktop_file(path: &str, text: &str, locale: Option<&str>) -> (r: Option<AppEntry>)
    requires
        !has_empty_key(text@),
    ensures
        file_entry(path@, text@, match locale { Some(l) => Some(l@), None => None }, r),
{
    match decode_desktop_entry(path, text, locale) {
        Some(f) => {
            let ghost g = f;
            let r = entry_from_fields(path, f);
            proof {
                if r is Some {
                    assert(is_launchable(g) && entry_of(path@, g, r->0));
                }
            }
            r
        },
        None => None,
    }
}

/// Whether `out` holds, in order, the entries of the launchable desktop files among
/// `files` (path and contents), decoded for `locale`.
pub open spec fn collected(files: Seq<(String, String)>, locale: Option<Seq<char>>, out: Seq<AppEntry>) -> bool
    decreases files.len(),
{
    if files.len() == 0 {
        out.len() == 0
    } else {
        let (path, text) = files.last();
        ||| out.len() > 0 && file_entry(path@, text@, locale, Some(out.last())) && collected(
            files.drop_last(),
            locale,
            out.drop_last(),
        )
        ||| file_entry(path@, text@, locale, None) && collected(files.drop_last(), locale, out)
    }
}

/// The launcher entries of the desktop files read from the application directories
/// (path and contents each), decoded for `locale`; files that do not decode or are not
/// launchable are skipped.
pub fn collect_entries(files: &Vec<(String, String)>, locale: Option<&str>) -> (r: Vec<AppEntry>)
    requires
        forall|i: int| 0 <= i < files@.len() ==> !has_empty_key((#[trigger] files@[i]).1@),
    ensures
        collected(files@, match locale { Some(l) => Some(l@), None => None }, r@),
{
    let ghost loc = match locale {
        Some(l) => Some(l@),
        None => None,
    };
    let mut out: Vec<AppEntry> = Vec::new();
    let mut i: usize = 0;
    while i < files.len()
        invariant
            i <= files.len(),
            loc == match locale { Some(l) => Some(l@), None => None },
            collected(files@.take(i as int), loc, out@),
            forall|k: int| 0 <= k < files@.len() ==> !has_empty_key((#[trigger] files@[k]).1@),
        decreases files.len() - i,
    {
        proof {
            assert(files@.take(i + 1).drop_last() =~= files@.take(i as int));
            assert(files@.take(i + 1).last() == files@[i as int]);
        }
        match entry_from_desktop_file(&files[i].0, &files[i].1, locale) {
            Some(e) => {
                let ghost before = out@;
                out.push(e);
                proof {
                    assert(out@.drop_last() =~= before);
                }
            },
            None => {},
        }
        i += 1;
    }
    proof {
        assert(files@.take(files.len() as int) =~= files@);
    }
    out
}

/// The directories searched for desktop files: `applications` under the user's data
/// directory (when known), then under each non-empty entry of `$XDG_DATA_DIRS` (by
/// default `/usr/local/share:/usr/share`).
pub open spec fn application_dirs(data_local: Option<String>, xdg_data_dirs: Option<String>) -> Seq<Seq<char>> {
    let user = match data_local {
        Some(d) => seq![path_join(d@, "applications"@)],
        None => Seq::empty(),
    };
    let system = fields(
        match xdg_data_dirs {
            Some(x) => x@,
            None => "/usr/local/share:/usr/share"@,
        },
        ':',
    );
    user + system.map_values(|d: Seq<char>| path_join(d, "applications"@))
}

/// The application directories, for the user's data directory and `$XDG_DATA_DIRS`.
pub fn xdg_application_dirs(data_local: Option<String>, xdg_data_dirs: Option<String>) -> (r: Vec<String>)
    ensures
        views(r@) == application_dirs(data_local, xdg_data_dirs),
{
    let mut dirs: Vec<String> = Vec::new();
    let ghost user = match &data_local {
        Some(d) => seq![path_join(d@, "applications"@)],
        None => Seq::<Seq<char>>::empty(),
    };
    match &data_local {
        Some(home) => {
            dirs.push(join_path(home, "applications"));
        },
        None => {},
    }
    proof {
        assert(views(dirs@) =~= user);
    }
    let list = match &xdg_data_dirs {
        Some(x) => x.clone(),
        None => crate::text::owned("/usr/local/share:/usr/share"),
    };
    let parts = split_nonempty(&list, ':');
    let ghost system = views(parts@);
    let mut i: usize = 0;
    while i < parts.len()
        invariant
            i <= parts.len(),
            system == views(parts@),
            views(dirs@) == user + system.take(i as int).map_values(
                |d: Seq<char>| path_join(d, "applications"@),
            ),
        decreases parts.len() - i,
    {
        let d = join_path(&parts[i], "applications");
        let ghost before = views(dirs@);
        dirs.push(d);
        proof {
            assert(views(dirs@) =~= before.push(d@));
            assert(system.take(i + 1).map_values(|d: Seq<char>| path_join(d, "applications"@))
                =~= system.take(i as int).map_values(
                |d: Seq<char>| path_join(d, "applications"@),
            ).push(path_join(system[i as int], "applications"@)));
        }
        i += 1;
    }
    proof {
        assert(system.take(parts.len() as int) =~= system);
    }
    dirs
}

/// `dirs::data_local_dir()` (`$XDG_DATA_HOME`, else `~/.local/share`), as a string. It
/// reads the environment, so nothing is stated of its result.
#[verifier::external_body]
fn data_local_dir() -> (r: Option<String>)
{
    match dirs::data_local_dir() {
        Some(p) => Some(p.to_string_lossy().into_owned()),
        None => None,
    }
}

/// The application directories of this user, given `$XDG_DATA_DIRS` (`None` when unset).
pub fn application_dirs_for_user(xdg_data_dirs: Option<String>) -> (r: Vec<String>)
    ensures
        exists|data_local: Option<String>| views(r@) == application_dirs(data_local, xdg_data_dirs),
{
    let local = data_local_dir();
    let ghost l = local;
    let r = xdg_application_dirs(local, xdg_data_dirs);
    proof {
        assert(views(r@) == application_dirs(l, xdg_data_dirs));
    }
    r
}

/// The locale a desktop file is read for, from `$LANG`: its part before the first `.`,
/// with `_` turned into `-` (`en_US.UTF-8` gives `en-US`).
pub open spec fn locale_of(lang: Seq<char>) -> Seq<char> {
    let base = match first_dot(lang) {
        Some(i) => lang.take(i),
        None => lang,
    };
    base.map_values(|c: char| if c == '_' { '-' } else { c })
}

/// The index of the first `.` in `s`.
pub open spec fn first_dot(s: Seq<char>) -> Option<int>
    decreases s.len(),
{
    if s.len() == 0 {
        None
    } else {
        match first_dot(s.drop_last()) {
            Some(i) => Some(i),
            None => if s.last() == '.' {
                Some(s.len() - 1)
            } else {
                None
            },
        }
    }
}

/// The locale for `$LANG` (none when it is unset).
pub fn current_locale(lang: Option<String>) -> (r: Option<String>)
    ensures
        match lang {
            Some(l) => r matches Some(x) && x@ == locale_of(l@),
            None => r is None,
        },
{
    let l = match lang {
        Some(l) => l,
        None => return None,
    };
    let v = chars_of(&l);
    let mut out: Vec<char> = Vec::new();
    let mut i: usize = 0;
    while i < v.len() && v[i] != '.'
        invariant
            i <= v.len(),
            v@ == l@,
            first_dot(l@.take(i as int)) is None,
            out@ == l@.take(i as int).map_values(|c: char| if c == '_' { '-' } else { c }),
        decreases v.len() - i,
    {
        proof {
            assert(l@.take(i + 1).drop_last() =~= l@.take(i as int));
        }
        out.push(if v[i] == '_' { '-' } else { v[i] });
        proof {
            assert(out@ =~= l@.take(i + 1).map_values(|c: char| if c == '_' { '-' } else { c }));
        }
        i += 1;
    }
    proof {
        if i < v.len() {
            assert(l@.take(i + 1).drop_last() =~= l@.take(i as int));
            lemma_first_dot_prefix(l@, i + 1);
        } else {
            assert(l@.take(i as int) =~= l@);
        }
    }
    Some(string_from_chars(out.as_slice()))
}

proof fn lemma_first_dot_prefix(s: Seq<char>, k: int)
    requires
        0 <= k <= s.len(),
        first_dot(s.take(k)) is Some,
    ensures
        first_dot(s) == first_dot(s.take(k)),
    decreases s.len(),
{
    if k < s.len() {
        assert(s.drop_last().take(k) =~= s.take(k));
        lemma_first_dot_prefix(s.drop_last(), k);
    } else {
        assert(s.take(k) =~= s);
    }
}

} // verus!
