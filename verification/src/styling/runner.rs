//! Running a cached tool: the file extension of its input, the entry point it is started
//! from, and its arguments.
use vstd::prelude::*;
use crate::launcher::types::views;
use crate::styling::cache::path_exists;
use crate::styling::error::StyleError;
use crate::text::{concat, join_path, owned, path_join, str_eq};

verus! {

/// The file extension of a tool's input: `scss` for the Sass compilers, `css` otherwise.
pub fn source_ext(tool: &str) -> (r: &'static str)
    ensures
        r@ == if tool@ == "sass"@ || tool@ == "sass-embedded"@ { "scss"@ } else { "css"@ },
{
    if str_eq(tool, "sass") || str_eq(tool, "sass-embedded") {
        "scss"
    } else {
        "css"
    }
}

/// The Dart VM shipped with `sass-embedded` in `tool_dir`: `dart-sass/src/dart`.
pub open spec fn dart_vm_for(tool_dir: Seq<char>) -> Seq<char> {
    path_join(path_join(path_join(tool_dir, "dart-sass"@), "src"@), "dart"@)
}

/// The Dart VM shipped with `sass-embedded`.
pub fn dart_vm_path(tool_dir: &str) -> (r: String)
    ensures
        r@ == dart_vm_for(tool_dir@),
{
    let a = join_path(tool_dir, "dart-sass");
    let b = join_path(&a, "src");
    join_path(&b, "dart")
}

/// How a tool is started.
#[derive(Debug, Clone, PartialEq, Eq)]
pub enum Binary {
    /// The Dart VM running the pre-compiled `sass.snapshot`.
    DartSnapshot { dart: String, snapshot: String },
    /// A Node.js script (run by `node`).
    NodeScript(String),
}

/// The content of a [`Binary`].
pub enum BinaryView {
    DartSnapshot { dart: Seq<char>, snapshot: Seq<char> },
    NodeScript(Seq<char>),
}

impl View for Binary {
    type V = BinaryView;

    open spec fn view(&self) -> BinaryView {
        match self {
            Binary::DartSnapshot { dart, snapshot } => BinaryView::DartSnapshot {
                dart: dart@,
                snapshot: snapshot@,
            },
            Binary::NodeScript(p) => BinaryView::NodeScript(p@),
        }
    }
}

/// The entry points of a tool in `dir`, in order of preference; `None` for a tool that
/// has no runner.
pub open spec fn candidates(tool: Seq<char>, dir: Seq<char>) -> Option<Seq<BinaryView>> {
    if tool == "sass"@ {
        Some(
            seq![
                BinaryView::NodeScript(path_join(dir, "bin/sass.js"@)),
                BinaryView::NodeScript(path_join(dir, "sass.js"@)),
            ],
        )
    } else if tool == "sass-embedded"@ {
        Some(
            seq![
                BinaryView::DartSnapshot {
                    dart: dart_vm_for(dir),
                    snapshot: path_join(path_join(path_join(dir, "dart-sass"@), "src"@), "sass.snapshot"@),
                },
                BinaryView::NodeScript(path_join(dir, "bin/sass.js"@)),
                BinaryView::NodeScript(path_join(dir, "sass.js"@)),
            ],
        )
    } else if tool == "tailwindcss"@ {
        Some(
            seq![
                BinaryView::NodeScript(path_join(dir, "bin/tailwind.js"@)),
                BinaryView::NodeScript(path_join(dir, "bin/tailwindcss.js"@)),
            ],
        )
    } else {
        None
    }
}

/// The message when none of a known tool's entry points exists.
pub open spec fn missing_message(tool: Seq<char>, dir: Seq<char>) -> Seq<char> {
    if tool == "sass"@ {
        "no sass entry point found in "@ + dir
    } else if tool == "sass-embedded"@ {
        "no sass-embedded binary found in "@ + dir
    } else {
        "no tailwindcss binary found in "@ + dir
    }
}

fn node_script(dir: &str, rel: &str) -> (r: Binary)
    ensures
        r@ == BinaryView::NodeScript(path_join(dir@, rel@)),
{
    Binary::NodeScript(join_path(dir, rel))
}

/// The contents of a list of entry points.
pub open spec fn binary_views(s: Seq<Binary>) -> Seq<BinaryView> {
    s.map_values(|b: Binary| b@)
}

/// Whether `i` is the first index at which `present` holds.
pub open spec fn first_true(present: Seq<bool>, i: int) -> bool {
    0 <= i < present.len() && present[i] && forall|j: int| 0 <= j < i ==> !present[j]
}

/// The first index at which `present` holds, if any.
pub fn first_present(present: &Vec<bool>) -> (r: Option<usize>)
    ensures
        r matches Some(i) ==> first_true(present@, i as int),
        r is None ==> forall|j: int| 0 <= j < present.len() ==> !present@[j],
{
    let mut i: usize = 0;
    while i < present.len()
        invariant
            i <= present.len(),
            forall|j: int| 0 <= j < i ==> !present@[j],
        decreases present.len() - i,
    {
        if present[i] {
            return Some(i);
        }
        i += 1;
    }
    None
}

/// Whether `r` is the entry point chosen among `cs` when `present` says which of them
/// exist: the first present one, or none when none is.
pub open spec fn picks(cs: Seq<BinaryView>, present: Seq<bool>, r: Option<Binary>) -> bool {
    &&& present.len() == cs.len()
    &&& match r {
        Some(b) => exists|i: int| first_true(present, i) && cs[i] == b@,
        None => forall|j: int| 0 <= j < present.len() ==> !present[j],
    }
}

/// The entry point chosen among `cands` when `present` says which of them exist.
pub fn select_binary(cands: Vec<Binary>, present: &Vec<bool>) -> (r: Option<Binary>)
    requires
        present.len() == cands.len(),
    ensures
        picks(binary_views(cands@), present@, r),
{
    let ghost cs = binary_views(cands@);
    match first_present(present) {
        Some(i) => {
            let mut c = cands;
            let b = c.remove(i);
            proof {
                assert(cs[i as int] == b@);
                assert(first_true(present@, i as int));
            }
            Some(b)
        },
        None => None,
    }
}

/// Whether each entry point exists on disk (for the Dart VM, both the VM and the
/// snapshot).
fn presence(cands: &Vec<Binary>) -> (r: Vec<bool>)
    ensures
        r.len() == cands.len(),
{
    let mut r: Vec<bool> = Vec::new();
    let mut i: usize = 0;
    while i < cands.len()
        invariant
            i <= cands.len(),
            r.len() == i,
        decreases cands.len() - i,
    {
        let ok = match &cands[i] {
            Binary::DartSnapshot { dart, snapshot } => path_exists(dart) && path_exists(snapshot),
            Binary::NodeScript(p) => path_exists(p),
        };
        r.push(ok);
        i += 1;
    }
    r
}

/// The first of `cands` that exists on disk.
fn first_existing(cands: Vec<Binary>) -> (r: Option<Binary>)
    ensures
        exists|present: Seq<bool>| #[trigger] picks(binary_views(cands@), present, r),
{
    let present = presence(&cands);
    let r = select_binary(cands, &present);
    proof {
        assert(picks(binary_views(cands@), present@, r));
    }
    r
}

/// Whether `r` answers a tool with entry points `cs`, given which of them exist: the first
/// present one, or the error `msg` when none is.
pub open spec fn chosen(cs: Seq<BinaryView>, present: Seq<bool>, r: Result<Binary, StyleError>, msg: Seq<char>) -> bool {
    match r {
        Ok(b) => picks(cs, present, Some(b)),
        Err(e) => picks(cs, present, None) && (e matches StyleError::ToolFailed(m) && m@ == msg),
    }
}

/// The entry point of `tool` in `tool_dir`: the first of its candidates that exists on
/// disk (for the Dart VM, both the VM and the snapshot must). A tool without a runner, or
/// whose entry points are all missing, is refused with the reason.
pub fn resolve_binary(tool: &str, tool_dir: &str) -> (r: Result<Binary, StyleError>)
    ensures
        match candidates(tool@, tool_dir@) {
            None => r matches Err(StyleError::ToolFailed(m)) && m@ == "no runner defined for '"@
                + tool@ + "'"@,
            Some(cs) => exists|present: Seq<bool>| #[trigger] chosen(
                cs,
                present,
                r,
                missing_message(tool@, tool_dir@),
            ),
        },
{
    let mut cands: Vec<Binary> = Vec::new();
    let is_sass = str_eq(tool, "sass");
    let is_embedded = str_eq(tool, "sass-embedded");
    let is_tailwind = str_eq(tool, "tailwindcss");
    if is_sass {
        cands.push(node_script(tool_dir, "bin/sass.js"));
        cands.push(node_script(tool_dir, "sass.js"));
    } else if is_embedded {
        let dart = dart_vm_path(tool_dir);
        let a = join_path(tool_dir, "dart-sass");
        let b = join_path(&a, "src");
        let snapshot = join_path(&b, "sass.snapshot");
        cands.push(Binary::DartSnapshot { dart, snapshot });
        cands.push(node_script(tool_dir, "bin/sass.js"));
        cands.push(node_script(tool_dir, "sass.js"));
    } else if is_tailwind {
        cands.push(node_script(tool_dir, "bin/tailwind.js"));
        cands.push(node_script(tool_dir, "bin/tailwindcss.js"));
    } else {
        let a = concat("no runner defined for '", tool);
        return Err(StyleError::ToolFailed(concat(&a, "'")));
    }
    let ghost cs = binary_views(cands@);
    proof {
        assert(candidates(tool@, tool_dir@) == Some(cs));
    }
    let picked = first_existing(cands);
    let ghost present = choose|p: Seq<bool>| #[trigger] picks(cs, p, picked);
    match picked {
        Some(b) => {
            proof {
                assert(chosen(cs, present, Ok::<Binary, StyleError>(b), missing_message(tool@, tool_dir@)));
            }
            Ok(b)
        },
        None => {
            let what = if is_sass {
                "no sass entry point found in "
            } else if is_embedded {
                "no sass-embedded binary found in "
            } else {
                "no tailwindcss binary found in "
            };
            let r = Err(StyleError::ToolFailed(concat(what, tool_dir)));
            proof {
                assert(chosen(cs, present, r, missing_message(tool@, tool_dir@)));
            }
            r
        },
    }
}

/// The arguments of a tool run (after its script or snapshot): for the Sass compilers the
/// input, the output and `--no-source-map`; for Tailwind `-i <input> -o <output>`; for
/// others the input and the output.
pub fn tool_args(tool: &str, input: &str, output: &str) -> (r: Vec<String>)
    ensures
        views(r@) == if tool@ == "sass"@ || tool@ == "sass-embedded"@ {
            seq![input@, output@, "--no-source-map"@]
        } else if tool@ == "tailwindcss"@ {
            seq!["-i"@, input@, "-o"@, output@]
        } else {
            seq![input@, output@]
        },
{
    let mut r: Vec<String> = Vec::new();
    if str_eq(tool, "sass") || str_eq(tool, "sass-embedded") {
        r.push(owned(input));
        r.push(owned(output));
        r.push(owned("--no-source-map"));
        proof {
            assert(views(r@) =~= seq![input@, output@, "--no-source-map"@]);
        }
    } else if str_eq(tool, "tailwindcss") {
        r.push(owned("-i"));
        r.push(owned(input));
        r.push(owned("-o"));
        r.push(owned(output));
        proof {
            assert(views(r@) =~= seq!["-i"@, input@, "-o"@, output@]);
        }
    } else {
        r.push(owned(input));
        r.push(owned(output));
        proof {
            assert(views(r@) =~= seq![input@, output@]);
        }
    }
    r
}

} // verus!
