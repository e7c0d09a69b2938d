//! The npm packages the styling loader may fetch.
use vstd::prelude::*;
use crate::text::str_eq;

verus! {

/// The permitted npm packages; anything else is rejected before any request is made.
pub open spec fn allowed_packages() -> Seq<Seq<char>> {
    seq![
        "sass"@,
        "sass-embedded"@,
        "tailwindcss"@,
        "postcss"@,
        "postcss-import"@,
        "autoprefixer"@,
        "cssnano"@,
        "postcss-nested"@,
        "postcss-custom-properties"@,
    ]
}

/// Whether `pkg` is one of the permitted packages.
pub fn is_allowed(pkg: &str) -> (r: bool)
    ensures
        r == allowed_packages().contains(pkg@),
{
    let names: [&str; 9] = [
        "sass",
        "sass-embedded",
        "tailwindcss",
        "postcss",
        "postcss-import",
        "autoprefixer",
        "cssnano",
        "postcss-nested",
        "postcss-custom-properties",
    ];
    proof {
        assert(names@.map_values(|s: &str| s@) =~= allowed_packages());
    }
    let mut i: usize = 0;
    while i < 9
        invariant
            i <= 9,
            names@.map_values(|s: &str| s@) == allowed_packages(),
            forall|j: int| 0 <= j < i ==> allowed_packages()[j] != pkg@,
        decreases 9 - i,
    {
        if str_eq(names[i], pkg) {
            proof {
                assert(allowed_packages()[i as int] == pkg@);
            }
            return true;
        }
        proof {
            assert(allowed_packages()[i as int] == names@[i as int]@);
        }
        i += 1;
    }
    false
}

} // verus!
