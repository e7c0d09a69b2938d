//! Sanitizing notification bodies to the FDO markup subset.
use vstd::prelude::*;

verus! {

/// What `ammonia` makes of `input` with the FDO subset this crate allows: the tags `b`,
/// `i`, `u`, `a` (with `href`) and `img` (with `src` and `alt`), no other attribute, and
/// ammonia's defaults otherwise (the content of `script` and `style` dropped, other tags
/// stripped with their text kept, text escaped, `rel="noopener noreferrer"` on links).
pub uninterp spec fn fdo_sanitized(input: Seq<char>) -> Seq<char>;

/// `ammonia::Builder::new()` with the FDO tag and attribute allowlist, then `clean(input)`
/// and `to_string()`. The allowlist names no tag that ammonia also drops with its content
/// and no `rel` attribute, so the builder's consistency checks cannot panic.
#[verifier::external_body]
fn ammonia_clean(input: &str) -> (r: String)
    ensures
        r@ == fdo_sanitized(input@),
{
    ammonia::Builder::new()
        .tags(std::collections::HashSet::from(["b", "i", "u", "a", "img"]))
        .tag_attributes(std::collections::HashMap::from([
            ("a", std::collections::HashSet::from(["href"])),
            ("img", std::collections::HashSet::from(["src", "alt"])),
        ]))
        .generic_attributes(std::collections::HashSet::new())
        .clean(input)
        .to_string()
}

/// A notification body as it is kept: the empty body stays empty, any other is sanitized.
pub open spec fn sanitized_body(input: Seq<char>) -> Seq<char> {
    if input.len() == 0 {
        Seq::empty()
    } else {
        fdo_sanitized(input)
    }
}

/// A notification body reduced to the FDO markup subset (`<b>`, `<i>`, `<u>`,
/// `<a href>`, `<img src alt>`); everything else is stripped and bare text is kept. The
/// empty body stays empty.
pub fn sanitize_body(input: &str) -> (r: String)
    ensures
        r@ == sanitized_body(input@),
{
    if input.unicode_len() == 0 {
        return String::new();
    }
    ammonia_clean(input)
}

} // verus!
