//! The build-spec store's decision logic: the on-disk content is
//! authoritative whenever it is non-empty; an empty file is seeded once with
//! the built-in default.

use vstd::prelude::*;

use crate::consts;

verus! {

/// Resolves the build-spec file's content: an empty file yields the built-in
/// default, which must be persisted (`true`); any non-empty content is
/// accepted as-is, unvalidated, and must not be overwritten (`false`).
pub fn resolve_build_spec(content: String) -> (r: (String, bool))
    ensures
        content@.len() == 0 ==> r.0@ == consts::default_build_spec_view() && r.1,
        content@.len() != 0 ==> r.0 == content && !r.1,
{
    if content.as_str().unicode_len() == 0 {
        (String::from_str(consts::default_build_spec()), true)
    } else {
        (content, false)
    }
}

/// The built-in default is itself non-empty, so the seeding write happens on
/// the first call alone: the next read finds non-empty content and keeps it.
pub proof fn lemma_default_build_spec_nonempty()
    ensures
        consts::default_build_spec_view().len() != 0,
{
    reveal_strlit("FROM docker:dind\nRUN apk add --no-cache bash curl\n");
}

} // verus!
