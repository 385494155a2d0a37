//! The persisted cluster identity: a single token, `k3scontainer-` followed
//! by sixteen lowercase-alphanumeric characters, generated once and reused
//! for every runtime resource name derived from it.

use vstd::prelude::*;

use crate::consts;
use crate::error::Error;
use crate::text;

verus! {

/// Characters admitted in a generated identity suffix.
pub open spec fn is_name_char(c: char) -> bool {
    ('a' <= c && c <= 'z') || ('0' <= c && c <= '9')
}

/// A well-formed generated suffix: sixteen lowercase-alphanumeric characters.
pub open spec fn valid_suffix(s: Seq<char>) -> bool {
    s.len() == 16 && forall|i: int| 0 <= i < s.len() ==> is_name_char(#[trigger] s[i])
}

/// A well-formed cluster identity: the fixed prefix followed by a valid suffix.
pub open spec fn valid_identity(s: Seq<char>) -> bool {
    &&& s.len() == consts::name_prefix_view().len() + 16
    &&& s.take(consts::name_prefix_view().len() as int) == consts::name_prefix_view()
    &&& valid_suffix(s.skip(consts::name_prefix_view().len() as int))
}

/// Relies on `random_string::generate`: the result holds exactly the
/// requested number of characters, each drawn from the given charset, and the
/// call panics only on an empty charset, which this one is not.
#[verifier::external_body]
fn random_suffix() -> (r: String)
    ensures
        valid_suffix(r@),
{
    random_string::generate(16, "abcdefghijklmnopqrstuvwxyz0123456789")
}

/// Generates a fresh cluster identity from the fixed prefix and a random
/// lowercase-alphanumeric suffix.
pub fn generate_cluster_name() -> (r: String)
    ensures
        valid_identity(r@),
{
    let mut name = String::from_str(consts::name_prefix());
    let suffix = random_suffix();
    name.append(suffix.as_str());
    proof {
        assert(name@.take(consts::name_prefix_view().len() as int)
            =~= consts::name_prefix_view());
        assert(name@.skip(consts::name_prefix_view().len() as int) =~= suffix@);
    }
    name
}

/// Reads the persisted token out of the identity file's content: `Some` of
/// the first line when it is non-empty, `None` when the file holds no token
/// yet (an empty or corrupt-empty file counts as absent).
pub fn parse_identity(content: &str) -> (r: Option<String>)
    ensures
        match r {
            Some(name) => name@ == text::first_line_of(content@) && name@.len() > 0,
            None => text::first_line_of(content@).len() == 0,
        },
{
    let line = text::first_line(content);
    if line.as_str().unicode_len() == 0 {
        None
    } else {
        Some(line)
    }
}

/// The identity store's read operation, on the identity file's content:
/// the persisted token when the first line is non-empty, else the error that
/// removal maps to its idempotent no-op.
pub fn obtain_cluster_name(content: &str) -> (r: Result<String, Error>)
    ensures
        match r {
            Ok(name) => name@ == text::first_line_of(content@) && name@.len() > 0,
            Err(e) => e == Error::ClusterNameEmpty && text::first_line_of(content@).len() == 0,
        },
{
    match parse_identity(content) {
        Some(name) => Ok(name),
        None => Err(Error::ClusterNameEmpty),
    }
}

/// The identity store's read-or-create operation, on the identity file's
/// content: an existing token is returned with nothing to persist; an empty
/// file yields a freshly generated identity together with the line that must
/// be written back (the token and a line feed) before it is used.
pub fn obtain_or_generate_and_save_cluster_name(content: &str) -> (r: (String, Option<String>))
    ensures
        text::first_line_of(content@).len() > 0 ==> r.0@ == text::first_line_of(content@)
            && r.1 is None,
        text::first_line_of(content@).len() == 0 ==> valid_identity(r.0@) && match r.1 {
            Some(w) => w@ == r.0@ + "\n"@,
            None => false,
        },
{
    match parse_identity(content) {
        Some(name) => (name, None),
        None => {
            let fresh = generate_cluster_name();
            let mut line = fresh.clone();
            line.append("\n");
            (fresh, Some(line))
        },
    }
}

/// A persisted token followed by a line terminator reads back as the same
/// token: writing `name` plus a line feed and later taking the first line of
/// the file returns `name` unchanged.
pub proof fn lemma_identity_round_trip(name: Seq<char>)
    requires
        valid_identity(name),
    ensures
        text::first_line_of(name + "\n"@) == name,
{
    reveal_strlit("\n");
    let full = name + "\n"@;
    lemma_no_line_feed_in_identity(name);
    text::lemma_line_break_at(full);
    assert(full[name.len() as int] == '\n');
    assert(text::line_break_at(full) == name.len()) by {
        if text::line_break_at(full) < name.len() {
            assert(full[text::line_break_at(full)] == '\n');
            assert(name[text::line_break_at(full)] == '\n');
        }
    }
    assert(full.take(name.len() as int) =~= name);
    assert(name.len() > 0 && !(name.last() == '\r'));
}

/// No character of a well-formed identity is a line feed or carriage return.
proof fn lemma_no_line_feed_in_identity(name: Seq<char>)
    requires
        valid_identity(name),
    ensures
        forall|i: int| 0 <= i < name.len() ==> name[i] != '\n' && name[i] != '\r',
{
    reveal_strlit("k3scontainer-");
    let p = consts::name_prefix_view().len() as int;
    assert forall|i: int| 0 <= i < name.len() implies name[i] != '\n' && name[i] != '\r' by {
        if i < p {
            assert(name.take(p)[i] == name[i]);
            assert(consts::name_prefix_view()[i] == name[i]);
        } else {
            assert(name.skip(p)[i - p] == name[i]);
            assert(is_name_char(name[i]));
        }
    }
}

} // verus!
