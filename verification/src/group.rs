//! Group identity: a group's canonical name and the numeric id that stands for it.

use std::collections::hash_map::DefaultHasher;
use std::hash::{Hash, Hasher};
use vstd::prelude::*;
use vstd::std_specs::hash::DefaultHasherAdditionalSpecFns;
use vstd::string::StringExecFns;

verus! {

/// What hashing a piece of text feeds to a hasher, as the writes that arrive there.
pub uninterp spec fn text_writes(text: Seq<char>) -> Seq<Seq<u8>>;

/// Feeds `text` to `state` through `Hash::hash` of `str`.
///
/// Trusted: the writes that reach the hasher depend on the text alone and
/// are added behind those already there.
#[verifier::external_body]
fn feed_text(text: &str, state: &mut DefaultHasher)
    ensures
        final(state)@ == old(state)@ + text_writes(text@),
{
    text.hash(state)
}

/// The id of the group with canonical name `name`: the low 32 bits of the
/// default hasher's digest of the name.
pub open spec fn group_id(name: Seq<char>) -> u32 {
    DefaultHasher::spec_finish(text_writes(name)) as u32
}

/// Computes the id of a group from its canonical name.
pub fn text_to_hash(text: String) -> (id: u32)
    ensures
        id == group_id(text@),
{
    let mut hasher = DefaultHasher::new();
    feed_text(text.as_str(), &mut hasher);
    let digest: u64 = hasher.finish();
    assert(Seq::<Seq<u8>>::empty() + text_writes(text@) =~= text_writes(text@));
    #[verifier::truncate]
    (digest as u32)
}

/// The canonical name of a group: the name of the workspace's directory,
/// a slash, and the name of the group's directory, each with whatever
/// extension it has.
pub open spec fn canonical_name(workspace_name: Seq<char>, directory_name: Seq<char>) -> Seq<char> {
    workspace_name + "/"@ + directory_name
}

/// Builds the canonical name of a group.
pub fn group_name(workspace_name: &str, directory_name: &str) -> (name: String)
    ensures
        name@ == canonical_name(workspace_name@, directory_name@),
{
    String::from_str(workspace_name).concat("/").concat(directory_name)
}

/// The id of a group is a function of its canonical name: two names that
/// are the same text have the same id.
pub proof fn law_group_id_is_a_function_of_the_name(first: Seq<char>, second: Seq<char>)
    requires
        first =~= second,
    ensures
        group_id(first) == group_id(second),
{
}

} // verus!
