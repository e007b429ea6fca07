use vstd::prelude::*;

use crate::asset::{
    default_not_found, default_not_found_view, respond_with, Asset, Response, STATUS_NOT_FOUND,
    STATUS_OK,
};
use crate::embedded::{lookup, StaticFiles, StoreView};
use crate::request_path::{
    directory_index, directory_index_key, index_key, index_name, not_found_key, not_found_name,
    trim_leading_slashes, trim_slashes,
};

verus! {

/// Where in the fallback chain a lookup stands.
#[derive(Clone, Copy, Debug, PartialEq, Eq, Structural)]
pub enum Stage {
    /// The request path itself.
    Exact,
    /// The index document of the directory that the path names.
    DirectoryIndex,
    /// The site's root index document.
    RootIndex,
    /// The site's own not-found page.
    CustomNotFound,
}

/// What to do after a lookup: look up the next key, or answer.
#[derive(Debug)]
pub enum Step {
    /// Look up the key of this stage next.
    Lookup(Stage),
    /// Answer with this response; the chain is done.
    Respond(Response),
}

/// The key that `stage` asks the store for, for a request path.
pub open spec fn stage_key(stage: Stage, path: Seq<char>) -> Seq<char> {
    match stage {
        Stage::Exact => trim_slashes(path),
        Stage::DirectoryIndex => directory_index_key(path),
        Stage::RootIndex => index_name(),
        Stage::CustomNotFound => not_found_name(),
    }
}

/// The status of an answer found at `stage`: only the not-found page answers "not found".
pub open spec fn stage_status(stage: Stage) -> u16 {
    if stage == Stage::CustomNotFound {
        STATUS_NOT_FOUND
    } else {
        STATUS_OK
    }
}

/// The stage tried after a miss at `stage`; none after the not-found page.
pub open spec fn next_stage(stage: Stage, index_fallback: bool) -> Option<Stage> {
    match stage {
        Stage::Exact => if index_fallback {
            Some(Stage::DirectoryIndex)
        } else {
            Some(Stage::CustomNotFound)
        },
        Stage::DirectoryIndex => Some(Stage::RootIndex),
        Stage::RootIndex => Some(Stage::CustomNotFound),
        Stage::CustomNotFound => None,
    }
}

/// How many stages may still follow `stage`.
pub open spec fn stages_left(stage: Stage) -> nat {
    match stage {
        Stage::Exact => 3,
        Stage::DirectoryIndex => 2,
        Stage::RootIndex => 1,
        Stage::CustomNotFound => 0,
    }
}

/// An answer with the given status carrying an asset.
pub open spec fn with_status(status: u16, a: (Seq<u8>, Seq<char>)) -> (u16, Seq<u8>, Seq<char>) {
    (status, a.0, a.1)
}

/// An answer with success status carrying an asset.
pub open spec fn found(a: (Seq<u8>, Seq<char>)) -> (u16, Seq<u8>, Seq<char>) {
    (STATUS_OK, a.0, a.1)
}

/// The answer for any request that finds nothing: the site's own not-found page, else the
/// built-in one; "not found" either way.
pub open spec fn not_found_outcome(store: StoreView) -> (u16, Seq<u8>, Seq<char>) {
    match lookup(store, not_found_name()) {
        Some(a) => (STATUS_NOT_FOUND, a.0, a.1),
        None => default_not_found_view(),
    }
}

/// The answer to a request path: the exact match; with index fallback, the directory's index
/// and then the root index; else the not-found answer.
pub open spec fn resolution(store: StoreView, path: Seq<char>, index_fallback: bool) -> (
    u16,
    Seq<u8>,
    Seq<char>,
) {
    match lookup(store, trim_slashes(path)) {
        Some(a) => found(a),
        None => if !index_fallback {
            not_found_outcome(store)
        } else {
            match lookup(store, directory_index_key(path)) {
                Some(a) => found(a),
                None => match lookup(store, index_name()) {
                    Some(a) => found(a),
                    None => not_found_outcome(store),
                },
            }
        },
    }
}

/// The answer to a request path when the chain is entered at `stage`.
pub open spec fn resolution_from(
    store: StoreView,
    path: Seq<char>,
    index_fallback: bool,
    stage: Stage,
) -> (u16, Seq<u8>, Seq<char>)
    decreases stages_left(stage),
{
    match lookup(store, stage_key(stage, path)) {
        Some(a) => (stage_status(stage), a.0, a.1),
        None => match next_stage(stage, index_fallback) {
            Some(s) => if stages_left(s) < stages_left(stage) {
                resolution_from(store, path, index_fallback, s)
            } else {
                default_not_found_view()
            },
            None => default_not_found_view(),
        },
    }
}

/// Entered at its first stage, the chain gives the answer that `resolution` states.
pub proof fn lemma_chain_resolves(store: StoreView, path: Seq<char>, index_fallback: bool)
    ensures
        resolution_from(store, path, index_fallback, Stage::Exact) == resolution(
            store,
            path,
            index_fallback,
        ),
{
    reveal_with_fuel(resolution_from, 4);
}

/// The stage that every resolution begins with.
pub fn first_stage() -> (r: Stage)
    ensures
        r == Stage::Exact,
{
    Stage::Exact
}

/// The key that `stage` asks the store for, for a request path.
pub fn lookup_key(stage: Stage, path: &str) -> (r: String)
    ensures
        r@ == stage_key(stage, path@),
{
    match stage {
        Stage::Exact => trim_leading_slashes(path),
        Stage::DirectoryIndex => directory_index(path),
        Stage::RootIndex => index_key(),
        Stage::CustomNotFound => not_found_key(),
    }
}

/// The decision after a lookup at `stage` that came back with `found`.
pub fn advance(stage: Stage, index_fallback: bool, found: Option<Asset>) -> (r: Step)
    ensures
        match found {
            Some(a) => r matches Step::Respond(resp) && resp@ == (stage_status(stage), a@.0, a@.1),
            None => match next_stage(stage, index_fallback) {
                Some(s) => r matches Step::Lookup(t) && t == s,
                None => r matches Step::Respond(resp) && resp@ == default_not_found_view(),
            },
        },
{
    match found {
        Some(a) => {
            let status = if stage == Stage::CustomNotFound {
                STATUS_NOT_FOUND
            } else {
                STATUS_OK
            };
            Step::Respond(respond_with(status, a))
        },
        None => match stage {
            Stage::Exact => if index_fallback {
                Step::Lookup(Stage::DirectoryIndex)
            } else {
                Step::Lookup(Stage::CustomNotFound)
            },
            Stage::DirectoryIndex => Step::Lookup(Stage::RootIndex),
            Stage::RootIndex => Step::Lookup(Stage::CustomNotFound),
            Stage::CustomNotFound => Step::Respond(default_not_found()),
        },
    }
}

/// The answer to a request path from the embedded table.
pub fn resolve(files: &StaticFiles, path: &str, index_fallback: bool) -> (r: Response)
    ensures
        r@ == resolution(files@, path@, index_fallback),
{
    proof {
        lemma_chain_resolves(files@, path@, index_fallback);
    }
    let mut stage = first_stage();
    loop
        invariant
            resolution_from(files@, path@, index_fallback, stage) == resolution(
                files@,
                path@,
                index_fallback,
            ),
        decreases stages_left(stage),
    {
        let key = lookup_key(stage, path);
        let found = files.fetch(&key);
        match advance(stage, index_fallback, found) {
            Step::Lookup(s) => {
                stage = s;
            },
            Step::Respond(r) => {
                return r;
            },
        }
    }
}

/// A path that names a stored asset is answered with that asset and success status, with or
/// without index fallback.
pub proof fn law_exact_match_served(store: StoreView, path: Seq<char>, index_fallback: bool)
    requires
        lookup(store, trim_slashes(path)) is Some,
    ensures
        resolution(store, path, index_fallback) == found(lookup(store, trim_slashes(path))->0),
        resolution(store, path, index_fallback).0 == STATUS_OK,
{
}

/// With index fallback and no exact match, the directory's index is answered if stored, else
/// the root index if stored, both with success status; else the not-found answer.
pub proof fn law_index_fallback_order(store: StoreView, path: Seq<char>)
    requires
        lookup(store, trim_slashes(path)) is None,
    ensures
        lookup(store, directory_index_key(path)) is Some ==> resolution(store, path, true)
            == found(lookup(store, directory_index_key(path))->0),
        lookup(store, directory_index_key(path)) is None && lookup(store, index_name()) is Some
            ==> resolution(store, path, true) == found(lookup(store, index_name())->0),
        lookup(store, directory_index_key(path)) is None && lookup(store, index_name()) is None
            ==> resolution(store, path, true) == not_found_outcome(store),
{
}

/// Without index fallback, a path with no exact match goes straight to the not-found answer,
/// whatever index documents are stored.
pub proof fn law_no_fallback_not_found(store: StoreView, path: Seq<char>)
    requires
        lookup(store, trim_slashes(path)) is None,
    ensures
        resolution(store, path, false) == not_found_outcome(store),
{
}

/// Whether one of the lookups before the not-found page matches: the exact path, or, with
/// index fallback, the directory's index or the root index.
pub open spec fn finds_content(store: StoreView, path: Seq<char>, index_fallback: bool) -> bool {
    ||| lookup(store, trim_slashes(path)) is Some
    ||| index_fallback && lookup(store, directory_index_key(path)) is Some
    ||| index_fallback && lookup(store, index_name()) is Some
}

/// The status is success exactly when a content lookup matched, and "not found" otherwise.
pub proof fn law_status_policy(store: StoreView, path: Seq<char>, index_fallback: bool)
    ensures
        finds_content(store, path, index_fallback) ==> resolution(store, path, index_fallback).0
            == STATUS_OK,
        !finds_content(store, path, index_fallback) ==> resolution(store, path, index_fallback)
            == not_found_outcome(store),
        not_found_outcome(store).0 == STATUS_NOT_FOUND,
{
}

/// Where the store holds a not-found page, every not-found answer carries that page, with
/// status "not found".
pub proof fn law_custom_not_found_page(store: StoreView, path: Seq<char>, index_fallback: bool)
    requires
        lookup(store, not_found_name()) is Some,
    ensures
        !finds_content(store, path, index_fallback) ==> resolution(store, path, index_fallback)
            == with_status(STATUS_NOT_FOUND, lookup(store, not_found_name())->0),
{
}

/// Where the store holds no not-found page, every not-found answer is the built-in one.
pub proof fn law_default_not_found(store: StoreView, path: Seq<char>, index_fallback: bool)
    requires
        lookup(store, not_found_name()) is None,
    ensures
        !finds_content(store, path, index_fallback) ==> resolution(store, path, index_fallback)
            == default_not_found_view(),
{
}

/// Resolving a path again against a store with the same contents gives the same answer.
pub proof fn law_resolution_repeatable(
    first: StoreView,
    second: StoreView,
    path: Seq<char>,
    index_fallback: bool,
)
    requires
        first == second,
    ensures
        resolution(first, path, index_fallback) == resolution(second, path, index_fallback),
{
}

} // verus!
