//! The selector: one random candidate from the cache, one from the URL
//! list, and a weighted coin that says which of the two is preferred.

use rand::{Rng, ThreadRng};
use vstd::prelude::*;
use crate::urls::views;

verus! {

/// The generator of random numbers that `rand` keeps for each thread.
#[verifier::external_type_specification]
#[verifier::external_body]
pub struct ExThreadRng(rand::ThreadRng);

/// Trusted: `rand::thread_rng` hands out the generator of the calling
/// thread, seeded by the system. Nothing is claimed of it. It panics where
/// the system can give no entropy at all.
pub assume_specification[ rand::thread_rng ]() -> (rng: ThreadRng);

/// One element of `values`, picked at random.
///
/// Trusted: stands for `Rng::choose` of the crate `rand`, which returns
/// `None` for an empty slice and otherwise a reference to the element at a
/// random position of the slice. Which element is not known here.
#[verifier::external_body]
fn choose_one<'a, T>(rng: &mut ThreadRng, values: &'a [T]) -> (picked: Option<&'a T>)
    ensures
        picked is None <==> values@.len() == 0,
        picked matches Some(element) ==> values@.contains(*element),
{
    rng.choose(values)
}

/// A coin that shows heads once in `n` throws.
///
/// Trusted: stands for `Rng::gen_weighted_bool` of the crate `rand`, which
/// returns `true` for `n` of 0 or 1 and otherwise whether a random number
/// below `n` is 0. For `n` above 1 either side may come up.
#[verifier::external_body]
fn weighted_flip(rng: &mut ThreadRng, n: u32) -> (heads: bool)
    ensures
        n <= 1 ==> heads,
{
    rng.gen_weighted_bool(n)
}

/// The cached image is preferred once in this many runs.
pub const LOCAL_WEIGHT: u32 = 3;

/// What the selector chose for one run.
#[derive(Debug, PartialEq, Eq)]
pub struct Selection {
    /// The chosen cache entry; absent where the cache is empty.
    pub local_choice: Option<String>,
    /// The chosen URL; absent where the URL list is empty.
    pub remote_choice: Option<String>,
    /// Whether the cache entry is to be used rather than the URL.
    pub prefer_local: bool,
}

/// The contents of a `Selection`.
pub struct SelectionView {
    pub local_choice: Option<Seq<char>>,
    pub remote_choice: Option<Seq<char>>,
    pub prefer_local: bool,
}

/// The contents of an optional string.
pub open spec fn option_view(text: Option<String>) -> Option<Seq<char>> {
    match text {
        Some(text) => Some(text@),
        None => None,
    }
}

impl View for Selection {
    type V = SelectionView;

    open spec fn view(&self) -> SelectionView {
        SelectionView {
            local_choice: option_view(self.local_choice),
            remote_choice: option_view(self.remote_choice),
            prefer_local: self.prefer_local,
        }
    }
}

/// `choice` is a possible pick from `candidates`: absent where there are
/// none, else one of them.
pub open spec fn picked_from(choice: Option<Seq<char>>, candidates: Seq<Seq<char>>) -> bool {
    match choice {
        Some(choice) => candidates.contains(choice),
        None => candidates.len() == 0,
    }
}

/// A random pick from `candidates`, as an owned string.
fn pick(rng: &mut ThreadRng, candidates: &Vec<String>) -> (choice: Option<String>)
    ensures
        picked_from(option_view(choice), views(candidates@)),
{
    match choose_one(rng, candidates.as_slice()) {
        Some(candidate) => {
            let choice = candidate.clone();
            proof {
                let i = candidates@.index_of(*candidate);
                assert(views(candidates@)[i] == choice@);
            }
            Some(choice)
        },
        None => {
            assert(views(candidates@).len() == 0);
            None
        },
    }
}

/// Chooses the candidates of one run: a random entry of the cache, a random
/// URL of the list, and whether the cache entry is preferred.
///
/// A choice is absent exactly where there is nothing to choose from. The
/// draws are independent and fresh on every call, so two calls on the same
/// input may differ.
pub fn select(cache_entries: &Vec<String>, urls: &Vec<String>) -> (selection: Selection)
    ensures
        picked_from(selection@.local_choice, views(cache_entries@)),
        picked_from(selection@.remote_choice, views(urls@)),
{
    let mut rng = rand::thread_rng();
    let local_choice = pick(&mut rng, cache_entries);
    let remote_choice = pick(&mut rng, urls);
    let prefer_local = weighted_flip(&mut rng, LOCAL_WEIGHT);
    Selection { local_choice, remote_choice, prefer_local }
}

} // verus!
