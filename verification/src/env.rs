//! The environment of a userdata script, as it is stored: JSON.

use vstd::prelude::*;

#[allow(unused_imports)]
use crate::requests::pair_views;
#[allow(unused_imports)]
use crate::text::opt_view;

verus! {

/// What `serde_json::to_string` makes of a list of pairs of strings.
pub uninterp spec fn pairs_to_json(pairs: Seq<(Seq<char>, Seq<char>)>) -> Seq<char>;

/// What `serde_json::from_str` reads as a list of pairs of strings, if it can.
pub uninterp spec fn pairs_from_json(json: Seq<char>) -> Option<Seq<(Seq<char>, Seq<char>)>>;

/// `serde_json::to_string` on a list of pairs of strings, which it always can
/// write; `serde_json::from_str` reads the same list back from what was written.
#[verifier::external_body]
fn write_pairs(pairs: &Vec<(String, String)>) -> (r: String)
    ensures
        r@ == pairs_to_json(pair_views(pairs@)),
        pairs_from_json(r@) == Some(pair_views(pairs@)),
{
    serde_json::to_string(pairs).expect("env serializes to JSON")
}

/// `serde_json::from_str` on a text, for a list of pairs of strings.
#[verifier::external_body]
fn read_pairs(json: &str) -> (r: Option<Vec<(String, String)>>)
    ensures
        r is Some <==> pairs_from_json(json@) is Some,
        r matches Some(v) ==> pairs_from_json(json@) == Some(pair_views(v@)),
{
    serde_json::from_str(json).ok()
}

/// What is stored for an environment: nothing for an empty one.
pub open spec fn stored_env(pairs: Seq<(Seq<char>, Seq<char>)>) -> Option<Seq<char>> {
    if pairs.len() == 0 { None } else { Some(pairs_to_json(pairs)) }
}

/// The environment that a stored one stands for, where `read` is what reading it
/// gave: what cannot be read counts as empty.
pub open spec fn env_or_empty(read: Option<Seq<(Seq<char>, Seq<char>)>>) -> Seq<
    (Seq<char>, Seq<char>),
> {
    match read {
        Some(pairs) => pairs,
        None => Seq::empty(),
    }
}

/// The environment that a stored one stands for.
pub open spec fn loaded_env(stored: Option<Seq<char>>) -> Seq<(Seq<char>, Seq<char>)> {
    match stored {
        Some(json) => env_or_empty(pairs_from_json(json)),
        None => Seq::empty(),
    }
}

/// What is stored for an environment: nothing for an empty one. Loading it gives
/// the environment back.
pub fn store_env(env: &Vec<(String, String)>) -> (r: Option<String>)
    ensures
        opt_view(r) == stored_env(pair_views(env@)),
        loaded_env(opt_view(r)) == pair_views(env@),
{
    if env.len() == 0 {
        proof {
            assert(pair_views(env@) =~= Seq::empty());
        }
        None
    } else {
        Some(write_pairs(env))
    }
}

/// The environment, or an empty one where there is none.
pub fn or_empty(read: Option<Vec<(String, String)>>) -> (r: Vec<(String, String)>)
    ensures
        pair_views(r@) == env_or_empty(match read {
            Some(v) => Some(pair_views(v@)),
            None => None,
        }),
{
    match read {
        Some(v) => v,
        None => {
            let v: Vec<(String, String)> = Vec::new();
            proof {
                assert(pair_views(v@) =~= Seq::empty());
            }
            v
        },
    }
}

/// The environment that a stored one stands for; what cannot be read counts as
/// empty.
pub fn load_env(stored: &Option<String>) -> (r: Vec<(String, String)>)
    ensures
        pair_views(r@) == loaded_env(opt_view(*stored)),
{
    match stored {
        Some(json) => or_empty(read_pairs(json.as_str())),
        None => or_empty(None),
    }
}

/// An environment that cannot be read, or was never stored, is empty; one that was read is
/// itself. Only an empty one is not stored.
pub proof fn unreadable_environments_are_empty(
    json: Seq<char>,
    pairs: Seq<(Seq<char>, Seq<char>)>,
)
    ensures
        loaded_env(None).len() == 0,
        pairs_from_json(json) is None ==> loaded_env(Some(json)).len() == 0,
        pairs_from_json(json) == Some(pairs) ==> loaded_env(Some(json)) == pairs,
        stored_env(pairs) is None <==> pairs.len() == 0,
        env_or_empty(Some(pairs)) == pairs && env_or_empty(None).len() == 0,
{
}

} // verus!
