//! Choosing the favicon among the candidates: the first one, in the order of
//! the harvest, that was fetched and decodes as an image.
//!
//! Fetching is left to the caller, who may fetch the candidates at the same
//! time and in any order. The choice is made over what came back, laid out in
//! the order of the harvest, so that no timing decides it.

use vstd::prelude::*;

use crate::errors::FavilibError;
use crate::favicon::{decoded_raster, Favicon, FaviconView};
use crate::site_url::SiteUrl;

verus! {

/// What came back for one candidate: its URL, and the bytes of the response,
/// or `None` where the transport failed.
#[derive(Debug)]
pub struct Fetched {
    pub url: SiteUrl,
    pub body: Option<Vec<u8>>,
}

/// The value at `at` is the first one that is present in `items`.
pub open spec fn first_present_at<T>(items: Seq<Option<T>>, at: int) -> bool {
    &&& 0 <= at < items.len()
    &&& items[at] is Some
    &&& forall|earlier: int| 0 <= earlier < at ==> items[earlier] is None
}

/// Picks the winner among the outcomes of the candidates, which stand in the
/// order of the harvest: the first favicon that is there. Fails with
/// `NoFaviconFound` exactly where none is.
pub fn first_valid(outcomes: Vec<Option<Favicon>>) -> (winner: Result<Favicon, FavilibError>)
    ensures
        match winner {
            Ok(favicon) => exists|at: int|
                first_present_at(outcomes@, at) && outcomes@[at] == Some(favicon),
            Err(error) => error == FavilibError::NoFaviconFound && forall|at: int|
                0 <= at < outcomes.len() ==> outcomes@[at] is None,
        },
{
    let mut slots = outcomes;
    let mut at: usize = 0;
    while at < slots.len()
        invariant
            slots@ == outcomes@,
            at <= slots.len(),
            forall|earlier: int| 0 <= earlier < at ==> outcomes@[earlier] is None,
        decreases slots.len() - at,
    {
        if slots[at].is_some() {
            let favicon = slots.swap_remove(at).unwrap();
            assert(first_present_at(outcomes@, at as int) && outcomes@[at as int] == Some(
                favicon,
            ));
            return Ok(favicon);
        }
        at += 1;
    }
    Err(FavilibError::NoFaviconFound)
}

/// The candidate was fetched and its bytes decode as an image.
pub open spec fn is_valid(fetched: Fetched) -> bool {
    fetched.body matches Some(body) && decoded_raster(body@) is Some
}

/// The favicon that a valid candidate gives: its URL, the bytes that came
/// back, and the image that they decode as.
pub open spec fn favicon_of(fetched: Fetched) -> FaviconView
    recommends
        is_valid(fetched),
{
    FaviconView {
        url: fetched.url@,
        bytes: fetched.body->0@,
        raster: decoded_raster(fetched.body->0@)->0,
    }
}

/// The candidate at `at` is the first valid one.
pub open spec fn first_valid_at(fetched: Seq<Fetched>, at: int) -> bool {
    &&& 0 <= at < fetched.len()
    &&& is_valid(fetched[at])
    &&& forall|earlier: int| 0 <= earlier < at ==> !is_valid(#[trigger] fetched[earlier])
}

/// Builds the favicon of a candidate from what came back for it. A candidate
/// whose transport failed, or whose bytes do not decode, gives none.
pub fn validate(fetched: Fetched) -> (outcome: Option<Favicon>)
    ensures
        match outcome {
            Some(favicon) => is_valid(fetched) && favicon@ == favicon_of(fetched),
            None => !is_valid(fetched),
        },
{
    match fetched.body {
        Some(body) => match Favicon::build(fetched.url, body) {
            Ok(favicon) => Some(favicon),
            Err(_) => None,
        },
        None => None,
    }
}

/// Resolves the favicon from what came back for the candidates, which stand
/// in the order of the harvest: the favicon of the first candidate that was
/// fetched and decodes. Fails with `NoFaviconFound` exactly where no
/// candidate is valid. Candidates after the winner are not decoded.
pub fn resolve_fetched(fetched: Vec<Fetched>) -> (winner: Result<Favicon, FavilibError>)
    ensures
        match winner {
            Ok(favicon) => exists|at: int|
                first_valid_at(fetched@, at) && favicon@ == favicon_of(fetched@[at]),
            Err(error) => error == FavilibError::NoFaviconFound && forall|at: int|
                0 <= at < fetched.len() ==> !is_valid(#[trigger] fetched@[at]),
        },
{
    let ghost all = fetched@;
    let mut rest = fetched;
    let ghost mut done: int = 0;
    while rest.len() > 0
        invariant
            all == fetched@,
            0 <= done <= all.len(),
            rest@ == all.skip(done),
            forall|earlier: int| 0 <= earlier < done ==> !is_valid(#[trigger] all[earlier]),
        decreases rest.len(),
    {
        let candidate = rest.remove(0);
        assert(candidate == all[done]);
        assert(rest@ =~= all.skip(done + 1));
        match validate(candidate) {
            Some(favicon) => {
                assert(first_valid_at(all, done) && favicon@ == favicon_of(all[done]));
                return Ok(favicon);
            },
            None => {},
        }
        proof {
            done = done + 1;
        }
    }
    Err(FavilibError::NoFaviconFound)
}

} // verus!
