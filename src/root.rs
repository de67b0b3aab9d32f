use vstd::prelude::*;
use crate::api::{ResultItem, SearchResults};

verus! {

/// What the result area shows before any search has returned a listing.
pub const EMPTY_MESSAGE: &'static str = "Search for robots from the CRF2";

/// The page around the search form: it holds the listings of the last
/// search.
pub struct RootComponent {
    results: Vec<ResultItem>,
}

/// What the result area shows: the empty-state message, or one entry per
/// listing, keyed by the robot's identifier.
pub enum RootView {
    Empty(String),
    Listing(Vec<String>),
}

/// The mathematical value of a `RootView`.
pub ghost enum RootShape {
    Empty(Seq<char>),
    Listing(Seq<Seq<char>>),
}

impl View for RootView {
    type V = RootShape;

    open spec fn view(&self) -> RootShape {
        match self {
            RootView::Empty(m) => RootShape::Empty(m@),
            RootView::Listing(keys) => RootShape::Listing(keys@.map_values(|k: String| k@)),
        }
    }
}

/// The keys of a list of listings: each robot's identifier, in order.
pub open spec fn listing_keys(results: Seq<ResultItem>) -> Seq<Seq<char>> {
    results.map_values(|r: ResultItem| r.robot.id@)
}

/// What the result area shows for a list of listings.
pub open spec fn shape_of(results: Seq<ResultItem>) -> RootShape {
    if results.len() == 0 {
        RootShape::Empty(EMPTY_MESSAGE@)
    } else {
        RootShape::Listing(listing_keys(results))
    }
}

/// The listings held after a search returns: the new ones, whatever was held
/// before.
pub open spec fn results_after(prior: Seq<ResultItem>, incoming: Seq<ResultItem>) -> Seq<
    ResultItem,
> {
    incoming
}

impl RootComponent {
    /// The listings currently held, in the order they arrived.
    pub closed spec fn shown(&self) -> Seq<ResultItem> {
        self.results@
    }

    /// A page that holds no listings yet.
    pub fn create() -> (r: Self)
        ensures
            r.shown() == Seq::<ResultItem>::empty(),
    {
        RootComponent { results: Vec::new() }
    }

    /// Takes the listings of a finished search, in place of all those held.
    pub fn update(&mut self, msg: SearchResults)
        ensures
            final(self).shown() == results_after(old(self).shown(), msg.results@),
    {
        self.results = msg.results;
    }

    /// The listings currently held.
    pub fn results(&self) -> (r: &Vec<ResultItem>)
        ensures
            r@ == self.shown(),
    {
        &self.results
    }

    /// What the result area shows now.
    pub fn view(&self) -> (r: RootView)
        ensures
            r@ == shape_of(self.shown()),
    {
        if self.results.len() == 0 {
            return RootView::Empty(EMPTY_MESSAGE.to_owned());
        }
        let mut keys: Vec<String> = Vec::new();
        let mut i: usize = 0;
        while i < self.results.len()
            invariant
                i <= self.results@.len(),
                keys@.map_values(|k: String| k@) == listing_keys(self.results@.take(i as int)),
            decreases self.results@.len() - i,
        {
            let ghost before = keys@.map_values(|k: String| k@);
            let id = self.results[i].robot.id.clone();
            keys.push(id);
            assert(keys@.map_values(|k: String| k@) =~= before.push(id@));
            assert(self.results@.take(i + 1) =~= self.results@.take(i as int).push(
                self.results@[i as int],
            ));
            assert(keys@.map_values(|k: String| k@) =~= listing_keys(
                self.results@.take(i + 1),
            ));
            i = i + 1;
        }
        assert(self.results@.take(i as int) =~= self.results@);
        RootView::Listing(keys)
    }
}

/// A finished search replaces the listings shown outright: what was shown
/// before plays no part, and an empty result brings the empty-state message
/// back.
pub proof fn lemma_search_replaces_listing(prior: Seq<ResultItem>, incoming: Seq<ResultItem>)
    ensures
        shape_of(results_after(prior, incoming)) == shape_of(incoming),
        incoming.len() == 0 ==> shape_of(results_after(prior, incoming)) == RootShape::Empty(
            EMPTY_MESSAGE@,
        ),
        incoming.len() > 0 ==> shape_of(results_after(prior, incoming)) == RootShape::Listing(
            listing_keys(incoming),
        ),
{
}

} // verus!
