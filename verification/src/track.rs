use vstd::prelude::*;

verus! {

/// The mathematical view of a search result: the three fields as character
/// sequences.
#[verifier::ext_equal]
pub ghost struct TrackView {
    pub id: Seq<char>,
    pub title: Seq<char>,
    pub thumbnail: Option<Seq<char>>,
}

/// One track as the Backend reports it: an opaque remote identifier, a
/// human-readable title, and an optional thumbnail reference.  Immutable
/// once produced.
#[derive(Debug)]
pub struct SearchResult {
    pub id: String,
    pub title: String,
    pub thumbnail: Option<String>,
}

impl View for SearchResult {
    type V = TrackView;

    open spec fn view(&self) -> TrackView {
        TrackView {
            id: self.id@,
            title: self.title@,
            thumbnail: match self.thumbnail {
                Some(t) => Some(t@),
                None => None,
            },
        }
    }
}

/// The views of a sequence of results, in order.
pub open spec fn track_views(rs: Seq<SearchResult>) -> Seq<TrackView> {
    rs.map_values(|r: SearchResult| r@)
}

} // verus!
