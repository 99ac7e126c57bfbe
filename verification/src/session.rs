use vstd::prelude::*;
use crate::error::UserInputError;
use crate::parse::parse_index;
use crate::parse::parse_index_spec;
use crate::track::SearchResult;
use crate::track::TrackView;
use crate::track::track_views;

verus! {

/// The mathematical view of the session: the result set in order, the
/// current selection, and the browsing cursor.
#[verifier::ext_equal]
pub ghost struct SessionView {
    pub results: Seq<TrackView>,
    pub selection: Option<TrackView>,
    pub cursor: nat,
}

impl SessionView {
    /// The state after `clear`: the result set emptied, the cursor reset,
    /// the selection untouched.
    pub open spec fn cleared(self) -> SessionView {
        SessionView { results: Seq::empty(), selection: self.selection, cursor: 0 }
    }

    /// The state after the Backend's reply `rs` replaces the result set
    /// wholesale: previous contents discarded, cursor reset, selection
    /// untouched.
    pub open spec fn loaded(self, rs: Seq<TrackView>) -> SessionView {
        SessionView { results: rs, selection: self.selection, cursor: 0 }
    }

    /// The state after the entry at `i` is promoted to the selection: it
    /// is removed from the result set (later entries shift down by one)
    /// and replaces any previous selection; the cursor is untouched.
    pub open spec fn selected(self, i: int) -> SessionView {
        SessionView {
            results: self.results.remove(i),
            selection: Some(self.results[i]),
            cursor: self.cursor,
        }
    }

    /// The index `cycle` displays: the cursor, wrapped to the front once
    /// it has run past the end of the result set.
    pub open spec fn cycle_index(self) -> int {
        if self.cursor >= self.results.len() {
            0
        } else {
            self.cursor as int
        }
    }

    /// The state after one `cycle`: the displayed index, advanced by one.
    pub open spec fn cycled(self) -> SessionView {
        SessionView {
            results: self.results,
            selection: self.selection,
            cursor: (self.cycle_index() + 1) as nat,
        }
    }
}

/// The session state machine of the interactive player: owns the current
/// result set, the current selection, and the round-robin display cursor.
///
/// Every state-dependent operation returns an explicit outcome instead of
/// aborting; the caller turns failures into user-visible messages and
/// keeps the prompt alive.
pub struct CommandCenter {
    currents: Vec<SearchResult>,
    current: Option<SearchResult>,
    cycle_ctr: usize,
}

impl View for CommandCenter {
    type V = SessionView;

    closed spec fn view(&self) -> SessionView {
        SessionView {
            results: track_views(self.currents@),
            selection: match self.current {
                Some(t) => Some(t@),
                None => None,
            },
            cursor: self.cycle_ctr as nat,
        }
    }
}

impl CommandCenter {
    /// A fresh session: no results, no selection, cursor at the front.
    pub fn new() -> (c: CommandCenter)
        ensures
            c@.results == Seq::<TrackView>::empty(),
            c@.selection is None,
            c@.cursor == 0,
    {
        let c = CommandCenter { currents: Vec::new(), current: None, cycle_ctr: 0 };
        proof {
            assert(c@.results =~= Seq::<TrackView>::empty());
        }
        c
    }

    /// Empties the result set and resets the cursor; the selection
    /// persists.
    pub fn clear(&mut self)
        ensures
            final(self)@ == old(self)@.cleared(),
    {
        self.cycle_ctr = 0;
        self.currents.clear();
        proof {
            assert(self@ =~= old(self)@.cleared());
        }
    }

    /// Installs the Backend's reply as the new result set: prior contents
    /// are always discarded and the cursor reset, whatever the prior
    /// state; the selection is untouched.  This is the state change shared
    /// by `search` and `related` once the Backend has answered.
    pub fn replace_results(&mut self, results: Vec<SearchResult>)
        ensures
            final(self)@ == old(self)@.loaded(track_views(results@)),
    {
        self.cycle_ctr = 0;
        self.currents = results;
        proof {
            assert(self@ =~= old(self)@.loaded(track_views(self.currents@)));
        }
    }

    /// The identifier the Backend should be asked for related tracks:
    /// that of the current selection.  With no selection this reports
    /// `NoSelection` rather than treating the gap as fatal.
    pub fn related_seed(&self) -> (r: Result<String, UserInputError>)
        ensures
            match r {
                Ok(id) => self@.selection matches Some(t) && id@ == t.id,
                Err(e) => e == UserInputError::NoSelection && self@.selection is None,
            },
    {
        match &self.current {
            Some(x) => Ok(x.id.clone()),
            None => Err(UserInputError::NoSelection),
        }
    }

    /// The identifier whose audio should be fetched (the Backend resolves
    /// it to a download URL, the Downloader materializes it): that of the
    /// current selection.  With no selection this reports `NoSelection`
    /// rather than treating the gap as fatal.
    pub fn download(&self) -> (r: Result<String, UserInputError>)
        ensures
            match r {
                Ok(id) => self@.selection matches Some(t) && id@ == t.id,
                Err(e) => e == UserInputError::NoSelection && self@.selection is None,
            },
    {
        match &self.current {
            Some(x) => Ok(x.id.clone()),
            None => Err(UserInputError::NoSelection),
        }
    }

    /// Promotes the entry at `i` to the current selection: it is removed
    /// from the result set by an ordinary ordered removal and replaces any
    /// previous selection.  An out-of-range index is rejected and leaves
    /// the state unchanged.
    pub fn select_index(&mut self, i: usize) -> (r: Result<(), UserInputError>)
        ensures
            i < old(self)@.results.len() ==> r == Ok::<(), UserInputError>(())
                && final(self)@ == old(self)@.selected(i as int),
            i >= old(self)@.results.len() ==> r == Err::<(), UserInputError>(
                UserInputError::OutOfBounds,
            ) && final(self)@ == old(self)@,
    {
        if i < self.currents.len() {
            let t = self.currents.remove(i);
            self.current = Some(t);
            proof {
                assert(self@ =~= old(self)@.selected(i as int));
            }
            Ok(())
        } else {
            Err(UserInputError::OutOfBounds)
        }
    }

    /// Selects by the user's argument: parses it as a decimal index and
    /// promotes that entry.  An unparseable argument or an out-of-range
    /// index is rejected with the state left exactly as it was.
    pub fn select(&mut self, sel: &str) -> (r: Result<(), UserInputError>)
        ensures
            parse_index_spec(sel@) is None ==> r == Err::<(), UserInputError>(
                UserInputError::NotANumber,
            ) && final(self)@ == old(self)@,
            parse_index_spec(sel@) matches Some(i) ==> (if i < old(self)@.results.len() {
                r == Ok::<(), UserInputError>(()) && final(self)@ == old(self)@.selected(i)
            } else {
                r == Err::<(), UserInputError>(UserInputError::OutOfBounds) && final(self)@
                    == old(self)@
            }),
    {
        match parse_index(sel) {
            Some(i) => self.select_index(i),
            None => Err(UserInputError::NotANumber),
        }
    }

    /// Displays the next entry in round-robin order: wraps the cursor to
    /// the front once it has run past the end, reports the index to show,
    /// and advances the cursor by one.  On an empty result set this is
    /// rejected and the state is unchanged: an empty set is a fault to
    /// report, not an invariant violation.
    pub fn cycle(&mut self) -> (r: Result<usize, UserInputError>)
        ensures
            old(self)@.results.len() == 0 ==> r == Err::<usize, UserInputError>(
                UserInputError::NothingToCycle,
            ) && final(self)@ == old(self)@,
            old(self)@.results.len() > 0 ==> r == Ok::<usize, UserInputError>(
                old(self)@.cycle_index() as usize,
            ) && final(self)@ == old(self)@.cycled(),
    {
        if self.currents.len() == 0 {
            return Err(UserInputError::NothingToCycle);
        }
        if self.cycle_ctr >= self.currents.len() {
            self.cycle_ctr = 0;
        }
        let i = self.cycle_ctr;
        self.cycle_ctr = i + 1;
        proof {
            assert(self@ =~= old(self)@.cycled());
        }
        Ok(i)
    }

    /// The current selection, if any; what `now` displays.
    pub fn now(&self) -> (r: Option<&SearchResult>)
        ensures
            match r {
                Some(t) => self@.selection == Some(t@),
                None => self@.selection is None,
            },
    {
        match &self.current {
            Some(x) => Some(x),
            None => None,
        }
    }

    /// Read access to the entry at `i`, for display.
    pub fn result_at(&self, i: usize) -> (r: &SearchResult)
        requires
            i < self@.results.len(),
        ensures
            r@ == self@.results[i as int],
    {
        &self.currents[i]
    }

    /// The number of entries in the result set.
    pub fn results_len(&self) -> (n: usize)
        ensures
            n == self@.results.len(),
    {
        self.currents.len()
    }

    /// One round of continuous ("fluid") mode, once the Backend has
    /// answered the related-tracks query: install `results` wholesale,
    /// wrap the round counter `loc_cyc` to the front if it has run past
    /// the end, select that entry, and report the counter for the next
    /// round.  An empty reply is rejected, with the state left freshly
    /// loaded.
    pub fn fluid_step(&mut self, results: Vec<SearchResult>, loc_cyc: usize) -> (r: Result<
        usize,
        UserInputError,
    >)
        ensures
            results@.len() == 0 ==> r == Err::<usize, UserInputError>(UserInputError::OutOfBounds)
                && final(self)@ == old(self)@.loaded(track_views(results@)),
            results@.len() > 0 ==> ({
                let i: int = if loc_cyc >= results@.len() {
                    0
                } else {
                    loc_cyc as int
                };
                r == Ok::<usize, UserInputError>((i + 1) as usize) && final(self)@ == old(
                    self,
                )@.loaded(track_views(results@)).selected(i)
            }),
    {
        self.replace_results(results);
        let mut j = loc_cyc;
        if j >= self.currents.len() {
            j = 0;
        }
        match self.select_index(j) {
            Ok(_) => Ok(j + 1),
            Err(e) => Err(e),
        }
    }
}

} // verus!
