use vstd::prelude::*;
use crate::error::UserInputError;
use crate::session::CommandCenter;

verus! {

/// The position of the first space in `s`, or `s.len()` when it has none:
/// where the command word ends.
pub open spec fn first_space(s: Seq<char>) -> int
    decreases s.len(),
{
    if s.len() == 0 {
        0
    } else if s[0] == ' ' {
        0
    } else {
        1 + first_space(s.drop_first())
    }
}

/// The command word: the input up to the first space.
pub open spec fn head_of(line: Seq<char>) -> Seq<char> {
    line.take(first_space(line))
}

/// The single argument: everything after the first space, not re-split;
/// nothing when the line has no space.
pub open spec fn arg_of(line: Seq<char>) -> Option<Seq<char>> {
    if first_space(line) < line.len() {
        Some(line.skip(first_space(line) + 1))
    } else {
        None
    }
}

proof fn lemma_first_space_at(s: Seq<char>, i: int)
    requires
        0 <= i <= s.len(),
        forall|j: int| 0 <= j < i ==> s[j] != ' ',
        i == s.len() || s[i] == ' ',
    ensures
        first_space(s) == i,
    decreases s.len(),
{
    if s.len() == 0 {
    } else if s[0] == ' ' {
        assert(i == 0);
    } else {
        assert(i > 0);
        let t = s.drop_first();
        assert(forall|j: int| 0 <= j < i - 1 ==> #[trigger] t[j] == s[j + 1] && t[j] != ' ');
        assert(i - 1 == t.len() || t[i - 1] == ' ');
        lemma_first_space_at(t, i - 1);
    }
}

/// What one line of input asks the session and its collaborators to do,
/// as the interpreter reads it.
#[derive(Debug)]
pub enum Action {
    /// Empty command word: do nothing.
    Nothing,
    /// `play` with an argument: select that entry, download it, start
    /// playing it at once.
    PlayNew(String),
    /// `play` alone: resume paused playback; no selection or download.
    Resume,
    /// `queue` with an argument: select that entry, download it, append
    /// it to the playback queue.
    QueueNew(String),
    /// `loop`: toggle looping of the current playback.
    ToggleLoop,
    /// `pause`: pause playback.
    Pause,
    /// `fluid`: enter continuous auto-advance mode.
    Fluid,
    /// `related`: replace the result set with tracks related to the
    /// current selection, then display the first entry.
    Related,
    /// `cycle`: advance the display to the next entry.
    Cycle,
    /// `clear`: empty the result set and reset the cursor.
    Clear,
    /// `now`: display the current selection.
    Now,
    /// `stop`: stop playback.
    Stop,
    /// `search` with non-empty terms: replace the result set with the
    /// Backend's answer, then display the first entry.
    Search(String),
    /// A line the interpreter rejects outright, with the fault to report.
    Reject(UserInputError),
}

/// The view of an `Action`: the same shape over character sequences.
pub ghost enum ActionView {
    Nothing,
    PlayNew(Seq<char>),
    Resume,
    QueueNew(Seq<char>),
    ToggleLoop,
    Pause,
    Fluid,
    Related,
    Cycle,
    Clear,
    Now,
    Stop,
    Search(Seq<char>),
    Reject(UserInputError),
}

impl View for Action {
    type V = ActionView;

    open spec fn view(&self) -> ActionView {
        match self {
            Action::Nothing => ActionView::Nothing,
            Action::PlayNew(q) => ActionView::PlayNew(q@),
            Action::Resume => ActionView::Resume,
            Action::QueueNew(q) => ActionView::QueueNew(q@),
            Action::ToggleLoop => ActionView::ToggleLoop,
            Action::Pause => ActionView::Pause,
            Action::Fluid => ActionView::Fluid,
            Action::Related => ActionView::Related,
            Action::Cycle => ActionView::Cycle,
            Action::Clear => ActionView::Clear,
            Action::Now => ActionView::Now,
            Action::Stop => ActionView::Stop,
            Action::Search(q) => ActionView::Search(q@),
            Action::Reject(e) => ActionView::Reject(*e),
        }
    }
}

/// The interpreter's reading of one line, over its view: split at the
/// first space into a command word and one optional argument, then the
/// command table.  An empty command word is a no-op; `queue` without an
/// argument and `search` without non-empty terms are rejected; an unknown
/// word is rejected as unrecognized.
pub open spec fn parse_command_spec(line: Seq<char>) -> ActionView {
    let head = head_of(line);
    let arg = arg_of(line);
    if head.len() == 0 {
        ActionView::Nothing
    } else if head == "play"@ {
        match arg {
            Some(a) => ActionView::PlayNew(a),
            None => ActionView::Resume,
        }
    } else if head == "queue"@ {
        match arg {
            Some(a) => ActionView::QueueNew(a),
            None => ActionView::Reject(UserInputError::MissingArgument),
        }
    } else if head == "loop"@ {
        ActionView::ToggleLoop
    } else if head == "pause"@ {
        ActionView::Pause
    } else if head == "fluid"@ {
        ActionView::Fluid
    } else if head == "related"@ {
        ActionView::Related
    } else if head == "cycle"@ {
        ActionView::Cycle
    } else if head == "clear"@ {
        ActionView::Clear
    } else if head == "now"@ {
        ActionView::Now
    } else if head == "stop"@ {
        ActionView::Stop
    } else if head == "search"@ {
        match arg {
            Some(a) => if a.len() > 0 {
                ActionView::Search(a)
            } else {
                ActionView::Reject(UserInputError::EmptySearch)
            },
            None => ActionView::Reject(UserInputError::EmptySearch),
        }
    } else {
        ActionView::Reject(UserInputError::Unrecognized)
    }
}

/// Where the command word of `s` ends: the index of the first space, or
/// the length when there is none.
fn find_space(s: &str) -> (sp: usize)
    ensures
        0 <= sp <= s@.len(),
        sp as int == first_space(s@),
{
    let n = s.unicode_len();
    let mut sp: usize = 0;
    while sp < n
        invariant
            0 <= sp <= n,
            n == s@.len(),
            forall|j: int| 0 <= j < sp ==> s@[j] != ' ',
        decreases n - sp,
    {
        if s.get_char(sp) == ' ' {
            proof {
                lemma_first_space_at(s@, sp as int);
            }
            return sp;
        }
        sp = sp + 1;
    }
    proof {
        lemma_first_space_at(s@, sp as int);
    }
    sp
}

/// Whether `a` and `b` hold the same characters.
fn text_eq(a: &str, b: &str) -> (r: bool)
    ensures
        r == (a@ == b@),
{
    let na = a.unicode_len();
    let nb = b.unicode_len();
    if na != nb {
        proof {
            if a@ == b@ {
                assert(a@.len() == b@.len());
            }
        }
        return false;
    }
    let mut i: usize = 0;
    while i < na
        invariant
            0 <= i <= na,
            na == a@.len(),
            na == b@.len(),
            forall|j: int| 0 <= j < i ==> a@[j] == b@[j],
        decreases na - i,
    {
        if a.get_char(i) != b.get_char(i) {
            proof {
                if a@ == b@ {
                    assert(a@[i as int] == b@[i as int]);
                }
            }
            return false;
        }
        i = i + 1;
    }
    proof {
        assert(a@ =~= b@);
    }
    true
}

impl CommandCenter {
    /// The command interpreter: splits one raw line of input into a
    /// command word (up to the first space) and an optional single
    /// argument (everything after it, not re-split), and maps it to the
    /// action the command table gives.  Input is neither trimmed nor
    /// case-normalized beyond that single split.
    pub fn handle_command(&self, command: &str) -> (a: Action)
        ensures
            a@ == parse_command_spec(command@),
    {
        let n = command.unicode_len();
        let sp = find_space(command);
        if sp == 0 {
            return Action::Nothing;
        }
        let head = command.substring_char(0, sp);
        if text_eq(head, "play") {
            if sp < n {
                Action::PlayNew(String::from_str(command.substring_char(sp + 1, n)))
            } else {
                Action::Resume
            }
        } else if text_eq(head, "queue") {
            if sp < n {
                Action::QueueNew(String::from_str(command.substring_char(sp + 1, n)))
            } else {
                Action::Reject(UserInputError::MissingArgument)
            }
        } else if text_eq(head, "loop") {
            Action::ToggleLoop
        } else if text_eq(head, "pause") {
            Action::Pause
        } else if text_eq(head, "fluid") {
            Action::Fluid
        } else if text_eq(head, "related") {
            Action::Related
        } else if text_eq(head, "cycle") {
            Action::Cycle
        } else if text_eq(head, "clear") {
            Action::Clear
        } else if text_eq(head, "now") {
            Action::Now
        } else if text_eq(head, "stop") {
            Action::Stop
        } else if text_eq(head, "search") {
            if sp < n {
                let arg = command.substring_char(sp + 1, n);
                if arg.unicode_len() > 0 {
                    Action::Search(String::from_str(arg))
                } else {
                    Action::Reject(UserInputError::EmptySearch)
                }
            } else {
                Action::Reject(UserInputError::EmptySearch)
            }
        } else {
            Action::Reject(UserInputError::Unrecognized)
        }
    }
}

} // verus!
