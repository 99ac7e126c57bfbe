use surge::command::Action;
use surge::error::UserInputError;
use surge::parse::parse_index;
use surge::session::CommandCenter;

fn interpret(line: &str) -> Action {
    CommandCenter::new().handle_command(line)
}

#[test]
fn empty_line_is_no_op() {
    assert!(matches!(interpret(""), Action::Nothing));
}

#[test]
fn leading_space_gives_empty_command_word() {
    assert!(matches!(interpret(" play"), Action::Nothing));
}

#[test]
fn play_with_argument_selects_and_plays() {
    assert!(matches!(interpret("play 3"), Action::PlayNew(a) if a == "3"));
}

#[test]
fn play_alone_resumes() {
    assert!(matches!(interpret("play"), Action::Resume));
}

#[test]
fn queue_with_argument() {
    assert!(matches!(interpret("queue 0"), Action::QueueNew(a) if a == "0"));
}

#[test]
fn queue_needs_an_argument() {
    assert!(matches!(
        interpret("queue"),
        Action::Reject(UserInputError::MissingArgument)
    ));
}

#[test]
fn single_word_commands() {
    assert!(matches!(interpret("loop"), Action::ToggleLoop));
    assert!(matches!(interpret("pause"), Action::Pause));
    assert!(matches!(interpret("fluid"), Action::Fluid));
    assert!(matches!(interpret("related"), Action::Related));
    assert!(matches!(interpret("cycle"), Action::Cycle));
    assert!(matches!(interpret("clear"), Action::Clear));
    assert!(matches!(interpret("now"), Action::Now));
    assert!(matches!(interpret("stop"), Action::Stop));
}

#[test]
fn search_with_terms() {
    assert!(matches!(interpret("search foo"), Action::Search(q) if q == "foo"));
}

#[test]
fn search_argument_is_not_resplit() {
    assert!(matches!(
        interpret("search never gonna give"),
        Action::Search(q) if q == "never gonna give"
    ));
}

#[test]
fn search_without_terms_is_a_message() {
    assert!(matches!(
        interpret("search"),
        Action::Reject(UserInputError::EmptySearch)
    ));
    assert!(matches!(
        interpret("search "),
        Action::Reject(UserInputError::EmptySearch)
    ));
    assert_eq!(
        UserInputError::EmptySearch.message(),
        "Please enter non-empty search terms"
    );
}

#[test]
fn unknown_word_is_rejected() {
    assert!(matches!(
        interpret("help"),
        Action::Reject(UserInputError::Unrecognized)
    ));
    assert!(matches!(
        interpret("Play"),
        Action::Reject(UserInputError::Unrecognized)
    ));
    assert!(matches!(
        interpret("playx 1"),
        Action::Reject(UserInputError::Unrecognized)
    ));
}

#[test]
fn argument_keeps_inner_spaces() {
    assert!(matches!(interpret("play a b"), Action::PlayNew(a) if a == "a b"));
}

#[test]
fn parse_index_accepts_digit_strings() {
    assert_eq!(parse_index("0"), Some(0));
    assert_eq!(parse_index("12"), Some(12));
    assert_eq!(parse_index("007"), Some(7));
}

#[test]
fn parse_index_rejects_everything_else() {
    assert_eq!(parse_index(""), None);
    assert_eq!(parse_index("x"), None);
    assert_eq!(parse_index("1 "), None);
    assert_eq!(parse_index("+1"), None);
    assert_eq!(parse_index("-1"), None);
    assert_eq!(parse_index("1.5"), None);
    assert_eq!(parse_index("99999999999999999999999999"), None);
}

#[test]
fn parse_index_handles_the_usize_boundary() {
    let max = usize::MAX.to_string();
    assert_eq!(parse_index(&max), Some(usize::MAX));
    let over = format!("{}0", max);
    assert_eq!(parse_index(&over), None);
}

#[test]
fn error_messages() {
    assert_eq!(
        UserInputError::NotANumber.message(),
        "Couldn't parse selection as number"
    );
    assert_eq!(UserInputError::OutOfBounds.message(), "Selection is out of range");
    assert_eq!(
        UserInputError::MissingArgument.message(),
        "This command needs an argument"
    );
    assert_eq!(UserInputError::Unrecognized.message(), "Unrecognized command!");
    assert_eq!(
        UserInputError::NothingToCycle.message(),
        "nothing to cycle through"
    );
}
