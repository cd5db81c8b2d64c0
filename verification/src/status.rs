use vstd::prelude::*;
use vstd::string::*;

verus! {

/// How far work on a ticket has come.
#[derive(Debug, PartialEq, Eq, Clone, Copy, Structural)]
pub enum Status {
    ToDo,
    InProgress,
    Done,
}

/// The text that was offered as a status and is none.
#[derive(Debug)]
pub struct ParseStatusError {
    invalid_status: String,
}

/// The lowercase form of a text, as `str::to_lowercase` computes it from the
/// Unicode case tables.
pub uninterp spec fn lowercase(text: Seq<char>) -> Seq<char>;

/// `str::to_lowercase` returns a new `String` that holds the lowercase form
/// of its argument. The result depends on the characters of the argument
/// alone, so it has a name.
pub assume_specification[ str::to_lowercase ](text: &str) -> (lower: String)
    ensures
        lower@ == lowercase(text@),
;

/// The status that a lowercase text names, if it names one.
pub open spec fn status_named(lower: Seq<char>) -> Option<Status> {
    if lower == "todo"@ {
        Some(Status::ToDo)
    } else if lower == "inprogress"@ {
        Some(Status::InProgress)
    } else if lower == "done"@ {
        Some(Status::Done)
    } else {
        None
    }
}

/// What parsing a text gives: the status that its lowercase form names, or
/// else the text itself, as the error holds it.
pub open spec fn parsed(text: Seq<char>) -> Result<Status, Seq<char>> {
    match status_named(lowercase(text)) {
        Some(status) => Ok(status),
        None => Err(text),
    }
}

/// Whether the outcome of parsing `text` is `outcome`.
pub open spec fn parses_to(text: Seq<char>, outcome: Result<Status, ParseStatusError>) -> bool {
    match parsed(text) {
        Ok(status) => outcome == Ok::<Status, ParseStatusError>(status),
        Err(rejected) => outcome is Err && outcome->Err_0@ == rejected,
    }
}

impl View for ParseStatusError {
    type V = Seq<char>;

    /// The text that was rejected.
    closed spec fn view(&self) -> Seq<char> {
        self.invalid_status@
    }
}

impl ParseStatusError {
    /// The error for a text that names no status.
    pub fn new(invalid_status: String) -> (error: Self)
        ensures
            error@ == invalid_status@,
    {
        ParseStatusError { invalid_status }
    }

    /// The text that was rejected.
    pub fn invalid_status(&self) -> (text: &str)
        ensures
            text@ == self@,
    {
        self.invalid_status.as_str()
    }

    /// The text of the error message for a rejected text.
    pub open spec fn message_for(rejected: Seq<char>) -> Seq<char> {
        "`"@ + rejected + "` is not a valid status. Use one of: ToDo, InProgress, Done"@
    }

    /// The error message: the rejected text between backticks, then the
    /// statuses that can be named.
    pub fn message(&self) -> (text: String)
        ensures
            text@ == Self::message_for(self@),
    {
        let mut text = String::from_str("`");
        text.append(self.invalid_status.as_str());
        text.append("` is not a valid status. Use one of: ToDo, InProgress, Done");
        text
    }
}

impl Status {
    /// Reads a status from a text that is already in lowercase. Only the
    /// three names `todo`, `inprogress` and `done` are read.
    pub fn from_lowercase(lower: &String) -> (status: Option<Status>)
        ensures
            status == status_named(lower@),
    {
        if *lower == String::from_str("todo") {
            Some(Status::ToDo)
        } else if *lower == String::from_str("inprogress") {
            Some(Status::InProgress)
        } else if *lower == String::from_str("done") {
            Some(Status::Done)
        } else {
            None
        }
    }
}

/// What `try_from` returns is stated by its `ensures`, over `parses_to`. Two
/// errors that hold the same text need not be one value, so the result is
/// not claimed to be equal to `try_from_spec`.
impl vstd::std_specs::convert::TryFromSpecImpl<String> for Status {
    open spec fn obeys_try_from_spec() -> bool {
        false
    }

    open spec fn try_from_spec(value: String) -> Result<Status, ParseStatusError> {
        choose|outcome: Result<Status, ParseStatusError>| parses_to(value@, outcome)
    }
}

impl TryFrom<String> for Status {
    type Error = ParseStatusError;

    /// Reads a status from its name, whatever the case of its letters. A text
    /// that names none comes back in the error.
    fn try_from(value: String) -> (outcome: Result<Status, ParseStatusError>)
        ensures
            parses_to(value@, outcome),
    {
        let lower = value.as_str().to_lowercase();
        match Status::from_lowercase(&lower) {
            Some(status) => Ok(status),
            None => Err(ParseStatusError { invalid_status: value }),
        }
    }
}

/// As for `String`: the `ensures` of `try_from` states the result.
impl vstd::std_specs::convert::TryFromSpecImpl<&str> for Status {
    open spec fn obeys_try_from_spec() -> bool {
        false
    }

    open spec fn try_from_spec(value: &str) -> Result<Status, ParseStatusError> {
        choose|outcome: Result<Status, ParseStatusError>| parses_to(value@, outcome)
    }
}

impl TryFrom<&str> for Status {
    type Error = ParseStatusError;

    /// Reads a status from its name, whatever the case of its letters. A text
    /// that names none comes back in the error.
    fn try_from(value: &str) -> (outcome: Result<Status, ParseStatusError>)
        ensures
            parses_to(value@, outcome),
    {
        let lower = value.to_lowercase();
        match Status::from_lowercase(&lower) {
            Some(status) => Ok(status),
            None => Err(ParseStatusError { invalid_status: String::from_str(value) }),
        }
    }
}

} // verus!
