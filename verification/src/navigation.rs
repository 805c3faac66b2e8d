//! Navigation state: where the content pane currently is, and how commands
//! from the toolbar move it.

use vstd::prelude::*;
use vstd::std_specs::iter::IteratorSpec;
use vstd::string::StringExecFns;

verus! {

broadcast use vstd::string::group_string_axioms;

/// The internal pseudo-pages the shell can show in place of a web page.
#[derive(Clone, Copy, Debug, PartialEq, Eq, Structural)]
pub enum Page {
    Settings,
}

/// What the content pane shows: a web address or an internal page.
///
/// An `External` address made by [`normalize`] or [`apply`] always carries a
/// scheme separator, see [`Location::is_absolute`].
#[derive(Debug, PartialEq, Eq)]
pub enum Location {
    External(String),
    Internal(Page),
}

/// A request posted by the toolbar.
#[derive(Debug, PartialEq, Eq)]
pub enum Command {
    /// Go to the address that the user typed, as typed.
    NavigateTo(String),
    /// Show the settings page.
    OpenSettings,
}

/// The mathematical value of a [`Location`].
pub enum LocationView {
    External(Seq<char>),
    Internal(Page),
}

/// The mathematical value of a [`Command`].
pub enum CommandView {
    NavigateTo(Seq<char>),
    OpenSettings,
}

impl View for Location {
    type V = LocationView;

    open spec fn view(&self) -> LocationView {
        match self {
            Location::External(url) => LocationView::External(url@),
            Location::Internal(page) => LocationView::Internal(*page),
        }
    }
}

impl View for Command {
    type V = CommandView;

    open spec fn view(&self) -> CommandView {
        match self {
            Command::NavigateTo(raw) => CommandView::NavigateTo(raw@),
            Command::OpenSettings => CommandView::OpenSettings,
        }
    }
}

impl LocationView {
    /// An external address is absolute when it names its scheme; an internal
    /// page has no address to check.
    pub open spec fn is_absolute(self) -> bool {
        match self {
            LocationView::External(url) => has_scheme_separator(url),
            LocationView::Internal(_) => true,
        }
    }
}

impl Location {
    /// See [`LocationView::is_absolute`].
    pub open spec fn is_absolute(&self) -> bool {
        self@.is_absolute()
    }
}

impl Clone for Location {
    fn clone(&self) -> (copy: Self)
        ensures
            copy@ == self@,
    {
        match self {
            Location::External(url) => Location::External(url.clone()),
            Location::Internal(page) => Location::Internal(*page),
        }
    }
}

impl Clone for Command {
    fn clone(&self) -> (copy: Self)
        ensures
            copy@ == self@,
    {
        match self {
            Command::NavigateTo(raw) => Command::NavigateTo(raw.clone()),
            Command::OpenSettings => Command::OpenSettings,
        }
    }
}

/// The scheme that [`normalize`] assumes where the input names none.
pub open spec fn default_scheme() -> Seq<char> {
    "https://"@
}

/// The text `://` stands in `s` at index `i`.
pub open spec fn separator_at(s: Seq<char>, i: int) -> bool {
    &&& 0 <= i
    &&& i + 3 <= s.len()
    &&& s[i] == ':'
    &&& s[i + 1] == '/'
    &&& s[i + 2] == '/'
}

/// The text `://` occurs somewhere in `s`.
pub open spec fn has_scheme_separator(s: Seq<char>) -> bool {
    exists|i: int| separator_at(s, i)
}

/// What [`normalize`] makes of a raw input.
pub open spec fn normalized(raw: Seq<char>) -> Seq<char> {
    if has_scheme_separator(raw) {
        raw
    } else {
        default_scheme() + raw
    }
}

/// Where a command leads, whatever the location before it.
pub open spec fn applied(cmd: CommandView) -> LocationView {
    match cmd {
        CommandView::NavigateTo(raw) => LocationView::External(normalized(raw)),
        CommandView::OpenSettings => LocationView::Internal(Page::Settings),
    }
}

/// Whether `://` occurs in `text`.
pub fn contains_scheme_separator(text: &str) -> (found: bool)
    ensures
        found == has_scheme_separator(text@),
{
    let mut chars = text.chars();
    // The characters read so far end in `:`, or in `:/`.
    let mut after_colon = false;
    let mut after_colon_slash = false;
    let ghost mut n: int = 0;
    loop
        invariant
            0 <= n <= text@.len(),
            chars.remaining() == text@.skip(n),
            chars.obeys_prophetic_iter_laws(),
            forall|i: int| i + 3 <= n ==> !separator_at(text@, i),
            after_colon == (n >= 1 && text@[n - 1] == ':'),
            after_colon_slash == (n >= 2 && text@[n - 2] == ':' && text@[n - 1] == '/'),
        decreases text@.len() - n,
    {
        match chars.next() {
            None => {
                return false;
            },
            Some(c) => {
                if after_colon_slash && c == '/' {
                    assert(separator_at(text@, n - 2));
                    return true;
                }
                after_colon_slash = after_colon && c == '/';
                after_colon = c == ':';
                proof {
                    n = n + 1;
                }
            },
        }
    }
}

/// Makes a raw input into an address to load.
///
/// An input that holds `://` anywhere is taken to name its scheme and is
/// passed through as it is; any other input gets `https://` in front. Only
/// the text is looked at: nothing else of the address is validated.
pub fn normalize(raw: &str) -> (url: String)
    ensures
        url@ == normalized(raw@),
        has_scheme_separator(raw@) ==> url@ == raw@,
        !has_scheme_separator(raw@) ==> url@ == "https://"@ + raw@,
        has_scheme_separator(url@),
{
    proof {
        lemma_normalized_is_absolute(raw@);
    }
    if contains_scheme_separator(raw) {
        String::from_str(raw)
    } else {
        String::from_str("https://").concat(raw)
    }
}

/// Moves the navigation state by one command.
///
/// The state machine has no memory: `NavigateTo` leads to the normalized
/// address and `OpenSettings` to the settings page, whatever `current` is.
pub fn apply(current: &Location, cmd: Command) -> (next: Location)
    ensures
        next@ == applied(cmd@),
        cmd@ is OpenSettings ==> next@ == LocationView::Internal(Page::Settings),
        cmd@ matches CommandView::NavigateTo(raw) ==> next@ == LocationView::External(
            normalized(raw),
        ),
        next.is_absolute(),
{
    match cmd {
        Command::NavigateTo(raw) => Location::External(normalize(raw.as_str())),
        Command::OpenSettings => Location::Internal(Page::Settings),
    }
}

/// Every normalized address names a scheme.
pub proof fn lemma_normalized_is_absolute(raw: Seq<char>)
    ensures
        has_scheme_separator(normalized(raw)),
{
    if !has_scheme_separator(raw) {
        reveal_strlit("https://");
        assert(separator_at(default_scheme() + raw, 5));
    }
}

/// Normalizing twice changes nothing more.
pub proof fn lemma_normalized_idempotent(raw: Seq<char>)
    ensures
        normalized(normalized(raw)) == normalized(raw),
{
    lemma_normalized_is_absolute(raw);
}

/// Every command leads to an absolute location.
pub proof fn lemma_applied_is_absolute(cmd: CommandView)
    ensures
        applied(cmd).is_absolute(),
{
    if let CommandView::NavigateTo(raw) = cmd {
        lemma_normalized_is_absolute(raw);
    }
}

} // verus!
