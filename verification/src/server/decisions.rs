use vstd::prelude::*;
use crate::text::{str_chars, push_str, string_chars, string_from_chars, string_from_str, chars_eq, chars_eq_str, clone_string};

verus! {

/// The position encoding of a session: the one the client's capabilities
/// ask for, else UTF-16.
pub fn position_encoding(requested: Option<String>) -> (r: String)
    ensures
        r@ == (match requested {
            Some(e) => e@,
            None => "utf-16"@,
        }),
{
    match requested {
        Some(e) => e,
        None => string_from_str("utf-16"),
    }
}

/// How a document counts the characters of a line.
#[derive(PartialEq, Eq, Structural, Clone, Copy, Debug)]
pub enum TextEncoding {
    Utf8,
    Utf16,
    Utf32,
}

/// The text encoding of a document for a position encoding: UTF-8 for
/// `utf-8`, UTF-32 for `utf-32`, UTF-16 for anything else or none.
pub open spec fn encoding_for(encoding: Option<&str>) -> TextEncoding {
    match encoding {
        Some(e) => if e@ == "utf-8"@ {
            TextEncoding::Utf8
        } else if e@ == "utf-32"@ {
            TextEncoding::Utf32
        } else {
            TextEncoding::Utf16
        },
        None => TextEncoding::Utf16,
    }
}

/// The text encoding of a document for a position encoding: UTF-8 for
/// `utf-8`, UTF-32 for `utf-32`, UTF-16 for anything else or none.
pub fn text_encoding(encoding: Option<&str>) -> (r: TextEncoding)
    ensures
        r == encoding_for(encoding),
{
    match encoding {
        Some(e) => {
            let c = str_chars(e);
            if chars_eq_str(&c, "utf-8") {
                TextEncoding::Utf8
            } else if chars_eq_str(&c, "utf-32") {
                TextEncoding::Utf32
            } else {
                TextEncoding::Utf16
            }
        },
        None => TextEncoding::Utf16,
    }
}

/// What the main loop does with a message from the client.
pub enum MessageAction {
    /// The client asked to shut down: leave the loop.
    Exit,
    /// Run the registered handler on the task pool.
    Spawn,
    /// Run the registered handler on the loop, with mutable access to the session.
    RunSync,
    /// Nothing handles the message: report this error.
    Unknown(String),
    /// Nothing to do.
    Ignore,
}

/// Abstract content of a message action.
pub enum ActionModel {
    Exit,
    Spawn,
    RunSync,
    Unknown(Seq<char>),
    Ignore,
}

impl View for MessageAction {
    type V = ActionModel;

    open spec fn view(&self) -> ActionModel {
        match self {
            MessageAction::Exit => ActionModel::Exit,
            MessageAction::Spawn => ActionModel::Spawn,
            MessageAction::RunSync => ActionModel::RunSync,
            MessageAction::Unknown(m) => ActionModel::Unknown(m@),
            MessageAction::Ignore => ActionModel::Ignore,
        }
    }
}

/// `prefix` followed by `name`.
fn join_message(prefix: &str, name: &str) -> (r: String)
    ensures
        r@ == prefix@ + name@,
{
    let mut v = str_chars(prefix);
    push_str(&mut v, name);
    string_from_chars(&v)
}

/// What the main loop does with a request: leave on shutdown; else run the
/// handler registered for the pool, else the one registered to run on the
/// loop, else answer that the request is unknown.
pub fn dispatch_request(is_shutdown: bool, has_handler: bool, has_sync_handler: bool, method: &str) -> (r: MessageAction)
    ensures
        r@ == (if is_shutdown {
            ActionModel::Exit
        } else if has_handler {
            ActionModel::Spawn
        } else if has_sync_handler {
            ActionModel::RunSync
        } else {
            ActionModel::Unknown("Unknown request: "@ + method@)
        }),
{
    if is_shutdown {
        MessageAction::Exit
    } else if has_handler {
        MessageAction::Spawn
    } else if has_sync_handler {
        MessageAction::RunSync
    } else {
        MessageAction::Unknown(join_message("Unknown request: ", method))
    }
}

/// What the main loop does with a notification: run the handler registered
/// for the pool, else the one registered to run on the loop, else report
/// that the notification is unknown.
pub fn dispatch_notification(has_handler: bool, has_sync_handler: bool, method: &str) -> (r: MessageAction)
    ensures
        r@ == (if has_handler {
            ActionModel::Spawn
        } else if has_sync_handler {
            ActionModel::RunSync
        } else {
            ActionModel::Unknown("Unknown notification: "@ + method@)
        }),
{
    if has_handler {
        MessageAction::Spawn
    } else if has_sync_handler {
        MessageAction::RunSync
    } else {
        MessageAction::Unknown(join_message("Unknown notification: ", method))
    }
}

/// The kind of change of a watched file.
#[derive(PartialEq, Eq, Structural, Clone, Copy, Debug)]
pub enum FileChange {
    Created,
    Changed,
    Deleted,
    /// A kind this server does not know.
    Other,
}

/// What to do with a change of a watched file.
#[derive(PartialEq, Eq, Structural, Clone, Copy, Debug)]
pub enum WatchedFileAction {
    /// Nothing.
    Ignore,
    /// Read the file from disk and add it.
    Create,
    /// Read the file from disk again.
    Reload,
    /// Empty the file and remove it.
    Remove,
    /// A changed file that is not known: stop with an error.
    NotFound,
}

/// Whether a watched-file change needs to know if a parser handles the file.
pub open spec fn needs_parser(is_file: bool, change: FileChange, known: bool) -> bool {
    is_file && ((change == FileChange::Created && !known) || (change == FileChange::Changed && known))
}

/// What to do with a change of a watched file (see [`watched_file_action`]).
pub open spec fn watched_action(is_file: bool, change: FileChange, known: bool, has_parser: bool) -> WatchedFileAction {
    if !is_file {
        WatchedFileAction::Ignore
    } else {
        match change {
            FileChange::Created => if known || !has_parser { WatchedFileAction::Ignore } else { WatchedFileAction::Create },
            FileChange::Changed => if !known {
                WatchedFileAction::NotFound
            } else if has_parser {
                WatchedFileAction::Reload
            } else {
                WatchedFileAction::Ignore
            },
            FileChange::Deleted => if known { WatchedFileAction::Remove } else { WatchedFileAction::Ignore },
            FileChange::Other => WatchedFileAction::Ignore,
        }
    }
}

/// What to do with a change of a watched file, given whether its URL is a
/// `file` URL, whether the file is known, and whether a parser handles it.
///
/// Other schemes are ignored. A created file is added unless it is known
/// or no parser handles it; a changed file must be known, and is read again
/// when a parser handles it; a deleted file is removed if it is known.
pub fn watched_file_action(is_file: bool, change: FileChange, known: bool, has_parser: bool) -> (r: WatchedFileAction)
    ensures
        r == watched_action(is_file, change, known, has_parser),
{
    if !is_file {
        return WatchedFileAction::Ignore;
    }
    match change {
        FileChange::Created => {
            if known {
                WatchedFileAction::Ignore
            } else if has_parser {
                WatchedFileAction::Create
            } else {
                WatchedFileAction::Ignore
            }
        },
        FileChange::Changed => {
            if !known {
                WatchedFileAction::NotFound
            } else if has_parser {
                WatchedFileAction::Reload
            } else {
                WatchedFileAction::Ignore
            }
        },
        FileChange::Deleted => {
            if known {
                WatchedFileAction::Remove
            } else {
                WatchedFileAction::Ignore
            }
        },
        FileChange::Other => WatchedFileAction::Ignore,
    }
}

/// What the run over watched-file changes does after handling one.
pub enum WatchedStep<E> {
    /// Handle the change at this index.
    Next(usize),
    /// Stop with the error of the change just handled; the changes handled
    /// before it keep their effect.
    Stop(E),
    /// All changes are handled.
    Finished,
}

/// What to do once change `index` of `total` has been handled with `outcome`.
pub open spec fn watched_step<E>(index: usize, total: usize, outcome: Result<(), E>) -> WatchedStep<E> {
    match outcome {
        Err(e) => WatchedStep::Stop(e),
        Ok(()) => if index + 1 < total { WatchedStep::Next((index + 1) as usize) } else { WatchedStep::Finished },
    }
}

/// The step of the run over watched-file changes after change `index` of
/// `total` was handled: stop at its error, else go on to the next change,
/// or finish after the last.
pub fn after_watched_change<E>(index: usize, total: usize, outcome: Result<(), E>) -> (r: WatchedStep<E>)
    requires
        index < total,
    ensures
        r == watched_step(index, total, outcome),
{
    match outcome {
        Err(e) => WatchedStep::Stop(e),
        Ok(()) => if index + 1 < total { WatchedStep::Next(index + 1) } else { WatchedStep::Finished },
    }
}

/// Following [`after_watched_change`] from change `from` over the outcomes
/// of handling each change: how many changes were handled, and the result.
pub open spec fn watched_run<E>(outcomes: Seq<Result<(), E>>, from: int) -> (int, Result<(), E>)
    decreases outcomes.len() - from,
{
    if from < 0 || from >= outcomes.len() {
        (outcomes.len() as int, Ok(()))
    } else {
        match outcomes[from] {
            Err(e) => (from + 1, Err(e)),
            Ok(()) => watched_run(outcomes, from + 1),
        }
    }
}

/// The run over watched-file changes handles them in order up to and
/// including the first that fails, returns that failure, and handles none
/// after it; when none fails it handles all and succeeds.
pub proof fn lemma_watched_run_stops_at_first_error<E>(outcomes: Seq<Result<(), E>>, from: int)
    requires
        0 <= from <= outcomes.len(),
    ensures
        ({
            let (handled, result) = watched_run(outcomes, from);
            &&& from <= handled <= outcomes.len()
            &&& forall|j: int| from <= j < handled - 1 ==> (#[trigger] outcomes[j]) is Ok
            &&& match result {
                Ok(()) => handled == outcomes.len() && forall|j: int| from <= j < outcomes.len() ==> (#[trigger] outcomes[j]) is Ok,
                Err(e) => handled > from && outcomes[handled - 1] == Err::<(), E>(e),
            }
        }),
    decreases outcomes.len() - from,
{
    if from < outcomes.len() {
        match outcomes[from] {
            Err(_) => {},
            Ok(()) => {
                lemma_watched_run_stops_at_first_error(outcomes, from + 1);
            },
        }
    }
}

/// Each step of the run agrees with the run: after a change that succeeds
/// the run goes on to the next change, and after one that fails it stops.
pub proof fn lemma_watched_step_follows_run<E>(outcomes: Seq<Result<(), E>>, index: usize)
    requires
        index < outcomes.len() <= usize::MAX,
    ensures
        match watched_step(index, outcomes.len() as usize, outcomes[index as int]) {
            WatchedStep::Next(j) => j == index + 1 && watched_run(outcomes, index as int) == watched_run(outcomes, j as int),
            WatchedStep::Stop(e) => watched_run(outcomes, index as int) == (index + 1, Err::<(), E>(e)),
            WatchedStep::Finished => index + 1 == outcomes.len() && watched_run(outcomes, index as int) == watched_run(outcomes, outcomes.len() as int),
        },
{
}

/// Whether a watched-file change needs to know if a parser handles the
/// file: only then can [`watched_file_action`] read the file.
pub fn parser_needed(is_file: bool, change: FileChange, known: bool) -> (r: bool)
    ensures
        r == needs_parser(is_file, change, known),
        forall|has_parser: bool|
            (#[trigger] watched_action(is_file, change, known, has_parser) is Create
                || watched_action(is_file, change, known, has_parser) is Reload) ==> r,
        !r ==> watched_action(is_file, change, known, true) == watched_action(is_file, change, known, false),
{
    is_file && ((change == FileChange::Created && !known) || (change == FileChange::Changed && known))
}

/// What happens when a file is added to the database.
#[derive(PartialEq, Eq, Structural, Clone, Copy, Debug)]
pub enum AddOutcome {
    /// A file with that URL is there already: the error `FileAlreadyExists`.
    AlreadyExists,
    /// The file is stored.
    Inserted,
    /// The callback refused the file: it is not stored.
    Refused,
}

/// What happens when a file is added: an error if its URL is taken; else
/// it is stored, unless a callback is set and refuses it.
pub fn add_file_outcome(exists: bool, callback_accepts: Option<bool>) -> (r: AddOutcome)
    ensures
        r == (if exists {
            AddOutcome::AlreadyExists
        } else {
            match callback_accepts {
                Some(false) => AddOutcome::Refused,
                _ => AddOutcome::Inserted,
            }
        }),
{
    if exists {
        AddOutcome::AlreadyExists
    } else {
        match callback_accepts {
            Some(false) => AddOutcome::Refused,
            _ => AddOutcome::Inserted,
        }
    }
}

/// What happens when a file is removed from the database.
#[derive(PartialEq, Eq, Structural, Clone, Copy, Debug)]
pub enum RemoveOutcome {
    /// No file has that URL: the error `FileNotFound`.
    NotFound,
    /// The file is removed.
    Removed,
    /// The callback refused: the file stays.
    Kept,
}

/// What happens when a file is removed: an error if no file has the URL;
/// else it is removed, unless a callback is set and refuses.
pub fn remove_file_outcome(exists: bool, callback_accepts: Option<bool>) -> (r: RemoveOutcome)
    ensures
        r == (if !exists {
            RemoveOutcome::NotFound
        } else {
            match callback_accepts {
                Some(false) => RemoveOutcome::Kept,
                _ => RemoveOutcome::Removed,
            }
        }),
{
    if !exists {
        RemoveOutcome::NotFound
    } else {
        match callback_accepts {
            Some(false) => RemoveOutcome::Kept,
            _ => RemoveOutcome::Removed,
        }
    }
}

/// Why no parser was found for a file.
pub enum ExtensionError {
    /// The extension is neither registered nor a language of a registered one.
    UnknownExtension { extension: String },
    /// No parser is registered for the language.
    UnknownParser { extension: String },
}

/// The value registered for `key` among `entries`, the first one.
pub open spec fn assoc(entries: Seq<(String, String)>, key: Seq<char>) -> Option<Seq<char>>
    decreases entries.len(),
{
    if entries.len() == 0 {
        None
    } else if entries[0].0@ == key {
        Some(entries[0].1@)
    } else {
        assoc(entries.drop_first(), key)
    }
}

/// Whether `v` is a registered language.
pub open spec fn is_value(entries: Seq<(String, String)>, v: Seq<char>) -> bool {
    exists|i: int| 0 <= i < entries.len() && (#[trigger] entries[i]).1@ == v
}

/// Whether `v` names a parser.
pub open spec fn has_name(names: Seq<String>, v: Seq<char>) -> bool {
    exists|i: int| 0 <= i < names.len() && (#[trigger] names[i])@ == v
}

/// The language a file extension stands for: the registered language of
/// the extension, or the extension itself when it is a registered language.
pub open spec fn language_of(extensions: Seq<(String, String)>, extension: Seq<char>) -> Option<Seq<char>> {
    match assoc(extensions, extension) {
        Some(l) => Some(l),
        None => if is_value(extensions, extension) { Some(extension) } else { None },
    }
}

/// Abstract content of a parser lookup.
pub open spec fn lookup_view(r: Result<String, ExtensionError>) -> Result<Seq<char>, (bool, Seq<char>)> {
    match r {
        Ok(l) => Ok(l@),
        Err(ExtensionError::UnknownExtension { extension }) => Err((true, extension@)),
        Err(ExtensionError::UnknownParser { extension }) => Err((false, extension@)),
    }
}

/// The value registered for `key`, the first one.
fn find_assoc(entries: &Vec<(String, String)>, key: &Vec<char>) -> (r: Option<String>)
    ensures
        match r {
            Some(v) => assoc(entries@, key@) == Some(v@),
            None => assoc(entries@, key@) is None,
        },
{
    let mut i: usize = 0;
    assert(entries@.subrange(0, entries@.len() as int) =~= entries@);
    while i < entries.len()
        invariant
            i <= entries@.len(),
            assoc(entries@, key@) == assoc(entries@.subrange(i as int, entries@.len() as int), key@),
        decreases entries@.len() - i,
    {
        let ghost rest = entries@.subrange(i as int, entries@.len() as int);
        assert(rest.drop_first() =~= entries@.subrange(i + 1, entries@.len() as int));
        let k = string_chars(&entries[i].0);
        if chars_eq(&k, key) {
            return Some(clone_string(&entries[i].1));
        }
        i = i + 1;
    }
    None
}

/// Whether `v` is a registered value.
fn find_value(entries: &Vec<(String, String)>, v: &Vec<char>) -> (r: bool)
    ensures
        r == is_value(entries@, v@),
{
    let mut j: usize = 0;
    while j < entries.len()
        invariant
            j <= entries@.len(),
            forall|k: int| 0 <= k < j ==> (#[trigger] entries@[k]).1@ != v@,
        decreases entries@.len() - j,
    {
        let c = string_chars(&entries[j].1);
        if chars_eq(&c, v) {
            assert((entries@[j as int]).1@ == v@);
            return true;
        }
        j = j + 1;
    }
    false
}

/// Whether `v` names a parser.
fn find_name(names: &Vec<String>, v: &Vec<char>) -> (r: bool)
    ensures
        r == has_name(names@, v@),
{
    let mut j: usize = 0;
    while j < names.len()
        invariant
            j <= names@.len(),
            forall|k: int| 0 <= k < j ==> (#[trigger] names@[k])@ != v@,
        decreases names@.len() - j,
    {
        let c = string_chars(&names[j]);
        if chars_eq(&c, v) {
            assert(names@[j as int]@ == v@);
            return true;
        }
        j = j + 1;
    }
    false
}

/// The parser of a file extension, among the parsers named `parsers`, given
/// the extensions registered as (extension, language).
pub fn get_ast_parser(extensions: &Vec<(String, String)>, parsers: &Vec<String>, extension: &str) -> (r: Result<String, ExtensionError>)
    ensures
        lookup_view(r) == (match language_of(extensions@, extension@) {
            None => Err((true, extension@)),
            Some(l) => if has_name(parsers@, l) { Ok(l) } else { Err((false, l)) },
        }),
{
    let ext = str_chars(extension);
    let language = match find_assoc(extensions, &ext) {
        Some(l) => l,
        None => {
            if !find_value(extensions, &ext) {
                return Err(ExtensionError::UnknownExtension { extension: string_from_str(extension) });
            }
            string_from_str(extension)
        },
    };
    let l = string_chars(&language);
    if find_name(parsers, &l) {
        Ok(language)
    } else {
        Err(ExtensionError::UnknownParser { extension: language })
    }
}

} // verus!
