//! The identity of a mint server: which secret key it starts with.
//!
//! The key is read from a file, generated and written to it, or generated
//! afresh. Files and randomness are the caller's: [`key_step`] takes what came
//! of the last action and says which action is next.

use crate::error::{Error, ErrorView};
use crate::node::{key_bytes, key_from_bytes, node_id_of, secret_bytes};
use crate::text::{decimal, decimal_text, join};
use iroh::SecretKey;
use vstd::prelude::*;

verus! {

/// The file that holds the identity key, as it is shown to a person.
#[derive(Debug)]
pub struct IdentityFile {
    /// The path of the file.
    pub path: String,
    /// The path of the directory that the file is in, where it has one.
    pub parent: Option<String>,
}

/// The model of an [`IdentityFile`].
pub struct IdentityFileView {
    pub path: Seq<char>,
    pub parent: Option<Seq<char>>,
}

impl View for IdentityFile {
    type V = IdentityFileView;

    open spec fn view(&self) -> IdentityFileView {
        IdentityFileView {
            path: self.path@,
            parent: match self.parent {
                Some(parent) => Some(parent@),
                None => None,
            },
        }
    }
}

/// Where the search for a key stands: what the next event is about.
#[derive(Debug)]
pub enum KeyState {
    /// A key is being generated that will not be kept.
    Generating,
    /// It is being looked up whether the file exists.
    Probing(IdentityFile),
    /// The file is being read.
    Reading(IdentityFile),
    /// A key is being generated for the file.
    GeneratingFor(IdentityFile),
    /// The directory of the file is being created.
    Creating(IdentityFile, SecretKey),
    /// The key is being written to the file.
    Writing(IdentityFile, SecretKey),
    /// Nothing is left to do.
    Over,
}

/// The model of a [`KeyState`]; a key stands by its bytes.
pub enum KeyStateView {
    Generating,
    Probing(IdentityFileView),
    Reading(IdentityFileView),
    GeneratingFor(IdentityFileView),
    Creating(IdentityFileView, Seq<u8>),
    Writing(IdentityFileView, Seq<u8>),
    Over,
}

impl View for KeyState {
    type V = KeyStateView;

    open spec fn view(&self) -> KeyStateView {
        match self {
            KeyState::Generating => KeyStateView::Generating,
            KeyState::Probing(file) => KeyStateView::Probing(file@),
            KeyState::Reading(file) => KeyStateView::Reading(file@),
            KeyState::GeneratingFor(file) => KeyStateView::GeneratingFor(file@),
            KeyState::Creating(file, key) => KeyStateView::Creating(file@, secret_bytes(*key)),
            KeyState::Writing(file, key) => KeyStateView::Writing(file@, secret_bytes(*key)),
            KeyState::Over => KeyStateView::Over,
        }
    }
}

/// What came of the last action.
#[derive(Debug)]
pub enum KeyEvent {
    /// Whether the file exists.
    Exists(bool),
    /// The contents of the file.
    Contents(Vec<u8>),
    /// A new key.
    Generated(SecretKey),
    /// The directory was created, or the file written.
    Done,
    /// The file could not be read or written, or the directory not be created.
    Failed(String),
}

/// The model of a [`KeyEvent`]; a key stands by its bytes.
pub enum KeyEventView {
    Exists(bool),
    Contents(Seq<u8>),
    Generated(Seq<u8>),
    Done,
    Failed(Seq<char>),
}

impl View for KeyEvent {
    type V = KeyEventView;

    open spec fn view(&self) -> KeyEventView {
        match self {
            KeyEvent::Exists(exists) => KeyEventView::Exists(*exists),
            KeyEvent::Contents(contents) => KeyEventView::Contents(contents@),
            KeyEvent::Generated(key) => KeyEventView::Generated(secret_bytes(*key)),
            KeyEvent::Done => KeyEventView::Done,
            KeyEvent::Failed(error) => KeyEventView::Failed(error@),
        }
    }
}

/// What is to be done next.
#[derive(Debug)]
pub enum KeyAction {
    /// Look up whether the file exists.
    Probe,
    /// Read the file.
    Read,
    /// Generate a key.
    Generate,
    /// Create the directory of the file, and those above it.
    CreateParent,
    /// Write these bytes to the file.
    Write([u8; 32]),
    /// Start with this key.
    Use(SecretKey),
    /// There is no key to start with.
    Fail(Error),
}

/// The model of a [`KeyAction`]; a key stands by its bytes.
pub enum KeyActionView {
    Probe,
    Read,
    Generate,
    CreateParent,
    Write(Seq<u8>),
    Use(Seq<u8>),
    Fail(ErrorView),
}

impl View for KeyAction {
    type V = KeyActionView;

    open spec fn view(&self) -> KeyActionView {
        match self {
            KeyAction::Probe => KeyActionView::Probe,
            KeyAction::Read => KeyActionView::Read,
            KeyAction::Generate => KeyActionView::Generate,
            KeyAction::CreateParent => KeyActionView::CreateParent,
            KeyAction::Write(contents) => KeyActionView::Write(contents@),
            KeyAction::Use(key) => KeyActionView::Use(secret_bytes(*key)),
            KeyAction::Fail(error) => KeyActionView::Fail(error@),
        }
    }
}

/// A failure on a path: what was tried, the path and the error.
pub open spec fn path_failure(tried: Seq<char>, path: Seq<char>, error: Seq<char>) -> ErrorView {
    ErrorView::Identity(tried + path + ": "@ + error)
}

/// The failure on a file that does not have the length of a key.
pub open spec fn wrong_length(path: Seq<char>, length: nat) -> ErrorView {
    ErrorView::Identity(
        "identity file "@ + path + " has wrong length (expected 32, got "@ + decimal_text(length)
            + ")"@,
    )
}

impl KeyStateView {
    /// The event is one that the search waits for.
    pub open spec fn waits_for(self, event: KeyEventView) -> bool {
        match self {
            KeyStateView::Generating => event is Generated,
            KeyStateView::Probing(_) => event is Exists,
            KeyStateView::Reading(_) => event is Contents || event is Failed,
            KeyStateView::GeneratingFor(_) => event is Generated,
            KeyStateView::Creating(file, _) => file.parent is Some && (event is Done
                || event is Failed),
            KeyStateView::Writing(..) => event is Done || event is Failed,
            KeyStateView::Over => false,
        }
    }

    /// The state and the action that follow from an event that the search waits for.
    pub open spec fn next(self, event: KeyEventView) -> (KeyStateView, KeyActionView) {
        match (self, event) {
            (KeyStateView::Generating, KeyEventView::Generated(key)) => (
                KeyStateView::Over,
                KeyActionView::Use(key),
            ),
            (KeyStateView::Probing(file), KeyEventView::Exists(exists)) => if exists {
                (KeyStateView::Reading(file), KeyActionView::Read)
            } else {
                (KeyStateView::GeneratingFor(file), KeyActionView::Generate)
            },
            (KeyStateView::Reading(file), KeyEventView::Contents(contents)) => (
                KeyStateView::Over,
                if contents.len() == 32 {
                    KeyActionView::Use(contents)
                } else {
                    KeyActionView::Fail(wrong_length(file.path, contents.len()))
                },
            ),
            (KeyStateView::Reading(file), KeyEventView::Failed(error)) => (
                KeyStateView::Over,
                KeyActionView::Fail(path_failure("read "@, file.path, error)),
            ),
            (KeyStateView::GeneratingFor(file), KeyEventView::Generated(key)) => if file.parent
                is Some {
                (KeyStateView::Creating(file, key), KeyActionView::CreateParent)
            } else {
                (KeyStateView::Writing(file, key), KeyActionView::Write(key))
            },
            (KeyStateView::Creating(file, key), KeyEventView::Done) => (
                KeyStateView::Writing(file, key),
                KeyActionView::Write(key),
            ),
            (KeyStateView::Creating(file, _), KeyEventView::Failed(error)) => (
                KeyStateView::Over,
                KeyActionView::Fail(path_failure("create dir "@, file.parent.unwrap(), error)),
            ),
            (KeyStateView::Writing(_, key), KeyEventView::Done) => (
                KeyStateView::Over,
                KeyActionView::Use(key),
            ),
            (KeyStateView::Writing(file, _), KeyEventView::Failed(error)) => (
                KeyStateView::Over,
                KeyActionView::Fail(path_failure("write "@, file.path, error)),
            ),
            _ => (self, KeyActionView::Generate),
        }
    }
}

/// Begins to load the key from the identity file, or to generate one if the
/// file does not exist. Without a file, a key is always generated.
pub fn load_or_generate_key(file: Option<IdentityFile>) -> (next: (KeyState, KeyAction))
    ensures
        match file {
            Some(f) => next.0@ == KeyStateView::Probing(f@) && next.1@ is Probe,
            None => next.0@ is Generating && next.1@ is Generate,
        },
{
    match file {
        Some(file) => (KeyState::Probing(file), KeyAction::Probe),
        None => (KeyState::Generating, KeyAction::Generate),
    }
}

fn path_error(tried: &str, path: &str, error: &str) -> (failure: Error)
    ensures
        failure@ == path_failure(tried@, path@, error@),
{
    let mut text = join(tried, path);
    text.append(": ");
    text.append(error);
    Error::Identity(text)
}

fn length_error(path: &str, length: usize) -> (failure: Error)
    ensures
        failure@ == wrong_length(path@, length as nat),
{
    let mut text = join("identity file ", path);
    text.append(" has wrong length (expected 32, got ");
    text.append(decimal(length as u64).as_str());
    text.append(")");
    Error::Identity(text)
}

/// The secret key with these bytes.
fn key_from_contents(contents: &Vec<u8>) -> (key: SecretKey)
    requires
        contents@.len() == 32,
    ensures
        secret_bytes(key) == contents@,
{
    let mut array: [u8; 32] = [0; 32];
    let mut i: usize = 0;
    while i < 32
        invariant
            contents@.len() == 32,
            i <= 32,
            forall|j: int| 0 <= j < i ==> array@[j] == contents@[j],
        decreases 32 - i,
    {
        array[i] = contents[i];
        i = i + 1;
    }
    assert(array@ =~= contents@);
    key_from_bytes(&array)
}

/// Goes on with the search for a key, given what came of the last action.
pub fn key_step(state: KeyState, event: KeyEvent) -> (next: (KeyState, KeyAction))
    requires
        state@.waits_for(event@),
    ensures
        (next.0@, next.1@) == state@.next(event@),
{
    match (state, event) {
        (KeyState::Generating, KeyEvent::Generated(key)) => (KeyState::Over, KeyAction::Use(key)),
        (KeyState::Probing(file), KeyEvent::Exists(exists)) => if exists {
            (KeyState::Reading(file), KeyAction::Read)
        } else {
            (KeyState::GeneratingFor(file), KeyAction::Generate)
        },
        (KeyState::Reading(file), KeyEvent::Contents(contents)) => if contents.len() == 32 {
            (KeyState::Over, KeyAction::Use(key_from_contents(&contents)))
        } else {
            (
                KeyState::Over,
                KeyAction::Fail(length_error(file.path.as_str(), contents.len())),
            )
        },
        (KeyState::Reading(file), KeyEvent::Failed(error)) => (
            KeyState::Over,
            KeyAction::Fail(path_error("read ", file.path.as_str(), error.as_str())),
        ),
        (KeyState::GeneratingFor(file), KeyEvent::Generated(key)) => if file.parent.is_some() {
            (KeyState::Creating(file, key), KeyAction::CreateParent)
        } else {
            let contents = key_bytes(&key);
            (KeyState::Writing(file, key), KeyAction::Write(contents))
        },
        (KeyState::Creating(file, key), KeyEvent::Done) => {
            let contents = key_bytes(&key);
            (KeyState::Writing(file, key), KeyAction::Write(contents))
        },
        (KeyState::Creating(file, _), KeyEvent::Failed(error)) => {
            let parent = file.parent.unwrap();
            (
                KeyState::Over,
                KeyAction::Fail(path_error("create dir ", parent.as_str(), error.as_str())),
            )
        },
        (KeyState::Writing(_, key), KeyEvent::Done) => (KeyState::Over, KeyAction::Use(key)),
        (KeyState::Writing(file, _), KeyEvent::Failed(error)) => (
            KeyState::Over,
            KeyAction::Fail(path_error("write ", file.path.as_str(), error.as_str())),
        ),
        (state, _) => (state, KeyAction::Generate),
    }
}

/// An identity file gives a stable identity: the bytes that are written for a
/// generated key make a later start, which finds the file, use that key again,
/// and so have the same node ID.
pub proof fn law_identity_is_stable(file: IdentityFileView, key: Seq<u8>)
    requires
        key.len() == 32,
    ensures
        ({
            let (generated, action) = KeyStateView::GeneratingFor(file).next(
                KeyEventView::Generated(key),
            );
            let (writing, write) = if file.parent is Some {
                generated.next(KeyEventView::Done)
            } else {
                (generated, action)
            };
            let first = writing.next(KeyEventView::Done).1;
            let reading = KeyStateView::Probing(file).next(KeyEventView::Exists(true)).0;
            let later = reading.next(KeyEventView::Contents(write->Write_0)).1;
            &&& write is Write
            &&& first is Use
            &&& later is Use
            &&& first->Use_0 == key
            &&& later->Use_0 == key
            &&& node_id_of(first->Use_0) == node_id_of(later->Use_0)
        }),
{
}

/// A key that was generated for a file is used only once it has been written
/// there, and the bytes written are those of the key.
pub proof fn law_key_is_kept_before_use(state: KeyStateView, event: KeyEventView)
    requires
        state.waits_for(event),
    ensures
        state is GeneratingFor || state is Creating ==> !(state.next(event).1 is Use),
        state.next(event) matches (KeyStateView::Writing(_, key), action) ==> action
            == KeyActionView::Write(key),
        state matches KeyStateView::Writing(_, key) ==> (state.next(event).1 is Use ==> event is Done
            && state.next(event).1 == KeyActionView::Use(key)),
{
}

/// A key that is not to be kept is used as it was generated. A file that exists
/// is read, and its bytes are the key if they are 32; a file of any other length
/// is refused, and the failure tells the file and the length. A file that cannot
/// be read is refused with the reason.
pub proof fn law_existing_file_is_the_key(
    file: IdentityFileView,
    key: Seq<u8>,
    contents: Seq<u8>,
    reason: Seq<char>,
)
    ensures
        KeyStateView::Generating.next(KeyEventView::Generated(key)) == (
            KeyStateView::Over,
            KeyActionView::Use(key),
        ),
        KeyStateView::Probing(file).next(KeyEventView::Exists(true)) == (
            KeyStateView::Reading(file),
            KeyActionView::Read,
        ),
        contents.len() == 32 ==> KeyStateView::Reading(file).next(KeyEventView::Contents(contents))
            == (KeyStateView::Over, KeyActionView::Use(contents)),
        contents.len() != 32 ==> KeyStateView::Reading(file).next(KeyEventView::Contents(contents))
            == (
            KeyStateView::Over,
            KeyActionView::Fail(
                ErrorView::Identity(
                    "identity file "@ + file.path + " has wrong length (expected 32, got "@
                        + decimal_text(contents.len()) + ")"@,
                ),
            ),
        ),
        KeyStateView::Reading(file).next(KeyEventView::Failed(reason)) == (
            KeyStateView::Over,
            KeyActionView::Fail(ErrorView::Identity("read "@ + file.path + ": "@ + reason)),
        ),
{
}

/// For a file that does not exist a key is generated. Its directory is created,
/// if it has one, then the bytes of the key are written, and then the key is
/// used. What cannot be created or written is refused with its path and the
/// reason.
pub proof fn law_missing_file_is_written(
    file: IdentityFileView,
    key: Seq<u8>,
    reason: Seq<char>,
    parent: Seq<char>,
)
    ensures
        KeyStateView::Probing(file).next(KeyEventView::Exists(false)) == (
            KeyStateView::GeneratingFor(file),
            KeyActionView::Generate,
        ),
        KeyStateView::GeneratingFor(file).next(KeyEventView::Generated(key)) == if file.parent
            is Some {
            (KeyStateView::Creating(file, key), KeyActionView::CreateParent)
        } else {
            (KeyStateView::Writing(file, key), KeyActionView::Write(key))
        },
        KeyStateView::Creating(file, key).next(KeyEventView::Done) == (
            KeyStateView::Writing(file, key),
            KeyActionView::Write(key),
        ),
        file.parent == Some(parent) ==> KeyStateView::Creating(file, key).next(
            KeyEventView::Failed(reason),
        ) == (
            KeyStateView::Over,
            KeyActionView::Fail(ErrorView::Identity("create dir "@ + parent + ": "@ + reason)),
        ),
        KeyStateView::Writing(file, key).next(KeyEventView::Done) == (
            KeyStateView::Over,
            KeyActionView::Use(key),
        ),
        KeyStateView::Writing(file, key).next(KeyEventView::Failed(reason)) == (
            KeyStateView::Over,
            KeyActionView::Fail(ErrorView::Identity("write "@ + file.path + ": "@ + reason)),
        ),
{
}

/// The search for a key takes every outcome that its last action can have.
pub proof fn law_key_search_takes_what_comes(
    file: IdentityFileView,
    key: Seq<u8>,
    exists: bool,
    contents: Seq<u8>,
    reason: Seq<char>,
)
    ensures
        KeyStateView::Generating.waits_for(KeyEventView::Generated(key)),
        KeyStateView::Probing(file).waits_for(KeyEventView::Exists(exists)),
        KeyStateView::Reading(file).waits_for(KeyEventView::Contents(contents)),
        KeyStateView::Reading(file).waits_for(KeyEventView::Failed(reason)),
        KeyStateView::GeneratingFor(file).waits_for(KeyEventView::Generated(key)),
        file.parent is Some ==> KeyStateView::Creating(file, key).waits_for(KeyEventView::Done),
        file.parent is Some ==> KeyStateView::Creating(file, key).waits_for(
            KeyEventView::Failed(reason),
        ),
        KeyStateView::Writing(file, key).waits_for(KeyEventView::Done),
        KeyStateView::Writing(file, key).waits_for(KeyEventView::Failed(reason)),
{
}

/// The models of states, events and actions hold what these hold; a key stands
/// by its bytes.
pub proof fn law_key_search_is_modelled_whole(
    file: IdentityFile,
    state: KeyState,
    event: KeyEvent,
    action: KeyAction,
)
    ensures
        file@.path == file.path@,
        file.parent matches Some(parent) ==> file@.parent == Some(parent@),
        file.parent is None ==> file@.parent is None,
        match state {
            KeyState::Generating => state@ is Generating,
            KeyState::Probing(f) => state@ == KeyStateView::Probing(f@),
            KeyState::Reading(f) => state@ == KeyStateView::Reading(f@),
            KeyState::GeneratingFor(f) => state@ == KeyStateView::GeneratingFor(f@),
            KeyState::Creating(f, key) => state@ == KeyStateView::Creating(f@, secret_bytes(key)),
            KeyState::Writing(f, key) => state@ == KeyStateView::Writing(f@, secret_bytes(key)),
            KeyState::Over => state@ is Over,
        },
        match event {
            KeyEvent::Exists(exists) => event@ == KeyEventView::Exists(exists),
            KeyEvent::Contents(contents) => event@ == KeyEventView::Contents(contents@),
            KeyEvent::Generated(key) => event@ == KeyEventView::Generated(secret_bytes(key)),
            KeyEvent::Done => event@ is Done,
            KeyEvent::Failed(text) => event@ == KeyEventView::Failed(text@),
        },
        match action {
            KeyAction::Probe => action@ is Probe,
            KeyAction::Read => action@ is Read,
            KeyAction::Generate => action@ is Generate,
            KeyAction::CreateParent => action@ is CreateParent,
            KeyAction::Write(contents) => action@ == KeyActionView::Write(contents@),
            KeyAction::Use(key) => action@ == KeyActionView::Use(secret_bytes(key)),
            KeyAction::Fail(error) => action@ == KeyActionView::Fail(error@),
        },
{
}

} // verus!
