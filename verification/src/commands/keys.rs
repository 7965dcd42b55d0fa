//! The `keys` command: import and export of the end-to-end encryption keys
//! of the server that the current buffer belongs to.
use vstd::prelude::*;
use vstd::string::{StrSliceExecFns, StringExecFns};

verus! {

/// A path with its leading `~` replaced by the home directory. Only a `~`
/// that stands alone or before a `/` names the home directory; every other
/// path is left as it is.
pub open spec fn spec_expand_home(path: Seq<char>, home: Seq<char>) -> Seq<char> {
    if path.len() > 0 && path[0] == '~' && (path.len() == 1 || path[1] == '/') {
        home + path.subrange(1, path.len() as int)
    } else {
        path
    }
}

/// The path of a key file as the user typed it, with a leading `~` replaced
/// by the home directory.
pub fn expand_home(path: &str, home: &str) -> (expanded: String)
    ensures
        expanded@ == spec_expand_home(path@, home@),
{
    let len = path.unicode_len();
    if len > 0 && path.get_char(0) == '~' && (len == 1 || path.get_char(1) == '/') {
        let mut expanded = home.to_owned();
        expanded.append(path.substring_char(1, len));
        expanded
    } else {
        path.to_owned()
    }
}

/// What the `keys` command can do.
#[derive(Clone, Copy, Debug, PartialEq, Eq, Structural)]
pub enum KeysSubcommand {
    /// Read keys from a file.
    Import,
    /// Write keys to a file.
    Export,
}

/// The subcommand with the given name.
pub open spec fn subcommand_named(name: Seq<char>) -> Option<KeysSubcommand> {
    if name == "import"@ {
        Some(KeysSubcommand::Import)
    } else if name == "export"@ {
        Some(KeysSubcommand::Export)
    } else {
        None
    }
}

/// What the command makes the plugin do.
#[derive(Clone, Debug, PartialEq, Eq)]
pub enum KeysAction {
    /// Import the keys in the file, which the passphrase opens.
    Import { file: String, passphrase: String },
    /// Export the keys to the file, sealed with the passphrase.
    Export { file: String, passphrase: String },
    /// Tell the user why nothing was done.
    Print(String),
}

/// The mathematical value of a [`KeysAction`].
pub ghost enum KeysActionView {
    Import { file: Seq<char>, passphrase: Seq<char> },
    Export { file: Seq<char>, passphrase: Seq<char> },
    Print(Seq<char>),
}

impl View for KeysAction {
    type V = KeysActionView;

    open spec fn view(&self) -> KeysActionView {
        match self {
            KeysAction::Import { file, passphrase } => KeysActionView::Import {
                file: file@,
                passphrase: passphrase@,
            },
            KeysAction::Export { file, passphrase } => KeysActionView::Export {
                file: file@,
                passphrase: passphrase@,
            },
            KeysAction::Print(text) => KeysActionView::Print(text@),
        }
    }
}

/// The value of an action that may be absent.
pub open spec fn action_view(action: Option<KeysAction>) -> Option<KeysActionView> {
    match action {
        Some(a) => Some(a@),
        None => None,
    }
}

/// The value of a file and a passphrase that may be absent.
pub open spec fn arguments_view(arguments: Option<(String, String)>) -> Option<
    (Seq<char>, Seq<char>),
> {
    match arguments {
        Some((file, passphrase)) => Some((file@, passphrase@)),
        None => None,
    }
}

/// What a run of the command does. Off the buffers of a server it is a word
/// to the user, whatever else was typed. On such a buffer it is the
/// subcommand with the file and the passphrase as given, and nothing where
/// one of them is missing.
pub open spec fn spec_run(
    on_matrix_buffer: bool,
    subcommand: Option<KeysSubcommand>,
    arguments: Option<(Seq<char>, Seq<char>)>,
) -> Option<KeysActionView> {
    if !on_matrix_buffer {
        Some(KeysActionView::Print("Must be executed on Matrix buffer"@))
    } else {
        match (subcommand, arguments) {
            (Some(KeysSubcommand::Import), Some((file, passphrase))) => Some(
                KeysActionView::Import { file, passphrase },
            ),
            (Some(KeysSubcommand::Export), Some((file, passphrase))) => Some(
                KeysActionView::Export { file, passphrase },
            ),
            _ => None,
        }
    }
}

/// The `keys` command.
pub struct KeysCommand {}

impl KeysCommand {
    /// The subcommand that the user named, if there is one of that name.
    pub fn subcommand(name: &str) -> (subcommand: Option<KeysSubcommand>)
        ensures
            subcommand == subcommand_named(name@),
    {
        let name = name.to_owned();
        if name == "import".to_owned() {
            Some(KeysSubcommand::Import)
        } else if name == "export".to_owned() {
            Some(KeysSubcommand::Export)
        } else {
            None
        }
    }

    /// Runs the command: says what to do, given whether the current buffer
    /// belongs to a server, the subcommand that the user named and the file
    /// and passphrase that came with it.
    ///
    /// Whether the buffer belongs to a server is looked at first: where it
    /// does not, the user is told so and the rest is not read. On a buffer
    /// of a server, a subcommand or arguments that are missing give nothing
    /// to do; the parser of the command line lets no such input through.
    pub fn run(
        on_matrix_buffer: bool,
        subcommand: Option<KeysSubcommand>,
        arguments: Option<(String, String)>,
    ) -> (action: Option<KeysAction>)
        ensures
            action_view(action) == spec_run(on_matrix_buffer, subcommand, arguments_view(arguments)),
    {
        if !on_matrix_buffer {
            return Some(KeysAction::Print("Must be executed on Matrix buffer".to_owned()));
        }
        match (subcommand, arguments) {
            (Some(KeysSubcommand::Import), Some((file, passphrase))) => Some(
                KeysAction::Import { file, passphrase },
            ),
            (Some(KeysSubcommand::Export), Some((file, passphrase))) => Some(
                KeysAction::Export { file, passphrase },
            ),
            _ => None,
        }
    }
}

} // verus!
