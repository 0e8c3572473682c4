//! What the tool says when it gives up.

use crate::config::{ConfigError, ConfigErrorView, CONF_FILE_NAME};
use vstd::prelude::*;
use vstd::string::StringExecFns;

verus! {

/// The mount table could not be opened.
pub const MTAB_NOT_OPENED: &'static str = "Could not open mtab file";

/// The mount table could not be read to its end.
pub const MTAB_NOT_READ: &'static str = "Could not read mtab line";

/// A line of the mount table has fewer than three fields.
pub const MTAB_MALFORMED: &'static str = "Malformed mtab line";

/// The target directory has no canonical path.
pub const INVALID_MOUNTPOINT: &'static str = "Invalid mountpoint";

/// The configuration names no remote.
pub const MISSING_REMOTE: &'static str = "missing field `remote`";

/// The mount program could not be run.
pub const MOUNT_NOT_RUN: &'static str =
    "Could not run sshfs: please check your sshfs installation.";

/// The unmount program could not be run.
pub const UNMOUNT_NOT_RUN: &'static str =
    "Could not run fusermount: please check your fuse installation.";

/// The command ended without an exit status of its own.
pub const NO_EXIT_STATUS: &'static str = "The command ended without an exit status";

/// Whether `part` occurs in `text` as one stretch.
pub open spec fn contains_text(text: Seq<char>, part: Seq<char>) -> bool {
    exists|from: int, to: int| 0 <= from <= to <= text.len() && text.subrange(from, to) == part
}

/// The report that `program` is not installed.
pub open spec fn not_found_text(program: Seq<char>) -> Seq<char> {
    "Command '"@ + program + "' not found."@
}

/// The report that looking for `program` failed with `error`.
pub open spec fn probe_failed_text(program: Seq<char>, error: Seq<char>) -> Seq<char> {
    "Error while assert that the command '"@ + program + "' exists: "@ + error
}

/// The report that `directory` holds no readable configuration file.
pub open spec fn config_unreadable_text(directory: Seq<char>) -> Seq<char> {
    "Could not read "@ + CONF_FILE_NAME@ + " config from '"@ + directory + "'"@
}

/// The report that the configuration file in `directory` is not one.
pub open spec fn config_invalid_text(directory: Seq<char>) -> Seq<char> {
    "Invalid "@ + CONF_FILE_NAME@ + " configuration in '"@ + directory + "'"@
}

/// What is wrong with a configuration, in words: what the parser says of a
/// text that is no TOML document, and [`MISSING_REMOTE`] otherwise.
pub open spec fn reason_text(error: ConfigErrorView) -> Seq<char> {
    match error {
        ConfigErrorView::Malformed { message } => message,
        ConfigErrorView::MissingRemote => MISSING_REMOTE@,
    }
}

/// `message`, followed by what caused it.
pub open spec fn caused_text(message: Seq<char>, cause: Seq<char>) -> Seq<char> {
    message + ": "@ + cause
}

/// Writes [`not_found_text`].
pub fn not_found(program: &str) -> (r: String)
    ensures
        r@ == not_found_text(program@),
{
    let mut r = "Command '".to_owned();
    r.append(program);
    r.append("' not found.");
    r
}

/// Writes [`probe_failed_text`].
pub fn probe_failed(program: &str, error: &str) -> (r: String)
    ensures
        r@ == probe_failed_text(program@, error@),
{
    let mut r = "Error while assert that the command '".to_owned();
    r.append(program);
    r.append("' exists: ");
    r.append(error);
    r
}

/// Writes [`config_unreadable_text`].
pub fn config_unreadable(directory: &str) -> (r: String)
    ensures
        r@ == config_unreadable_text(directory@),
{
    let mut r = "Could not read ".to_owned();
    r.append(CONF_FILE_NAME);
    r.append(" config from '");
    r.append(directory);
    r.append("'");
    r
}

/// Writes [`config_invalid_text`].
pub fn config_invalid(directory: &str) -> (r: String)
    ensures
        r@ == config_invalid_text(directory@),
{
    let mut r = "Invalid ".to_owned();
    r.append(CONF_FILE_NAME);
    r.append(" configuration in '");
    r.append(directory);
    r.append("'");
    r
}

/// Writes [`reason_text`].
pub fn reason(error: ConfigError) -> (r: String)
    ensures
        r@ == reason_text(error@),
{
    match error {
        ConfigError::Malformed { message } => message,
        ConfigError::MissingRemote => MISSING_REMOTE.to_owned(),
    }
}

/// Writes [`caused_text`].
pub fn caused(message: String, cause: &str) -> (r: String)
    ensures
        r@ == caused_text(message@, cause@),
{
    let mut r = message;
    r.append(": ");
    r.append(cause);
    r
}

/// What a message names, it still names with its cause added, and it names
/// the cause.
pub proof fn lemma_caused_keeps_text(message: Seq<char>, cause: Seq<char>, part: Seq<char>)
    requires
        contains_text(message, part),
    ensures
        contains_text(caused_text(message, cause), part),
        contains_text(caused_text(message, cause), cause),
{
    let text = caused_text(message, cause);
    let (from, to) = choose|from: int, to: int|
        0 <= from <= to <= message.len() && message.subrange(from, to) == part;
    assert(text.subrange(from, to) =~= part);
    let start = (message.len() + ": "@.len()) as int;
    assert(text.subrange(start, start + cause.len()) =~= cause);
}

/// The report of an invalid configuration names both the configuration file
/// and the directory that holds it.
pub proof fn lemma_config_invalid_names_both(directory: Seq<char>)
    ensures
        contains_text(config_invalid_text(directory), CONF_FILE_NAME@),
        contains_text(config_invalid_text(directory), directory),
{
    let text = config_invalid_text(directory);
    let a = "Invalid "@.len() as int;
    let b = a + CONF_FILE_NAME@.len();
    let c = b + " configuration in '"@.len();
    assert(text.subrange(a, b) =~= CONF_FILE_NAME@);
    assert(text.subrange(c, c + directory.len()) =~= directory);
}

/// The report of a missing program names the program.
pub proof fn lemma_not_found_names_program(program: Seq<char>)
    ensures
        contains_text(not_found_text(program), program),
{
    let text = not_found_text(program);
    let from = "Command '"@.len() as int;
    assert(text.subrange(from, from + program.len()) =~= program);
}

/// The report of an unreadable configuration names both the configuration
/// file and the directory that should hold it.
pub proof fn lemma_config_unreadable_names_both(directory: Seq<char>)
    ensures
        contains_text(config_unreadable_text(directory), CONF_FILE_NAME@),
        contains_text(config_unreadable_text(directory), directory),
{
    let head = "Could not read "@;
    let name = CONF_FILE_NAME@;
    let middle = " config from '"@;
    let text = config_unreadable_text(directory);
    let a = head.len() as int;
    let b = a + name.len();
    let c = b + middle.len();
    assert(text.subrange(a, b) =~= name);
    assert(text.subrange(c, c + directory.len()) =~= directory);
}

} // verus!
