//! The two commands that the tool runs, and what their exit means for it.

use vstd::prelude::*;

verus! {

/// The program that mounts.
pub const MOUNT_PROGRAM: &'static str = "sshfs";

/// The program that unmounts.
pub const UNMOUNT_PROGRAM: &'static str = "fusermount";

/// Introduces the mount options.
pub const OPTION_FLAG: &'static str = "-o";

/// The mount options: allow a directory that is not empty, and show the
/// remote user's files as owned by the user who mounts.
pub const MOUNT_OPTIONS: &'static str = "nonempty,idmap=user";

/// Tells the unmount program to unmount.
pub const UNMOUNT_FLAG: &'static str = "-u";

/// A program and the arguments to run it with, in order.
#[derive(Debug, PartialEq, Eq)]
pub struct Command {
    pub program: String,
    pub args: Vec<String>,
}

/// A command as plain text.
pub struct CommandView {
    pub program: Seq<char>,
    pub args: Seq<Seq<char>>,
}

impl View for Command {
    type V = CommandView;

    open spec fn view(&self) -> CommandView {
        CommandView { program: self.program@, args: self.args.deep_view() }
    }
}

/// The command that mounts `remote` on `mountpoint`.
pub open spec fn mount_command_of(remote: Seq<char>, mountpoint: Seq<char>) -> CommandView {
    CommandView {
        program: MOUNT_PROGRAM@,
        args: seq![remote, mountpoint, OPTION_FLAG@, MOUNT_OPTIONS@],
    }
}

/// The command that unmounts `mountpoint`.
pub open spec fn unmount_command_of(mountpoint: Seq<char>) -> CommandView {
    CommandView { program: UNMOUNT_PROGRAM@, args: seq![UNMOUNT_FLAG@, mountpoint] }
}

/// Builds the command that mounts `remote` on `mountpoint`.
pub fn mount(remote: &str, mountpoint: &str) -> (r: Command)
    ensures
        r@ == mount_command_of(remote@, mountpoint@),
{
    let mut args: Vec<String> = Vec::new();
    args.push(remote.to_owned());
    args.push(mountpoint.to_owned());
    args.push(OPTION_FLAG.to_owned());
    args.push(MOUNT_OPTIONS.to_owned());
    let r = Command { program: MOUNT_PROGRAM.to_owned(), args };
    proof {
        assert(r@.args =~= mount_command_of(remote@, mountpoint@).args);
    }
    r
}

/// Builds the command that unmounts `mountpoint`.
pub fn unmount(mountpoint: &str) -> (r: Command)
    ensures
        r@ == unmount_command_of(mountpoint@),
{
    let mut args: Vec<String> = Vec::new();
    args.push(UNMOUNT_FLAG.to_owned());
    args.push(mountpoint.to_owned());
    let r = Command { program: UNMOUNT_PROGRAM.to_owned(), args };
    proof {
        assert(r@.args =~= unmount_command_of(mountpoint@).args);
    }
    r
}

} // verus!
