//! The command line as plain values, and what the program does with it.

use vstd::prelude::*;

verus! {

/// The target level in effect when the command line names none.
pub const DEFAULT_TARGET_LOUDNESS: i32 = -20;

/// Subcommands.
#[derive(Clone, Copy, Debug, PartialEq, Eq, Structural)]
pub enum Commands {
    /// List all audio devices.
    List,
}

/// The parsed command line.
#[derive(Debug)]
pub struct Cli {
    /// Subcommand, if one was given.
    pub command: Option<Commands>,
    /// Input device name.
    pub input_device: Option<String>,
    /// Output device name.
    pub output_device: Option<String>,
    /// Initial target loudness.
    pub target_loudness: i32,
    /// Enables the periodic export of diagnostics.
    pub debug: bool,
}

/// What the program does once the command line is parsed.
#[derive(Clone, Copy, Debug, PartialEq, Eq, Structural)]
pub enum Startup {
    /// Print the names of the audio devices and leave.
    ListDevices,
    /// Print the usage text and leave: no device was named.
    PrintHelp,
    /// Refuse to start: only one of the two devices was named.
    MissingDevice,
    /// Open both named devices and stream.
    Stream,
}

impl Cli {
    /// A subcommand wins over everything else. Without one, streaming needs
    /// both device names; with neither the usage text is shown.
    pub open spec fn startup_spec(self) -> Startup {
        if self.command is Some {
            Startup::ListDevices
        } else if self.input_device is None && self.output_device is None {
            Startup::PrintHelp
        } else if self.input_device is Some && self.output_device is Some {
            Startup::Stream
        } else {
            Startup::MissingDevice
        }
    }

    /// Decides what to do at startup.
    pub fn startup(&self) -> (action: Startup)
        ensures
            action == self.startup_spec(),
            action == Startup::Stream ==> self.input_device is Some && self.output_device is Some,
    {
        match self.command {
            Some(Commands::List) => Startup::ListDevices,
            None => {
                if self.input_device.is_none() && self.output_device.is_none() {
                    Startup::PrintHelp
                } else if self.input_device.is_some() && self.output_device.is_some() {
                    Startup::Stream
                } else {
                    Startup::MissingDevice
                }
            },
        }
    }
}

/// `i` is the least position at which `names`, the devices in the order the
/// host reports them, holds `wanted`.
pub open spec fn is_first_named(names: Seq<Seq<char>>, wanted: Seq<char>, i: int) -> bool {
    &&& 0 <= i < names.len()
    &&& names[i] == wanted
    &&& forall|j: int| 0 <= j < i ==> names[j] != wanted
}

/// Looks a device up by name: the first one whose name equals `wanted`
/// wins, and `None` says that no device has that name.
pub fn find_device(names: &Vec<String>, wanted: &String) -> (found: Option<usize>)
    ensures
        match found {
            Some(i) => is_first_named(names.deep_view(), wanted@, i as int),
            None => forall|j: int| 0 <= j < names.len() ==> names.deep_view()[j] != wanted@,
        },
{
    let mut i: usize = 0;
    while i < names.len()
        invariant
            i <= names.len(),
            forall|j: int| 0 <= j < i ==> names.deep_view()[j] != wanted@,
        decreases names.len() - i,
    {
        if names[i] == *wanted {
            return Some(i);
        }
        i += 1;
    }
    None
}

} // verus!
