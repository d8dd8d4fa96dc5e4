//! The commands of the command line, and the supervisor operations each one
//! runs.
use vstd::prelude::*;
use crate::supervisor::Operation;

verus! {

#[derive(Clone, Debug, PartialEq, Eq)]
pub enum Commands {
    Start,
    Stop,
    Restart,
    Status,
    CurrentConfig,
    ViewPromptFile,
    EditConfig,
    ProcessExistingScreenshots,
    Rename { file_path: String },
    /// Run the daemon in this process.
    Daemon,
    InfoLogs,
    ErrorLogs,
}

#[derive(Clone, Debug, PartialEq, Eq)]
pub struct Args {
    pub command: Commands,
}

impl Commands {
    /// The supervisor operations the command runs, in order: a restart is a
    /// stop followed by a start; commands that do not control the daemon run
    /// none.
    pub fn operations(&self) -> (r: Vec<Operation>)
        ensures
            r@ == match self {
                Commands::Start => seq![Operation::Start],
                Commands::Stop => seq![Operation::Stop],
                Commands::Restart => seq![Operation::Stop, Operation::Start],
                Commands::Status => seq![Operation::Status],
                _ => Seq::<Operation>::empty(),
            },
    {
        let mut v: Vec<Operation> = Vec::new();
        match self {
            Commands::Start => v.push(Operation::Start),
            Commands::Stop => v.push(Operation::Stop),
            Commands::Restart => {
                v.push(Operation::Stop);
                v.push(Operation::Start);
            },
            Commands::Status => v.push(Operation::Status),
            _ => {},
        }
        proof {
            assert(v@ =~= match self {
                Commands::Start => seq![Operation::Start],
                Commands::Stop => seq![Operation::Stop],
                Commands::Restart => seq![Operation::Stop, Operation::Start],
                Commands::Status => seq![Operation::Status],
                _ => Seq::<Operation>::empty(),
            });
        }
        v
    }
}

} // verus!
