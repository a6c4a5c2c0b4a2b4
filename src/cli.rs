use vstd::prelude::*;

verus! {

/// A subcommand of the command line.
#[derive(Debug, Clone, Copy, PartialEq, Eq, Structural)]
pub enum Commands {
    /// Generate a new parachain, pallet or smart contract.
    New,
    /// Build a parachain or smart contract.
    Build,
    /// Call a smart contract.
    Call,
    /// Deploy a parachain or smart contract.
    Up,
    /// Test a smart contract.
    Test,
}

pub open spec fn command_name(c: Commands) -> Seq<char> {
    match c {
        Commands::New => "new"@,
        Commands::Build => "build"@,
        Commands::Call => "call"@,
        Commands::Up => "up"@,
        Commands::Test => "test"@,
    }
}

pub open spec fn command_alias(c: Commands) -> char {
    match c {
        Commands::New => 'n',
        Commands::Build => 'b',
        Commands::Call => 'c',
        Commands::Up => 'u',
        Commands::Test => 't',
    }
}

impl Commands {
    /// Every subcommand, in the order the help lists them.
    pub fn all() -> (r: Vec<Commands>)
        ensures
            r@ == seq![Commands::New, Commands::Build, Commands::Call, Commands::Up, Commands::Test],
    {
        let r = vec![Commands::New, Commands::Build, Commands::Call, Commands::Up, Commands::Test];
        assert(r@ =~= seq![Commands::New, Commands::Build, Commands::Call, Commands::Up, Commands::Test]);
        r
    }

    /// The subcommand's name on the command line.
    pub fn name(&self) -> (r: &'static str)
        ensures
            r@ == command_name(*self),
    {
        match self {
            Commands::New => "new",
            Commands::Build => "build",
            Commands::Call => "call",
            Commands::Up => "up",
            Commands::Test => "test",
        }
    }

    /// The one-letter alias of the subcommand.
    pub fn alias(&self) -> (r: char)
        ensures
            r == command_alias(*self),
    {
        match self {
            Commands::New => 'n',
            Commands::Build => 'b',
            Commands::Call => 'c',
            Commands::Up => 'u',
            Commands::Test => 't',
        }
    }
}

/// The parsed command line: which subcommand was asked for.
pub struct Cli {
    pub command: Commands,
}

} // verus!
