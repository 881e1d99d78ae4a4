//! What the program was asked to do, and where its records are kept.

use vstd::prelude::*;
use vstd::string::*;

use crate::error::Error;
use crate::style::{emphasize, emphasized, Emphasis};

verus! {

/// One thing the program can be asked to do.
#[derive(Clone, Debug, PartialEq, Eq)]
pub enum Action {
    /// Show the constellation kept under this name.
    Show(String),
    /// Show a constellation picked at random.
    Random,
    /// List all constellations.
    List,
    /// Say where the records are kept.
    DataDirectory,
}

/// How many of the four requests were made.
pub open spec fn requests(named: bool, random: bool, list: bool, data_directory: bool) -> nat {
    (if named {
        1nat
    } else {
        0nat
    }) + (if random {
        1nat
    } else {
        0nat
    }) + (if list {
        1nat
    } else {
        0nat
    }) + (if data_directory {
        1nat
    } else {
        0nat
    })
}

/// The action asked for, where exactly one request was made.
pub open spec fn action_of(
    name: Option<String>,
    random: bool,
    list: bool,
    data_directory: bool,
) -> Option<Action> {
    if requests(name is Some, random, list, data_directory) != 1 {
        None
    } else if name is Some {
        Some(Action::Show(name->Some_0))
    } else if random {
        Some(Action::Random)
    } else if list {
        Some(Action::List)
    } else {
        Some(Action::DataDirectory)
    }
}

/// The action asked for.  Exactly one request has to be made: with none, or
/// with more than one, there is no action.
pub fn select_action(name: Option<String>, random: bool, list: bool, data_directory: bool) -> (action:
    Option<Action>)
    ensures
        action == action_of(name, random, list, data_directory),
{
    match name {
        Some(name) => {
            if random || list || data_directory {
                None
            } else {
                Some(Action::Show(name))
            }
        },
        None => {
            if random && !list && !data_directory {
                Some(Action::Random)
            } else if list && !random && !data_directory {
                Some(Action::List)
            } else if data_directory && !random && !list {
                Some(Action::DataDirectory)
            } else {
                None
            }
        },
    }
}

/// The directory under which the records are looked for.
#[derive(Clone, Debug, PartialEq, Eq)]
pub enum ResourceRoot<P> {
    /// A path that the user gave: it holds the directory of records.
    Explicit(P),
    /// The user's data directory: the program's own directory in it holds
    /// the directory of records.
    UserData(P),
}

/// The directory to use: the one that the user gave, if any; else the
/// user's data directory; and a configuration failure with neither.
pub open spec fn resolved<P>(asset_path: Option<P>, data_dir: Option<P>) -> Result<
    ResourceRoot<P>,
    Error,
> {
    match asset_path {
        Some(path) => Ok(ResourceRoot::Explicit(path)),
        None => match data_dir {
            Some(dir) => Ok(ResourceRoot::UserData(dir)),
            None => Err(Error::Configuration),
        },
    }
}

/// Chooses the directory under which the records are looked for.  A path
/// given by the user takes precedence over the user's data directory.
pub fn resolve_root<P>(asset_path: Option<P>, data_dir: Option<P>) -> (root: Result<
    ResourceRoot<P>,
    Error,
>)
    ensures
        root == resolved(asset_path, data_dir),
{
    match asset_path {
        Some(path) => Ok(ResourceRoot::Explicit(path)),
        None => match data_dir {
            Some(dir) => Ok(ResourceRoot::UserData(dir)),
            None => Err(Error::Configuration),
        },
    }
}

/// Name of the program's own directory within the user's data directory.
pub open spec fn program_directory() -> Seq<char> {
    "starfetch"@
}

/// Name of the directory that holds the records.
pub open spec fn records_directory() -> Seq<char> {
    "constellations"@
}

impl<P> ResourceRoot<P> {
    /// The path this root starts from.
    pub fn base(&self) -> (base: &P)
        ensures
            *base == match *self {
                ResourceRoot::Explicit(path) => path,
                ResourceRoot::UserData(dir) => dir,
            },
    {
        match self {
            ResourceRoot::Explicit(path) => path,
            ResourceRoot::UserData(dir) => dir,
        }
    }

    /// The directories to descend into from the base, in order, to reach the
    /// records.
    pub open spec fn descent(self) -> Seq<Seq<char>> {
        match self {
            ResourceRoot::Explicit(_) => seq![records_directory()],
            ResourceRoot::UserData(_) => seq![program_directory(), records_directory()],
        }
    }

    /// The directories to descend into from the base, in order, to reach the
    /// records.
    pub fn subdirectories(&self) -> (names: Vec<&'static str>)
        ensures
            names@.map_values(|name: &'static str| name@) == self.descent(),
    {
        let mut names: Vec<&'static str> = Vec::new();
        match self {
            ResourceRoot::Explicit(_) => {},
            ResourceRoot::UserData(_) => {
                names.push("starfetch");
            },
        }
        names.push("constellations");
        assert(names@.map_values(|name: &'static str| name@) =~= self.descent());
        names
    }
}

/// What is said of the directory of records.
pub open spec fn notice(path: Seq<char>, emphasis: Emphasis) -> Seq<char> {
    "The data directory is "@ + emphasized(path, emphasis) + ". Copy constellation files here."@
}

/// Says where the records are kept, with the path emphasised.
pub fn data_directory_notice(path: &str, emphasis: Emphasis) -> (text: String)
    ensures
        text@ == notice(path@, emphasis),
{
    let mut text = String::from_str("The data directory is ");
    let shown = emphasize(path, emphasis);
    text.append(shown.as_str());
    text.append(". Copy constellation files here.");
    text
}

} // verus!
