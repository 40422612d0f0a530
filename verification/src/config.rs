//! The project configuration, as plain data.
//!
//! Parsing the configuration file is an external concern; the library
//! consumes the parsed result: the path of the configuration file, an
//! optional pinned toolchain version, an optional build-output directory,
//! the client start defaults, and the canisters with their optional main
//! source files.

use vstd::prelude::*;
use vstd::string::StringExecFns;

verus! {

/// One canister of the project: its name and, when it is buildable, the
/// path of its main source file relative to the project root.
#[derive(Clone)]
pub struct CanisterEntry {
    /// The canister's logical name.
    pub name: String,
    /// The main source file, relative to the project root, if declared.
    pub main: Option<String>,
}

/// The parsed project configuration.
pub struct Config {
    /// The full path of the configuration file.
    pub path: String,
    /// The toolchain version the project pins, if any.
    pub dfx: Option<String>,
    /// The build-output directory relative to the project root, if set.
    pub build_output: Option<String>,
    /// The address the client should serve on, if set.
    pub start_address: Option<String>,
    /// The port the client should serve on, if set.
    pub start_port: Option<u16>,
    /// The canisters of the project, in configuration order, if any are
    /// declared.
    pub canisters: Option<Vec<CanisterEntry>>,
}

/// The build-output directory used when the configuration sets none.
pub open spec fn spec_default_build_output() -> Seq<char> {
    "build/"@
}

/// The serve address used when the configuration sets none.
pub open spec fn spec_default_address() -> Seq<char> {
    "localhost"@
}

/// The serve port used when the configuration sets none.
pub open spec fn spec_default_port() -> u16 {
    8080
}

impl Config {
    /// The full path of the configuration file.
    pub fn get_path(&self) -> (r: &String)
        ensures
            r == &self.path,
    {
        &self.path
    }

    /// The pinned toolchain version, if the configuration sets one.
    pub fn get_dfx(&self) -> (r: &Option<String>)
        ensures
            r == &self.dfx,
    {
        &self.dfx
    }

    /// The build-output directory, or its default.
    pub fn get_output(&self) -> (r: String)
        ensures
            match self.build_output {
                Some(o) => r@ == o@,
                None => r@ == spec_default_build_output(),
            },
    {
        match &self.build_output {
            Some(o) => o.clone(),
            None => String::from_str("build/"),
        }
    }

    /// The serve address, or its default.
    pub fn get_address(&self) -> (r: String)
        ensures
            match self.start_address {
                Some(a) => r@ == a@,
                None => r@ == spec_default_address(),
            },
    {
        match &self.start_address {
            Some(a) => a.clone(),
            None => String::from_str("localhost"),
        }
    }

    /// The serve port, or its default.
    pub fn get_port(&self) -> (r: u16)
        ensures
            match self.start_port {
                Some(p) => r == p,
                None => r == spec_default_port(),
            },
    {
        match self.start_port {
            Some(p) => p,
            None => 8080,
        }
    }
}

/// The position of the first canister named `name`, or `-1` when none is.
pub open spec fn spec_first_match(cs: Seq<CanisterEntry>, name: Seq<char>) -> int
    decreases cs.len(),
{
    if cs.len() == 0 {
        -1
    } else if cs[0].name@ == name {
        0
    } else {
        let r = spec_first_match(cs.skip(1), name);
        if r == -1 {
            -1
        } else {
            r + 1
        }
    }
}

/// A position that matches `name` after only non-matches is the first
/// match.
pub proof fn lemma_first_match_at(cs: Seq<CanisterEntry>, name: Seq<char>, i: int)
    requires
        0 <= i < cs.len(),
        cs[i].name@ == name,
        forall|k: int| 0 <= k < i ==> cs[k].name@ != name,
    ensures
        spec_first_match(cs, name) == i,
    decreases i,
{
    if i > 0 {
        assert(cs[0].name@ != name);
        assert(forall|k: int| 0 <= k < cs.skip(1).len() ==> cs.skip(1)[k] == cs[k + 1]);
        lemma_first_match_at(cs.skip(1), name, i - 1);
    }
}

/// Without any match there is no first match.
pub proof fn lemma_first_match_none(cs: Seq<CanisterEntry>, name: Seq<char>)
    requires
        forall|k: int| 0 <= k < cs.len() ==> cs[k].name@ != name,
    ensures
        spec_first_match(cs, name) == -1,
    decreases cs.len(),
{
    if cs.len() > 0 {
        assert(forall|k: int| 0 <= k < cs.skip(1).len() ==> cs.skip(1)[k] == cs[k + 1]);
        lemma_first_match_none(cs.skip(1), name);
    }
}

/// The canister the selection rules pick, if any: the first canister with
/// the requested name, or, when no name is requested, the project's only
/// canister.
pub open spec fn spec_selected_entry(cs: Seq<CanisterEntry>, requested: Option<Seq<char>>) -> Option<
    CanisterEntry,
> {
    match requested {
        Some(n) => if spec_first_match(cs, n) >= 0 {
            Some(cs[spec_first_match(cs, n)])
        } else {
            None
        },
        None => if cs.len() == 1 {
            Some(cs[0])
        } else {
            None
        },
    }
}

/// The requested canister name as a sequence of characters.
pub open spec fn spec_requested(requested: Option<&String>) -> Option<Seq<char>> {
    match requested {
        Some(n) => Some(n@),
        None => None,
    }
}

/// Why no main source path could be selected.
#[derive(PartialEq, Eq, Debug)]
pub enum ConfigError {
    /// The configuration declares no canisters at all.
    NoCanisters,
    /// No canister carries the requested name.
    CanisterNotFound(String),
    /// No name was requested and the project has more or fewer than one
    /// canister, so none can be picked silently.
    MultipleCanisters,
    /// The selected canister declares no main source file; the value is
    /// the canister's name.
    NoMain(String),
}

/// Position of the first canister of `cs` named `name`.
fn find_canister(cs: &Vec<CanisterEntry>, name: &String) -> (r: Option<usize>)
    ensures
        match r {
            Some(i) => i < cs@.len() && spec_first_match(cs@, name@) == i,
            None => spec_first_match(cs@, name@) == -1,
        },
{
    let n = cs.len();
    let mut j: usize = 0;
    while j < n
        invariant
            j <= n,
            n == cs@.len(),
            forall|k: int| 0 <= k < j ==> cs@[k].name@ != name@,
        decreases n - j,
    {
        if cs[j].name == *name {
            proof {
                lemma_first_match_at(cs@, name@, j as int);
            }
            return Some(j);
        }
        j = j + 1;
    }
    proof {
        lemma_first_match_none(cs@, name@);
    }
    None
}

/// Selects the canister to work on and returns its main source path.
///
/// With a requested name, the first canister of that name is selected; a
/// missing name is an error.  Without a requested name the project must
/// hold exactly one canister, which is selected.  A selected canister
/// without a main source file is an error naming the canister.
pub fn get_main_path(config: &Config, requested: Option<&String>) -> (r: Result<
    String,
    ConfigError,
>)
    ensures
        config.canisters is None ==> r == Err::<String, ConfigError>(ConfigError::NoCanisters),
        config.canisters matches Some(cs) ==> match spec_selected_entry(
            cs@,
            spec_requested(requested),
        ) {
            None => match requested {
                Some(n) => (r matches Err(e) && e matches ConfigError::CanisterNotFound(c)
                    && c@ == n@),
                None => r == Err::<String, ConfigError>(ConfigError::MultipleCanisters),
            },
            Some(entry) => match entry.main {
                Some(m) => (r matches Ok(p) && p@ == m@),
                None => (r matches Err(e) && e matches ConfigError::NoMain(c) && c@
                    == entry.name@),
            },
        },
{
    let canisters = match &config.canisters {
        None => {
            return Err(ConfigError::NoCanisters);
        },
        Some(cs) => cs,
    };
    let entry: &CanisterEntry = match requested {
        Some(n) => {
            match find_canister(canisters, n) {
                Some(i) => &canisters[i],
                None => {
                    return Err(ConfigError::CanisterNotFound(n.clone()));
                },
            }
        },
        None => {
            if canisters.len() == 1 {
                &canisters[0]
            } else {
                return Err(ConfigError::MultipleCanisters);
            }
        },
    };
    match &entry.main {
        Some(m) => Ok(m.clone()),
        None => Err(ConfigError::NoMain(entry.name.clone())),
    }
}

} // verus!
