//! The binary contract between host and module, and the protocol by which a
//! module enters the registry.
//!
//! Loading takes two steps with the opening of the artifact between them.
//! First [`screen_path`] says whether a path is to be opened at all. Then the
//! host opens the artifact, looks up the two contract symbols and reports
//! what it found as a [`Probe`], from which [`load_module`] decides.

use vstd::prelude::*;
use crate::fault::Condition;
use crate::registry::{has_path, Registry};

verus! {

/// Version of the binary contract this host speaks. A module is accepted only
/// if it exports exactly this number.
pub const INCRO_VERSION: u64 = 1;

/// Name under which a module exports its version constant.
pub const VERSION_SYMBOL: &'static str = "INCRO_VERSION";

/// Name under which a module exports its entry function.
pub const ENTRY_SYMBOL: &'static str = "incro_event";

/// First character of the file name of a hidden file.
pub const HIDDEN_MARKER: char = '.';

/// Identity of a module: the path it was loaded from.
pub type ModuleId = String;

/// Why a module did not enter the registry.
#[derive(Clone, Copy, Debug, PartialEq, Eq, Structural)]
pub enum LoadError {
    /// The path has no final component that could name an artifact.
    InvalidPath,
    /// The artifact could not be opened.
    Open,
    /// The artifact lacks the version constant or the entry function.
    MissingSymbol,
    /// The artifact speaks another version of the contract: what it exports,
    /// then what the host wants.
    VersionMismatch(u64, u64),
    /// A module is loaded under this path already. It has to be unloaded
    /// before the path is loaded again.
    AlreadyLoaded,
}

/// What to do with a path before anything is opened.
#[derive(Clone, Copy, Debug, PartialEq, Eq, Structural)]
pub enum Screening {
    /// A directory or a hidden file: pass over it in silence.
    Skip,
    /// Open the artifact and probe it.
    Proceed,
}

/// An artifact the host managed to open.
pub struct Artifact<M> {
    /// The value of the version constant, or `None` if the artifact does not
    /// export it.
    pub version: Option<u64>,
    /// Whether the artifact exports the entry function.
    pub has_entry: bool,
    /// The host's handle to the loaded artifact.
    pub module: M,
}

/// What came of trying to open the artifact at a path.
pub enum Probe<M> {
    OpenFailed,
    Opened(Artifact<M>),
}

/// The final component of a Unix path as `std::path::Path::file_name` gives
/// it, or `None` where the path has none.
pub uninterp spec fn path_file_name(path: Seq<char>) -> Option<Seq<char>>;

/// The characters of an optional string.
pub open spec fn name_view(name: Option<String>) -> Option<Seq<char>> {
    match name {
        Some(n) => Some(n@),
        None => None,
    }
}

/// Calls `std::path::Path::file_name` on `path`. Trusted only to hand back
/// what that function computes from the text of the path.
#[verifier::external_body]
pub(crate) fn file_name(path: &String) -> (name: Option<String>)
    ensures
        name_view(name) == path_file_name(path@),
{
    match std::path::Path::new(path).file_name() {
        Some(name) => Some(name.to_string_lossy().into_owned()),
        None => None,
    }
}

/// True when a file name marks its file as hidden.
pub open spec fn spec_is_hidden(name: Seq<char>) -> bool {
    name.len() > 0 && name[0] == HIDDEN_MARKER
}

/// The screening rule: directories and hidden files are skipped, a path
/// without a file name is refused, everything else is opened.
pub open spec fn spec_screen(is_dir: bool, name: Option<Seq<char>>) -> Result<
    Screening,
    LoadError,
> {
    if is_dir {
        Ok(Screening::Skip)
    } else {
        match name {
            None => Err(LoadError::InvalidPath),
            Some(n) => if spec_is_hidden(n) {
                Ok(Screening::Skip)
            } else {
                Ok(Screening::Proceed)
            },
        }
    }
}

/// The contract gate: both symbols must be there, and the version must equal
/// the host's.
pub open spec fn spec_check_contract(version: Option<u64>, has_entry: bool) -> Result<
    (),
    LoadError,
> {
    match version {
        None => Err(LoadError::MissingSymbol),
        Some(got) => if !has_entry {
            Err(LoadError::MissingSymbol)
        } else if got != INCRO_VERSION {
            Err(LoadError::VersionMismatch(got, INCRO_VERSION))
        } else {
            Ok(())
        },
    }
}

/// The contract version of a probed artifact: what its version constant
/// holds, where the artifact opened and exports both symbols.
pub open spec fn exported_version<M>(probe: Probe<M>) -> Option<u64> {
    match probe {
        Probe::OpenFailed => None,
        Probe::Opened(artifact) => if artifact.has_entry {
            artifact.version
        } else {
            None
        },
    }
}

/// What a probe comes to: the module to register, or the reason to reject it.
pub open spec fn spec_verdict<M>(probe: Probe<M>) -> Result<M, LoadError> {
    match probe {
        Probe::OpenFailed => Err(LoadError::Open),
        Probe::Opened(artifact) => match spec_check_contract(
            artifact.version,
            artifact.has_entry,
        ) {
            Ok(_) => Ok(artifact.module),
            Err(e) => Err(e),
        },
    }
}

/// Tells whether a file name begins with the hidden-file marker.
pub fn is_hidden(name: &String) -> (hidden: bool)
    ensures
        hidden == spec_is_hidden(name@),
{
    let name = name.as_str();
    name.unicode_len() > 0 && name.get_char(0) == HIDDEN_MARKER
}

/// Screens a path whose file name is already known.
pub fn screen(is_dir: bool, file_name: Option<&String>) -> (r: Result<Screening, LoadError>)
    ensures
        r == spec_screen(
            is_dir,
            match file_name {
                Some(n) => Some(n@),
                None => None,
            },
        ),
{
    if is_dir {
        return Ok(Screening::Skip);
    }
    match file_name {
        None => Err(LoadError::InvalidPath),
        Some(name) => if is_hidden(name) {
            Ok(Screening::Skip)
        } else {
            Ok(Screening::Proceed)
        },
    }
}

/// Screens `path`, of which the host says whether it is a directory, before
/// anything is opened.
pub fn screen_path(path: &String, is_dir: bool) -> (r: Result<Screening, LoadError>)
    ensures
        r == spec_screen(is_dir, path_file_name(path@)),
{
    let name = file_name(path);
    screen(is_dir, name.as_ref())
}

/// Checks an opened artifact against the binary contract.
pub fn check_contract(version: Option<u64>, has_entry: bool) -> (r: Result<(), LoadError>)
    ensures
        r == spec_check_contract(version, has_entry),
        version matches Some(got) ==> (has_entry && got != INCRO_VERSION ==> r == Err::<(), _>(
            LoadError::VersionMismatch(got, INCRO_VERSION),
        )),
{
    match version {
        None => Err(LoadError::MissingSymbol),
        Some(got) => {
            if !has_entry {
                Err(LoadError::MissingSymbol)
            } else if got != INCRO_VERSION {
                Err(LoadError::VersionMismatch(got, INCRO_VERSION))
            } else {
                Ok(())
            }
        },
    }
}

/// The registry after a load under `path` on which the probe came to
/// `verdict`: a module that passes the contract goes behind every module
/// already loaded, unless its path is loaded already, and nothing else
/// changes the registry.
pub open spec fn spec_load<M>(
    entries: Seq<(Seq<char>, M)>,
    path: Seq<char>,
    verdict: Result<M, LoadError>,
) -> Seq<(Seq<char>, M)> {
    match verdict {
        Ok(module) => if has_path(entries, path) {
            entries
        } else {
            entries.push((path, module))
        },
        Err(_) => entries,
    }
}

/// Decides on a probed artifact and, if it passes, registers its module under
/// `path` behind every module already loaded. A rejected module leaves the
/// registry untouched; a module of any other contract version than the
/// host's is rejected as a version mismatch, whatever else holds. Nothing is
/// replaced: a path that is loaded already is rejected too.
pub fn load_module<M>(registry: &mut Registry<M>, path: String, probe: Probe<M>) -> (r: Result<
    ModuleId,
    LoadError,
>)
    ensures
        final(registry)@ == spec_load(old(registry)@, path@, spec_verdict(probe)),
        match spec_verdict(probe) {
            Ok(module) => if has_path(old(registry)@, path@) {
                r == Err::<ModuleId, _>(LoadError::AlreadyLoaded)
            } else {
                r matches Ok(id) && id@ == path@
            },
            Err(e) => r == Err::<ModuleId, _>(e),
        },
        exported_version(probe) matches Some(got) ==> (got != INCRO_VERSION ==> r == Err::<
            ModuleId,
            _,
        >(LoadError::VersionMismatch(got, INCRO_VERSION)) && final(registry)@ == old(registry)@),
{
    match probe {
        Probe::OpenFailed => Err(LoadError::Open),
        Probe::Opened(artifact) => match check_contract(artifact.version, artifact.has_entry) {
            Err(e) => Err(e),
            Ok(_) => {
                let id = path.clone();
                match registry.insert(path, artifact.module) {
                    Ok(_) => Ok(id),
                    Err(_) => Err(LoadError::AlreadyLoaded),
                }
            },
        },
    }
}

/// Takes the module loaded under `path` out of the registry and hands it
/// back. Where none is loaded under `path` the registry stays as it is, and
/// the answer is the inconsistency to report: whoever asked has lost track of
/// what is loaded.
pub fn unload_module<M>(registry: &mut Registry<M>, path: &String) -> (r: Result<M, Condition>)
    ensures
        match r {
            Ok(module) => exists|i: int|
                0 <= i < old(registry)@.len() && #[trigger] old(registry)@[i] == (path@, module)
                    && final(registry)@ == old(registry)@.remove(i),
            Err(condition) => condition == Condition::RegistryInconsistency && !has_path(
                old(registry)@,
                path@,
            ) && final(registry)@ == old(registry)@,
        },
        r is Ok <==> has_path(old(registry)@, path@),
        !has_path(final(registry)@, path@),
{
    match registry.remove(path) {
        Some(module) => Ok(module),
        None => Err(Condition::RegistryInconsistency),
    }
}

} // verus!
