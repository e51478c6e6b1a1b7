//! Saving and loading the pet: the naming of the sibling files (a `.tmp`
//! file written before the atomic rename, a `.bak` copy of the previous
//! save, the name a corrupt save file is moved aside to) and the choice, on
//! loading, of which save to trust. The file operations themselves are
//! performed outside the library.
use vstd::prelude::*;

use crate::pet::state::PetState;
use crate::text::{decimal, push_decimal};

verus! {

/// The extension of a sibling file: `suffix` appended to the original
/// extension (`json` becomes `json.tmp`), or `suffix` alone.
pub open spec fn appended_extension(extension: Option<Seq<char>>, suffix: Seq<char>) -> Seq<char> {
    match extension {
        Some(ext) => ext + "."@ + suffix,
        None => suffix,
    }
}

/// Builds a new extension by appending `suffix` to the path's existing
/// `extension` (e.g. `json` -> `json.tmp`), so sibling files stay next to
/// the original with an obvious suffix.
pub fn append_extension(extension: Option<&str>, suffix: &str) -> (ext: String)
    ensures
        ext@ == appended_extension(
            match extension {
                Some(e) => Some(e@),
                None => None,
            },
            suffix@,
        ),
{
    match extension {
        Some(e) => {
            let mut out = String::from_str(e);
            out.append(".");
            out.append(suffix);
            out
        },
        None => String::from_str(suffix),
    }
}

/// The name a corrupt save file is moved aside to: its own name, then
/// `.corrupt.` and the time in whole seconds since the Unix epoch.
pub open spec fn corrupt_name(file_name: Seq<char>, timestamp_secs: nat) -> Seq<char> {
    file_name + ".corrupt."@ + decimal(timestamp_secs)
}

/// Names the file a corrupt save file `file_name` is moved aside to, for
/// forensics, at `timestamp_secs` seconds since the Unix epoch.
pub fn corrupt_file_name(file_name: &str, timestamp_secs: u64) -> (name: String)
    ensures
        name@ == corrupt_name(file_name@, timestamp_secs as nat),
{
    let mut name = String::from_str(file_name);
    name.append(".corrupt.");
    push_decimal(&mut name, timestamp_secs as u128);
    name
}

/// What reading one save file gave.
#[derive(Clone, Debug, PartialEq)]
pub enum FileRead {
    /// There is no such file.
    Missing,
    /// The file exists but could not be read.
    Unreadable,
    /// The file was read and holds this pet.
    Parsed(PetState),
    /// The file was read but does not hold a pet.
    Corrupt,
}

/// What loading does next.
#[derive(Clone, Debug, PartialEq)]
pub enum LoadStep {
    /// There is no save: start a fresh pet.
    StartFresh,
    /// The save could not be read: report that error.
    Fail,
    /// The save holds this pet.
    Use(PetState),
    /// The save is corrupt: read the `.bak` copy next.
    ReadBackup,
    /// The save is corrupt but the `.bak` copy holds this pet.
    Recover(PetState),
    /// Neither the save nor its `.bak` copy holds a pet: move the corrupt
    /// save aside and start a fresh pet.
    SetAside,
}

/// The step that follows reading the save (`primary`) and, once asked for,
/// its `.bak` copy (`backup`, `None` while unread): a missing save starts
/// fresh, an unreadable one fails, a good one is used; a corrupt one falls
/// back to the copy, and when the copy is of no use either the corrupt save
/// is set aside.
pub open spec fn load_step_spec(primary: FileRead, backup: Option<FileRead>) -> LoadStep {
    match primary {
        FileRead::Missing => LoadStep::StartFresh,
        FileRead::Unreadable => LoadStep::Fail,
        FileRead::Parsed(pet) => LoadStep::Use(pet),
        FileRead::Corrupt => match backup {
            None => LoadStep::ReadBackup,
            Some(FileRead::Parsed(pet)) => LoadStep::Recover(pet),
            Some(_) => LoadStep::SetAside,
        },
    }
}

/// Decides the next step of loading the pet, given what reading the save
/// and, once asked for, its `.bak` copy gave.
pub fn load_step(primary: FileRead, backup: Option<FileRead>) -> (step: LoadStep)
    ensures
        step == load_step_spec(primary, backup),
{
    match primary {
        FileRead::Missing => LoadStep::StartFresh,
        FileRead::Unreadable => LoadStep::Fail,
        FileRead::Parsed(pet) => LoadStep::Use(pet),
        FileRead::Corrupt => match backup {
            None => LoadStep::ReadBackup,
            Some(FileRead::Parsed(pet)) => LoadStep::Recover(pet),
            Some(_) => LoadStep::SetAside,
        },
    }
}

} // verus!
