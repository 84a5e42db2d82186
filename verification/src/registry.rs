//! The registry of apps as the shell holds it in memory.

use vstd::prelude::*;
use vstd::string::*;

verus! {

/// One registered app. Its identity is its `id`.
#[derive(Clone, Debug, PartialEq, Eq)]
pub struct AppRecord {
    pub id: u64,
    pub name: String,
    pub url: String,
    pub icon: String,
}

/// An [`AppRecord`] as plain values.
pub struct AppRecordView {
    pub id: u64,
    pub name: Seq<char>,
    pub url: Seq<char>,
    pub icon: Seq<char>,
}

impl View for AppRecord {
    type V = AppRecordView;

    open spec fn view(&self) -> AppRecordView {
        AppRecordView { id: self.id, name: self.name@, url: self.url@, icon: self.icon@ }
    }
}

impl AppRecord {
    /// A copy of this record.
    pub fn duplicate(&self) -> (copy: AppRecord)
        ensures
            copy@ == self@,
    {
        AppRecord {
            id: self.id,
            name: self.name.clone(),
            url: self.url.clone(),
            icon: self.icon.clone(),
        }
    }
}

/// The file that holds the registry: `apps.json` in the data directory.
pub open spec fn registry_path_of(data_dir: Seq<char>) -> Seq<char> {
    data_dir + "/apps.json"@
}

/// Names the registry file under `data_dir`.
pub fn registry_path(data_dir: &str) -> (path: String)
    ensures
        path@ == registry_path_of(data_dir@),
{
    let mut path = String::from_str(data_dir);
    path.append("/apps.json");
    path
}

/// What reading the registry file gave.
#[derive(Clone, Debug, PartialEq, Eq)]
pub enum RegistryRead {
    /// There is no registry file yet.
    Absent,
    /// The file held this list.
    Loaded(Vec<AppRecord>),
    /// The file could not be read or understood, with the reason.
    Unreadable(String),
}

/// The list of registered apps that a read of the registry file amounts
/// to. A registry that was never saved is an empty one, not an error; a
/// list that was read is handed on as it is, in the order it was saved.
pub fn load_outcome(read: RegistryRead) -> (outcome: Result<Vec<AppRecord>, String>)
    ensures
        read is Absent ==> (outcome matches Ok(list) && list@.len() == 0),
        read matches RegistryRead::Loaded(saved) ==> (outcome matches Ok(list) && list == saved),
        read matches RegistryRead::Unreadable(reason) ==> (outcome matches Err(message)
            && message == reason),
{
    match read {
        RegistryRead::Absent => Ok(Vec::new()),
        RegistryRead::Loaded(list) => Ok(list),
        RegistryRead::Unreadable(reason) => Err(reason),
    }
}

} // verus!
