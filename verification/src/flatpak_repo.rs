//! A repository that the packaging engine is told about by a file of its own
//! in the directory of installations: what the file says and where it lies.

use vstd::prelude::*;
use vstd::string::StringExecFns;
use crate::error::FlatrunError;
use crate::outside::{join_path, path_join};
use crate::text::concat2;

verus! {

/// The kind of storage that a repository lies on.
#[derive(Clone, Copy, Debug, PartialEq, Eq, Structural)]
pub enum StorageType {
    Network,
    MMC,
    SDCard,
    HardDisk,
}

/// The word that the engine knows a kind of storage by.
pub open spec fn storage_word(kind: StorageType) -> Seq<char> {
    match kind {
        StorageType::Network => "network"@,
        StorageType::MMC => "mmc"@,
        StorageType::SDCard => "sdcard"@,
        StorageType::HardDisk => "harddisk"@,
    }
}

impl StorageType {
    /// The word that the engine knows this kind of storage by.
    pub fn to_string(&self) -> (word: String)
        ensures
            word@ == storage_word(*self),
    {
        match self {
            StorageType::Network => "network".to_owned(),
            StorageType::MMC => "mmc".to_owned(),
            StorageType::SDCard => "sdcard".to_owned(),
            StorageType::HardDisk => "harddisk".to_owned(),
        }
    }
}

/// A repository with a name, as the engine is told about it.
#[derive(Clone, Debug, PartialEq, Eq)]
pub struct FlatpakRepo {
    name: String,
    path: String,
    display_name: String,
    storage_type: StorageType,
}

/// What the file of a repository says.
pub open spec fn installation_text(
    name: Seq<char>,
    path: Seq<char>,
    display_name: Seq<char>,
    kind: StorageType,
) -> Seq<char> {
    "[Installation \""@ + name + "\"\nPath="@ + path + "\nDisplayName="@ + display_name
        + "\nStorageType="@ + storage_word(kind)
}

/// The name of the file of the repository `name`.
pub open spec fn conf_file_name(name: Seq<char>) -> Seq<char> {
    "_portapak_"@ + name + ".conf"@
}

/// What has to be on disk for the engine to know a repository.
#[derive(Clone, Debug, PartialEq, Eq)]
pub struct InstallPlan {
    /// The directories to make, with their parents, if they are not there.
    pub directories: Vec<String>,
    /// The file to write.
    pub conf_path: String,
    /// What to write into it.
    pub conf_text: String,
}

/// What has to go for the engine to forget a repository.
#[derive(Clone, Debug, PartialEq, Eq)]
pub struct RemovalPlan {
    /// The file to remove.
    pub conf_path: String,
    /// The directory to remove with all that is in it.
    pub directory: String,
}

impl FlatpakRepo {
    /// The name of the repository.
    pub closed spec fn name(&self) -> Seq<char> {
        self.name@
    }

    /// Where the repository lies.
    pub closed spec fn path(&self) -> Seq<char> {
        self.path@
    }

    /// The name that is shown for it.
    pub closed spec fn display_name(&self) -> Seq<char> {
        self.display_name@
    }

    /// The kind of storage it lies on.
    pub closed spec fn storage_type(&self) -> StorageType {
        self.storage_type
    }

    /// The repository `name` at `path`. It is shown under its name and lies
    /// on a hard disk.
    pub fn new(name: String, path: String) -> (r: FlatpakRepo)
        ensures
            r.name() == name@,
            r.path() == path@,
            r.display_name() == name@,
            r.storage_type() == StorageType::HardDisk,
    {
        FlatpakRepo {
            name: name.clone(),
            path,
            display_name: name,
            storage_type: StorageType::HardDisk,
        }
    }

    /// What the file of the repository says.
    pub fn to_string(&self) -> (text: String)
        ensures
            text@ == installation_text(
                self.name(),
                self.path(),
                self.display_name(),
                self.storage_type(),
            ),
    {
        let mut text = "[Installation \"".to_owned();
        text.append(self.name.as_str());
        text.append("\"\nPath=");
        text.append(self.path.as_str());
        text.append("\nDisplayName=");
        text.append(self.display_name.as_str());
        text.append("\nStorageType=");
        let word = self.storage_type.to_string();
        text.append(word.as_str());
        text
    }

    /// Where the file of the repository lies under `installations_dir`.
    pub fn conf_dir(&self, installations_dir: &str) -> (path: String)
        ensures
            path@ == path_join(installations_dir@, conf_file_name(self.name())),
    {
        let mut file = concat2("_portapak_", self.name.as_str());
        file.append(".conf");
        join_path(installations_dir, file.as_str())
    }

    /// What to put on disk so that the engine knows the repository: the
    /// directory of installations and the repository's own directory, and
    /// the file that tells of it.
    pub fn install_self(&self, installations_dir: String) -> (plan: InstallPlan)
        ensures
            plan.directories@.len() == 2,
            plan.directories@[0]@ == installations_dir@,
            plan.directories@[1]@ == self.path(),
            plan.conf_path@ == path_join(installations_dir@, conf_file_name(self.name())),
            plan.conf_text@ == installation_text(
                self.name(),
                self.path(),
                self.display_name(),
                self.storage_type(),
            ),
    {
        let conf_path = self.conf_dir(installations_dir.as_str());
        let mut directories: Vec<String> = Vec::new();
        directories.push(installations_dir);
        directories.push(self.path.clone());
        InstallPlan { directories, conf_path, conf_text: self.to_string() }
    }

    /// What to take off the disk so that the engine forgets the repository:
    /// its file, and its directory with all that is in it.
    pub fn remove_self(&self, installations_dir: String) -> (plan: RemovalPlan)
        ensures
            plan.conf_path@ == path_join(installations_dir@, conf_file_name(self.name())),
            plan.directory@ == self.path(),
    {
        RemovalPlan {
            conf_path: self.conf_dir(installations_dir.as_str()),
            directory: self.path.clone(),
        }
    }

    /// Installs the bundle at `bundle` into the repository, where `exists`
    /// says whether that file is there. A missing file is an error that names
    /// the path; for a file that is there nothing is reported back.
    pub fn install_flatpak(&self, bundle: String, exists: bool) -> (r: Result<String, FlatrunError>)
        ensures
            exists ==> (r matches Ok(text) && text@.len() == 0),
            !exists ==> r == Err::<String, FlatrunError>(FlatrunError::FileNotFound(bundle)),
    {
        if !exists {
            return Err(FlatrunError::FileNotFound(bundle));
        }
        Ok(String::new())
    }
}

} // verus!
