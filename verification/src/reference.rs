//! What a user asks to run, and what it resolves to: the kinds of reference,
//! the remote they may come from, and the runtime that an application's
//! manifest names.

use vstd::prelude::*;
use vstd::string::StringExecFns;
use crate::error::FlatrunError;
use crate::text::{
    chars_of, concat2, slice_of, split, split_str, starts_with, str_starts_with, views,
};

verus! {

/// What to run.
#[derive(Clone, Debug, PartialEq, Eq)]
pub enum RefType {
    /// A bundle file on this machine.
    Path(String),
    /// An application of a remote that the repository knows by name.
    Name { remote: String, app: String },
}

/// What to install: a bundle file, or an application to download by its id.
#[derive(Clone, Debug, PartialEq, Eq)]
pub enum Flatpak {
    /// The path of a bundle file.
    Bundle(String),
    /// The id of an application.
    Download(String),
}

/// Whether a reference names an application or a runtime.
#[derive(Clone, Copy, Debug, PartialEq, Eq, Structural)]
pub enum RefKind {
    App,
    Runtime,
}

/// A source of packages.
#[derive(Clone, Debug, PartialEq, Eq)]
pub struct Remote {
    /// Where the description of the remote lies: a URL or a `file://` path.
    pub uri: String,
    /// The name under which a repository knows the remote.
    pub name: String,
    /// The branch that is taken where none is asked for.
    pub default_branch: String,
}

/// The settings that a repository is given for a remote.
#[derive(Clone, Debug, PartialEq, Eq)]
pub struct RemoteDescriptor {
    pub name: String,
    pub url: String,
    pub homepage: String,
    pub comment: String,
    pub description: String,
    pub icon: String,
    /// Are signatures checked?
    pub gpg_verify: bool,
}

/// The runtime that a manifest names, `id/arch/branch`.
#[derive(Clone, Debug, PartialEq, Eq)]
pub struct RuntimeRef {
    pub id: String,
    pub arch: String,
    pub branch: String,
}

/// The three parts of a runtime, as contracts see them.
pub struct RuntimeParts {
    pub id: Seq<char>,
    pub arch: Seq<char>,
    pub branch: Seq<char>,
}

impl View for RuntimeRef {
    type V = RuntimeParts;

    open spec fn view(&self) -> RuntimeParts {
        RuntimeParts { id: self.id@, arch: self.arch@, branch: self.branch@ }
    }
}

/// The scheme in front of a path that is given as a URI.
pub open spec fn file_scheme() -> Seq<char> {
    "file://"@
}

/// The path that a URI or a plain path names: what follows `file://` where
/// the text begins with it, and else the text itself.
pub open spec fn path_of_uri(uri: Seq<char>) -> Seq<char> {
    if starts_with(uri, file_scheme()) {
        uri.subrange(file_scheme().len() as int, uri.len() as int)
    } else {
        uri
    }
}

/// The path that a URI or a plain path names.
pub fn path_from_uri(uri: String) -> (path: String)
    ensures
        path@ == path_of_uri(uri@),
{
    proof {
        reveal_strlit("file://");
    }
    if str_starts_with(uri.as_str(), "file://") {
        let n: usize = chars_of(uri.as_str()).len();
        slice_of(uri.as_str(), 7, n)
    } else {
        uri
    }
}

/// The runtime that the value of a manifest's `runtime` key names: three
/// parts with `/` between them, none of them empty. Anything else names none.
pub open spec fn runtime_of(text: Seq<char>) -> Option<RuntimeParts> {
    let parts = split(text, "/"@);
    if parts.len() == 3 && parts[0].len() > 0 && parts[1].len() > 0 && parts[2].len() > 0 {
        Some(RuntimeParts { id: parts[0], arch: parts[1], branch: parts[2] })
    } else {
        None
    }
}

/// The reference under which a runtime is installed: `runtime/` and then what
/// the manifest says.
pub open spec fn runtime_ref_text(runtime: Seq<char>) -> Seq<char> {
    "runtime/"@ + runtime
}

/// The branch to take of a remote: its own default, or `stable` where it has
/// none.
pub open spec fn branch_or_stable(branch: Option<String>) -> Seq<char> {
    match branch {
        Some(b) => b@,
        None => "stable"@,
    }
}

impl RuntimeRef {
    /// Reads the value of a manifest's `runtime` key. `None` where it is not
    /// of the form `id/arch/branch`.
    pub fn parse(text: &str) -> (r: Option<RuntimeRef>)
        ensures
            match r {
                Some(rt) => runtime_of(text@) == Some(rt@),
                None => runtime_of(text@) is None,
            },
    {
        proof {
            reveal_strlit("/");
        }
        let mut parts = split_str(text, "/");
        if parts.len() != 3 {
            return None;
        }
        let ghost all = views(parts@);
        let branch = parts.remove(2);
        let arch = parts.remove(1);
        let id = parts.remove(0);
        assert(id@ == all[0] && arch@ == all[1] && branch@ == all[2]);
        if chars_of(id.as_str()).len() == 0 || chars_of(arch.as_str()).len() == 0 || chars_of(
            branch.as_str(),
        ).len() == 0 {
            return None;
        }
        Some(RuntimeRef { id, arch, branch })
    }

    /// The runtime as a manifest writes it.
    pub fn format(&self) -> (text: String)
        ensures
            text@ == self.id@ + "/"@ + self.arch@ + "/"@ + self.branch@,
    {
        let mut text = self.id.clone();
        text.append("/");
        text.append(self.arch.as_str());
        text.append("/");
        text.append(self.branch.as_str());
        text
    }

    /// The reference under which this runtime is installed.
    pub fn install_ref(&self) -> (text: String)
        ensures
            text@ == runtime_ref_text(self.id@ + "/"@ + self.arch@ + "/"@ + self.branch@),
    {
        let tail = self.format();
        concat2("runtime/", tail.as_str())
    }
}

/// The branch to take of a remote: its own default, or `stable`.
pub fn default_branch_or_stable(branch: Option<String>) -> (b: String)
    ensures
        b@ == branch_or_stable(branch),
{
    match branch {
        Some(b) => b,
        None => "stable".to_owned(),
    }
}

impl Default for Remote {
    /// Flathub, on its branch `stable`.
    fn default() -> (r: Remote)
        ensures
            r.uri@ == "https://dl.flathub.org/repo/flathub.flatpakrepo"@,
            r.name@ == "flathub"@,
            r.default_branch@ == "stable"@,
    {
        Remote {
            uri: "https://dl.flathub.org/repo/flathub.flatpakrepo".to_owned(),
            name: "flathub".to_owned(),
            default_branch: "stable".to_owned(),
        }
    }
}

impl Remote {
    /// The remote that is described at `uri`. It is known by that same text,
    /// and its default branch is `master`.
    pub fn new(uri: String) -> (r: Remote)
        ensures
            r.uri@ == uri@,
            r.name@ == uri@,
            r.default_branch@ == "master"@,
    {
        Remote { uri: uri.clone(), name: uri, default_branch: "master".to_owned() }
    }

    /// The remote to use: the one at `uri`, or Flathub where none is given.
    pub fn from_uri(uri: Option<String>) -> (r: Remote)
        ensures
            match uri {
                Some(u) => r.uri@ == u@ && r.name@ == u@ && r.default_branch@ == "master"@,
                None => r.uri@ == "https://dl.flathub.org/repo/flathub.flatpakrepo"@ && r.name@
                    == "flathub"@ && r.default_branch@ == "stable"@,
            },
    {
        match uri {
            Some(u) => Remote::new(u),
            None => Remote::default(),
        }
    }
}

/// The settings of Flathub. Signatures are not checked.
pub fn flathub_remote() -> (r: RemoteDescriptor)
    ensures
        r.name@ == "flathub"@,
        r.url@ == "https://dl.flathub.org/repo/"@,
        r.homepage@ == "https://flathub.org"@,
        r.comment@ == "Central repository of Flatpak applications"@,
        r.description@ == "Central repository of Flatpak applications"@,
        r.icon@ == "https://dl.flathub.org/repo/logo.svg"@,
        !r.gpg_verify,
{
    RemoteDescriptor {
        name: "flathub".to_owned(),
        url: "https://dl.flathub.org/repo/".to_owned(),
        homepage: "https://flathub.org".to_owned(),
        comment: "Central repository of Flatpak applications".to_owned(),
        description: "Central repository of Flatpak applications".to_owned(),
        icon: "https://dl.flathub.org/repo/logo.svg".to_owned(),
        gpg_verify: false,
    }
}

impl Flatpak {
    /// The kind of reference that is fetched for a download.
    pub fn ref_kind(is_runtime: bool) -> (k: RefKind)
        ensures
            k == (if is_runtime {
                RefKind::Runtime
            } else {
                RefKind::App
            }),
    {
        if is_runtime {
            RefKind::Runtime
        } else {
            RefKind::App
        }
    }

    /// The same target as a reference to resolve, a download taken from the
    /// remote `remote`.
    pub fn into_ref_type(self, remote: &str) -> (r: RefType)
        ensures
            match self {
                Flatpak::Bundle(path) => r == RefType::Path(path),
                Flatpak::Download(id) => r matches RefType::Name { remote: rm, app } && rm@
                    == remote@ && app == id,
            },
    {
        match self {
            Flatpak::Bundle(path) => RefType::Path(path),
            Flatpak::Download(id) => RefType::Name { remote: remote.to_owned(), app: id },
        }
    }
}

/// What the command line says to run, if it says so.
///
/// Without `download`, the `path` is run, given plainly or as a `file://`
/// URI; where there is none, the user is to be asked for a file, and nothing
/// is returned. With `download`, the application `name` of the remote
/// `remote` is run, and it is an error to leave either out.
pub fn choose_target(
    download: bool,
    path: Option<String>,
    remote: Option<String>,
    name: Option<String>,
) -> (r: Result<Option<RefType>, FlatrunError>)
    ensures
        !download ==> match path {
            Some(uri) => r matches Ok(Some(RefType::Path(p))) && p@ == path_of_uri(uri@),
            None => r == Ok::<Option<RefType>, FlatrunError>(None),
        },
        download ==> match (remote, name) {
            (Some(rm), Some(app)) => r == Ok::<Option<RefType>, FlatrunError>(
                Some(RefType::Name { remote: rm, app }),
            ),
            _ => r matches Err(FlatrunError::CommandUnsuccessful(t)) && t@
                == "[DOWNLOAD] You must specify a remote and an appid."@,
        },
{
    if !download {
        match path {
            Some(uri) => Ok(Some(RefType::Path(path_from_uri(uri)))),
            None => Ok(None),
        }
    } else {
        match (remote, name) {
            (Some(rm), Some(app)) => Ok(Some(RefType::Name { remote: rm, app })),
            _ => Err(
                FlatrunError::CommandUnsuccessful(
                    "[DOWNLOAD] You must specify a remote and an appid.".to_owned(),
                ),
            ),
        }
    }
}

impl RefType {
    /// Is this a bundle file?
    pub fn is_bundle(&self) -> (b: bool)
        ensures
            b == (self is Path),
    {
        match self {
            RefType::Path(_) => true,
            RefType::Name { .. } => false,
        }
    }
}

} // verus!
