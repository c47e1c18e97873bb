//! What a user has set: defaults for every application, and what differs for
//! single ones.

use vstd::prelude::*;
use vstd::string::StringExecFns;
use crate::outside::{file_stem, path_file_stem};
use crate::text::str_eq;

verus! {

/// The name under which an application has settings of its own.
#[derive(Clone, Debug, PartialEq, Eq, Hash)]
pub enum FlatpakHandle {
    /// The id of the application.
    Appid(String),
    /// The path of its bundle file.
    Path(String),
}

/// A handle as contracts see it.
pub enum HandleView {
    Appid(Seq<char>),
    Path(Seq<char>),
}

impl View for FlatpakHandle {
    type V = HandleView;

    open spec fn view(&self) -> HandleView {
        match self {
            FlatpakHandle::Appid(id) => HandleView::Appid(id@),
            FlatpakHandle::Path(path) => HandleView::Path(path@),
        }
    }
}

/// How an application is run. A setting that is not made is left to the
/// defaults.
#[derive(Clone, Debug, PartialEq, Eq)]
pub struct RunConfig {
    home_dir: Option<String>,
    desktop_integration: Option<bool>,
}

/// A run configuration as contracts see it.
pub struct RunConfigView {
    pub home_dir: Option<Seq<char>>,
    pub desktop_integration: Option<bool>,
}

impl View for RunConfig {
    type V = RunConfigView;

    closed spec fn view(&self) -> RunConfigView {
        RunConfigView {
            home_dir: match self.home_dir {
                Some(dir) => Some(dir@),
                None => None,
            },
            desktop_integration: self.desktop_integration,
        }
    }
}

/// `first` where it is set, and else `second`.
pub open spec fn or_else<T>(first: Option<T>, second: Option<T>) -> Option<T> {
    if first is Some {
        first
    } else {
        second
    }
}

/// The settings of `own`, filled up from `defaults` where `own` leaves one
/// open.
pub open spec fn blended(own: RunConfigView, defaults: RunConfigView) -> RunConfigView {
    RunConfigView {
        home_dir: or_else(own.home_dir, defaults.home_dir),
        desktop_integration: or_else(own.desktop_integration, defaults.desktop_integration),
    }
}

impl RunConfig {
    /// A run configuration with the given settings.
    pub fn new(home_dir: Option<String>, desktop_integration: Option<bool>) -> (c: RunConfig)
        ensures
            c@.home_dir == (match home_dir {
                Some(dir) => Some(dir@),
                None => None,
            }),
            c@.desktop_integration == desktop_integration,
    {
        RunConfig { home_dir, desktop_integration }
    }

    /// The home directory that is set, if one is.
    pub fn home_dir(&self) -> (r: Option<&String>)
        ensures
            match r {
                Some(dir) => self@.home_dir == Some(dir@),
                None => self@.home_dir is None,
            },
    {
        self.home_dir.as_ref()
    }

    /// Whether the application is tied into the desktop, if that is set.
    pub fn desktop_integration(&self) -> (r: Option<bool>)
        ensures
            r == self@.desktop_integration,
    {
        self.desktop_integration
    }

    /// The home directory of the application: the one that is set, and else
    /// `home`, the user's own.
    pub fn get_home_directory(&self, home: String) -> (dir: String)
        ensures
            dir@ == (match self@.home_dir {
                Some(set) => set,
                None => home@,
            }),
    {
        match &self.home_dir {
            Some(dir) => dir.clone(),
            None => home,
        }
    }

    /// These settings, filled up from `other` where one is left open.
    pub fn blend(&self, other: Self) -> (r: Self)
        ensures
            r@ == blended(self@, other@),
    {
        let RunConfig { home_dir: other_home, desktop_integration: other_desktop } = other;
        RunConfig {
            home_dir: match &self.home_dir {
                Some(dir) => Some(dir.clone()),
                None => other_home,
            },
            desktop_integration: match self.desktop_integration {
                Some(on) => Some(on),
                None => other_desktop,
            },
        }
    }

    /// The same settings again.
    pub fn duplicate(&self) -> (r: Self)
        ensures
            r@ == self@,
    {
        RunConfig {
            home_dir: match &self.home_dir {
                Some(dir) => Some(dir.clone()),
                None => None,
            },
            desktop_integration: self.desktop_integration,
        }
    }
}

/// What a user has set.
#[derive(Clone, Debug, PartialEq, Eq)]
pub struct UserConfig {
    /// The settings of every application.
    pub global: RunConfig,
    /// The settings of single applications. Where a handle stands twice, the
    /// first entry counts.
    pub overrides: Vec<(FlatpakHandle, RunConfig)>,
    /// Is no window shown?
    pub nogui: Option<bool>,
    /// Where temporary files go.
    pub tmp_dir: Option<String>,
}

/// The first entry of `overrides` under the handle `handle`.
pub open spec fn lookup(overrides: Seq<(FlatpakHandle, RunConfig)>, handle: HandleView)
    -> Option<RunConfigView>
    decreases overrides.len(),
{
    if overrides.len() == 0 {
        None
    } else if overrides[0].0@ == handle {
        Some(overrides[0].1@)
    } else {
        lookup(overrides.subrange(1, overrides.len() as int), handle)
    }
}

/// `defaults`, with what the entry sets laid over it where there is an entry.
pub open spec fn overlaid(entry: Option<RunConfigView>, defaults: RunConfigView)
    -> RunConfigView {
    match entry {
        Some(own) => blended(own, defaults),
        None => defaults,
    }
}

/// The settings of the application `handle`, where `stem` is the file stem of
/// its path, if it is named by a path that has one.
///
/// An application that is named by its id has the entry under that id. One
/// that is named by a path has the entry under the path or, where there is
/// none, the entry under its file stem taken as an id. What the entry leaves
/// open comes from the global settings, and so does everything where there
/// is no entry.
pub open spec fn config_for(
    global: RunConfigView,
    overrides: Seq<(FlatpakHandle, RunConfig)>,
    handle: HandleView,
    stem: Option<Seq<char>>,
) -> RunConfigView {
    match handle {
        HandleView::Appid(_) => overlaid(lookup(overrides, handle), global),
        HandleView::Path(_) => if lookup(overrides, handle) is Some {
            overlaid(lookup(overrides, handle), global)
        } else {
            match stem {
                Some(id) => overlaid(lookup(overrides, HandleView::Appid(id)), global),
                None => global,
            }
        },
    }
}

/// The file stem of the path of a handle, where it is a path and has one.
pub open spec fn stem_of(handle: HandleView) -> Option<Seq<char>> {
    match handle {
        HandleView::Appid(_) => None,
        HandleView::Path(path) => path_file_stem(path),
    }
}

/// The directory for temporary files where none is set: `portapak/` under
/// the runtime directory, which is `/run/user/` and the user's number where
/// the environment names none, the number being 1000 where it names none
/// either.
pub open spec fn default_temporary_dir(runtime_dir: Option<String>, uid: Option<String>) -> Seq<
    char,
> {
    let base = match runtime_dir {
        Some(dir) => dir@,
        None => "/run/user/"@ + (match uid {
            Some(number) => number@,
            None => "1000"@,
        }),
    };
    base + "/portapak/"@
}

impl Default for UserConfig {
    /// No overrides, and every application tied into the desktop.
    fn default() -> (c: UserConfig)
        ensures
            c.global@.home_dir is None,
            c.global@.desktop_integration == Some(true),
            c.overrides@.len() == 0,
            c.nogui is None,
            c.tmp_dir is None,
    {
        UserConfig {
            global: RunConfig { home_dir: None, desktop_integration: Some(true) },
            overrides: Vec::new(),
            nogui: None,
            tmp_dir: None,
        }
    }
}

impl FlatpakHandle {
    /// The id of the application: the id itself, or the file stem of the
    /// path.
    pub open spec fn appid_of(self) -> Option<Seq<char>> {
        match self {
            FlatpakHandle::Appid(id) => Some(id@),
            FlatpakHandle::Path(path) => path_file_stem(path@),
        }
    }

    /// Are the two handles the same?
    pub fn same(&self, other: &FlatpakHandle) -> (r: bool)
        ensures
            r == (self@ == other@),
    {
        match (self, other) {
            (FlatpakHandle::Appid(a), FlatpakHandle::Appid(b)) => str_eq(a.as_str(), b.as_str()),
            (FlatpakHandle::Path(a), FlatpakHandle::Path(b)) => str_eq(a.as_str(), b.as_str()),
            _ => false,
        }
    }

    /// The id of the application: the id itself, or the file stem of the
    /// path, which has to have one.
    pub fn to_appid(&self) -> (id: String)
        requires
            self.appid_of() is Some,
        ensures
            Some(id@) == self.appid_of(),
    {
        match self {
            FlatpakHandle::Appid(id) => id.clone(),
            FlatpakHandle::Path(path) => match file_stem(path.as_str()) {
                Some(stem) => stem,
                None => String::new(),
            },
        }
    }

    /// The id of the application, or nothing where the handle is a path
    /// without a file name.
    pub fn appid(&self) -> (id: Option<String>)
        ensures
            match id {
                Some(text) => self.appid_of() == Some(text@),
                None => self.appid_of() is None,
            },
    {
        match self {
            FlatpakHandle::Appid(_) => Some(self.to_appid()),
            FlatpakHandle::Path(path) => match file_stem(path.as_str()) {
                Some(_) => Some(self.to_appid()),
                None => None,
            },
        }
    }
}

impl UserConfig {
    /// The directory for temporary files: the one that is set, and else the
    /// default under the runtime directory. `runtime_dir` and `uid` are what
    /// the environment says under `RUNTIME_DIR` and `UID`.
    pub fn get_temporary_dir(&self, runtime_dir: Option<String>, uid: Option<String>) -> (dir:
        String)
        ensures
            dir@ == (match self.tmp_dir {
                Some(set) => set@,
                None => default_temporary_dir(runtime_dir, uid),
            }),
    {
        match &self.tmp_dir {
            Some(set) => set.clone(),
            None => {
                let mut dir = match runtime_dir {
                    Some(dir) => dir,
                    None => {
                        let mut base = "/run/user/".to_owned();
                        match uid {
                            Some(number) => base.append(number.as_str()),
                            None => base.append("1000"),
                        }
                        base
                    },
                };
                dir.append("/portapak/");
                dir
            },
        }
    }

    /// The first entry under `handle`.
    fn find(&self, handle: &FlatpakHandle) -> (r: Option<&RunConfig>)
        ensures
            match r {
                Some(entry) => lookup(self.overrides@, handle@) == Some(entry@),
                None => lookup(self.overrides@, handle@) is None,
            },
    {
        let mut i: usize = 0;
        assert(self.overrides@.subrange(0, self.overrides@.len() as int) =~= self.overrides@);
        while i < self.overrides.len()
            invariant
                i <= self.overrides.len(),
                lookup(self.overrides@, handle@) == lookup(
                    self.overrides@.subrange(i as int, self.overrides@.len() as int),
                    handle@,
                ),
            decreases self.overrides.len() - i,
        {
            let ghost rest = self.overrides@.subrange(i as int, self.overrides@.len() as int);
            assert(rest[0] == self.overrides@[i as int]);
            assert(rest.subrange(1, rest.len() as int) =~= self.overrides@.subrange(
                i + 1,
                self.overrides@.len() as int,
            ));
            if self.overrides[i].0.same(handle) {
                return Some(&self.overrides[i].1);
            }
            i += 1;
        }
        None
    }

    /// The settings of the application `handle`, where `stem` is the file
    /// stem of its path, if it is named by a path that has one.
    pub fn get_config_with_stem(&self, handle: &FlatpakHandle, stem: Option<String>) -> (c:
        RunConfig)
        ensures
            c@ == config_for(
                self.global@,
                self.overrides@,
                handle@,
                match stem {
                    Some(id) => Some(id@),
                    None => None,
                },
            ),
    {
        match self.find(handle) {
            Some(entry) => entry.blend(self.global.duplicate()),
            None => match handle {
                FlatpakHandle::Appid(_) => self.global.duplicate(),
                FlatpakHandle::Path(_) => match stem {
                    Some(id) => match self.find(&FlatpakHandle::Appid(id)) {
                        Some(entry) => entry.blend(self.global.duplicate()),
                        None => self.global.duplicate(),
                    },
                    None => self.global.duplicate(),
                },
            },
        }
    }

    /// The settings of the application `handle`: its own entry laid over the
    /// global settings. An application that is named by a path and has no
    /// entry under it has the entry under the file stem of the path.
    pub fn get_config(&self, handle: FlatpakHandle) -> (c: RunConfig)
        ensures
            c@ == config_for(self.global@, self.overrides@, handle@, stem_of(handle@)),
    {
        let stem = match &handle {
            FlatpakHandle::Appid(_) => None,
            FlatpakHandle::Path(path) => file_stem(path.as_str()),
        };
        self.get_config_with_stem(&handle, stem)
    }
}

} // verus!
