//! Descriptions of what a session is to compile for.
use crate::blob::Blob;
use crate::codes::{CompileTarget, ProfileID};
use crate::impls::FileSystemImpl;
use crate::options::CompilerOptions;
use crate::utils::Error;
use vstd::prelude::*;

verus! {

/// What a host has to offer to stand in for the files of a session: one
/// operation, which loads the file at a path or says why it cannot.
///
/// The compiler may ask at any time while it loads a module, and from
/// whatever thread it loads on.
pub trait FileSystem {
    fn load_file(&self, path: &str) -> Result<Blob, Error>;
}

/// One target of a session: the format to generate, the profile to generate
/// it for, and the options that hold for this target alone.
///
/// A description borrows its options and must not outlive them.
pub struct TargetDesc<'a> {
    pub format: CompileTarget,
    pub profile: ProfileID,
    pub options: Option<&'a CompilerOptions>,
}

impl<'a> Default for TargetDesc<'a> {
    /// The description with every field at zero: no format, no profile, no options.
    fn default() -> (desc: Self)
        ensures
            desc.format == CompileTarget(0),
            desc.profile == ProfileID(0),
            desc.options is None,
    {
        TargetDesc { format: CompileTarget(0), profile: ProfileID(0), options: None }
    }
}

impl<'a> TargetDesc<'a> {
    pub fn format(self, format: CompileTarget) -> (desc: Self)
        ensures
            desc.format == format,
            desc.profile == self.profile,
            desc.options == self.options,
    {
        TargetDesc { format, profile: self.profile, options: self.options }
    }

    pub fn profile(self, profile: ProfileID) -> (desc: Self)
        ensures
            desc.format == self.format,
            desc.profile == profile,
            desc.options == self.options,
    {
        TargetDesc { format: self.format, profile, options: self.options }
    }

    pub fn options(self, options: &'a CompilerOptions) -> (desc: Self)
        ensures
            desc.format == self.format,
            desc.profile == self.profile,
            desc.options == Some(options),
    {
        TargetDesc { format: self.format, profile: self.profile, options: Some(options) }
    }
}

/// What a session is made from: its targets, the directories it searches,
/// the options that hold for all targets, and the file system it reads
/// through, if not that of the machine.
///
/// A description borrows its targets, paths and options and must not
/// outlive them. The file system it owns; `F` is the kind of file system
/// that it was given, if it was given one.
pub struct SessionDesc<'a, F: FileSystem + ?Sized = dyn FileSystem> {
    pub targets: &'a [TargetDesc<'a>],
    pub search_paths: &'a [&'a str],
    pub options: Option<&'a CompilerOptions>,
    pub file_system: Option<FileSystemImpl<F>>,
}

impl<'a> Default for SessionDesc<'a> {
    /// The description of a session without targets, search paths or options,
    /// which reads through the file system of the machine.
    fn default() -> (desc: Self)
        ensures
            desc.targets@.len() == 0,
            desc.search_paths@.len() == 0,
            desc.options is None,
            desc.file_system is None,
    {
        SessionDesc { targets: &[], search_paths: &[], options: None, file_system: None }
    }
}

impl<'a, F: FileSystem + ?Sized> SessionDesc<'a, F> {
    pub fn targets(self, targets: &'a [TargetDesc<'a>]) -> (desc: Self)
        ensures
            desc.targets == targets,
            desc.search_paths == self.search_paths,
            desc.options == self.options,
            desc.file_system == self.file_system,
    {
        SessionDesc {
            targets,
            search_paths: self.search_paths,
            options: self.options,
            file_system: self.file_system,
        }
    }

    pub fn search_paths(self, paths: &'a [&'a str]) -> (desc: Self)
        ensures
            desc.targets == self.targets,
            desc.search_paths == paths,
            desc.options == self.options,
            desc.file_system == self.file_system,
    {
        SessionDesc {
            targets: self.targets,
            search_paths: paths,
            options: self.options,
            file_system: self.file_system,
        }
    }

    pub fn options(self, options: &'a CompilerOptions) -> (desc: Self)
        ensures
            desc.targets == self.targets,
            desc.search_paths == self.search_paths,
            desc.options == Some(options),
            desc.file_system == self.file_system,
    {
        SessionDesc {
            targets: self.targets,
            search_paths: self.search_paths,
            options: Some(options),
            file_system: self.file_system,
        }
    }

    /// Makes the session read its files through `file_system`, and through
    /// nothing else: a file system that was set before is dropped.
    pub fn file_system<G: FileSystem + 'static>(self, file_system: G) -> (desc: SessionDesc<
        'a,
        G,
    >)
        ensures
            desc.targets == self.targets,
            desc.search_paths == self.search_paths,
            desc.options == self.options,
            desc.file_system matches Some(bridge) && *bridge.spec_file_system() == file_system,
    {
        SessionDesc {
            targets: self.targets,
            search_paths: self.search_paths,
            options: self.options,
            file_system: Some(FileSystemImpl::new(Box::new(file_system))),
        }
    }
}

} // verus!
