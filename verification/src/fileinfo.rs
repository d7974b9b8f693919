//! The file a document is associated with.

use vstd::prelude::*;

verus! {

/// Shown where a document has no file.
pub const NO_NAME: &'static str = "[No Name]";

/// The file a document was read from and is written to, if it has one.
#[derive(Debug)]
pub struct FileInfo {
    pub path: Option<String>,
}

impl FileInfo {
    /// The path of the file, if there is one.
    pub open spec fn spec_path(&self) -> Option<Seq<char>> {
        match self.path {
            Some(path) => Some(path@),
            None => None,
        }
    }

    /// The file at the path `file_name`.
    pub fn from(file_name: &str) -> (info: FileInfo)
        ensures
            info.spec_path() == Some(file_name@),
    {
        FileInfo { path: Some(file_name.to_owned()) }
    }

    /// The name the file is shown under: the last component of its path, or
    /// `NO_NAME` where there is no file or its path has no such component.
    pub fn to_string(&self) -> (name: String)
        ensures
            self.spec_path() is None ==> name@ == NO_NAME@,
    {
        let component = match &self.path {
            Some(path) => final_component(path.as_str()),
            None => None,
        };
        display_name(component)
    }
}

/// Calls `Path::file_name` on `path` and hands out the component it finds, if
/// there is one and it is valid Unicode. Which part of a path that is depends
/// on the platform, so nothing is claimed of it.
#[verifier::external_body]
fn final_component(path: &str) -> (name: Option<String>) {
    match std::path::Path::new(path).file_name() {
        Some(name) => match name.to_str() {
            Some(name) => Some(name.to_owned()),
            None => None,
        },
        None => None,
    }
}

/// The name a file is shown under, given the last component of its path:
/// that component, or `NO_NAME` where there is none.
pub fn display_name(component: Option<String>) -> (name: String)
    ensures
        name@ == match component {
            Some(component) => component@,
            None => NO_NAME@,
        },
{
    match component {
        Some(component) => component,
        None => NO_NAME.to_owned(),
    }
}

impl Default for FileInfo {
    /// No file.
    fn default() -> (info: FileInfo)
        ensures
            info.spec_path() == None::<Seq<char>>,
    {
        FileInfo { path: None }
    }
}

impl Clone for FileInfo {
    /// The same file.
    fn clone(&self) -> (copy: FileInfo)
        ensures
            copy.spec_path() == self.spec_path(),
    {
        match &self.path {
            Some(path) => FileInfo { path: Some(path.clone()) },
            None => FileInfo { path: None },
        }
    }
}

} // verus!
