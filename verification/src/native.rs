//! The native binding: type aliases fixing one grammar as the build
//! platform's own, and the conversions from native paths into the typed
//! layer. The variant of such a conversion is statically known, so no
//! classification heuristic runs.

use vstd::prelude::*;

use crate::typed::{PathType, TypedPath, TypedPathBuf};
use crate::unix::{UnixComponent, UnixPath, UnixPathBuf, Utf8UnixPath, Utf8UnixPathBuf};
use crate::windows::{WindowsPath, WindowsPathBuf};

verus! {

/// The borrowed path type of the native grammar; this library is built with
/// the Unix grammar as native.
pub type NativePath<'a> = UnixPath<'a>;

/// The owned path type of the native grammar.
pub type NativePathBuf = UnixPathBuf;

/// The component type of the native grammar.
pub type NativeComponent = UnixComponent;

/// The UTF-8 borrowed path type of the native grammar.
pub type Utf8NativePath<'a> = Utf8UnixPath<'a>;

/// The UTF-8 owned path type of the native grammar.
pub type Utf8NativePathBuf = Utf8UnixPathBuf;

impl<'a> UnixPath<'a> {
    /// Tags this path as a Unix typed path; the variant is statically known.
    pub fn to_typed_path(&self) -> (r: TypedPath<'a>)
        ensures
            r@.tag == PathType::Unix,
            r@.bytes == self@,
    {
        TypedPath::Unix(*self)
    }

    /// Copies this path into a Unix-tagged owned typed buffer.
    pub fn to_typed_path_buf(&self) -> (r: TypedPathBuf)
        ensures
            r@.tag == PathType::Unix,
            r@.bytes == self@,
    {
        TypedPathBuf::from_unix(self.to_path_buf())
    }
}

impl<'a> WindowsPath<'a> {
    /// Tags this path as a Windows typed path; the variant is statically
    /// known.
    pub fn to_typed_path(&self) -> (r: TypedPath<'a>)
        ensures
            r@.tag == PathType::Windows,
            r@.bytes == self@,
    {
        TypedPath::Windows(*self)
    }

    /// Copies this path into a Windows-tagged owned typed buffer.
    pub fn to_typed_path_buf(&self) -> (r: TypedPathBuf)
        ensures
            r@.tag == PathType::Windows,
            r@.bytes == self@,
    {
        TypedPathBuf::from_windows(self.to_path_buf())
    }
}

} // verus!
