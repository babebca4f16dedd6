//! Typed filesystem paths: Unix- and Windows-style paths handled as tagged
//! values, classified once from their raw bytes, independent of the host
//! platform the code runs on.

use vstd::prelude::*;

pub mod component;
pub mod native;
pub mod typed;
pub mod unix;
pub mod windows;

pub use component::TypedComponent;
pub use native::{NativeComponent, NativePath, NativePathBuf, Utf8NativePath, Utf8NativePathBuf};
pub use typed::{classify, PathModel, PathType, TypedPath, TypedPathBuf};
pub use unix::{UnixComponent, UnixPath, UnixPathBuf, Utf8UnixPath, Utf8UnixPathBuf};
pub use windows::{WindowsComponent, WindowsPath, WindowsPathBuf};

verus! {

/// The Unix path separator byte, `/`.
pub const SLASH: u8 = 47;

/// The Windows path separator byte, `\`.
pub const BACKSLASH: u8 = 92;

/// The byte `.`, which marks current- and parent-directory components.
pub const DOT: u8 = 46;

/// The byte `:`, which ends a drive-letter prefix.
pub const COLON: u8 = 58;

/// The byte `?`, which marks a verbatim prefix.
pub const QUESTION: u8 = 63;

/// The byte `U`.
pub const UPPER_U: u8 = 85;

/// The byte `N`.
pub const UPPER_N: u8 = 78;

/// The byte `C`.
pub const UPPER_C: u8 = 67;

/// A path segment spelled `.`: the current-directory marker.
pub open spec fn is_cur_seg(seg: Seq<u8>) -> bool {
    seg.len() == 1 && seg[0] == DOT
}

/// A path segment spelled `..`: the parent-directory marker.
pub open spec fn is_parent_seg(seg: Seq<u8>) -> bool {
    seg.len() == 2 && seg[0] == DOT && seg[1] == DOT
}

} // verus!
