//! The typed dispatch layer: byte sequences classified once as Unix or
//! Windows paths, and borrowed/owned wrappers that carry the chosen tag.

use vstd::prelude::*;
use vstd::string::StringSliceAdditionalSpecFns;

use crate::component::{typed_comp_views, typed_components_spec, TypedCompM, TypedComponent};
use crate::unix::{unix_comp_views, unix_components_spec, UnixComponent, UnixPath, UnixPathBuf};
use crate::windows::{has_win_prefix, win_comp_views, win_components_spec, win_prefix_length,
    WindowsComponent, WindowsPath, WindowsPathBuf};
use crate::BACKSLASH;

verus! {

/// Which of the two grammars a value is tagged with.
#[derive(Clone, Copy, PartialEq, Eq, Structural, Debug)]
pub enum PathType {
    Unix,
    Windows,
}

/// The mathematical content of a typed path value: its tag and its bytes.
pub struct PathModel {
    pub tag: PathType,
    pub bytes: Seq<u8>,
}

/// The classification rule: a byte sequence is a Windows path when it carries
/// a recognized Windows-specific prefix or opens with a backslash, and a Unix
/// path otherwise. Empty input and input using only the Unix separator are
/// Unix; the rule is total and never fails.
pub open spec fn classify(s: Seq<u8>) -> PathType {
    if has_win_prefix(s) || (s.len() > 0 && s[0] == BACKSLASH) {
        PathType::Windows
    } else {
        PathType::Unix
    }
}

/// Classification is total and unambiguous: every byte sequence, text or
/// not, gets exactly one of the two tags.
pub proof fn lemma_classify_total(b: Seq<u8>)
    ensures
        classify(b) == PathType::Unix || classify(b) == PathType::Windows,
        !(classify(b) == PathType::Unix && classify(b) == PathType::Windows),
{
}

/// Runs the classification rule on raw bytes.
pub fn classify_bytes(s: &[u8]) -> (r: PathType)
    ensures
        r == classify(s@),
{
    let plen: usize = win_prefix_length(s);
    if plen > 0 || (s.len() > 0 && s[0] == BACKSLASH) {
        PathType::Windows
    } else {
        PathType::Unix
    }
}

/// A borrowed path tagged with the grammar it was classified under.
#[derive(Clone, Copy)]
pub enum TypedPath<'a> {
    Unix(UnixPath<'a>),
    Windows(WindowsPath<'a>),
}

impl<'a> View for TypedPath<'a> {
    type V = PathModel;

    open spec fn view(&self) -> PathModel {
        match self {
            TypedPath::Unix(p) => PathModel { tag: PathType::Unix, bytes: p@ },
            TypedPath::Windows(p) => PathModel { tag: PathType::Windows, bytes: p@ },
        }
    }
}

impl<'a> TypedPath<'a> {
    /// Classifies raw bytes and wraps them: the bytes are kept exactly and
    /// the tag is `classify` of them. Never fails, on any input.
    pub fn new(s: &'a [u8]) -> (r: TypedPath<'a>)
        ensures
            r@.bytes == s@,
            r@.tag == classify(s@),
    {
        let winpath = WindowsPath::new(s);
        if winpath.has_prefix() || (s.len() > 0 && s[0] == BACKSLASH) {
            TypedPath::Windows(winpath)
        } else {
            TypedPath::Unix(UnixPath::new(s))
        }
    }

    /// True when the path is tagged Unix.
    pub fn is_unix(&self) -> (r: bool)
        ensures
            r == (self@.tag == PathType::Unix),
    {
        matches!(self, TypedPath::Unix(_))
    }

    /// True when the path is tagged Windows.
    pub fn is_windows(&self) -> (r: bool)
        ensures
            r == (self@.tag == PathType::Windows),
    {
        matches!(self, TypedPath::Windows(_))
    }

    /// The raw bytes of the path.
    pub fn as_bytes(&self) -> (r: &'a [u8])
        ensures
            r@ == self@.bytes,
    {
        match self {
            TypedPath::Unix(p) => p.as_bytes(),
            TypedPath::Windows(p) => p.as_bytes(),
        }
    }

    /// Copies into an owned buffer with the same tag and the same bytes; no
    /// reclassification runs.
    pub fn to_path_buf(&self) -> (r: TypedPathBuf)
        ensures
            r@ == self@,
    {
        match self {
            TypedPath::Unix(p) => TypedPathBuf::Unix(p.to_path_buf()),
            TypedPath::Windows(p) => TypedPathBuf::Windows(p.to_path_buf()),
        }
    }

    /// The Unix view of the path, exactly when it is Unix-tagged.
    pub fn try_as_unix(&self) -> (r: Option<UnixPath<'a>>)
        ensures
            match r {
                Some(p) => self@.tag == PathType::Unix && p@ == self@.bytes,
                None => self@.tag == PathType::Windows,
            },
    {
        match self {
            TypedPath::Unix(p) => Some(*p),
            TypedPath::Windows(_) => None,
        }
    }

    /// The Windows view of the path, exactly when it is Windows-tagged.
    pub fn try_as_windows(&self) -> (r: Option<WindowsPath<'a>>)
        ensures
            match r {
                Some(p) => self@.tag == PathType::Windows && p@ == self@.bytes,
                None => self@.tag == PathType::Unix,
            },
    {
        match self {
            TypedPath::Windows(p) => Some(*p),
            TypedPath::Unix(_) => None,
        }
    }

    /// The component sequence of the path, each component carrying the
    /// path's own tag.
    pub fn components(&self) -> (r: Vec<TypedComponent>)
        ensures
            typed_comp_views(r@) == typed_components_spec(self@),
    {
        match self {
            TypedPath::Unix(p) => {
                let ucs: Vec<UnixComponent> = p.components();
                let mut out: Vec<TypedComponent> = Vec::new();
                let mut j: usize = 0;
                while j < ucs.len()
                    invariant
                        j <= ucs@.len(),
                        unix_comp_views(ucs@) == unix_components_spec(p@),
                        out@.len() == j,
                        forall|t: int|
                            0 <= t < j ==> #[trigger] out@[t]@ == TypedCompM::Unix(ucs@[t]@),
                    decreases ucs@.len() - j,
                {
                    let c: UnixComponent = ucs[j].clone();
                    out.push(TypedComponent::Unix(c));
                    j = j + 1;
                }
                proof {
                    assert(typed_comp_views(out@) =~= typed_components_spec(self@));
                }
                out
            },
            TypedPath::Windows(p) => {
                let wcs: Vec<WindowsComponent> = p.components();
                let mut out: Vec<TypedComponent> = Vec::new();
                let mut j: usize = 0;
                while j < wcs.len()
                    invariant
                        j <= wcs@.len(),
                        win_comp_views(wcs@) == win_components_spec(p@),
                        out@.len() == j,
                        forall|t: int|
                            0 <= t < j ==> #[trigger] out@[t]@ == TypedCompM::Windows(wcs@[t]@),
                    decreases wcs@.len() - j,
                {
                    let c: WindowsComponent = wcs[j].clone();
                    out.push(TypedComponent::Windows(c));
                    j = j + 1;
                }
                proof {
                    assert(typed_comp_views(out@) =~= typed_components_spec(self@));
                }
                out
            },
        }
    }
}

/// An owned path tagged with the grammar it was classified under.
#[derive(PartialEq, Eq, Debug)]
pub enum TypedPathBuf {
    Unix(UnixPathBuf),
    Windows(WindowsPathBuf),
}

impl View for TypedPathBuf {
    type V = PathModel;

    open spec fn view(&self) -> PathModel {
        match self {
            TypedPathBuf::Unix(p) => PathModel { tag: PathType::Unix, bytes: p@ },
            TypedPathBuf::Windows(p) => PathModel { tag: PathType::Windows, bytes: p@ },
        }
    }
}

impl Clone for TypedPathBuf {
    /// Cloning copies the bytes into an independent buffer; the tag is kept.
    fn clone(&self) -> (r: Self)
        ensures
            r@ == self@,
    {
        match self {
            TypedPathBuf::Unix(p) => TypedPathBuf::Unix(p.clone()),
            TypedPathBuf::Windows(p) => TypedPathBuf::Windows(p.clone()),
        }
    }
}

impl TypedPathBuf {
    /// Classifies an owned byte buffer and wraps it by ownership transfer:
    /// the bytes are kept exactly and the tag is `classify` of them.
    pub fn from_vec(v: Vec<u8>) -> (r: TypedPathBuf)
        ensures
            r@.bytes == v@,
            r@.tag == classify(v@),
    {
        let t: PathType = classify_bytes(v.as_slice());
        match t {
            PathType::Unix => TypedPathBuf::Unix(UnixPathBuf::from_vec(v)),
            PathType::Windows => TypedPathBuf::Windows(WindowsPathBuf::from_vec(v)),
        }
    }

    /// Classifies borrowed bytes and copies them into an owned typed buffer.
    pub fn from_bytes(s: &[u8]) -> (r: TypedPathBuf)
        ensures
            r@.bytes == s@,
            r@.tag == classify(s@),
    {
        let t: PathType = classify_bytes(s);
        match t {
            PathType::Unix => TypedPathBuf::Unix(UnixPathBuf::from_bytes(s)),
            PathType::Windows => TypedPathBuf::Windows(WindowsPathBuf::from_bytes(s)),
        }
    }

    /// Classifies a UTF-8 string, viewed as its byte sequence.
    pub fn from_str_slice(s: &str) -> (r: TypedPathBuf)
        ensures
            r@.bytes == s.spec_bytes(),
            r@.tag == classify(s.spec_bytes()),
    {
        TypedPathBuf::from_bytes(s.as_bytes())
    }

    /// Wraps an already-classified Unix buffer; no reclassification runs.
    pub fn from_unix(p: UnixPathBuf) -> (r: TypedPathBuf)
        ensures
            r@.tag == PathType::Unix,
            r@.bytes == p@,
    {
        TypedPathBuf::Unix(p)
    }

    /// Wraps an already-classified Windows buffer; no reclassification runs.
    pub fn from_windows(p: WindowsPathBuf) -> (r: TypedPathBuf)
        ensures
            r@.tag == PathType::Windows,
            r@.bytes == p@,
    {
        TypedPathBuf::Windows(p)
    }

    /// True when the buffer is tagged Unix.
    pub fn is_unix(&self) -> (r: bool)
        ensures
            r == (self@.tag == PathType::Unix),
    {
        matches!(self, TypedPathBuf::Unix(_))
    }

    /// True when the buffer is tagged Windows.
    pub fn is_windows(&self) -> (r: bool)
        ensures
            r == (self@.tag == PathType::Windows),
    {
        matches!(self, TypedPathBuf::Windows(_))
    }

    /// Borrows the buffer as a typed path with the same tag and bytes.
    pub fn as_path(&self) -> (r: TypedPath<'_>)
        ensures
            r@ == self@,
    {
        match self {
            TypedPathBuf::Unix(p) => TypedPath::Unix(p.as_path()),
            TypedPathBuf::Windows(p) => TypedPath::Windows(p.as_path()),
        }
    }

    /// The raw bytes of the buffer.
    pub fn as_bytes(&self) -> (r: &[u8])
        ensures
            r@ == self@.bytes,
    {
        match self {
            TypedPathBuf::Unix(p) => p.as_bytes(),
            TypedPathBuf::Windows(p) => p.as_bytes(),
        }
    }

    /// Releases the underlying bytes.
    pub fn into_vec(self) -> (r: Vec<u8>)
        ensures
            r@ == self@.bytes,
    {
        match self {
            TypedPathBuf::Unix(p) => p.into_vec(),
            TypedPathBuf::Windows(p) => p.into_vec(),
        }
    }

    /// Narrows to the Unix-specific owned type. Succeeds exactly when the
    /// buffer is Unix-tagged; on mismatch the original value comes back
    /// intact, so nothing is lost.
    pub fn try_into_unix(self) -> (r: Result<UnixPathBuf, TypedPathBuf>)
        ensures
            match r {
                Ok(p) => self@.tag == PathType::Unix && p@ == self@.bytes,
                Err(e) => self@.tag == PathType::Windows && e == self,
            },
    {
        match self {
            TypedPathBuf::Unix(p) => Ok(p),
            other => Err(other),
        }
    }

    /// Narrows to the Windows-specific owned type. Succeeds exactly when the
    /// buffer is Windows-tagged; on mismatch the original value comes back
    /// intact, so nothing is lost.
    pub fn try_into_windows(self) -> (r: Result<WindowsPathBuf, TypedPathBuf>)
        ensures
            match r {
                Ok(p) => self@.tag == PathType::Windows && p@ == self@.bytes,
                Err(e) => self@.tag == PathType::Unix && e == self,
            },
    {
        match self {
            TypedPathBuf::Windows(p) => Ok(p),
            other => Err(other),
        }
    }

    /// The component sequence of the buffer's path, each component carrying
    /// the buffer's own tag.
    pub fn components(&self) -> (r: Vec<TypedComponent>)
        ensures
            typed_comp_views(r@) == typed_components_spec(self@),
    {
        let path: TypedPath<'_> = self.as_path();
        let r: Vec<TypedComponent> = path.components();
        r
    }
}

} // verus!
