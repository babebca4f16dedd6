//! The Unix path grammar: `/`-separated components, no prefixes.

use vstd::prelude::*;
use vstd::slice::slice_to_vec;

use crate::{is_cur_seg, is_parent_seg, DOT, SLASH};

verus! {

/// True of the one byte the Unix grammar accepts as a separator.
pub open spec fn is_unix_sep(b: u8) -> bool {
    b == SLASH
}

/// Index of the first Unix separator at or after `i`, or `s.len()` if none remains.
pub open spec fn unix_sep_from(s: Seq<u8>, i: int) -> int
    decreases s.len() - i,
{
    if i < 0 || i >= s.len() {
        s.len() as int
    } else if is_unix_sep(s[i]) {
        i
    } else {
        unix_sep_from(s, i + 1)
    }
}

proof fn lemma_unix_sep_from(s: Seq<u8>, i: int)
    requires
        0 <= i <= s.len(),
    ensures
        i <= unix_sep_from(s, i) <= s.len(),
        forall|j: int| i <= j < unix_sep_from(s, i) ==> !is_unix_sep(#[trigger] s[j]),
        unix_sep_from(s, i) < s.len() ==> is_unix_sep(s[unix_sep_from(s, i)]),
    decreases s.len() - i,
{
    if i < s.len() && !is_unix_sep(s[i]) {
        lemma_unix_sep_from(s, i + 1);
    }
}

/// Model of one Unix path component.
pub enum UnixCompM {
    RootDir,
    CurDir,
    ParentDir,
    Normal(Seq<u8>),
}

impl UnixCompM {
    /// The raw bytes a component stands for.
    pub open spec fn bytes(self) -> Seq<u8> {
        match self {
            UnixCompM::RootDir => seq![SLASH],
            UnixCompM::CurDir => seq![DOT],
            UnixCompM::ParentDir => seq![DOT, DOT],
            UnixCompM::Normal(b) => b,
        }
    }
}

/// Components of the path bytes from index `i` on, after any root or leading
/// current-directory marker: segments split on separators, with empty and `.`
/// segments dropped and `..` a parent-directory marker.
pub open spec fn unix_body_at(s: Seq<u8>, i: int) -> Seq<UnixCompM>
    decreases s.len() - i,
    via unix_body_at_dec
{
    if i < 0 || i >= s.len() {
        Seq::empty()
    } else if is_unix_sep(s[i]) {
        unix_body_at(s, i + 1)
    } else {
        let k: int = unix_sep_from(s, i);
        let seg: Seq<u8> = s.subrange(i, k);
        if is_cur_seg(seg) {
            unix_body_at(s, k)
        } else if is_parent_seg(seg) {
            seq![UnixCompM::ParentDir] + unix_body_at(s, k)
        } else {
            seq![UnixCompM::Normal(seg)] + unix_body_at(s, k)
        }
    }
}

#[via_fn]
proof fn unix_body_at_dec(s: Seq<u8>, i: int) {
    if 0 <= i < s.len() && !is_unix_sep(s[i]) {
        lemma_unix_sep_from(s, i);
    }
}

/// The path opens with a current-directory marker: a `.` alone or before a separator.
pub open spec fn unix_starts_cur(s: Seq<u8>) -> bool {
    s.len() > 0 && s[0] == DOT && (s.len() == 1 || is_unix_sep(s[1]))
}

/// The full component sequence of a Unix path: a root marker when the path
/// opens with a separator, a current-directory marker when a lone `.` opens a
/// rootless path, then the named segments.
pub open spec fn unix_components_spec(s: Seq<u8>) -> Seq<UnixCompM> {
    if s.len() > 0 && is_unix_sep(s[0]) {
        seq![UnixCompM::RootDir] + unix_body_at(s, 1)
    } else if unix_starts_cur(s) {
        seq![UnixCompM::CurDir] + unix_body_at(s, 1)
    } else {
        unix_body_at(s, 0)
    }
}

/// One parsed Unix path component, owning its bytes where it has any.
#[derive(PartialEq, Eq, Debug)]
pub enum UnixComponent {
    RootDir,
    CurDir,
    ParentDir,
    Normal(Vec<u8>),
}

impl View for UnixComponent {
    type V = UnixCompM;

    open spec fn view(&self) -> UnixCompM {
        match self {
            UnixComponent::RootDir => UnixCompM::RootDir,
            UnixComponent::CurDir => UnixCompM::CurDir,
            UnixComponent::ParentDir => UnixCompM::ParentDir,
            UnixComponent::Normal(v) => UnixCompM::Normal(v@),
        }
    }
}

impl Clone for UnixComponent {
    /// Cloning copies the component's bytes into an independent buffer.
    fn clone(&self) -> (r: Self)
        ensures
            r@ == self@,
    {
        match self {
            UnixComponent::RootDir => UnixComponent::RootDir,
            UnixComponent::CurDir => UnixComponent::CurDir,
            UnixComponent::ParentDir => UnixComponent::ParentDir,
            UnixComponent::Normal(v) => UnixComponent::Normal(slice_to_vec(v.as_slice())),
        }
    }
}

impl UnixComponent {
    /// The raw bytes of the component, as a fresh buffer.
    pub fn as_bytes(&self) -> (r: Vec<u8>)
        ensures
            r@ == self@.bytes(),
    {
        match self {
            UnixComponent::RootDir => {
                let mut v: Vec<u8> = Vec::new();
                v.push(SLASH);
                proof {
                    assert(v@ =~= seq![SLASH]);
                }
                v
            },
            UnixComponent::CurDir => {
                let mut v: Vec<u8> = Vec::new();
                v.push(DOT);
                proof {
                    assert(v@ =~= seq![DOT]);
                }
                v
            },
            UnixComponent::ParentDir => {
                let mut v: Vec<u8> = Vec::new();
                v.push(DOT);
                v.push(DOT);
                proof {
                    assert(v@ =~= seq![DOT, DOT]);
                }
                v
            },
            UnixComponent::Normal(b) => slice_to_vec(b.as_slice()),
        }
    }

    /// Byte length of the component.
    pub fn len(&self) -> (r: usize)
        ensures
            r == self@.bytes().len(),
    {
        match self {
            UnixComponent::RootDir => 1,
            UnixComponent::CurDir => 1,
            UnixComponent::ParentDir => 2,
            UnixComponent::Normal(v) => v.len(),
        }
    }

    /// The component is the root marker.
    pub fn is_root(&self) -> (r: bool)
        ensures
            r == (self@ == UnixCompM::RootDir),
    {
        matches!(self, UnixComponent::RootDir)
    }

    /// The component is the current-directory marker.
    pub fn is_current(&self) -> (r: bool)
        ensures
            r == (self@ == UnixCompM::CurDir),
    {
        matches!(self, UnixComponent::CurDir)
    }

    /// The component is the parent-directory marker.
    pub fn is_parent(&self) -> (r: bool)
        ensures
            r == (self@ == UnixCompM::ParentDir),
    {
        matches!(self, UnixComponent::ParentDir)
    }

    /// The component is a named segment.
    pub fn is_normal(&self) -> (r: bool)
        ensures
            r == self@ is Normal,
    {
        matches!(self, UnixComponent::Normal(_))
    }
}

/// The models of a sequence of Unix components.
pub open spec fn unix_comp_views(cs: Seq<UnixComponent>) -> Seq<UnixCompM> {
    cs.map_values(|c: UnixComponent| c@)
}

/// Scans for the next Unix separator at or after `from`.
fn find_unix_sep(s: &[u8], from: usize) -> (r: usize)
    requires
        from <= s@.len(),
    ensures
        r as int == unix_sep_from(s@, from as int),
{
    let n: usize = s.len();
    let mut i: usize = from;
    while i < n
        invariant
            from <= i <= n,
            n == s@.len(),
            unix_sep_from(s@, from as int) == unix_sep_from(s@, i as int),
        decreases n - i,
    {
        if s[i] == SLASH {
            assert(unix_sep_from(s@, i as int) == i);
            return i;
        }
        assert(unix_sep_from(s@, i as int) == unix_sep_from(s@, i as int + 1));
        i = i + 1;
    }
    assert(unix_sep_from(s@, i as int) == s@.len());
    i
}

/// Parses the component sequence of a Unix path.
fn unix_components_of(s: &[u8]) -> (r: Vec<UnixComponent>)
    ensures
        unix_comp_views(r@) == unix_components_spec(s@),
{
    let n: usize = s.len();
    let mut r: Vec<UnixComponent> = Vec::new();
    let mut i: usize = 0;
    if n > 0 && s[0] == SLASH {
        r.push(UnixComponent::RootDir);
        i = 1;
    } else if n > 0 && s[0] == DOT && (n == 1 || s[1] == SLASH) {
        r.push(UnixComponent::CurDir);
        i = 1;
    }
    while i < n
        invariant
            i <= n,
            n == s@.len(),
            unix_comp_views(r@) + unix_body_at(s@, i as int) =~= unix_components_spec(s@),
        decreases n - i,
    {
        if s[i] == SLASH {
            assert(unix_body_at(s@, i as int) == unix_body_at(s@, i as int + 1));
            i = i + 1;
        } else {
            let k: usize = find_unix_sep(s, i);
            proof {
                lemma_unix_sep_from(s@, i as int);
            }
            let ghost seg: Seq<u8> = s@.subrange(i as int, k as int);
            let ghost prev: Seq<UnixComponent> = r@;
            if k - i == 1 && s[i] == DOT {
                proof {
                    assert(is_cur_seg(seg));
                    assert(unix_body_at(s@, i as int) == unix_body_at(s@, k as int));
                }
            } else if k - i == 2 && s[i] == DOT && s[i + 1] == DOT {
                r.push(UnixComponent::ParentDir);
                proof {
                    assert(is_parent_seg(seg));
                    assert(unix_body_at(s@, i as int) == seq![UnixCompM::ParentDir] + unix_body_at(
                        s@,
                        k as int,
                    ));
                    assert(unix_comp_views(r@) =~= unix_comp_views(prev).push(
                        UnixCompM::ParentDir,
                    ));
                    assert(unix_comp_views(r@) + unix_body_at(s@, k as int) =~= unix_comp_views(
                        prev,
                    ) + unix_body_at(s@, i as int));
                }
            } else {
                let sv: Vec<u8> = slice_to_vec(&s[i..k]);
                r.push(UnixComponent::Normal(sv));
                proof {
                    assert(!is_cur_seg(seg));
                    assert(!is_parent_seg(seg));
                    assert(unix_body_at(s@, i as int) == seq![UnixCompM::Normal(seg)]
                        + unix_body_at(s@, k as int));
                    assert(unix_comp_views(r@) =~= unix_comp_views(prev).push(
                        UnixCompM::Normal(seg),
                    ));
                    assert(unix_comp_views(r@) + unix_body_at(s@, k as int) =~= unix_comp_views(
                        prev,
                    ) + unix_body_at(s@, i as int));
                }
            }
            i = k;
        }
    }
    proof {
        assert(unix_body_at(s@, i as int) =~= Seq::<UnixCompM>::empty());
        assert(unix_comp_views(r@) + unix_body_at(s@, i as int) =~= unix_comp_views(r@));
    }
    r
}

/// A borrowed Unix-grammar path: a typed view of raw bytes.
#[derive(Clone, Copy)]
pub struct UnixPath<'a> {
    bytes: &'a [u8],
}

impl<'a> View for UnixPath<'a> {
    type V = Seq<u8>;

    closed spec fn view(&self) -> Seq<u8> {
        self.bytes@
    }
}

impl<'a> UnixPath<'a> {
    /// Wraps raw bytes as a Unix path; every byte sequence is one.
    pub fn new(s: &'a [u8]) -> (r: UnixPath<'a>)
        ensures
            r@ == s@,
    {
        UnixPath { bytes: s }
    }

    /// The raw bytes of the path.
    pub fn as_bytes(&self) -> (r: &'a [u8])
        ensures
            r@ == self@,
    {
        self.bytes
    }

    /// Copies the path into an owned buffer.
    pub fn to_path_buf(&self) -> (r: UnixPathBuf)
        ensures
            r@ == self@,
    {
        UnixPathBuf { inner: slice_to_vec(self.bytes) }
    }

    /// The component sequence of the path, in left-to-right order.
    pub fn components(&self) -> (r: Vec<UnixComponent>)
        ensures
            unix_comp_views(r@) == unix_components_spec(self@),
    {
        unix_components_of(self.bytes)
    }
}

/// An owned Unix-grammar path: a growable byte buffer.
#[derive(PartialEq, Eq, Debug)]
pub struct UnixPathBuf {
    inner: Vec<u8>,
}

impl View for UnixPathBuf {
    type V = Seq<u8>;

    closed spec fn view(&self) -> Seq<u8> {
        self.inner@
    }
}

impl Clone for UnixPathBuf {
    /// Cloning copies the bytes into an independent buffer.
    fn clone(&self) -> (r: Self)
        ensures
            r@ == self@,
    {
        UnixPathBuf { inner: slice_to_vec(self.inner.as_slice()) }
    }
}

impl UnixPathBuf {
    /// Takes ownership of raw bytes as a Unix path buffer.
    pub fn from_vec(v: Vec<u8>) -> (r: UnixPathBuf)
        ensures
            r@ == v@,
    {
        UnixPathBuf { inner: v }
    }

    /// Copies borrowed bytes into a new Unix path buffer.
    pub fn from_bytes(s: &[u8]) -> (r: UnixPathBuf)
        ensures
            r@ == s@,
    {
        UnixPathBuf { inner: slice_to_vec(s) }
    }

    /// Borrows the buffer as a Unix path.
    pub fn as_path(&self) -> (r: UnixPath<'_>)
        ensures
            r@ == self@,
    {
        UnixPath { bytes: self.inner.as_slice() }
    }

    /// The raw bytes of the buffer.
    pub fn as_bytes(&self) -> (r: &[u8])
        ensures
            r@ == self@,
    {
        self.inner.as_slice()
    }

    /// Releases the underlying bytes.
    pub fn into_vec(self) -> (r: Vec<u8>)
        ensures
            r@ == self@,
    {
        self.inner
    }

    /// The component sequence of the buffer's path.
    pub fn components(&self) -> (r: Vec<UnixComponent>)
        ensures
            unix_comp_views(r@) == unix_components_spec(self@),
    {
        unix_components_of(self.inner.as_slice())
    }
}

impl<'a> From<&'a str> for UnixPathBuf {
    /// Copies a string's bytes into a new Unix path buffer.
    fn from(s: &'a str) -> (r: Self) {
        UnixPathBuf { inner: slice_to_vec(s.as_bytes()) }
    }
}

impl<'a> vstd::std_specs::convert::FromSpecImpl<&'a str> for UnixPathBuf {
    open spec fn obeys_from_spec() -> bool {
        false
    }

    open spec fn from_spec(v: &'a str) -> Self {
        arbitrary()
    }
}

/// A borrowed UTF-8 Unix path: the text-validated sibling of [`UnixPath`].
#[derive(Clone, Copy)]
pub struct Utf8UnixPath<'a> {
    inner: &'a str,
}

impl<'a> View for Utf8UnixPath<'a> {
    type V = Seq<char>;

    closed spec fn view(&self) -> Seq<char> {
        self.inner@
    }
}

impl<'a> Utf8UnixPath<'a> {
    /// Wraps a string slice as a UTF-8 Unix path.
    pub fn new(s: &'a str) -> (r: Utf8UnixPath<'a>)
        ensures
            r@ == s@,
    {
        Utf8UnixPath { inner: s }
    }

    /// The text of the path.
    pub fn as_str(&self) -> (r: &'a str)
        ensures
            r@ == self@,
    {
        self.inner
    }

    /// Copies the path into an owned UTF-8 buffer.
    pub fn to_path_buf(&self) -> (r: Utf8UnixPathBuf)
        ensures
            r@ == self@,
    {
        Utf8UnixPathBuf { inner: self.inner.to_owned() }
    }
}

/// An owned UTF-8 Unix path: the text-validated sibling of [`UnixPathBuf`].
#[derive(PartialEq, Eq, Debug)]
pub struct Utf8UnixPathBuf {
    inner: String,
}

impl View for Utf8UnixPathBuf {
    type V = Seq<char>;

    closed spec fn view(&self) -> Seq<char> {
        self.inner@
    }
}

impl Clone for Utf8UnixPathBuf {
    /// Cloning copies the text into an independent buffer.
    fn clone(&self) -> (r: Self)
        ensures
            r@ == self@,
    {
        Utf8UnixPathBuf { inner: self.inner.clone() }
    }
}

impl Utf8UnixPathBuf {
    /// Takes ownership of a string as a UTF-8 Unix path buffer.
    pub fn from_string(s: String) -> (r: Utf8UnixPathBuf)
        ensures
            r@ == s@,
    {
        Utf8UnixPathBuf { inner: s }
    }

    /// Borrows the buffer as a UTF-8 Unix path.
    pub fn as_path(&self) -> (r: Utf8UnixPath<'_>)
        ensures
            r@ == self@,
    {
        Utf8UnixPath { inner: self.inner.as_str() }
    }

    /// The text of the buffer.
    pub fn as_str(&self) -> (r: &str)
        ensures
            r@ == self@,
    {
        self.inner.as_str()
    }
}

impl<'a> From<&'a str> for Utf8UnixPathBuf {
    /// Copies a string into a new UTF-8 Unix path buffer.
    fn from(s: &'a str) -> (r: Self) {
        Utf8UnixPathBuf { inner: s.to_owned() }
    }
}

impl<'a> vstd::std_specs::convert::FromSpecImpl<&'a str> for Utf8UnixPathBuf {
    open spec fn obeys_from_spec() -> bool {
        false
    }

    open spec fn from_spec(v: &'a str) -> Self {
        arbitrary()
    }
}

} // verus!
