//! The Windows path grammar: `\`- or `/`-separated components after an
//! optional Windows-specific prefix (drive letter, UNC share, verbatim or
//! device namespace).

use vstd::prelude::*;
use vstd::slice::slice_to_vec;

use crate::{is_cur_seg, is_parent_seg, BACKSLASH, COLON, DOT, QUESTION, SLASH, UPPER_C, UPPER_N,
    UPPER_U};

verus! {

/// True of the two bytes the Windows grammar accepts as separators.
pub open spec fn is_win_sep(b: u8) -> bool {
    b == BACKSLASH || b == SLASH
}

/// True of ASCII letters, the bytes that can name a drive.
pub open spec fn is_ascii_letter(b: u8) -> bool {
    (65 <= b && b <= 90) || (97 <= b && b <= 122)
}

/// Index of the first Windows separator at or after `i`, or `s.len()` if none remains.
pub open spec fn win_sep_from(s: Seq<u8>, i: int) -> int
    decreases s.len() - i,
{
    if i < 0 || i >= s.len() {
        s.len() as int
    } else if is_win_sep(s[i]) {
        i
    } else {
        win_sep_from(s, i + 1)
    }
}

/// Index of the first backslash at or after `i`, or `s.len()` if none remains;
/// verbatim prefixes are delimited by backslashes alone.
pub open spec fn bslash_from(s: Seq<u8>, i: int) -> int
    decreases s.len() - i,
{
    if i < 0 || i >= s.len() {
        s.len() as int
    } else if s[i] == BACKSLASH {
        i
    } else {
        bslash_from(s, i + 1)
    }
}

proof fn lemma_win_sep_from(s: Seq<u8>, i: int)
    requires
        0 <= i <= s.len(),
    ensures
        i <= win_sep_from(s, i) <= s.len(),
        forall|j: int| i <= j < win_sep_from(s, i) ==> !is_win_sep(#[trigger] s[j]),
        win_sep_from(s, i) < s.len() ==> is_win_sep(s[win_sep_from(s, i)]),
    decreases s.len() - i,
{
    if i < s.len() && !is_win_sep(s[i]) {
        lemma_win_sep_from(s, i + 1);
    }
}

proof fn lemma_bslash_from(s: Seq<u8>, i: int)
    requires
        0 <= i <= s.len(),
    ensures
        i <= bslash_from(s, i) <= s.len(),
        forall|j: int| i <= j < bslash_from(s, i) ==> #[trigger] s[j] != BACKSLASH,
        bslash_from(s, i) < s.len() ==> s[bslash_from(s, i)] == BACKSLASH,
    decreases s.len() - i,
{
    if i < s.len() && s[i] != BACKSLASH {
        lemma_bslash_from(s, i + 1);
    }
}

/// The path opens a verbatim prefix: a literal `\\?\`.
pub open spec fn starts_verbatim(s: Seq<u8>) -> bool {
    s.len() >= 4 && s[0] == BACKSLASH && s[1] == BACKSLASH && s[2] == QUESTION && s[3] == BACKSLASH
}

/// The path opens a verbatim UNC prefix: `\\?\UNC\server\share`.
pub open spec fn starts_verbatim_unc(s: Seq<u8>) -> bool {
    starts_verbatim(s) && s.len() >= 8 && s[4] == UPPER_U && s[5] == UPPER_N && s[6] == UPPER_C
        && s[7] == BACKSLASH
}

/// The path opens a verbatim drive prefix: `\\?\C:` followed by a backslash or the end.
pub open spec fn starts_verbatim_disk(s: Seq<u8>) -> bool {
    starts_verbatim(s) && !starts_verbatim_unc(s) && s.len() >= 6 && is_ascii_letter(s[4])
        && s[5] == COLON && (s.len() == 6 || s[6] == BACKSLASH)
}

/// The path opens a device-namespace prefix: `\\.` followed by a separator.
pub open spec fn starts_device_ns(s: Seq<u8>) -> bool {
    s.len() >= 4 && s[0] == BACKSLASH && s[1] == BACKSLASH && s[2] == DOT && is_win_sep(s[3])
}

/// The path opens a plain UNC prefix: `\\server\share`, when no more specific
/// `\\`-form above applies.
pub open spec fn starts_unc(s: Seq<u8>) -> bool {
    s.len() >= 2 && s[0] == BACKSLASH && s[1] == BACKSLASH && !starts_verbatim(s)
        && !starts_device_ns(s)
}

/// The path opens a drive-letter prefix: a letter followed by `:`.
pub open spec fn starts_disk(s: Seq<u8>) -> bool {
    s.len() >= 2 && is_ascii_letter(s[0]) && s[1] == COLON
}

/// Length in bytes of the Windows-specific prefix of `s`, or 0 when it has
/// none. A verbatim UNC prefix runs through its server and share names, a
/// verbatim prefix through its first component, a device prefix through the
/// device name, a plain UNC prefix through server and share, and a drive
/// prefix is the two bytes of `C:`.
pub open spec fn win_prefix_len(s: Seq<u8>) -> int {
    if starts_verbatim_unc(s) {
        let e1: int = bslash_from(s, 8);
        if e1 == s.len() {
            e1
        } else {
            bslash_from(s, e1 + 1)
        }
    } else if starts_verbatim_disk(s) {
        6
    } else if starts_verbatim(s) {
        bslash_from(s, 4)
    } else if starts_device_ns(s) {
        win_sep_from(s, 4)
    } else if starts_unc(s) {
        let e1: int = win_sep_from(s, 2);
        if e1 == s.len() {
            e1
        } else {
            win_sep_from(s, e1 + 1)
        }
    } else if starts_disk(s) {
        2
    } else {
        0
    }
}

/// Whether `s` carries any recognized Windows-specific prefix.
pub open spec fn has_win_prefix(s: Seq<u8>) -> bool {
    win_prefix_len(s) > 0
}

proof fn lemma_win_prefix_len_bounds(s: Seq<u8>)
    ensures
        0 <= win_prefix_len(s) <= s.len(),
{
    if starts_verbatim_unc(s) {
        lemma_bslash_from(s, 8);
        let e1: int = bslash_from(s, 8);
        if e1 < s.len() {
            lemma_bslash_from(s, e1 + 1);
        }
    } else if starts_verbatim(s) && !starts_verbatim_disk(s) {
        lemma_bslash_from(s, 4);
    } else if starts_device_ns(s) {
        lemma_win_sep_from(s, 4);
    } else if starts_unc(s) {
        lemma_win_sep_from(s, 2);
        let e1: int = win_sep_from(s, 2);
        if e1 < s.len() {
            lemma_win_sep_from(s, e1 + 1);
        }
    }
}

/// True when `b` is a Windows separator byte.
fn win_sep_byte(b: u8) -> (r: bool)
    ensures
        r == is_win_sep(b),
{
    b == BACKSLASH || b == SLASH
}

/// True when `b` is an ASCII letter.
fn letter_byte(b: u8) -> (r: bool)
    ensures
        r == is_ascii_letter(b),
{
    (65 <= b && b <= 90) || (97 <= b && b <= 122)
}

/// Scans for the next Windows separator at or after `from`.
fn find_win_sep(s: &[u8], from: usize) -> (r: usize)
    requires
        from <= s@.len(),
    ensures
        r as int == win_sep_from(s@, from as int),
{
    let n: usize = s.len();
    let mut i: usize = from;
    while i < n
        invariant
            from <= i <= n,
            n == s@.len(),
            win_sep_from(s@, from as int) == win_sep_from(s@, i as int),
        decreases n - i,
    {
        if s[i] == BACKSLASH || s[i] == SLASH {
            assert(win_sep_from(s@, i as int) == i);
            return i;
        }
        assert(win_sep_from(s@, i as int) == win_sep_from(s@, i as int + 1));
        i = i + 1;
    }
    assert(win_sep_from(s@, i as int) == s@.len());
    i
}

/// Scans for the next backslash at or after `from`.
fn find_bslash(s: &[u8], from: usize) -> (r: usize)
    requires
        from <= s@.len(),
    ensures
        r as int == bslash_from(s@, from as int),
{
    let n: usize = s.len();
    let mut i: usize = from;
    while i < n
        invariant
            from <= i <= n,
            n == s@.len(),
            bslash_from(s@, from as int) == bslash_from(s@, i as int),
        decreases n - i,
    {
        if s[i] == BACKSLASH {
            assert(bslash_from(s@, i as int) == i);
            return i;
        }
        assert(bslash_from(s@, i as int) == bslash_from(s@, i as int + 1));
        i = i + 1;
    }
    assert(bslash_from(s@, i as int) == s@.len());
    i
}

/// Length of the Windows-specific prefix of `s` in bytes, 0 when there is none.
pub fn win_prefix_length(s: &[u8]) -> (r: usize)
    ensures
        r as int == win_prefix_len(s@),
        r as int <= s@.len(),
{
    proof {
        lemma_win_prefix_len_bounds(s@);
    }
    let n: usize = s.len();
    if n >= 4 && s[0] == BACKSLASH && s[1] == BACKSLASH && s[2] == QUESTION && s[3] == BACKSLASH {
        if n >= 8 && s[4] == UPPER_U && s[5] == UPPER_N && s[6] == UPPER_C && s[7] == BACKSLASH {
            proof {
                lemma_bslash_from(s@, 8);
            }
            let e1: usize = find_bslash(s, 8);
            if e1 == n {
                e1
            } else {
                find_bslash(s, e1 + 1)
            }
        } else if n >= 6 && letter_byte(s[4]) && s[5] == COLON && (n == 6 || s[6] == BACKSLASH) {
            6
        } else {
            find_bslash(s, 4)
        }
    } else if n >= 4 && s[0] == BACKSLASH && s[1] == BACKSLASH && s[2] == DOT && win_sep_byte(
        s[3],
    ) {
        find_win_sep(s, 4)
    } else if n >= 2 && s[0] == BACKSLASH && s[1] == BACKSLASH {
        proof {
            lemma_win_sep_from(s@, 2);
        }
        let e1: usize = find_win_sep(s, 2);
        if e1 == n {
            e1
        } else {
            find_win_sep(s, e1 + 1)
        }
    } else if n >= 2 && letter_byte(s[0]) && s[1] == COLON {
        2
    } else {
        0
    }
}

/// Model of one Windows path component.
pub enum WinCompM {
    Prefix(Seq<u8>),
    RootDir,
    CurDir,
    ParentDir,
    Normal(Seq<u8>),
}

impl WinCompM {
    /// The raw bytes a component stands for.
    pub open spec fn bytes(self) -> Seq<u8> {
        match self {
            WinCompM::Prefix(b) => b,
            WinCompM::RootDir => seq![BACKSLASH],
            WinCompM::CurDir => seq![DOT],
            WinCompM::ParentDir => seq![DOT, DOT],
            WinCompM::Normal(b) => b,
        }
    }
}

/// Components of the path bytes from index `i` on, after prefix and root
/// handling: segments split on separators, with empty and `.` segments
/// dropped and `..` a parent-directory marker.
pub open spec fn win_body_at(s: Seq<u8>, i: int) -> Seq<WinCompM>
    decreases s.len() - i,
    via win_body_at_dec
{
    if i < 0 || i >= s.len() {
        Seq::empty()
    } else if is_win_sep(s[i]) {
        win_body_at(s, i + 1)
    } else {
        let k: int = win_sep_from(s, i);
        let seg: Seq<u8> = s.subrange(i, k);
        if is_cur_seg(seg) {
            win_body_at(s, k)
        } else if is_parent_seg(seg) {
            seq![WinCompM::ParentDir] + win_body_at(s, k)
        } else {
            seq![WinCompM::Normal(seg)] + win_body_at(s, k)
        }
    }
}

#[via_fn]
proof fn win_body_at_dec(s: Seq<u8>, i: int) {
    if 0 <= i < s.len() && !is_win_sep(s[i]) {
        lemma_win_sep_from(s, i);
    }
}

/// A current-directory marker stands at position `p`: a `.` alone or before a
/// separator.
pub open spec fn win_starts_cur_at(s: Seq<u8>, p: int) -> bool {
    p < s.len() && s[p] == DOT && (p + 1 == s.len() || is_win_sep(s[p + 1]))
}

/// The full component sequence of a Windows path: the prefix if any, a root
/// marker when a separator follows the prefix, a current-directory marker
/// when a lone `.` follows a rootless opening, then the named segments.
pub open spec fn win_components_spec(s: Seq<u8>) -> Seq<WinCompM> {
    let p: int = win_prefix_len(s);
    let pre: Seq<WinCompM> = if p > 0 {
        seq![WinCompM::Prefix(s.subrange(0, p))]
    } else {
        Seq::empty()
    };
    if p < s.len() && is_win_sep(s[p]) {
        pre + seq![WinCompM::RootDir] + win_body_at(s, p + 1)
    } else if win_starts_cur_at(s, p) {
        pre + seq![WinCompM::CurDir] + win_body_at(s, p + 1)
    } else {
        pre + win_body_at(s, p)
    }
}

/// One parsed Windows path component, owning its bytes where it has any.
#[derive(PartialEq, Eq, Debug)]
pub enum WindowsComponent {
    Prefix(Vec<u8>),
    RootDir,
    CurDir,
    ParentDir,
    Normal(Vec<u8>),
}

impl View for WindowsComponent {
    type V = WinCompM;

    open spec fn view(&self) -> WinCompM {
        match self {
            WindowsComponent::Prefix(v) => WinCompM::Prefix(v@),
            WindowsComponent::RootDir => WinCompM::RootDir,
            WindowsComponent::CurDir => WinCompM::CurDir,
            WindowsComponent::ParentDir => WinCompM::ParentDir,
            WindowsComponent::Normal(v) => WinCompM::Normal(v@),
        }
    }
}

impl Clone for WindowsComponent {
    /// Cloning copies the component's bytes into an independent buffer.
    fn clone(&self) -> (r: Self)
        ensures
            r@ == self@,
    {
        match self {
            WindowsComponent::Prefix(v) => WindowsComponent::Prefix(slice_to_vec(v.as_slice())),
            WindowsComponent::RootDir => WindowsComponent::RootDir,
            WindowsComponent::CurDir => WindowsComponent::CurDir,
            WindowsComponent::ParentDir => WindowsComponent::ParentDir,
            WindowsComponent::Normal(v) => WindowsComponent::Normal(slice_to_vec(v.as_slice())),
        }
    }
}

impl WindowsComponent {
    /// The raw bytes of the component, as a fresh buffer.
    pub fn as_bytes(&self) -> (r: Vec<u8>)
        ensures
            r@ == self@.bytes(),
    {
        match self {
            WindowsComponent::Prefix(b) => slice_to_vec(b.as_slice()),
            WindowsComponent::RootDir => {
                let mut v: Vec<u8> = Vec::new();
                v.push(BACKSLASH);
                proof {
                    assert(v@ =~= seq![BACKSLASH]);
                }
                v
            },
            WindowsComponent::CurDir => {
                let mut v: Vec<u8> = Vec::new();
                v.push(DOT);
                proof {
                    assert(v@ =~= seq![DOT]);
                }
                v
            },
            WindowsComponent::ParentDir => {
                let mut v: Vec<u8> = Vec::new();
                v.push(DOT);
                v.push(DOT);
                proof {
                    assert(v@ =~= seq![DOT, DOT]);
                }
                v
            },
            WindowsComponent::Normal(b) => slice_to_vec(b.as_slice()),
        }
    }

    /// Byte length of the component.
    pub fn len(&self) -> (r: usize)
        ensures
            r == self@.bytes().len(),
    {
        match self {
            WindowsComponent::Prefix(v) => v.len(),
            WindowsComponent::RootDir => 1,
            WindowsComponent::CurDir => 1,
            WindowsComponent::ParentDir => 2,
            WindowsComponent::Normal(v) => v.len(),
        }
    }

    /// The component is a Windows-specific prefix token.
    pub fn is_prefix(&self) -> (r: bool)
        ensures
            r == self@ is Prefix,
    {
        matches!(self, WindowsComponent::Prefix(_))
    }

    /// The component is the root marker.
    pub fn is_root(&self) -> (r: bool)
        ensures
            r == (self@ == WinCompM::RootDir),
    {
        matches!(self, WindowsComponent::RootDir)
    }

    /// The component is the current-directory marker.
    pub fn is_current(&self) -> (r: bool)
        ensures
            r == (self@ == WinCompM::CurDir),
    {
        matches!(self, WindowsComponent::CurDir)
    }

    /// The component is the parent-directory marker.
    pub fn is_parent(&self) -> (r: bool)
        ensures
            r == (self@ == WinCompM::ParentDir),
    {
        matches!(self, WindowsComponent::ParentDir)
    }

    /// The component is a named segment.
    pub fn is_normal(&self) -> (r: bool)
        ensures
            r == self@ is Normal,
    {
        matches!(self, WindowsComponent::Normal(_))
    }
}

/// The models of a sequence of Windows components.
pub open spec fn win_comp_views(cs: Seq<WindowsComponent>) -> Seq<WinCompM> {
    cs.map_values(|c: WindowsComponent| c@)
}

/// Parses the component sequence of a Windows path.
fn win_components_of(s: &[u8]) -> (r: Vec<WindowsComponent>)
    ensures
        win_comp_views(r@) == win_components_spec(s@),
{
    let n: usize = s.len();
    let mut r: Vec<WindowsComponent> = Vec::new();
    let p: usize = win_prefix_length(s);
    if p > 0 {
        let pv: Vec<u8> = slice_to_vec(&s[0..p]);
        r.push(WindowsComponent::Prefix(pv));
    }
    let mut i: usize = p;
    if p < n && (s[p] == BACKSLASH || s[p] == SLASH) {
        r.push(WindowsComponent::RootDir);
        i = p + 1;
    } else if p < n && s[p] == DOT && (p + 1 == n || (s[p + 1] == BACKSLASH || s[p + 1] == SLASH)) {
        r.push(WindowsComponent::CurDir);
        i = p + 1;
    }
    proof {
        assert(win_comp_views(r@) + win_body_at(s@, i as int) =~= win_components_spec(s@));
    }
    while i < n
        invariant
            i <= n,
            n == s@.len(),
            win_comp_views(r@) + win_body_at(s@, i as int) =~= win_components_spec(s@),
        decreases n - i,
    {
        if s[i] == BACKSLASH || s[i] == SLASH {
            assert(win_body_at(s@, i as int) == win_body_at(s@, i as int + 1));
            i = i + 1;
        } else {
            let k: usize = find_win_sep(s, i);
            proof {
                lemma_win_sep_from(s@, i as int);
            }
            let ghost seg: Seq<u8> = s@.subrange(i as int, k as int);
            let ghost prev: Seq<WindowsComponent> = r@;
            if k - i == 1 && s[i] == DOT {
                proof {
                    assert(is_cur_seg(seg));
                    assert(win_body_at(s@, i as int) == win_body_at(s@, k as int));
                }
            } else if k - i == 2 && s[i] == DOT && s[i + 1] == DOT {
                r.push(WindowsComponent::ParentDir);
                proof {
                    assert(is_parent_seg(seg));
                    assert(win_body_at(s@, i as int) == seq![WinCompM::ParentDir] + win_body_at(
                        s@,
                        k as int,
                    ));
                    assert(win_comp_views(r@) =~= win_comp_views(prev).push(WinCompM::ParentDir));
                    assert(win_comp_views(r@) + win_body_at(s@, k as int) =~= win_comp_views(prev)
                        + win_body_at(s@, i as int));
                }
            } else {
                let sv: Vec<u8> = slice_to_vec(&s[i..k]);
                r.push(WindowsComponent::Normal(sv));
                proof {
                    assert(!is_cur_seg(seg));
                    assert(!is_parent_seg(seg));
                    assert(win_body_at(s@, i as int) == seq![WinCompM::Normal(seg)] + win_body_at(
                        s@,
                        k as int,
                    ));
                    assert(win_comp_views(r@) =~= win_comp_views(prev).push(WinCompM::Normal(seg)));
                    assert(win_comp_views(r@) + win_body_at(s@, k as int) =~= win_comp_views(prev)
                        + win_body_at(s@, i as int));
                }
            }
            i = k;
        }
    }
    proof {
        assert(win_body_at(s@, i as int) =~= Seq::<WinCompM>::empty());
        assert(win_comp_views(r@) + win_body_at(s@, i as int) =~= win_comp_views(r@));
    }
    r
}

/// A borrowed Windows-grammar path: a typed view of raw bytes.
#[derive(Clone, Copy)]
pub struct WindowsPath<'a> {
    bytes: &'a [u8],
}

impl<'a> View for WindowsPath<'a> {
    type V = Seq<u8>;

    closed spec fn view(&self) -> Seq<u8> {
        self.bytes@
    }
}

impl<'a> WindowsPath<'a> {
    /// Wraps raw bytes as a Windows path; every byte sequence is one.
    pub fn new(s: &'a [u8]) -> (r: WindowsPath<'a>)
        ensures
            r@ == s@,
    {
        WindowsPath { bytes: s }
    }

    /// The raw bytes of the path.
    pub fn as_bytes(&self) -> (r: &'a [u8])
        ensures
            r@ == self@,
    {
        self.bytes
    }

    /// Whether the path carries a recognized Windows-specific prefix.
    pub fn has_prefix(&self) -> (r: bool)
        ensures
            r == has_win_prefix(self@),
    {
        win_prefix_length(self.bytes) > 0
    }

    /// Copies the path into an owned buffer.
    pub fn to_path_buf(&self) -> (r: WindowsPathBuf)
        ensures
            r@ == self@,
    {
        WindowsPathBuf { inner: slice_to_vec(self.bytes) }
    }

    /// The component sequence of the path, in left-to-right order.
    pub fn components(&self) -> (r: Vec<WindowsComponent>)
        ensures
            win_comp_views(r@) == win_components_spec(self@),
    {
        win_components_of(self.bytes)
    }
}

/// An owned Windows-grammar path: a growable byte buffer.
#[derive(PartialEq, Eq, Debug)]
pub struct WindowsPathBuf {
    inner: Vec<u8>,
}

impl View for WindowsPathBuf {
    type V = Seq<u8>;

    closed spec fn view(&self) -> Seq<u8> {
        self.inner@
    }
}

impl Clone for WindowsPathBuf {
    /// Cloning copies the bytes into an independent buffer.
    fn clone(&self) -> (r: Self)
        ensures
            r@ == self@,
    {
        WindowsPathBuf { inner: slice_to_vec(self.inner.as_slice()) }
    }
}

impl WindowsPathBuf {
    /// Takes ownership of raw bytes as a Windows path buffer.
    pub fn from_vec(v: Vec<u8>) -> (r: WindowsPathBuf)
        ensures
            r@ == v@,
    {
        WindowsPathBuf { inner: v }
    }

    /// Copies borrowed bytes into a new Windows path buffer.
    pub fn from_bytes(s: &[u8]) -> (r: WindowsPathBuf)
        ensures
            r@ == s@,
    {
        WindowsPathBuf { inner: slice_to_vec(s) }
    }

    /// Borrows the buffer as a Windows path.
    pub fn as_path(&self) -> (r: WindowsPath<'_>)
        ensures
            r@ == self@,
    {
        WindowsPath { bytes: self.inner.as_slice() }
    }

    /// The raw bytes of the buffer.
    pub fn as_bytes(&self) -> (r: &[u8])
        ensures
            r@ == self@,
    {
        self.inner.as_slice()
    }

    /// Releases the underlying bytes.
    pub fn into_vec(self) -> (r: Vec<u8>)
        ensures
            r@ == self@,
    {
        self.inner
    }

    /// The component sequence of the buffer's path.
    pub fn components(&self) -> (r: Vec<WindowsComponent>)
        ensures
            win_comp_views(r@) == win_components_spec(self@),
    {
        win_components_of(self.inner.as_slice())
    }
}

} // verus!
