//! Typed path components: one segment of a typed path, tagged with the
//! grammar of the path that yielded it.

use vstd::prelude::*;

use crate::typed::{classify, PathModel, PathType, TypedPathBuf};
use crate::unix::{unix_components_spec, UnixCompM, UnixComponent};
use crate::windows::{win_components_spec, WinCompM, WindowsComponent};

verus! {

/// Model of one typed component: which engine produced it and its content.
pub enum TypedCompM {
    Unix(UnixCompM),
    Windows(WinCompM),
}

impl TypedCompM {
    /// The raw bytes the component stands for.
    pub open spec fn bytes(self) -> Seq<u8> {
        match self {
            TypedCompM::Unix(c) => c.bytes(),
            TypedCompM::Windows(c) => c.bytes(),
        }
    }

    /// The component is a Windows-specific prefix token.
    pub open spec fn is_prefix(self) -> bool {
        match self {
            TypedCompM::Windows(WinCompM::Prefix(_)) => true,
            _ => false,
        }
    }

    /// The component is a root marker.
    pub open spec fn is_root(self) -> bool {
        match self {
            TypedCompM::Unix(UnixCompM::RootDir) => true,
            TypedCompM::Windows(WinCompM::RootDir) => true,
            _ => false,
        }
    }

    /// The component is a current-directory marker.
    pub open spec fn is_current(self) -> bool {
        match self {
            TypedCompM::Unix(UnixCompM::CurDir) => true,
            TypedCompM::Windows(WinCompM::CurDir) => true,
            _ => false,
        }
    }

    /// The component is a parent-directory marker.
    pub open spec fn is_parent(self) -> bool {
        match self {
            TypedCompM::Unix(UnixCompM::ParentDir) => true,
            TypedCompM::Windows(WinCompM::ParentDir) => true,
            _ => false,
        }
    }

    /// The component is a named segment.
    pub open spec fn is_normal(self) -> bool {
        match self {
            TypedCompM::Unix(UnixCompM::Normal(_)) => true,
            TypedCompM::Windows(WinCompM::Normal(_)) => true,
            _ => false,
        }
    }
}

/// A path component tagged with the grammar of the path that yielded it.
/// Always produced by a typed path's component sequence, never built from
/// raw bytes directly.
#[derive(PartialEq, Eq, Debug)]
pub enum TypedComponent {
    Unix(UnixComponent),
    Windows(WindowsComponent),
}

impl View for TypedComponent {
    type V = TypedCompM;

    open spec fn view(&self) -> TypedCompM {
        match self {
            TypedComponent::Unix(c) => TypedCompM::Unix(c@),
            TypedComponent::Windows(c) => TypedCompM::Windows(c@),
        }
    }
}

impl Clone for TypedComponent {
    /// Cloning copies the component's bytes; the tag is kept.
    fn clone(&self) -> (r: Self)
        ensures
            r@ == self@,
    {
        match self {
            TypedComponent::Unix(c) => TypedComponent::Unix(c.clone()),
            TypedComponent::Windows(c) => TypedComponent::Windows(c.clone()),
        }
    }
}

/// The models of a sequence of typed components.
pub open spec fn typed_comp_views(cs: Seq<TypedComponent>) -> Seq<TypedCompM> {
    cs.map_values(|c: TypedComponent| c@)
}

/// The component models a typed path yields: the underlying engine's
/// components, each wrapped with the path's tag.
pub open spec fn typed_components_spec(m: PathModel) -> Seq<TypedCompM> {
    if m.tag == PathType::Unix {
        unix_components_spec(m.bytes).map_values(|c: UnixCompM| TypedCompM::Unix(c))
    } else {
        win_components_spec(m.bytes).map_values(|c: WinCompM| TypedCompM::Windows(c))
    }
}

impl TypedComponent {
    /// The raw bytes of the component, as a fresh buffer.
    pub fn as_bytes(&self) -> (r: Vec<u8>)
        ensures
            r@ == self@.bytes(),
    {
        match self {
            TypedComponent::Unix(c) => c.as_bytes(),
            TypedComponent::Windows(c) => c.as_bytes(),
        }
    }

    /// Rebuilds a single-component path by reclassifying the component's own
    /// bytes; the parent path's tag is not consulted. A component cut from a
    /// Windows-tagged path can therefore come back Unix-tagged when its
    /// bytes alone carry no Windows-specific marker.
    pub fn to_path(&self) -> (r: TypedPathBuf)
        ensures
            r@.bytes == self@.bytes(),
            r@.tag == classify(self@.bytes()),
    {
        TypedPathBuf::from_vec(self.as_bytes())
    }

    /// The component is the root marker.
    pub fn is_root(&self) -> (r: bool)
        ensures
            r == self@.is_root(),
    {
        match self {
            TypedComponent::Unix(c) => c.is_root(),
            TypedComponent::Windows(c) => c.is_root(),
        }
    }

    /// The component is the current-directory marker.
    pub fn is_current(&self) -> (r: bool)
        ensures
            r == self@.is_current(),
    {
        match self {
            TypedComponent::Unix(c) => c.is_current(),
            TypedComponent::Windows(c) => c.is_current(),
        }
    }

    /// The component is the parent-directory marker.
    pub fn is_parent(&self) -> (r: bool)
        ensures
            r == self@.is_parent(),
    {
        match self {
            TypedComponent::Unix(c) => c.is_parent(),
            TypedComponent::Windows(c) => c.is_parent(),
        }
    }

    /// The component is a named segment.
    pub fn is_normal(&self) -> (r: bool)
        ensures
            r == self@.is_normal(),
    {
        match self {
            TypedComponent::Unix(c) => c.is_normal(),
            TypedComponent::Windows(c) => c.is_normal(),
        }
    }

    /// The component is a Windows-specific prefix token.
    pub fn is_prefix(&self) -> (r: bool)
        ensures
            r == self@.is_prefix(),
    {
        match self {
            TypedComponent::Unix(_) => false,
            TypedComponent::Windows(c) => c.is_prefix(),
        }
    }

    /// Byte length of the component; always the length of its raw bytes.
    pub fn len(&self) -> (r: usize)
        ensures
            r == self@.bytes().len(),
    {
        match self {
            TypedComponent::Unix(c) => c.len(),
            TypedComponent::Windows(c) => c.len(),
        }
    }

    /// Whether the component has no bytes.
    pub fn is_empty(&self) -> (r: bool)
        ensures
            r == (self@.bytes().len() == 0),
    {
        self.len() == 0
    }
}

/// Component roles are mutually exclusive: every typed component is exactly
/// one of prefix, root, current-directory, parent-directory, or named
/// segment. Only components of Windows-tagged paths can be prefixes; the
/// other four roles exist under both grammars.
pub proof fn lemma_component_roles_exclusive(c: TypedComponent)
    ensures
        c@.is_prefix() || c@.is_root() || c@.is_current() || c@.is_parent() || c@.is_normal(),
        c@.is_prefix() ==> !c@.is_root() && !c@.is_current() && !c@.is_parent() && !c@.is_normal(),
        c@.is_root() ==> !c@.is_current() && !c@.is_parent() && !c@.is_normal(),
        c@.is_current() ==> !c@.is_parent() && !c@.is_normal(),
        c@.is_parent() ==> !c@.is_normal(),
{
}

} // verus!
