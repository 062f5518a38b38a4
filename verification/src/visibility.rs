//! The visibility of what is generated inside the module of a partial type.
//!
//! The module stands beside the configuration type, so a visibility that is
//! relative to the type's own module has to reach one level further up.

use vstd::prelude::*;

verus! {

/// The visibility of a configuration type, as far as the rule reads it.
#[derive(Clone, Copy, Debug, PartialEq, Eq, Structural)]
pub enum Visibility {
    /// `pub`
    Public,
    /// `crate`
    Crate,
    /// No visibility written: private to the parent module.
    Inherited,
    /// `pub(in path)`; `leading_colon` says whether the path is absolute.
    Restricted { leading_colon: bool },
}

/// The visibility of the items inside the generated module.
#[derive(Clone, Copy, Debug, PartialEq, Eq, Structural)]
pub enum InnerVisibility {
    /// The visibility of the type itself, unchanged.
    AsOuter,
    /// `pub(super)`
    Super,
    /// `pub(in super::path)`, with the path of the type's own visibility.
    InSuper,
}

/// The rule: `pub`, `crate` and an absolute path hold as they are; private
/// becomes `pub(super)`; a relative path is prefixed by `super`.
pub open spec fn inner_visibility_of(outer: Visibility) -> InnerVisibility {
    match outer {
        Visibility::Public => InnerVisibility::AsOuter,
        Visibility::Crate => InnerVisibility::AsOuter,
        Visibility::Inherited => InnerVisibility::Super,
        Visibility::Restricted { leading_colon } => if leading_colon {
            InnerVisibility::AsOuter
        } else {
            InnerVisibility::InSuper
        },
    }
}

/// The visibility to give the items inside the module of a partial type
/// whose configuration type has the visibility `outer`.
pub fn inner_visibility(outer: &Visibility) -> (r: InnerVisibility)
    ensures
        r == inner_visibility_of(*outer),
{
    match outer {
        Visibility::Public | Visibility::Crate => InnerVisibility::AsOuter,
        Visibility::Inherited => InnerVisibility::Super,
        Visibility::Restricted { leading_colon } => {
            if *leading_colon {
                InnerVisibility::AsOuter
            } else {
                InnerVisibility::InSuper
            }
        },
    }
}

} // verus!
