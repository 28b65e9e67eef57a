//! The named permissions that callers attach to request handlers, and the
//! list of all grantable permission names.

use vstd::prelude::*;

verus! {

/// A named permission a handler can demand.
pub trait Permission {
    /// The permission's name at spec level.
    spec fn spec_name() -> Seq<char>;

    /// The permission's name.
    fn name() -> (r: &'static str)
        ensures
            r@ == Self::spec_name(),
    ;
}

/// No permission required.
pub struct NoPerm;

/// Viewing nodes.
pub struct NodeViewPerm;

/// Editing nodes.
pub struct NodeEditPerm;

/// Viewing settings.
pub struct SettingsView;

/// Editing settings.
pub struct SettingsEdit;

/// Viewing groups.
pub struct GroupView;

/// Editing groups.
pub struct GroupEdit;

/// Viewing users.
pub struct UserView;

/// Editing users.
pub struct UserEdit;

impl Permission for NoPerm {
    open spec fn spec_name() -> Seq<char> {
        ""@
    }

    fn name() -> (r: &'static str) {
        ""
    }
}

impl Permission for NodeViewPerm {
    open spec fn spec_name() -> Seq<char> {
        "node:view"@
    }

    fn name() -> (r: &'static str) {
        "node:view"
    }
}

impl Permission for NodeEditPerm {
    open spec fn spec_name() -> Seq<char> {
        "node:edit"@
    }

    fn name() -> (r: &'static str) {
        "node:edit"
    }
}

impl Permission for SettingsView {
    open spec fn spec_name() -> Seq<char> {
        "settings:view"@
    }

    fn name() -> (r: &'static str) {
        "settings:view"
    }
}

impl Permission for SettingsEdit {
    open spec fn spec_name() -> Seq<char> {
        "settings:edit"@
    }

    fn name() -> (r: &'static str) {
        "settings:edit"
    }
}

impl Permission for GroupView {
    open spec fn spec_name() -> Seq<char> {
        "group:view"@
    }

    fn name() -> (r: &'static str) {
        "group:view"
    }
}

impl Permission for GroupEdit {
    open spec fn spec_name() -> Seq<char> {
        "group:edit"@
    }

    fn name() -> (r: &'static str) {
        "group:edit"
    }
}

impl Permission for UserView {
    open spec fn spec_name() -> Seq<char> {
        "user:view"@
    }

    fn name() -> (r: &'static str) {
        "user:view"
    }
}

impl Permission for UserEdit {
    open spec fn spec_name() -> Seq<char> {
        "user:edit"@
    }

    fn name() -> (r: &'static str) {
        "user:edit"
    }
}

/// Every grantable permission name, in a fixed order. `NoPerm` is not
/// grantable and is not listed.
pub fn permissions() -> (r: Vec<&'static str>)
    ensures
        r@.len() == 8,
        r@[0]@ == NodeViewPerm::spec_name(),
        r@[1]@ == NodeEditPerm::spec_name(),
        r@[2]@ == SettingsView::spec_name(),
        r@[3]@ == SettingsEdit::spec_name(),
        r@[4]@ == GroupView::spec_name(),
        r@[5]@ == GroupEdit::spec_name(),
        r@[6]@ == UserView::spec_name(),
        r@[7]@ == UserEdit::spec_name(),
{
    let mut v: Vec<&'static str> = Vec::new();
    v.push(NodeViewPerm::name());
    v.push(NodeEditPerm::name());
    v.push(SettingsView::name());
    v.push(SettingsEdit::name());
    v.push(GroupView::name());
    v.push(GroupEdit::name());
    v.push(UserView::name());
    v.push(UserEdit::name());
    v
}

} // verus!
