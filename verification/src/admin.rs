//! Whether the installer runs with the rights it needs.

use vstd::prelude::*;
use crate::platform::Os;

verus! {

/// The effective user id of this process.
/// Calls `nix::unistd::Uid::effective()` (`geteuid`) and takes the raw id;
/// it depends on how the process was started, so nothing is promised of it.
#[verifier::external_body]
fn effective_uid() -> (uid: u32) {
    nix::unistd::Uid::effective().as_raw()
}

/// Whether reading this process's effective user id may give `uid`: the
/// answer of a non-Windows rights check is the root test of such an id.
pub closed spec fn effective_uid_may_be(uid: u32) -> bool {
    call_ensures(effective_uid, (), uid)
}

/// Calls `nix::unistd::Uid::is_root` on the user id `uid`; nix defines it as
/// the id being equal to root's, 0.
#[verifier::external_body]
fn uid_is_root(uid: u32) -> (res: bool)
    ensures
        res == (uid == 0),
{
    nix::unistd::Uid::from_raw(uid).is_root()
}

/// Whether a process with effective user id `uid` has the rights to install:
/// on Windows the installer's manifest already demands administrator rights,
/// elsewhere it must run as root.
pub fn is_admin_with_uid(os: Os, uid: u32) -> (res: bool)
    ensures
        res == (os == Os::Windows || uid == 0),
{
    if os.is_windows() {
        true
    } else {
        uid_is_root(uid)
    }
}

/// Whether this process has the rights to install: always on Windows (the
/// manifest enforces it), otherwise when running as root (directly or
/// through `sudo`).
pub fn is_admin(os: Os) -> (res: bool)
    ensures
        os == Os::Windows ==> res,
        os != Os::Windows ==> exists|uid: u32| #[trigger] effective_uid_may_be(uid) && res == (uid == 0),
{
    if os.is_windows() {
        true
    } else {
        let uid = effective_uid();
        assert(effective_uid_may_be(uid));
        is_admin_with_uid(os, uid)
    }
}

} // verus!
