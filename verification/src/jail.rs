//! Configuration of a process jail, on top of libminijail.
//!
//! libminijail owns the jail and is reached through C calls. This module decides which calls to
//! make, with which arguments, and what their return values mean; the caller makes them.

use vstd::prelude::*;
use vstd::string::*;

use crate::text::{append_i32, debug_path, debug_text};

pub mod enter;
pub mod enter_laws;

verus! {

use crate::text::{path_debug, same_up_to, signed_decimal, str_debug};

/// A path, reduced to what the jail needs to know of it.
#[derive(Debug, PartialEq, Eq)]
pub enum JailPath {
    /// A path that is valid UTF-8.
    Text(String),
    /// A path that is not valid UTF-8, by how it is shown in messages, quotes included.
    NotText { shown: String },
}

impl JailPath {
    /// The path as text, or `None` where it is not valid UTF-8.
    pub open spec fn text(&self) -> Option<String> {
        match self {
            JailPath::Text(text) => Some(*text),
            JailPath::NotText { .. } => None,
        }
    }

    /// The path as it is shown in messages, quotes included.
    pub open spec fn shown(&self) -> Seq<char> {
        match self {
            JailPath::Text(text) => path_debug(text@),
            JailPath::NotText { shown } => shown@,
        }
    }

    /// Gives the path as it is shown in messages, quotes included.
    pub fn display(&self) -> (r: String)
        ensures
            r@ == self.shown(),
    {
        match self {
            JailPath::Text(text) => debug_path(text.as_str()),
            JailPath::NotText { shown } => shown.clone(),
        }
    }
}

impl Clone for JailPath {
    fn clone(&self) -> (r: Self)
        ensures
            r == *self,
    {
        match self {
            JailPath::Text(text) => JailPath::Text(text.clone()),
            JailPath::NotText { shown } => JailPath::NotText { shown: shown.clone() },
        }
    }
}

/// What can go wrong while a jail is set up.
#[derive(Debug, PartialEq, Eq)]
pub enum Error {
    /// minijail failed to accept a bind mount.
    BindMount { errno: i32, src: JailPath, dst: JailPath },
    /// `minijail_new` failed, this is an allocation failure.
    CreatingMinijail,
    /// The seccomp policy path doesn't exist.
    SeccompPath(JailPath),
    /// The string passed in can't be handed to C.
    StrToCString(String),
    /// The path passed in can't be handed to C.
    PathToCString(JailPath),
    /// Failed to call dup2 to set stdin, stdout, or stderr to /dev/null.
    DupDevNull(i32),
    /// Failed to open /dev/null for FDs 0, 1, or 2, with the text of the failure.
    OpenDevNull(String),
    /// Setting the specified alt-syscall table failed with errno. Is the table in the kernel?
    SetAltSyscallTable { errno: i32, name: String },
    /// chroot failed with the provided errno.
    SettingChrootDirectory(i32, JailPath),
    /// pivot_root failed with the provided errno.
    SettingPivotRootDirectory(i32, JailPath),
    /// An entry in /proc/self/fd could not be read.
    ReadFdDirEntry(String),
    /// /proc/self/fd failed to open.
    ReadFdDir(String),
    /// An entry in /proc/self/fd is not an integer.
    ProcFd(String),
}

impl Error {
    /// The paths or the string in this error, as they are shown: the first, and the second where
    /// there are two.
    pub open spec fn parts(&self) -> (Seq<char>, Seq<char>) {
        match self {
            Error::BindMount { src, dst, .. } => (src.shown(), dst.shown()),
            Error::SeccompPath(p) => (p.shown(), Seq::empty()),
            Error::StrToCString(s) => (str_debug(s@), Seq::empty()),
            Error::PathToCString(p) => (p.shown(), Seq::empty()),
            Error::SetAltSyscallTable { name, .. } => (str_debug(name@), Seq::empty()),
            Error::SettingChrootDirectory(_, p) => (p.shown(), Seq::empty()),
            Error::SettingPivotRootDirectory(_, p) => (p.shown(), Seq::empty()),
            _ => (Seq::empty(), Seq::empty()),
        }
    }

    /// The text that describes this error.
    pub open spec fn text(&self) -> Seq<char> {
        self.text_with(self.parts().0, self.parts().1)
    }

    /// The text that describes this error, where the paths or the string in it are shown as given.
    pub open spec fn text_with(&self, first: Seq<char>, second: Seq<char>) -> Seq<char> {
        match self {
            Error::BindMount { errno, .. } => {
                "failed to accept bind mount "@ + first + " -> "@ + second + ": "@ + signed_decimal(
                    *errno as int,
                )
            },
            Error::CreatingMinijail => "minjail_new failed due to an allocation failure"@,
            Error::SeccompPath(_) => "missing seccomp policy path: "@ + first,
            Error::StrToCString(_) => "failed to convert string into CString: "@ + first,
            Error::PathToCString(_) => "failed to convert path into CString: "@ + first,
            Error::DupDevNull(errno) => {
                "failed to call dup2 to set stdin, stdout, or stderr to /dev/null: "@
                    + signed_decimal(*errno as int)
            },
            Error::OpenDevNull(e) => "fail to open /dev/null for setting FDs 0, 1, or 2: "@ + e@,
            Error::SetAltSyscallTable { errno, .. } => {
                "failed to set alt-syscall table "@ + first + ": "@ + signed_decimal(*errno as int)
            },
            Error::SettingChrootDirectory(errno, _) => {
                "failed to set chroot "@ + first + ": "@ + signed_decimal(*errno as int)
            },
            Error::SettingPivotRootDirectory(errno, _) => {
                "failed to set pivot root "@ + first + ": "@ + signed_decimal(*errno as int)
            },
            Error::ReadFdDirEntry(e) => "failed to read an entry in /proc/self/fd: "@ + e@,
            Error::ReadFdDir(e) => "failed to open /proc/self/fd: "@ + e@,
            Error::ProcFd(s) => "an entry in /proc/self/fd is not an integer: "@ + s@,
        }
    }

    /// Describes this error.
    pub fn message(&self) -> (r: String)
        ensures
            r@ == self.text(),
    {
        proof {
            reveal_strlit("");
            assert(""@ =~= Seq::<char>::empty());
        }
        let none = "".to_owned();
        let (first, second) = match self {
            Error::BindMount { src, dst, .. } => (src.display(), dst.display()),
            Error::SeccompPath(p) => (p.display(), none),
            Error::StrToCString(s) => (debug_text(s.as_str()), none),
            Error::PathToCString(p) => (p.display(), none),
            Error::SetAltSyscallTable { name, .. } => (debug_text(name.as_str()), none),
            Error::SettingChrootDirectory(_, p) => (p.display(), none),
            Error::SettingPivotRootDirectory(_, p) => (p.display(), none),
            _ => (none, "".to_owned()),
        };
        self.message_with(first.as_str(), second.as_str())
    }

    /// Describes this error, where the paths or the string in it are shown as given.
    pub fn message_with(&self, first: &str, second: &str) -> (r: String)
        ensures
            r@ == self.text_with(first@, second@),
    {
        match self {
            Error::BindMount { errno, .. } => {
                let mut out = "failed to accept bind mount ".to_owned();
                out.append(first);
                out.append(" -> ");
                out.append(second);
                out.append(": ");
                append_i32(&mut out, *errno);
                out
            },
            Error::CreatingMinijail => {
                "minjail_new failed due to an allocation failure".to_owned()
            },
            Error::SeccompPath(_) => {
                let mut out = "missing seccomp policy path: ".to_owned();
                out.append(first);
                out
            },
            Error::StrToCString(_) => {
                let mut out = "failed to convert string into CString: ".to_owned();
                out.append(first);
                out
            },
            Error::PathToCString(_) => {
                let mut out = "failed to convert path into CString: ".to_owned();
                out.append(first);
                out
            },
            Error::DupDevNull(errno) => {
                let mut out =
                    "failed to call dup2 to set stdin, stdout, or stderr to /dev/null: ".to_owned();
                append_i32(&mut out, *errno);
                out
            },
            Error::OpenDevNull(e) => {
                let mut out = "fail to open /dev/null for setting FDs 0, 1, or 2: ".to_owned();
                out.append(e.as_str());
                out
            },
            Error::SetAltSyscallTable { errno, .. } => {
                let mut out = "failed to set alt-syscall table ".to_owned();
                out.append(first);
                out.append(": ");
                append_i32(&mut out, *errno);
                out
            },
            Error::SettingChrootDirectory(errno, _) => {
                let mut out = "failed to set chroot ".to_owned();
                out.append(first);
                out.append(": ");
                append_i32(&mut out, *errno);
                out
            },
            Error::SettingPivotRootDirectory(errno, _) => {
                let mut out = "failed to set pivot root ".to_owned();
                out.append(first);
                out.append(": ");
                append_i32(&mut out, *errno);
                out
            },
            Error::ReadFdDirEntry(e) => {
                let mut out = "failed to read an entry in /proc/self/fd: ".to_owned();
                out.append(e.as_str());
                out
            },
            Error::ReadFdDir(e) => {
                let mut out = "failed to open /proc/self/fd: ".to_owned();
                out.append(e.as_str());
                out
            },
            Error::ProcFd(s) => {
                let mut out = "an entry in /proc/self/fd is not an integer: ".to_owned();
                out.append(s.as_str());
                out
            },
        }
    }
}

/// True where `s` can be handed to C: a C string ends at its first NUL.
pub open spec fn c_safe(s: Seq<char>) -> bool {
    !s.contains('\0')
}

/// Whether `s` can be handed to C.
fn is_c_safe(s: &str) -> (r: bool)
    ensures
        r == c_safe(s@),
{
    for c in it: s.chars()
        invariant
            it.seq() == s@,
            forall|i: int| 0 <= i < it.index() ==> s@[i] != '\0',
    {
        if c == '\0' {
            assert(s@[it.index() as int] == '\0');
            return false;
        }
    }
    true
}

/// True where the path can be handed to C: it is text, and has no NUL in it.
pub open spec fn path_c_safe(path: &JailPath) -> bool {
    path.text() is Some && c_safe(path.text()->0@)
}

/// The text of a path that is to be handed to C.
fn path_to_c(path: &JailPath) -> (r: Result<String, Error>)
    ensures
        path_c_safe(path) ==> r == Ok::<String, Error>(path.text()->0),
        !path_c_safe(path) ==> r == Err::<String, Error>(Error::PathToCString(*path)),
{
    match path {
        JailPath::Text(text) => {
            if is_c_safe(text.as_str()) {
                Ok(text.clone())
            } else {
                Err(Error::PathToCString(path.clone()))
            }
        },
        JailPath::NotText { .. } => Err(Error::PathToCString(path.clone())),
    }
}

/// The text of one side of a bind mount, to be handed to C.
fn bind_path(path: &JailPath) -> (r: Result<String, Error>)
    ensures
        r == (match path.text() {
            None => Err::<String, Error>(Error::PathToCString(*path)),
            Some(text) => if c_safe(text@) {
                Ok(text)
            } else {
                Err(Error::StrToCString(text))
            },
        }),
{
    match path {
        JailPath::Text(text) => {
            if is_c_safe(text.as_str()) {
                Ok(text.clone())
            } else {
                Err(Error::StrToCString(text.clone()))
            }
        },
        JailPath::NotText { .. } => Err(Error::PathToCString(path.clone())),
    }
}

/// A call into libminijail, on the jail that a `Minijail` holds. Strings are free of NUL.
#[derive(Debug, PartialEq, Eq)]
pub enum JailCall {
    ChangeUid(u32),
    ChangeGid(u32),
    SetSupplementaryGids(Vec<u32>),
    KeepSupplementaryGids,
    UseSeccomp,
    NoNewPrivs,
    UseSeccompFilter,
    SetSeccompFilterTsync,
    ParseSeccompFilters(String),
    LogSeccompFilterFailures,
    UseCaps(u64),
    CapbsetDrop(u64),
    SetAmbientCaps,
    ResetSignalMask,
    NamespaceVfs,
    NewSessionKeyring,
    SkipRemountPrivate,
    NamespaceIpc,
    NamespaceNet,
    NamespaceCgroups,
    RemountProcReadonly,
    InheritUsergroups,
    UseAltSyscall(String),
    EnterChroot(String),
    EnterPivotRoot(String),
    MountTmp,
    MountTmpSize(usize),
    Bind { src: String, dest: String, writable: bool },
}

/// The call that reads a seccomp policy from the file at `path`, if it is a file.
pub open spec fn seccomp_call(path: JailPath, is_file: bool) -> Result<JailCall, Error> {
    if !is_file {
        Err(Error::SeccompPath(path))
    } else if !path_c_safe(&path) {
        Err(Error::PathToCString(path))
    } else {
        Ok(JailCall::ParseSeccompFilters(path.text()->0))
    }
}

/// The call that makes `dir` the root directory of the jail, by chroot.
pub open spec fn chroot_call(dir: JailPath) -> Result<JailCall, Error> {
    if path_c_safe(&dir) {
        Ok(JailCall::EnterChroot(dir.text()->0))
    } else {
        Err(Error::PathToCString(dir))
    }
}

/// The call that makes `dir` the root directory of the jail, by pivot_root.
pub open spec fn pivot_root_call(dir: JailPath) -> Result<JailCall, Error> {
    if path_c_safe(&dir) {
        Ok(JailCall::EnterPivotRoot(dir.text()->0))
    } else {
        Err(Error::PathToCString(dir))
    }
}

/// The call that mounts `src` on `dest` in the jail.
pub open spec fn bind_call(src: JailPath, dest: JailPath, writable: bool) -> Result<
    JailCall,
    Error,
> {
    match (src.text(), dest.text()) {
        (None, _) => Err(Error::PathToCString(src)),
        (Some(s), None) => if c_safe(s@) {
            Err(Error::PathToCString(dest))
        } else {
            Err(Error::StrToCString(s))
        },
        (Some(s), Some(d)) => if !c_safe(s@) {
            Err(Error::StrToCString(s))
        } else if !c_safe(d@) {
            Err(Error::StrToCString(d))
        } else {
            Ok(JailCall::Bind { src: s, dest: d, writable })
        },
    }
}

/// What the value that a call returned means: below zero it failed with the given error.
pub open spec fn call_result(ret: i32, error: Error) -> Result<(), Error> {
    if ret < 0 {
        Err(error)
    } else {
        Ok(())
    }
}

/// What a `Minijail` holds.
pub struct MinijailView<J> {
    pub jail: J,
    pub uid_map: Option<Seq<char>>,
    pub gid_map: Option<Seq<char>>,
}

/// Configuration to jail a process based on wrapping libminijail.
///
/// Intentionally leave out everything related to `minijail_run`.  Forking is
/// hard to reason about w.r.t. memory and resource safety.  It is better to avoid
/// forking from rust code.  Leave forking to the library user, who can make
/// an informed decision about when to fork to minimize risk.
///
/// `J` is the handle of the jail that libminijail owns.
pub struct Minijail<J> {
    jail: J,
    // Normally, these would be set in the minijail, but minijail can't use these in minijail_enter.
    // Instead these are accessible by the caller of `Minijail::enter` to manually set.
    uid_map: Option<String>,
    gid_map: Option<String>,
}

impl<J> View for Minijail<J> {
    type V = MinijailView<J>;

    closed spec fn view(&self) -> MinijailView<J> {
        MinijailView {
            jail: self.jail,
            uid_map: match self.uid_map {
                Some(s) => Some(s@),
                None => None,
            },
            gid_map: match self.gid_map {
                Some(s) => Some(s@),
                None => None,
            },
        }
    }
}

impl<J> Minijail<J> {
    /// Creates a new jail configuration around the jail that `minijail_new` gave, if it gave one.
    pub fn new(jail: Option<J>) -> (r: Result<Minijail<J>, Error>)
        ensures
            jail is None ==> r == Err::<Minijail<J>, Error>(Error::CreatingMinijail),
            jail is Some ==> r is Ok && r->Ok_0@ == (MinijailView {
                jail: jail->0,
                uid_map: None,
                gid_map: None,
            }),
    {
        match jail {
            None => Err(Error::CreatingMinijail),
            Some(jail) => Ok(Minijail { jail, uid_map: None, gid_map: None }),
        }
    }

    /// The handle of the jail that the calls of this configuration are made on.
    pub fn jail(&self) -> (r: &J)
        ensures
            *r == self@.jail,
    {
        &self.jail
    }

    // The following functions give the call that sets a value in the jail that this configuration
    // holds. They leave the configuration itself as it is.

    /// Makes the jailed process run as the user `uid`.
    pub fn change_uid(&mut self, uid: u32) -> (call: JailCall)
        ensures
            call == JailCall::ChangeUid(uid),
            final(self)@ == old(self)@,
    {
        JailCall::ChangeUid(uid)
    }

    /// Makes the jailed process run as the group `gid`.
    pub fn change_gid(&mut self, gid: u32) -> (call: JailCall)
        ensures
            call == JailCall::ChangeGid(gid),
            final(self)@ == old(self)@,
    {
        JailCall::ChangeGid(gid)
    }

    /// Keeps the supplementary groups of the caller.
    pub fn keep_supplementary_gids(&mut self) -> (call: JailCall)
        ensures
            call == JailCall::KeepSupplementaryGids,
            final(self)@ == old(self)@,
    {
        JailCall::KeepSupplementaryGids
    }

    /// Enters strict seccomp mode in the jail.
    pub fn use_seccomp(&mut self) -> (call: JailCall)
        ensures
            call == JailCall::UseSeccomp,
            final(self)@ == old(self)@,
    {
        JailCall::UseSeccomp
    }

    /// Keeps the jailed process from gaining privileges.
    pub fn no_new_privs(&mut self) -> (call: JailCall)
        ensures
            call == JailCall::NoNewPrivs,
            final(self)@ == old(self)@,
    {
        JailCall::NoNewPrivs
    }

    /// Applies the seccomp filters that were parsed.
    pub fn use_seccomp_filter(&mut self) -> (call: JailCall)
        ensures
            call == JailCall::UseSeccompFilter,
            final(self)@ == old(self)@,
    {
        JailCall::UseSeccompFilter
    }

    /// Applies the seccomp filters to all threads.
    pub fn set_seccomp_filter_tsync(&mut self) -> (call: JailCall)
        ensures
            call == JailCall::SetSeccompFilterTsync,
            final(self)@ == old(self)@,
    {
        JailCall::SetSeccompFilterTsync
    }

    /// Logs the system calls that a filter refuses.
    pub fn log_seccomp_filter_failures(&mut self) -> (call: JailCall)
        ensures
            call == JailCall::LogSeccompFilterFailures,
            final(self)@ == old(self)@,
    {
        JailCall::LogSeccompFilterFailures
    }

    /// Restricts the capabilities to those in `capmask`.
    pub fn use_caps(&mut self, capmask: u64) -> (call: JailCall)
        ensures
            call == JailCall::UseCaps(capmask),
            final(self)@ == old(self)@,
    {
        JailCall::UseCaps(capmask)
    }

    /// Restricts the capability bounding set to `capmask`.
    pub fn capbset_drop(&mut self, capmask: u64) -> (call: JailCall)
        ensures
            call == JailCall::CapbsetDrop(capmask),
            final(self)@ == old(self)@,
    {
        JailCall::CapbsetDrop(capmask)
    }

    /// Raises the ambient capabilities.
    pub fn set_ambient_caps(&mut self) -> (call: JailCall)
        ensures
            call == JailCall::SetAmbientCaps,
            final(self)@ == old(self)@,
    {
        JailCall::SetAmbientCaps
    }

    /// Resets the signal mask in the jail.
    pub fn reset_signal_mask(&mut self) -> (call: JailCall)
        ensures
            call == JailCall::ResetSignalMask,
            final(self)@ == old(self)@,
    {
        JailCall::ResetSignalMask
    }

    /// Enters a new mount namespace.
    pub fn namespace_vfs(&mut self) -> (call: JailCall)
        ensures
            call == JailCall::NamespaceVfs,
            final(self)@ == old(self)@,
    {
        JailCall::NamespaceVfs
    }

    /// Creates a new session keyring.
    pub fn new_session_keyring(&mut self) -> (call: JailCall)
        ensures
            call == JailCall::NewSessionKeyring,
            final(self)@ == old(self)@,
    {
        JailCall::NewSessionKeyring
    }

    /// Leaves the mounts as they are shared.
    pub fn skip_remount_private(&mut self) -> (call: JailCall)
        ensures
            call == JailCall::SkipRemountPrivate,
            final(self)@ == old(self)@,
    {
        JailCall::SkipRemountPrivate
    }

    /// Enters a new IPC namespace.
    pub fn namespace_ipc(&mut self) -> (call: JailCall)
        ensures
            call == JailCall::NamespaceIpc,
            final(self)@ == old(self)@,
    {
        JailCall::NamespaceIpc
    }

    /// Enters a new network namespace.
    pub fn namespace_net(&mut self) -> (call: JailCall)
        ensures
            call == JailCall::NamespaceNet,
            final(self)@ == old(self)@,
    {
        JailCall::NamespaceNet
    }

    /// Enters a new cgroup namespace.
    pub fn namespace_cgroups(&mut self) -> (call: JailCall)
        ensures
            call == JailCall::NamespaceCgroups,
            final(self)@ == old(self)@,
    {
        JailCall::NamespaceCgroups
    }

    /// Remounts /proc read-only.
    pub fn remount_proc_readonly(&mut self) -> (call: JailCall)
        ensures
            call == JailCall::RemountProcReadonly,
            final(self)@ == old(self)@,
    {
        JailCall::RemountProcReadonly
    }

    /// Keeps the groups of the user that the jail changes to.
    pub fn inherit_usergroups(&mut self) -> (call: JailCall)
        ensures
            call == JailCall::InheritUsergroups,
            final(self)@ == old(self)@,
    {
        JailCall::InheritUsergroups
    }

    /// Mounts a temporary file system on /tmp.
    pub fn mount_tmp(&mut self) -> (call: JailCall)
        ensures
            call == JailCall::MountTmp,
            final(self)@ == old(self)@,
    {
        JailCall::MountTmp
    }

    /// Mounts a temporary file system of `size` bytes on /tmp.
    pub fn mount_tmp_size(&mut self, size: usize) -> (call: JailCall)
        ensures
            call == JailCall::MountTmpSize(size),
            final(self)@ == old(self)@,
    {
        JailCall::MountTmpSize(size)
    }

    /// Sets the supplementary groups of the jailed process.
    pub fn set_supplementary_gids(&mut self, ids: &[u32]) -> (call: JailCall)
        ensures
            call is SetSupplementaryGids,
            call->SetSupplementaryGids_0@ == ids@,
            final(self)@ == old(self)@,
    {
        let mut gids: Vec<u32> = Vec::new();
        gids.extend_from_slice(ids);
        assert(gids@ =~= ids@);
        JailCall::SetSupplementaryGids(gids)
    }

    /// Reads a seccomp policy from the file at `path`; `is_file` says whether there is one.
    pub fn parse_seccomp_filters(&mut self, path: &JailPath, is_file: bool) -> (r: Result<
        JailCall,
        Error,
    >)
        ensures
            r == seccomp_call(*path, is_file),
            final(self)@ == old(self)@,
    {
        if !is_file {
            return Err(Error::SeccompPath(path.clone()));
        }
        let filename = path_to_c(path)?;
        Ok(JailCall::ParseSeccompFilters(filename))
    }

    /// Selects the alt-syscall table `table_name`. `use_alt_syscall_result` says what the return
    /// value of the call means.
    pub fn use_alt_syscall(&mut self, table_name: &str) -> (r: Result<JailCall, Error>)
        ensures
            match r {
                Ok(call) => c_safe(table_name@) && call is UseAltSyscall
                    && call->UseAltSyscall_0@ == table_name@,
                Err(e) => !c_safe(table_name@) && e is StrToCString && e->StrToCString_0@
                    == table_name@,
            },
            final(self)@ == old(self)@,
    {
        if !is_c_safe(table_name) {
            return Err(Error::StrToCString(table_name.to_owned()));
        }
        Ok(JailCall::UseAltSyscall(table_name.to_owned()))
    }

    /// What the value `ret` that `minijail_use_alt_syscall` returned means.
    pub fn use_alt_syscall_result(table_name: &str, ret: i32) -> (r: Result<(), Error>)
        ensures
            match r {
                Ok(()) => ret >= 0,
                Err(e) => ret < 0 && e is SetAltSyscallTable && e->SetAltSyscallTable_errno == ret
                    && e->name@ == table_name@,
            },
    {
        if ret < 0 {
            return Err(Error::SetAltSyscallTable { errno: ret, name: table_name.to_owned() });
        }
        Ok(())
    }

    /// Makes `dir` the root directory of the jail, by chroot. `enter_chroot_result` says what the
    /// return value of the call means.
    pub fn enter_chroot(&mut self, dir: &JailPath) -> (r: Result<JailCall, Error>)
        ensures
            r == chroot_call(*dir),
            final(self)@ == old(self)@,
    {
        let dirname = path_to_c(dir)?;
        Ok(JailCall::EnterChroot(dirname))
    }

    /// What the value `ret` that `minijail_enter_chroot` returned means.
    pub fn enter_chroot_result(dir: &JailPath, ret: i32) -> (r: Result<(), Error>)
        ensures
            r == call_result(ret, Error::SettingChrootDirectory(ret, *dir)),
    {
        if ret < 0 {
            return Err(Error::SettingChrootDirectory(ret, dir.clone()));
        }
        Ok(())
    }

    /// Makes `dir` the root directory of the jail, by pivot_root. `enter_pivot_root_result` says
    /// what the return value of the call means.
    pub fn enter_pivot_root(&mut self, dir: &JailPath) -> (r: Result<JailCall, Error>)
        ensures
            r == pivot_root_call(*dir),
            final(self)@ == old(self)@,
    {
        let dirname = path_to_c(dir)?;
        Ok(JailCall::EnterPivotRoot(dirname))
    }

    /// What the value `ret` that `minijail_enter_pivot_root` returned means.
    pub fn enter_pivot_root_result(dir: &JailPath, ret: i32) -> (r: Result<(), Error>)
        ensures
            r == call_result(ret, Error::SettingPivotRootDirectory(ret, *dir)),
    {
        if ret < 0 {
            return Err(Error::SettingPivotRootDirectory(ret, dir.clone()));
        }
        Ok(())
    }

    /// Mounts `src` on `dest` in the jail, writable or not. `mount_bind_result` says what the
    /// return value of the call means.
    pub fn mount_bind(&mut self, src: &JailPath, dest: &JailPath, writable: bool) -> (r: Result<
        JailCall,
        Error,
    >)
        ensures
            r == bind_call(*src, *dest, writable),
            final(self)@ == old(self)@,
    {
        let src_path = bind_path(src)?;
        let dest_path = bind_path(dest)?;
        Ok(JailCall::Bind { src: src_path, dest: dest_path, writable })
    }

    /// What the value `ret` that `minijail_bind` returned means.
    pub fn mount_bind_result(src: &JailPath, dest: &JailPath, ret: i32) -> (r: Result<(), Error>)
        ensures
            r == call_result(ret, (Error::BindMount { errno: ret, src: *src, dst: *dest })),
    {
        if ret < 0 {
            return Err(Error::BindMount { errno: ret, src: src.clone(), dst: dest.clone() });
        }
        Ok(())
    }

    /// Sets the map of user ids, for the caller of `enter` to apply.
    pub fn uidmap(&mut self, uid_map: &str)
        ensures
            final(self)@ == (MinijailView { uid_map: Some(uid_map@), ..old(self)@ }),
    {
        self.uid_map = Some(uid_map.to_owned());
    }

    /// The map of user ids, if one is set.
    pub fn get_uidmap(&self) -> (r: Option<&str>)
        ensures
            r is Some <==> self@.uid_map is Some,
            r is Some ==> r->0@ == self@.uid_map->0,
    {
        match &self.uid_map {
            Some(s) => Some(s.as_str()),
            None => None,
        }
    }

    /// Sets the map of group ids, for the caller of `enter` to apply.
    pub fn gidmap(&mut self, gid_map: &str)
        ensures
            final(self)@ == (MinijailView { gid_map: Some(gid_map@), ..old(self)@ }),
    {
        self.gid_map = Some(gid_map.to_owned());
    }

    /// The map of group ids, if one is set.
    pub fn get_gidmap(&self) -> (r: Option<&str>)
        ensures
            r is Some <==> self@.gid_map is Some,
            r is Some ==> r->0@ == self@.gid_map->0,
    {
        match &self.gid_map {
            Some(s) => Some(s.as_str()),
            None => None,
        }
    }
}

/// Text can be handed to C exactly if no character of it is NUL; a path exactly if it is such text.
pub proof fn law_c_ends_at_nul(s: Seq<char>, path: JailPath)
    ensures
        c_safe(s) <==> forall|i: int| 0 <= i < s.len() ==> #[trigger] s[i] != '\0',
        path_c_safe(&path) <==> match path {
            JailPath::Text(text) => forall|i: int|
                0 <= i < text@.len() ==> #[trigger] text@[i] != '\0',
            JailPath::NotText { .. } => false,
        },
        path is Text ==> path.text() == Some(path->Text_0) && path.shown() == path_debug(
            path->Text_0@,
        ),
        path is NotText ==> path.text() is None && path.shown() == path->shown@,
{
    assert(c_safe(s) ==> forall|i: int| 0 <= i < s.len() ==> #[trigger] s[i] != '\0');
    if path is Text {
        let text = path->Text_0@;
        assert(c_safe(text) ==> forall|i: int| 0 <= i < text.len() ==> #[trigger] text[i] != '\0');
    }
}

/// The description of an error ends in its cause, and what stands before is the same for every
/// error of the kind. Paths and strings are shown quoted, errors of the system by their number.
pub proof fn law_description_ends_in_the_cause(
    p: JailPath,
    q: JailPath,
    a: String,
    b: String,
    m: i32,
    n: i32,
)
    ensures
        same_up_to(
            Error::SeccompPath(p).text(),
            p.shown(),
            Error::SeccompPath(q).text(),
            q.shown(),
        ),
        same_up_to(
            Error::PathToCString(p).text(),
            p.shown(),
            Error::PathToCString(q).text(),
            q.shown(),
        ),
        same_up_to(
            Error::StrToCString(a).text(),
            str_debug(a@),
            Error::StrToCString(b).text(),
            str_debug(b@),
        ),
        same_up_to(
            Error::DupDevNull(m).text(),
            signed_decimal(m as int),
            Error::DupDevNull(n).text(),
            signed_decimal(n as int),
        ),
        same_up_to(Error::OpenDevNull(a).text(), a@, Error::OpenDevNull(b).text(), b@),
        same_up_to(Error::ReadFdDirEntry(a).text(), a@, Error::ReadFdDirEntry(b).text(), b@),
        same_up_to(Error::ReadFdDir(a).text(), a@, Error::ReadFdDir(b).text(), b@),
        same_up_to(Error::ProcFd(a).text(), a@, Error::ProcFd(b).text(), b@),
{
}

/// The description of a call of libminijail that failed names what it was called with, quoted, and
/// ends in the number that it returned.
pub proof fn law_description_of_a_failed_call(p: JailPath, q: JailPath, name: String, errno: i32)
    ensures
        (Error::BindMount { errno, src: p, dst: q }).text() == "failed to accept bind mount "@
            + p.shown() + " -> "@ + q.shown() + ": "@ + signed_decimal(errno as int),
        (Error::SetAltSyscallTable { errno, name }).text() == "failed to set alt-syscall table "@
            + str_debug(name@) + ": "@ + signed_decimal(errno as int),
        Error::SettingChrootDirectory(errno, p).text() == "failed to set chroot "@ + p.shown()
            + ": "@ + signed_decimal(errno as int),
        Error::SettingPivotRootDirectory(errno, p).text() == "failed to set pivot root "@
            + p.shown() + ": "@ + signed_decimal(errno as int),
{
}

/// A string that is shown in the description of an error stands there as it is given.
pub proof fn law_strings_are_shown_as_given(
    name: String,
    errno: i32,
    first: Seq<char>,
    second: Seq<char>,
)
    ensures
        Error::StrToCString(name).text_with(first, second)
            == "failed to convert string into CString: "@ + first,
        (Error::SetAltSyscallTable { errno, name }).text_with(first, second)
            == "failed to set alt-syscall table "@ + first + ": "@ + signed_decimal(errno as int),
{
}

/// A call with a path is made exactly if C can be handed the path, and a seccomp policy is only
/// read from a file; the call carries the path as it is. Else the path is refused, for the first
/// reason that there is.
pub proof fn law_calls_carry_their_path(text: String, shown: String, is_file: bool)
    ensures
        ({
            let path = JailPath::Text(text);
            let odd = JailPath::NotText { shown };
            let refused = Err::<JailCall, Error>(Error::PathToCString(path));
            let refused_odd = Err::<JailCall, Error>(Error::PathToCString(odd));
            &&& seccomp_call(path, false) == Err::<JailCall, Error>(Error::SeccompPath(path))
            &&& seccomp_call(odd, false) == Err::<JailCall, Error>(Error::SeccompPath(odd))
            &&& seccomp_call(odd, true) == refused_odd
            &&& chroot_call(odd) == refused_odd
            &&& pivot_root_call(odd) == refused_odd
            &&& text@.contains('\0') ==> {
                &&& seccomp_call(path, true) == refused
                &&& chroot_call(path) == refused
                &&& pivot_root_call(path) == refused
            }
            &&& !text@.contains('\0') ==> {
                &&& seccomp_call(path, true) == Ok::<JailCall, Error>(
                    JailCall::ParseSeccompFilters(text),
                )
                &&& chroot_call(path) == Ok::<JailCall, Error>(JailCall::EnterChroot(text))
                &&& pivot_root_call(path) == Ok::<JailCall, Error>(JailCall::EnterPivotRoot(text))
            }
        }),
{
}

/// A bind mount is made exactly if C can be handed both of its paths, which it carries as they are;
/// the source is looked at first.
pub proof fn law_bind_mount_carries_both_paths(
    s: String,
    d: String,
    dest: JailPath,
    shown: String,
    writable: bool,
)
    ensures
        ({
            let src = JailPath::Text(s);
            let odd = JailPath::NotText { shown };
            &&& bind_call(odd, dest, writable) == Err::<JailCall, Error>(Error::PathToCString(odd))
            &&& s@.contains('\0') ==> bind_call(src, dest, writable) == Err::<JailCall, Error>(
                Error::StrToCString(s),
            )
            &&& !s@.contains('\0') ==> {
                &&& bind_call(src, odd, writable) == Err::<JailCall, Error>(
                    Error::PathToCString(odd),
                )
                &&& d@.contains('\0') ==> bind_call(src, JailPath::Text(d), writable) == Err::<
                    JailCall,
                    Error,
                >(Error::StrToCString(d))
                &&& !d@.contains('\0') ==> bind_call(src, JailPath::Text(d), writable) == Ok::<
                    JailCall,
                    Error,
                >(JailCall::Bind { src: s, dest: d, writable })
            }
        }),
{
}

/// A call has failed exactly if it returned a number below zero, and then by its own error.
pub proof fn law_negative_return_is_failure(ret: i32, error: Error)
    ensures
        call_result(ret, error) is Ok <==> ret >= 0,
        ret < 0 ==> call_result(ret, error) == Err::<(), Error>(error),
{
}

} // verus!
