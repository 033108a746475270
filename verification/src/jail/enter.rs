//! Entering a jail: which file descriptors are closed and which are redirected on the way in.

use vstd::prelude::*;
use vstd::string::*;

use super::{Error, JailPath, Minijail};
use crate::text::parse_i32;

verus! {

use crate::text::parsed_i32;

/// The descriptors of standard input, output and error.
pub open spec fn std_fds() -> Seq<i32> {
    seq![0, 1, 2]
}

/// `STDIN_FILENO`, `STDOUT_FILENO` and `STDERR_FILENO` of the libc crate, which are 0, 1 and 2.
#[verifier::external_body]
fn libc_std_fds() -> (r: [i32; 3])
    ensures
        r@ == std_fds(),
{
    [libc::STDIN_FILENO, libc::STDOUT_FILENO, libc::STDERR_FILENO]
}

/// One entry of the directory that lists the open file descriptors of the process.
#[derive(Debug, PartialEq, Eq)]
pub enum FdEntry {
    /// The entry could not be read, with the text of the failure.
    Failed(String),
    /// The entry is at a path that is not below the directory.
    Elsewhere(JailPath),
    /// The entry has this name.
    Named(JailPath),
}

/// The file descriptor that an entry stands for, if it stands for one.
pub open spec fn entry_fd(entry: FdEntry) -> Option<i32> {
    match entry {
        FdEntry::Named(name) => match name.text() {
            Some(text) => parsed_i32(text@),
            None => None,
        },
        _ => None,
    }
}

/// The error that an entry gives which stands for no file descriptor.
pub open spec fn entry_error(entry: FdEntry) -> Error {
    match entry {
        FdEntry::Failed(e) => Error::ReadFdDirEntry(e),
        FdEntry::Elsewhere(path) => Error::PathToCString(path),
        FdEntry::Named(name) => match name.text() {
            Some(text) => Error::ProcFd(text),
            None => Error::PathToCString(name),
        },
    }
}

/// The file descriptor that an entry stands for.
fn read_entry(entry: &FdEntry) -> (r: Result<i32, Error>)
    ensures
        r == (match entry_fd(*entry) {
            Some(fd) => Ok::<i32, Error>(fd),
            None => Err(entry_error(*entry)),
        }),
{
    match entry {
        FdEntry::Failed(e) => Err(Error::ReadFdDirEntry(e.clone())),
        FdEntry::Elsewhere(path) => Err(Error::PathToCString(path.clone())),
        FdEntry::Named(name) => match name {
            JailPath::Text(text) => match parse_i32(text.as_str()) {
                Some(fd) => Ok(fd),
                None => Err(Error::ProcFd(text.clone())),
            },
            JailPath::NotText { .. } => Err(Error::PathToCString(name.clone())),
        },
    }
}

/// The descriptors to close, in the order in which they are listed: all but those in `keep`. The
/// first entry that stands for no descriptor spoils the whole list.
pub open spec fn close_list(entries: Seq<FdEntry>, keep: Seq<i32>) -> Result<Seq<i32>, Error>
    decreases entries.len(),
{
    if entries.len() == 0 {
        Ok(Seq::<i32>::empty())
    } else {
        match close_list(entries.drop_last(), keep) {
            Err(e) => Err(e),
            Ok(fds) => match entry_fd(entries.last()) {
                None => Err(entry_error(entries.last())),
                Some(fd) => if keep.contains(fd) {
                    Ok(fds)
                } else {
                    Ok(fds.push(fd))
                },
            },
        }
    }
}

/// Whether `fds` holds `fd`.
fn contains_fd(fds: &Vec<i32>, fd: i32) -> (r: bool)
    ensures
        r == fds@.contains(fd),
{
    let mut i: usize = 0;
    while i < fds.len()
        invariant
            i <= fds.len(),
            forall|j: int| 0 <= j < i ==> fds@[j] != fd,
        decreases fds.len() - i,
    {
        if fds[i] == fd {
            return true;
        }
        i = i + 1;
    }
    false
}

/// An error in the list of a part of the entries is the error of the list of all of them.
proof fn lemma_close_list_error(entries: Seq<FdEntry>, k: int, keep: Seq<i32>)
    requires
        0 <= k <= entries.len(),
        close_list(entries.take(k), keep) is Err,
    ensures
        close_list(entries, keep) == close_list(entries.take(k), keep),
    decreases entries.len() - k,
{
    if k == entries.len() {
        assert(entries.take(k) =~= entries);
    } else {
        assert(entries.take(k + 1).drop_last() =~= entries.take(k));
        lemma_close_list_error(entries, k + 1, keep);
    }
}

/// Picks the descriptors to close out of the open ones.
pub fn fds_to_close(entries: &Vec<FdEntry>, keep: &Vec<i32>) -> (r: Result<Vec<i32>, Error>)
    ensures
        match close_list(entries@, keep@) {
            Ok(fds) => r is Ok && r->Ok_0@ == fds,
            Err(e) => r == Err::<Vec<i32>, Error>(e),
        },
{
    let mut fds: Vec<i32> = Vec::new();
    let mut i: usize = 0;
    while i < entries.len()
        invariant
            i <= entries.len(),
            close_list(entries@.take(i as int), keep@) == Ok::<Seq<i32>, Error>(fds@),
        decreases entries.len() - i,
    {
        proof {
            assert(entries@.take(i + 1).drop_last() =~= entries@.take(i as int));
        }
        match read_entry(&entries[i]) {
            Err(e) => {
                proof {
                    lemma_close_list_error(entries@, i + 1, keep@);
                }
                return Err(e);
            },
            Ok(fd) => {
                if !contains_fd(keep, fd) {
                    fds.push(fd);
                }
            },
        }
        i = i + 1;
    }
    assert(entries@.take(i as int) =~= entries@);
    Ok(fds)
}

/// How far the process has come into the jail.
#[derive(Debug, Clone, Copy, PartialEq, Eq)]
pub enum EnterPhase {
    /// Listing the open file descriptors.
    Listing,
    /// Closing those that are not inherited.
    Closing,
    /// Opening /dev/null.
    OpeningDevNull,
    /// Redirecting the descriptor `fd` to /dev/null, which is open at `dev_null`.
    Redirecting { fd: i32, dev_null: i32 },
    /// Closing /dev/null.
    ClosingDevNull,
    /// Entering the jail itself.
    Entering,
    /// Nothing is left to do.
    Finished,
}

/// What is to be done next.
#[derive(Debug, PartialEq, Eq)]
pub enum EnterAction {
    /// List the entries of /proc/self/fd.
    ListFds,
    /// Close these file descriptors. The directory that was read to list them may be among them:
    /// closing it again gives an error that is of no consequence.
    Close(Vec<i32>),
    /// Open /dev/null.
    OpenDevNull,
    /// Make this descriptor a duplicate of that of /dev/null.
    DupDevNull(i32),
    /// Close this descriptor, by which /dev/null was opened.
    CloseDevNull(i32),
    /// Call `minijail_enter`.
    EnterJail,
    /// Kill the process, because of this error: a partially entered jail isn't recoverable.
    Abort(Error),
    /// Nothing: the process is in the jail.
    Done,
}

/// What came of an action.
#[derive(Debug, PartialEq, Eq)]
pub enum EnterEvent {
    /// The entries of /proc/self/fd, or the text of the failure to open it.
    Listed(Result<Vec<FdEntry>, String>),
    /// The file descriptors are closed.
    Closed,
    /// The descriptor by which /dev/null is open, or the text of the failure to open it.
    DevNullOpened(Result<i32, String>),
    /// The descriptor is redirected, or the errno of the failure to do so.
    Duplicated(Result<(), i32>),
    /// The descriptor by which /dev/null was opened is closed.
    DevNullClosed,
    /// The process is in the jail.
    Entered,
}

/// The way of a process into a jail.
pub struct Enter {
    keep: Vec<i32>,
    phase: EnterPhase,
}

/// The first of standard input, output and error at `from` or behind it that is not in `keep`; 3
/// where there is none.
pub open spec fn next_std_fd(keep: Seq<i32>, from: int) -> int
    decreases 3 - from,
{
    if from >= 3 {
        3
    } else if keep.contains(from as i32) {
        next_std_fd(keep, from + 1)
    } else {
        from
    }
}

/// What follows when the descriptors before `from` are redirected. The descriptor of /dev/null is
/// closed in the end, unless it is standard input, output or error itself and redirected.
pub open spec fn redirected(keep: Seq<i32>, from: int, dev_null: i32) -> (EnterPhase, EnterAction) {
    let fd = next_std_fd(keep, from) as i32;
    if fd < 3 {
        (EnterPhase::Redirecting { fd, dev_null }, EnterAction::DupDevNull(fd))
    } else if dev_null > 2 || keep.contains(dev_null) {
        (EnterPhase::ClosingDevNull, EnterAction::CloseDevNull(dev_null))
    } else {
        (EnterPhase::Entering, EnterAction::EnterJail)
    }
}

/// Whether an event is one that comes of the action of a phase.
pub open spec fn phase_accepts(phase: EnterPhase, event: EnterEvent) -> bool {
    match phase {
        EnterPhase::Listing => event is Listed,
        EnterPhase::Closing => event is Closed,
        EnterPhase::OpeningDevNull => event is DevNullOpened,
        EnterPhase::Redirecting { fd, .. } => event is Duplicated && 0 <= fd < 3,
        EnterPhase::ClosingDevNull => event is DevNullClosed,
        EnterPhase::Entering => event is Entered,
        EnterPhase::Finished => false,
    }
}

/// The phase and the action that follow when `event` comes of the action of `phase`.
pub open spec fn follows(
    keep: Seq<i32>,
    phase: EnterPhase,
    event: EnterEvent,
    next: EnterPhase,
    action: EnterAction,
) -> bool {
    match (phase, event) {
        (EnterPhase::Listing, EnterEvent::Listed(Err(e))) => {
            (next, action) == (EnterPhase::Finished, EnterAction::Abort(Error::ReadFdDir(e)))
        },
        (EnterPhase::Listing, EnterEvent::Listed(Ok(entries))) => {
            match close_list(entries@, keep) {
                Err(e) => (next, action) == (EnterPhase::Finished, EnterAction::Abort(e)),
                Ok(fds) => {
                    &&& next == EnterPhase::Closing
                    &&& action is Close
                    &&& action->Close_0@ == fds
                },
            }
        },
        (EnterPhase::Closing, EnterEvent::Closed) => {
            (next, action) == (EnterPhase::OpeningDevNull, EnterAction::OpenDevNull)
        },
        (EnterPhase::OpeningDevNull, EnterEvent::DevNullOpened(Err(e))) => {
            (next, action) == (EnterPhase::Finished, EnterAction::Abort(Error::OpenDevNull(e)))
        },
        (EnterPhase::OpeningDevNull, EnterEvent::DevNullOpened(Ok(dev_null))) => {
            (next, action) == redirected(keep, 0, dev_null)
        },
        (EnterPhase::Redirecting { .. }, EnterEvent::Duplicated(Err(errno))) => {
            (next, action) == (EnterPhase::Finished, EnterAction::Abort(Error::DupDevNull(errno)))
        },
        (EnterPhase::Redirecting { fd, dev_null }, EnterEvent::Duplicated(Ok(_))) => {
            (next, action) == redirected(keep, fd + 1, dev_null)
        },
        (EnterPhase::ClosingDevNull, EnterEvent::DevNullClosed) => {
            (next, action) == (EnterPhase::Entering, EnterAction::EnterJail)
        },
        (EnterPhase::Entering, EnterEvent::Entered) => {
            (next, action) == (EnterPhase::Finished, EnterAction::Done)
        },
        _ => false,
    }
}

impl Enter {
    /// The descriptors that are inherited.
    pub closed spec fn keep(&self) -> Seq<i32> {
        self.keep@
    }

    /// How far the process has come.
    pub closed spec fn phase(&self) -> EnterPhase {
        self.phase
    }

    /// Goes on with the redirection of standard input, output and error from `from` on.
    fn redirect(&mut self, from: usize, dev_null: i32) -> (action: EnterAction)
        requires
            from <= 3,
        ensures
            final(self).keep() == old(self).keep(),
            (final(self).phase(), action) == redirected(old(self).keep(), from as int, dev_null),
    {
        let io_fds = libc_std_fds();
        let mut i: usize = from;
        while i < 3
            invariant
                from <= i <= 3,
                io_fds@ == std_fds(),
                *self == *old(self),
                next_std_fd(self.keep@, from as int) == next_std_fd(self.keep@, i as int),
            decreases 3 - i,
        {
            let fd: i32 = io_fds[i];
            assert(std_fds()[i as int] == i);
            if !contains_fd(&self.keep, fd) {
                self.phase = EnterPhase::Redirecting { fd, dev_null };
                return EnterAction::DupDevNull(fd);
            }
            i = i + 1;
        }
        assert(std_fds()[2] == 2);
        if dev_null > io_fds[2] || contains_fd(&self.keep, dev_null) {
            self.phase = EnterPhase::ClosingDevNull;
            EnterAction::CloseDevNull(dev_null)
        } else {
            self.phase = EnterPhase::Entering;
            EnterAction::EnterJail
        }
    }

    /// Takes what came of the last action, and gives the next.
    pub fn step(&mut self, event: EnterEvent) -> (action: EnterAction)
        requires
            phase_accepts(old(self).phase(), event),
        ensures
            final(self).keep() == old(self).keep(),
            follows(old(self).keep(), old(self).phase(), event, final(self).phase(), action),
    {
        match event {
            EnterEvent::Listed(Err(e)) => {
                self.phase = EnterPhase::Finished;
                EnterAction::Abort(Error::ReadFdDir(e))
            },
            EnterEvent::Listed(Ok(entries)) => match fds_to_close(&entries, &self.keep) {
                Err(e) => {
                    self.phase = EnterPhase::Finished;
                    EnterAction::Abort(e)
                },
                Ok(fds) => {
                    self.phase = EnterPhase::Closing;
                    EnterAction::Close(fds)
                },
            },
            EnterEvent::Closed => {
                self.phase = EnterPhase::OpeningDevNull;
                EnterAction::OpenDevNull
            },
            EnterEvent::DevNullOpened(Err(e)) => {
                self.phase = EnterPhase::Finished;
                EnterAction::Abort(Error::OpenDevNull(e))
            },
            // Set stdin, stdout, and stderr to /dev/null unless they are in the inherit list.
            // These will only be closed when this process exits.
            EnterEvent::DevNullOpened(Ok(dev_null)) => self.redirect(0, dev_null),
            EnterEvent::Duplicated(Err(errno)) => {
                self.phase = EnterPhase::Finished;
                EnterAction::Abort(Error::DupDevNull(errno))
            },
            EnterEvent::Duplicated(Ok(())) => match self.phase {
                EnterPhase::Redirecting { fd, dev_null } => self.redirect(
                    fd as usize + 1,
                    dev_null,
                ),
                _ => EnterAction::EnterJail,
            },
            EnterEvent::DevNullClosed => {
                self.phase = EnterPhase::Entering;
                EnterAction::EnterJail
            },
            EnterEvent::Entered => {
                self.phase = EnterPhase::Finished;
                EnterAction::Done
            },
        }
    }
}

impl<J> Minijail<J> {
    /// Starts to enter the previously configured minijail.
    ///
    /// All file descriptors that the process has open are closed first, unless they are included in
    /// the `inheritable_fds` list, which could cause a lot of trouble if not handled carefully. FDs
    /// 0, 1, and 2 are overwritten with /dev/null FDs unless they are included in the list. Without
    /// a list no descriptor is inherited.
    ///
    /// A failure on the way is not given back: it kills the process.
    pub fn enter(&self, inheritable_fds: Option<Vec<i32>>) -> (r: (Enter, EnterAction))
        ensures
            r.1 == EnterAction::ListFds,
            r.0.phase() == EnterPhase::Listing,
            r.0.keep() == (match inheritable_fds {
                Some(keep) => keep@,
                None => Seq::empty(),
            }),
    {
        let keep: Vec<i32> = match inheritable_fds {
            Some(keep) => keep,
            None => Vec::new(),
        };
        (Enter { keep, phase: EnterPhase::Listing }, EnterAction::ListFds)
    }
}

} // verus!
