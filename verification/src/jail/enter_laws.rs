//! What holds of every way into a jail.

use vstd::prelude::*;

use super::enter::{EnterAction, EnterEvent, EnterPhase, FdEntry};
use super::{Error, JailPath};

verus! {

use super::enter::{close_list, entry_fd, follows, next_std_fd, phase_accepts, std_fds};
use crate::text::parsed_i32;

/// What the entries list: `fd` is among them.
pub open spec fn listed(entries: Seq<FdEntry>, fd: i32) -> bool {
    exists|k: int| 0 <= k < entries.len() && entry_fd(#[trigger] entries[k]) == Some(fd)
}

/// The descriptors to close are those that are listed and not in `keep`.
proof fn lemma_close_list(entries: Seq<FdEntry>, keep: Seq<i32>, fd: i32)
    requires
        close_list(entries, keep) is Ok,
    ensures
        close_list(entries, keep)->Ok_0.contains(fd) <==> listed(entries, fd) && !keep.contains(fd),
    decreases entries.len(),
{
    let fds = close_list(entries, keep)->Ok_0;
    if entries.len() > 0 {
        let rest = entries.drop_last();
        lemma_close_list(rest, keep, fd);
        let before = close_list(rest, keep)->Ok_0;
        let last = entry_fd(entries.last())->0;
        if !keep.contains(last) {
            assert(fds[before.len() as int] == last);
            assert forall|k: int| 0 <= k < before.len() implies fds[k] == before[k] by {}
            if before.contains(fd) {
                let k = choose|k: int| 0 <= k < before.len() && before[k] == fd;
                assert(fds[k] == fd);
            }
            if fds.contains(fd) && fd != last {
                let k = choose|k: int| 0 <= k < fds.len() && fds[k] == fd;
                assert(before[k] == fd);
            }
        }
        if listed(rest, fd) {
            let k = choose|k: int| 0 <= k < rest.len() && entry_fd(#[trigger] rest[k]) == Some(fd);
            assert(entries[k] == rest[k]);
        }
        if listed(entries, fd) && fd != last {
            let k = choose|k: int|
                0 <= k < entries.len() && entry_fd(#[trigger] entries[k]) == Some(fd);
            assert(rest[k] == entries[k]);
        }
        if fd == last {
            assert(entry_fd(entries[entries.len() - 1]) == Some(fd));
        }
    }
}

/// No descriptor between `from` and the next one to redirect needs to be redirected.
proof fn lemma_next_std_fd(keep: Seq<i32>, from: int)
    requires
        0 <= from <= 3,
    ensures
        from <= next_std_fd(keep, from) <= 3,
        forall|fd: i32| from <= fd < next_std_fd(keep, from) ==> #[trigger] keep.contains(fd),
        next_std_fd(keep, from) < 3 ==> !keep.contains(next_std_fd(keep, from) as i32),
    decreases 3 - from,
{
    if from < 3 && keep.contains(from as i32) {
        lemma_next_std_fd(keep, from + 1);
    }
}

/// A process on its way into a jail with the list `keep` of inheritable descriptors, as far as it
/// has come: the phases that it went through and the actions that it took, the first of each at the
/// start, and what came of the actions.
pub struct Way {
    pub keep: Seq<i32>,
    pub phases: Seq<EnterPhase>,
    pub actions: Seq<EnterAction>,
    pub events: Seq<EnterEvent>,
}

impl Way {
    /// Each phase and action follows from what came before it.
    pub open spec fn valid(self) -> bool {
        &&& self.phases.len() == self.events.len() + 1
        &&& self.actions.len() == self.events.len() + 1
        &&& self.phases[0] == EnterPhase::Listing
        &&& self.actions[0] == EnterAction::ListFds
        &&& forall|i: int| #[trigger] self.step_valid(i)
    }

    /// The phase and the action behind the event at `i` follow from it.
    pub open spec fn step_valid(self, i: int) -> bool {
        0 <= i < self.events.len() ==> follows(
            self.keep,
            self.phases[i],
            self.events[i],
            self.phases[i + 1],
            self.actions[i + 1],
        )
    }

    /// The descriptors that were open at the start, as they were listed.
    pub open spec fn entries(self) -> Seq<FdEntry> {
        self.events[0]->Listed_0->Ok_0@
    }

    /// The descriptor by which /dev/null was opened.
    pub open spec fn dev_null(self) -> i32 {
        self.events[2]->DevNullOpened_0->Ok_0
    }

    /// The descriptor by which /dev/null was opened is standard input, output or error, and
    /// redirected.
    pub open spec fn dev_null_stays(self) -> bool {
        self.dev_null() <= 2 && !self.keep.contains(self.dev_null())
    }

    /// The first two actions have listed the open descriptors and closed exactly those among them
    /// that are not in `keep`.
    pub open spec fn closed_others(self) -> bool {
        &&& self.actions.len() >= 2
        &&& self.events[0] matches EnterEvent::Listed(list)
        &&& list is Ok
        &&& self.actions[1] matches EnterAction::Close(fds)
        &&& forall|fd: i32| #[trigger]
            fds@.contains(fd) <==> listed(self.entries(), fd) && !self.keep.contains(fd)
    }

    /// One of the first `n` actions has redirected `fd` to /dev/null.
    pub open spec fn is_redirected(self, n: int, fd: i32) -> bool {
        exists|j: int|
            0 <= j < n && #[trigger] self.actions[j] == EnterAction::DupDevNull(fd)
                && is_duplicated(self.events[j])
    }
}

/// Whether a descriptor was made a duplicate without failure.
pub open spec fn is_duplicated(event: EnterEvent) -> bool {
    event matches EnterEvent::Duplicated(r) && r is Ok
}

/// Whether an action closes `fd`.
pub open spec fn closes(action: EnterAction, fd: i32) -> bool {
    match action {
        EnterAction::Close(fds) => fds@.contains(fd),
        EnterAction::CloseDevNull(dev_null) => dev_null == fd,
        _ => false,
    }
}

/// /dev/null is open, and the descriptors before `next` are redirected.
spec fn redirected_before(way: Way, i: int, next: int) -> bool {
    &&& way.closed_others()
    &&& way.events.len() >= 3
    &&& way.actions[2] is OpenDevNull
    &&& way.events[2] matches EnterEvent::DevNullOpened(r)
    &&& r is Ok
    &&& forall|fd: i32|
        0 <= fd < next && !#[trigger] way.keep.contains(fd) ==> way.is_redirected(i, fd)
}

/// What is done by the time that a phase is reached.
spec fn done_in_phase(way: Way, i: int) -> bool {
    let action = way.actions[i];
    match way.phases[i] {
        EnterPhase::Listing => i == 0 && action is ListFds,
        EnterPhase::Closing => i == 1 && action is Close && way.closed_others(),
        EnterPhase::OpeningDevNull => i == 2 && action is OpenDevNull && way.closed_others(),
        EnterPhase::Redirecting { fd, dev_null } => {
            &&& 3 <= i <= 3 + fd
            &&& 0 <= fd < 3
            &&& !way.keep.contains(fd)
            &&& action == EnterAction::DupDevNull(fd)
            &&& redirected_before(way, i, fd as int)
            &&& dev_null == way.dev_null()
        },
        EnterPhase::ClosingDevNull => {
            &&& 3 <= i <= 6
            &&& action == EnterAction::CloseDevNull(way.dev_null())
            &&& !way.dev_null_stays()
            &&& redirected_before(way, i, 3)
        },
        EnterPhase::Entering => {
            &&& 3 <= i <= 7
            &&& action is EnterJail
            &&& redirected_before(way, i, 3)
            &&& !way.dev_null_stays() ==> way.actions[i - 1] == EnterAction::CloseDevNull(
                way.dev_null(),
            )
            &&& way.dev_null_stays() ==> way.actions[i - 1] !is CloseDevNull
        },
        EnterPhase::Finished => {
            &&& 1 <= i <= 8
            &&& action is Done || action is Abort
            &&& action is Done <==> way.actions[i - 1] is EnterJail
        },
    }
}

proof fn lemma_phase(way: Way, i: int)
    requires
        way.valid(),
        0 <= i < way.phases.len(),
    ensures
        done_in_phase(way, i),
    decreases i,
{
    if i > 0 {
        lemma_phase(way, i - 1);
        let event = way.events[i - 1];
        assert(way.step_valid(i - 1));
        assert forall|fd: i32| #[trigger] way.is_redirected(i - 1, fd) implies way.is_redirected(
            i,
            fd,
        ) by {
            let j = choose|j: int|
                0 <= j < i - 1 && #[trigger] way.actions[j] == EnterAction::DupDevNull(fd)
                    && is_duplicated(way.events[j]);
            assert(way.actions[j] == EnterAction::DupDevNull(fd));
        }
        match way.phases[i - 1] {
            EnterPhase::Listing => {
                if way.actions[1] is Close {
                    assert forall|fd: i32| #[trigger]
                        way.actions[1]->Close_0@.contains(fd) <==> listed(way.entries(), fd)
                            && !way.keep.contains(fd) by {
                        lemma_close_list(way.entries(), way.keep, fd);
                    }
                }
            },
            EnterPhase::OpeningDevNull => {
                lemma_next_std_fd(way.keep, 0);
            },
            EnterPhase::Redirecting { fd: last, .. } => {
                lemma_next_std_fd(way.keep, last + 1);
                assert(way.actions[i - 1] == EnterAction::DupDevNull(last));
                if is_duplicated(event) {
                    let next = next_std_fd(way.keep, last + 1);
                    assert(way.is_redirected(i, last));
                    assert forall|fd: i32|
                        0 <= fd < next && !#[trigger] way.keep.contains(
                            fd,
                        ) implies way.is_redirected(i, fd) by {
                        if fd < last {
                            assert(way.is_redirected(i - 1, fd));
                        }
                    }
                }
            },
            EnterPhase::ClosingDevNull => {
                assert forall|fd: i32|
                    0 <= fd < 3 && !#[trigger] way.keep.contains(fd) implies way.is_redirected(
                    i,
                    fd,
                ) by {
                    assert(way.is_redirected(i - 1, fd));
                }
            },
            _ => {},
        }
    }
}

/// By the time that the process enters the jail itself, every descriptor that was open and is not
/// inheritable has been closed, and standard input, output and error have been redirected to
/// /dev/null, except those that are inheritable.
pub proof fn law_jail_is_entered_clean(way: Way, i: int)
    requires
        way.valid(),
        0 <= i < way.actions.len(),
        way.actions[i] is EnterJail,
    ensures
        way.closed_others(),
        forall|fd: i32|
            std_fds().contains(fd) && !#[trigger] way.keep.contains(fd) ==> way.is_redirected(
                i,
                fd,
            ),
{
    lemma_phase(way, i);
    if i > 0 {
        assert(way.step_valid(i - 1));
    }
}

/// The descriptor by which /dev/null was opened is closed right before the jail is entered, unless
/// it is standard input, output or error itself and not inheritable; then it is not closed at all.
pub proof fn law_dev_null_is_closed(way: Way, i: int, j: int)
    requires
        way.valid(),
        0 <= i < way.actions.len(),
        0 <= j <= i,
        way.actions[i] is EnterJail,
    ensures
        i >= 3,
        way.actions[2] is OpenDevNull,
        way.actions[i - 1] is CloseDevNull <==> !(way.dev_null() <= 2 && !way.keep.contains(
            way.dev_null(),
        )),
        way.actions[j] is CloseDevNull ==> j == i - 1 && way.actions[j]
            == EnterAction::CloseDevNull(way.dev_null()),
{
    lemma_phase(way, i);
    lemma_phase(way, j);
    if i > 0 {
        assert(way.step_valid(i - 1));
    }
    if j < i {
        assert(way.step_valid(j));
        lemma_phase(way, j + 1);
        if j + 1 < i {
            assert(way.step_valid(j + 1));
            lemma_phase(way, j + 2);
            if j + 2 < i {
                assert(way.step_valid(j + 2));
            }
        }
    }
}

/// A descriptor that is redirected to /dev/null is not closed afterwards.
pub proof fn law_redirected_fds_stay_open(way: Way, j: int, i: int, fd: i32)
    requires
        way.valid(),
        0 <= j < i < way.actions.len(),
        way.actions[j] == EnterAction::DupDevNull(fd),
    ensures
        std_fds().contains(fd),
        !closes(way.actions[i], fd),
{
    lemma_phase(way, j);
    lemma_phase(way, i);
    assert(std_fds()[0] == 0 && std_fds()[1] == 1 && std_fds()[2] == 2);
    assert(std_fds()[fd as int] == fd);
}

/// An inheritable file descriptor is neither closed nor overwritten on the way into a jail. One
/// that was not open may be that by which /dev/null is opened, and closed again.
pub proof fn law_inherited_fds_are_spared(way: Way, i: int, fd: i32)
    requires
        way.valid(),
        0 <= i < way.actions.len(),
        way.keep.contains(fd),
    ensures
        match way.actions[i] {
            EnterAction::Close(fds) => !fds@.contains(fd),
            EnterAction::DupDevNull(other) => other != fd,
            EnterAction::CloseDevNull(other) => other == way.dev_null(),
            _ => true,
        },
{
    lemma_phase(way, i);
}

/// What a file descriptor refers to.
pub enum FdTarget<F> {
    /// /dev/null.
    DevNull,
    /// Another file.
    File(F),
}

/// What the file descriptors of a process refer to after an action, by what came of it; `None` is
/// for a descriptor that is not open.
pub open spec fn table_after<F>(
    table: spec_fn(i32) -> Option<FdTarget<F>>,
    action: EnterAction,
    event: EnterEvent,
) -> spec_fn(i32) -> Option<FdTarget<F>> {
    |fd: i32|
        match (action, event) {
            (EnterAction::Close(fds), EnterEvent::Closed) => if fds@.contains(fd) {
                None
            } else {
                table(fd)
            },
            (EnterAction::OpenDevNull, EnterEvent::DevNullOpened(Ok(dev_null))) => if fd
                == dev_null {
                Some(FdTarget::DevNull)
            } else {
                table(fd)
            },
            (EnterAction::DupDevNull(to), EnterEvent::Duplicated(Ok(_))) => if fd == to {
                Some(FdTarget::DevNull)
            } else {
                table(fd)
            },
            (EnterAction::CloseDevNull(dev_null), EnterEvent::DevNullClosed) => if fd
                == dev_null {
                None
            } else {
                table(fd)
            },
            _ => table(fd),
        }
}

impl Way {
    /// What the file descriptors refer to after `n` actions.
    pub open spec fn table_at<F>(
        self,
        table: spec_fn(i32) -> Option<FdTarget<F>>,
        n: int,
    ) -> spec_fn(i32) -> Option<FdTarget<F>>
        decreases n,
    {
        if n <= 0 {
            table
        } else {
            table_after(self.table_at(table, n - 1), self.actions[n - 1], self.events[n - 1])
        }
    }

    /// The kernel has listed all descriptors that were open, and opened /dev/null by one that was
    /// not.
    pub open spec fn kernel_obeys<F>(self, table: spec_fn(i32) -> Option<FdTarget<F>>) -> bool {
        &&& forall|fd: i32| table(fd) is Some ==> #[trigger] listed(self.entries(), fd)
        &&& self.dev_null() >= 0
        &&& self.table_at(table, 2)(self.dev_null()) is None
    }
}

/// What a descriptor refers to while the descriptors before `next` are redirected.
spec fn refers_before<F>(
    way: Way,
    table: spec_fn(i32) -> Option<FdTarget<F>>,
    i: int,
    next: int,
    fd: i32,
) -> bool {
    let now = way.table_at(table, i)(fd);
    if way.keep.contains(fd) {
        fd != way.dev_null() ==> now == table(fd)
    } else if 0 <= fd < 3 {
        fd < next ==> now == Some(FdTarget::<F>::DevNull)
    } else {
        fd != way.dev_null() ==> now is None
    }
}

/// What a descriptor refers to in a phase.
spec fn refers_in_phase<F>(
    way: Way,
    table: spec_fn(i32) -> Option<FdTarget<F>>,
    i: int,
    fd: i32,
) -> bool {
    let now = way.table_at(table, i)(fd);
    match way.phases[i] {
        EnterPhase::Listing => now == table(fd),
        EnterPhase::Closing => now == table(fd),
        EnterPhase::OpeningDevNull => if way.keep.contains(fd) {
            now == table(fd)
        } else {
            now is None
        },
        EnterPhase::Redirecting { fd: next, .. } => refers_before(way, table, i, next as int, fd),
        EnterPhase::ClosingDevNull => refers_before(way, table, i, 3, fd),
        EnterPhase::Entering => {
            &&& refers_before(way, table, i, 3, fd)
            &&& way.keep.contains(fd) ==> now == table(fd)
            &&& !way.keep.contains(fd) && !(0 <= fd < 3) ==> now is None
        },
        EnterPhase::Finished => true,
    }
}

proof fn lemma_table<F>(
    way: Way,
    table: spec_fn(i32) -> Option<FdTarget<F>>,
    last: int,
    i: int,
    fd: i32,
)
    requires
        way.valid(),
        0 <= i <= last < way.phases.len(),
        way.phases[last] == EnterPhase::Entering,
        way.kernel_obeys(table),
    ensures
        refers_in_phase(way, table, i, fd),
    decreases i,
{
    lemma_phase(way, last);
    lemma_phase(way, i);
    if i > 0 {
        lemma_table(way, table, last, i - 1, fd);
        lemma_phase(way, i - 1);
        assert(way.step_valid(i - 1));
        let before = way.table_at(table, i - 1);
        let now = way.table_at(table, i);
        assert(now == table_after(before, way.actions[i - 1], way.events[i - 1]));
        match way.phases[i - 1] {
            EnterPhase::Closing => {
                assert(way.actions[1]->Close_0@.contains(fd) <==> listed(way.entries(), fd)
                    && !way.keep.contains(fd));
                assert(table(fd) is Some ==> listed(way.entries(), fd));
            },
            EnterPhase::OpeningDevNull => {
                lemma_next_std_fd(way.keep, 0);
                assert(refers_before(way, table, i, next_std_fd(way.keep, 0), fd));
            },
            EnterPhase::Redirecting { fd: done, .. } => {
                lemma_next_std_fd(way.keep, done + 1);
                if is_duplicated(way.events[i - 1]) {
                    assert(refers_before(way, table, i, next_std_fd(way.keep, done + 1), fd));
                }
            },
            EnterPhase::ClosingDevNull => {
                lemma_table(way, table, last, 2, way.dev_null());
                lemma_phase(way, 2);
            },
            _ => {},
        }
    }
}

/// In the jail each of standard input, output and error is open on /dev/null, unless it is
/// inheritable; every inheritable descriptor refers to what it referred to, if it was open; and no
/// other descriptor is open.
pub proof fn law_fds_in_the_jail<F>(
    way: Way,
    table: spec_fn(i32) -> Option<FdTarget<F>>,
    i: int,
    fd: i32,
)
    requires
        way.valid(),
        0 <= i < way.actions.len(),
        way.actions[i] is EnterJail,
        way.kernel_obeys(table),
    ensures
        ({
            let now = way.table_at(table, i)(fd);
            if way.keep.contains(fd) {
                now == table(fd)
            } else if std_fds().contains(fd) {
                now == Some(FdTarget::<F>::DevNull)
            } else {
                now is None
            }
        }),
{
    lemma_phase(way, i);
    if i > 0 {
        assert(way.step_valid(i - 1));
    }
    lemma_table(way, table, i, i, fd);
    assert(std_fds()[0] == 0 && std_fds()[1] == 1 && std_fds()[2] == 2);
    if 0 <= fd < 3 {
        assert(std_fds()[fd as int] == fd);
    }
}

/// A way into a jail comes to an end.
pub proof fn law_way_in_ends(way: Way)
    requires
        way.valid(),
    ensures
        way.events.len() <= 8,
{
    lemma_phase(way, way.events.len() as int);
}

/// A failure on the way into a jail kills the process before it is in the jail; and nothing is left
/// to do only when the process is in the jail.
pub proof fn law_failure_keeps_out_of_the_jail(way: Way, i: int, j: int)
    requires
        way.valid(),
        0 <= i < way.actions.len(),
        0 <= j < way.actions.len(),
        way.actions[i] is Abort || way.actions[i] is Done,
    ensures
        i == way.actions.len() - 1,
        way.actions[i] is Abort ==> way.actions[j] !is EnterJail,
        way.actions[i] is Done ==> i >= 1 && way.actions[i - 1] is EnterJail,
{
    lemma_phase(way, i);
    lemma_phase(way, j);
    assert(way.step_valid(i));
    assert(way.step_valid(j));
    assert(way.step_valid(j + 1));
}

/// An entry that could not be read, that lies elsewhere, whose name is no text, or whose name is no
/// integer spoils the list, each for its own reason, and whatever comes behind it.
pub proof fn law_bad_entry_spoils_the_list(
    entries: Seq<FdEntry>,
    entry: FdEntry,
    more: Seq<FdEntry>,
    keep: Seq<i32>,
)
    requires
        close_list(entries, keep) is Ok,
    ensures
        match entry {
            FdEntry::Failed(x) => close_list(entries.push(entry) + more, keep) == Err::<
                Seq<i32>,
                Error,
            >(Error::ReadFdDirEntry(x)),
            FdEntry::Elsewhere(path) => close_list(entries.push(entry) + more, keep) == Err::<
                Seq<i32>,
                Error,
            >(Error::PathToCString(path)),
            FdEntry::Named(JailPath::Text(name)) => parsed_i32(name@) is None ==> close_list(
                entries.push(entry) + more,
                keep,
            ) == Err::<Seq<i32>, Error>(Error::ProcFd(name)),
            FdEntry::Named(name) => close_list(entries.push(entry) + more, keep) == Err::<
                Seq<i32>,
                Error,
            >(Error::PathToCString(name)),
        },
    decreases more.len(),
{
    let all = entries.push(entry) + more;
    if more.len() == 0 {
        assert(all =~= entries.push(entry));
        assert(all.drop_last() =~= entries);
    } else {
        assert(all.drop_last() =~= entries.push(entry) + more.drop_last());
        law_bad_entry_spoils_the_list(entries, entry, more.drop_last(), keep);
    }
}

/// An entry whose name is an integer adds its descriptor to the end of the list, unless it is
/// inheritable; from no entries no list comes but the empty one.
pub proof fn law_good_entry_adds_its_descriptor(
    entries: Seq<FdEntry>,
    name: String,
    fd: i32,
    keep: Seq<i32>,
)
    requires
        parsed_i32(name@) == Some(fd),
    ensures
        ({
            let all = entries.push(FdEntry::Named(JailPath::Text(name)));
            match close_list(entries, keep) {
                Ok(fds) => close_list(all, keep) == Ok::<Seq<i32>, Error>(
                    if keep.contains(fd) {
                        fds
                    } else {
                        fds.push(fd)
                    },
                ),
                Err(x) => close_list(all, keep) == Err::<Seq<i32>, Error>(x),
            }
        }),
        close_list(Seq::<FdEntry>::empty(), keep) == Ok::<Seq<i32>, Error>(Seq::empty()),
{
    let all = entries.push(FdEntry::Named(JailPath::Text(name)));
    assert(all.drop_last() =~= entries);
}

/// A failure on the way in kills the process at once, and by its own reason.
pub proof fn law_failures_kill_the_process(way: Way, i: int)
    requires
        way.valid(),
        0 <= i < way.events.len(),
    ensures
        match way.events[i] {
            EnterEvent::Listed(Err(x)) => way.actions[i + 1] == EnterAction::Abort(
                Error::ReadFdDir(x),
            ),
            EnterEvent::Listed(Ok(entries)) => match close_list(entries@, way.keep) {
                Err(x) => way.actions[i + 1] == EnterAction::Abort(x),
                Ok(fds) => way.actions[i + 1] matches EnterAction::Close(list) && list@ == fds,
            },
            EnterEvent::DevNullOpened(Err(x)) => way.actions[i + 1] == EnterAction::Abort(
                Error::OpenDevNull(x),
            ),
            EnterEvent::Duplicated(Err(errno)) => way.actions[i + 1] == EnterAction::Abort(
                Error::DupDevNull(errno),
            ),
            _ => !(way.actions[i + 1] is Abort),
        },
{
    assert(way.step_valid(i));
}

/// The next of standard input, output and error to redirect, from `from` on, is the first that is
/// not inheritable.
pub open spec fn is_next_to_redirect(keep: Seq<i32>, from: int, fd: i32) -> bool {
    &&& from <= fd < 3
    &&& 0 <= fd
    &&& !keep.contains(fd)
    &&& forall|x: i32| from <= x < fd ==> #[trigger] keep.contains(x)
}

/// All from `from` on are inheritable.
pub open spec fn none_to_redirect(keep: Seq<i32>, from: int) -> bool {
    forall|x: i32| from <= x < 3 ==> #[trigger] keep.contains(x)
}

/// What comes behind the redirections before `from`.
pub open spec fn redirection_goes_on(way: Way, from: int, action: EnterAction) -> bool {
    ||| action matches EnterAction::DupDevNull(fd) && is_next_to_redirect(way.keep, from, fd)
    ||| none_to_redirect(way.keep, from) && action == EnterAction::CloseDevNull(way.dev_null()) && (
    way.dev_null() > 2 || way.keep.contains(way.dev_null()))
    ||| none_to_redirect(way.keep, from) && action is EnterJail && way.dev_null() <= 2
        && !way.keep.contains(way.dev_null())
}

/// As long as all goes well, the way in goes from listing to closing, opening /dev/null,
/// redirecting the descriptors that need it one after another, closing /dev/null where it is not
/// one of them, and into the jail.
pub proof fn law_way_in_goes_on(way: Way, i: int)
    requires
        way.valid(),
        0 <= i < way.events.len(),
    ensures
        match way.events[i] {
            EnterEvent::Closed => way.actions[i + 1] is OpenDevNull,
            EnterEvent::DevNullOpened(Ok(_)) => redirection_goes_on(way, 0, way.actions[i + 1]),
            EnterEvent::Duplicated(Ok(_)) => way.actions[i] matches EnterAction::DupDevNull(fd)
                && redirection_goes_on(way, fd + 1, way.actions[i + 1]),
            EnterEvent::DevNullClosed => way.actions[i + 1] is EnterJail,
            EnterEvent::Entered => way.actions[i + 1] is Done,
            _ => true,
        },
{
    lemma_phase(way, i);
    lemma_phase(way, i + 1);
    assert(way.step_valid(i));
    lemma_next_std_fd(way.keep, 0);
    match way.phases[i] {
        EnterPhase::Redirecting { fd, .. } => {
            lemma_next_std_fd(way.keep, fd + 1);
        },
        _ => {},
    }
}

/// Whatever comes of the last action on the way in, it can be told.
pub proof fn law_every_outcome_on_the_way_can_be_told(way: Way, event: EnterEvent)
    requires
        way.valid(),
    ensures
        phase_accepts(way.phases.last(), event) <==> match way.actions.last() {
            EnterAction::ListFds => event is Listed,
            EnterAction::Close(_) => event is Closed,
            EnterAction::OpenDevNull => event is DevNullOpened,
            EnterAction::DupDevNull(_) => event is Duplicated,
            EnterAction::CloseDevNull(_) => event is DevNullClosed,
            EnterAction::EnterJail => event is Entered,
            EnterAction::Abort(_) => false,
            EnterAction::Done => false,
        },
{
    lemma_phase(way, way.events.len() as int);
}

} // verus!
