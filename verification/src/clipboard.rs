//! The clipboard sync guard: the last-observed clipboard text, the
//! poll-cycle comparison that raises change notifications, and the
//! write path that pre-seeds the guard so a local write does not loop
//! back as a spurious notification.

use vstd::prelude::*;

verus! {

/// The guard state after one poll cycle: a successful read replaces
/// the last-observed text, a failed read leaves it unchanged.
pub open spec fn poll_state(last: Seq<char>, read: Option<Seq<char>>) -> Seq<char> {
    match read {
        Some(text) => text,
        None => last,
    }
}

/// The notification one poll cycle emits: the text read, but only
/// when the read succeeded and the text differs from the guard's
/// last-observed text; a failed read is skipped silently.
pub open spec fn poll_emission(last: Seq<char>, read: Option<Seq<char>>) -> Option<Seq<char>> {
    match read {
        Some(text) => if text == last {
            None
        } else {
            Some(text)
        },
        None => None,
    }
}

/// The text a host clipboard read produced, if it succeeded.
pub open spec fn read_view(read: Option<String>) -> Option<Seq<char>> {
    match read {
        Some(text) => Some(text@),
        None => None,
    }
}

/// The guard state after a whole run of poll cycles with the given
/// reads, oldest first.
pub open spec fn run_state(last: Seq<char>, reads: Seq<Option<Seq<char>>>) -> Seq<char>
    decreases reads.len(),
{
    if reads.len() == 0 {
        last
    } else {
        run_state(poll_state(last, reads[0]), reads.drop_first())
    }
}

/// The notifications a whole run of poll cycles emits, in detection
/// order.
pub open spec fn run_emissions(last: Seq<char>, reads: Seq<Option<Seq<char>>>) -> Seq<Seq<char>>
    decreases reads.len(),
{
    if reads.len() == 0 {
        Seq::empty()
    } else {
        let head: Seq<Seq<char>> = match poll_emission(last, reads[0]) {
            Some(text) => seq![text],
            None => Seq::empty(),
        };
        head + run_emissions(poll_state(last, reads[0]), reads.drop_first())
    }
}

/// The last clipboard content this process is aware of having
/// produced or observed. Exactly one instance exists process-wide,
/// shared (under a caller-supplied lock) by the polling loop and the
/// write-command path; its view is that text.
pub struct ClipboardGuard {
    last: String,
}

impl View for ClipboardGuard {
    type V = Seq<char>;

    closed spec fn view(&self) -> Seq<char> {
        self.last@
    }
}

impl ClipboardGuard {
    /// Creates the guard empty, as it is at process start.
    pub fn new() -> (g: ClipboardGuard)
        ensures
            g@ == Seq::<char>::empty(),
    {
        ClipboardGuard { last: String::new() }
    }

    /// One poll cycle's compare-and-update step, run under the lock
    /// after the host clipboard was read (`None` records a transient
    /// read failure, skipped silently). Returns the notification to
    /// emit outside the critical section: the new text exactly when
    /// it differs from the last-observed text.
    pub fn observe(&mut self, read: Option<String>) -> (emit: Option<String>)
        ensures
            final(self)@ == poll_state(old(self)@, read_view(read)),
            read_view(emit) == poll_emission(old(self)@, read_view(read)),
    {
        match read {
            Some(text) => {
                if text == self.last {
                    None
                } else {
                    self.last = text.clone();
                    Some(text)
                }
            },
            None => None,
        }
    }

    /// The write command's completion step, run after the host
    /// clipboard write was attempted. On success the guard is
    /// pre-seeded with the written text, so the next poll cycle sees
    /// no difference and does not re-emit the process's own write; on
    /// failure the guard is unchanged and the host error is returned
    /// to the caller.
    pub fn finish_write(&mut self, text: &str, host_result: Result<(), String>) -> (r: Result<
        (),
        String,
    >)
        ensures
            host_result is Ok ==> final(self)@ == text@ && r is Ok,
            host_result is Err ==> *final(self) == *old(self) && r == host_result,
    {
        match host_result {
            Ok(()) => {
                self.last = text.to_owned();
                Ok(())
            },
            Err(e) => Err(e),
        }
    }
}

/// An unchanged clipboard is silent: when every poll cycle either
/// fails to read or reads back exactly the text the guard last
/// observed, a run of poll cycles emits no notification at all.
pub proof fn lemma_unchanged_clipboard_is_silent(last: Seq<char>, reads: Seq<Option<Seq<char>>>)
    requires
        forall|i: int|
            0 <= i < reads.len() ==> reads[i] == None::<Seq<char>> || reads[i] == Some(last),
    ensures
        run_emissions(last, reads) == Seq::<Seq<char>>::empty(),
    decreases reads.len(),
{
    if reads.len() > 0 {
        assert(reads[0] == None::<Seq<char>> || reads[0] == Some(last));
        assert(poll_state(last, reads[0]) == last);
        assert(poll_emission(last, reads[0]) is None);
        assert(forall|i: int|
            0 <= i < reads.drop_first().len() ==> reads.drop_first()[i] == reads[i + 1]);
        lemma_unchanged_clipboard_is_silent(last, reads.drop_first());
        assert(run_emissions(last, reads) =~= Seq::<Seq<char>>::empty());
    }
}

/// A clipboard that holds one constant text for a whole run causes at
/// most one notification: none when the guard has already observed
/// that text, exactly one — for the first cycle — otherwise.
pub proof fn lemma_constant_clipboard_at_most_once(
    last: Seq<char>,
    text: Seq<char>,
    reads: Seq<Option<Seq<char>>>,
)
    requires
        forall|i: int| 0 <= i < reads.len() ==> reads[i] == Some(text),
    ensures
        run_emissions(last, reads) == if reads.len() == 0 || text == last {
            Seq::<Seq<char>>::empty()
        } else {
            seq![text]
        },
    decreases reads.len(),
{
    if reads.len() > 0 {
        assert(reads[0] == Some(text));
        assert(poll_state(last, reads[0]) == text);
        assert(forall|i: int|
            0 <= i < reads.drop_first().len() ==> reads.drop_first()[i] == reads[i + 1]);
        lemma_constant_clipboard_at_most_once(text, text, reads.drop_first());
        if text == last {
            assert(run_emissions(last, reads) =~= Seq::<Seq<char>>::empty());
        } else {
            assert(run_emissions(last, reads) =~= seq![text]);
        }
    }
}

/// The anti-feedback-loop law: a successful `finish_write` of some
/// text leaves the guard holding that text, and every following poll
/// cycle that reads back the same text — the next one included —
/// emits no notification, assuming no interleaving write from
/// elsewhere changed the clipboard.
pub proof fn lemma_write_suppresses_loopback(text: Seq<char>, reads: Seq<Option<Seq<char>>>)
    requires
        forall|i: int| 0 <= i < reads.len() ==> reads[i] == Some(text),
    ensures
        run_emissions(text, reads) == Seq::<Seq<char>>::empty(),
{
    lemma_constant_clipboard_at_most_once(text, text, reads);
}

} // verus!
