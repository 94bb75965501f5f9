//! Notes collected while reading or editing a document.

use vstd::prelude::*;

verus! {

/// Severity of a notification.
#[derive(Debug, Clone, Copy, PartialEq, Eq, Structural)]
pub enum NotificationKind {
    Info,
    Warning,
    Error,
}

/// A note about the document.
#[derive(Debug, Clone, PartialEq)]
pub struct Notification {
    pub kind: NotificationKind,
    pub message: String,
}

/// Number of error notifications among `ns`.
pub open spec fn errors_in(ns: Seq<Notification>) -> nat
    decreases ns.len(),
{
    if ns.len() == 0 {
        0
    } else {
        errors_in(ns.drop_last()) + if ns.last().kind == NotificationKind::Error { 1nat } else { 0nat }
    }
}

/// Error notifications are counted one each, in any list: none in an empty
/// list, one more for an appended error, as many as before for any other
/// appended notification, and the counts of two lists add up.
pub proof fn law_errors_counted(a: Seq<Notification>, b: Seq<Notification>, n: Notification)
    ensures
        errors_in(Seq::<Notification>::empty()) == 0,
        errors_in(a.push(n)) == errors_in(a) + if n.kind == NotificationKind::Error { 1nat } else { 0nat },
        errors_in(a + b) == errors_in(a) + errors_in(b),
        errors_in(a) <= a.len(),
    decreases b.len(),
{
    assert(a.push(n).drop_last() =~= a);
    if b.len() == 0 {
        assert(a + b =~= a);
    } else {
        law_errors_counted(a, b.drop_last(), n);
        assert((a + b).drop_last() =~= a + b.drop_last());
        assert((a + b).last() == b.last());
    }
    lemma_errors_at_most(a);
}

/// At most every notification is an error.
proof fn lemma_errors_at_most(a: Seq<Notification>)
    ensures
        errors_in(a) <= a.len(),
    decreases a.len(),
{
    if a.len() > 0 {
        lemma_errors_at_most(a.drop_last());
    }
}

/// The notifications of a document, in the order they were raised.
#[derive(Debug, Clone, PartialEq)]
pub struct NotificationCollection {
    pub items: Vec<Notification>,
}

impl NotificationCollection {
    /// No notifications.
    pub fn new() -> (c: Self)
        ensures
            c.items@.len() == 0,
    {
        NotificationCollection { items: Vec::new() }
    }

    /// Record a notification.
    pub fn notify(&mut self, kind: NotificationKind, message: &str)
        ensures
            final(self).items@.len() == old(self).items@.len() + 1,
            final(self).items@.drop_last() == old(self).items@,
            final(self).items@.last().kind == kind,
            final(self).items@.last().message@ == message@,
    {
        self.items.push(Notification { kind, message: message.to_owned() });
        assert(self.items@.drop_last() =~= old(self).items@);
    }

    /// Number of error notifications.
    pub fn error_count(&self) -> (n: usize)
        ensures
            n == errors_in(self.items@),
    {
        let mut n: usize = 0;
        let mut i: usize = 0;
        while i < self.items.len()
            invariant
                i <= self.items@.len(),
                n == errors_in(self.items@.subrange(0, i as int)),
                n <= i,
            decreases self.items@.len() - i,
        {
            assert(self.items@.subrange(0, i + 1).drop_last() =~= self.items@.subrange(0, i as int));
            if self.items[i].kind == NotificationKind::Error {
                n = n + 1;
            }
            i += 1;
        }
        assert(self.items@.subrange(0, i as int) =~= self.items@);
        n
    }
}

} // verus!
