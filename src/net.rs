//! The subscriber registry: the outbound queues of the connected fan-out socket
//! sessions, and the broadcast that pushes a message to each of them and drops
//! the sessions whose queue is closed.
use vstd::prelude::*;
use tokio::sync::mpsc::UnboundedSender;

verus! {

#[verifier::external_type_specification]
#[verifier::external_body]
#[verifier::reject_recursive_types(T)]
pub struct ExUnboundedSender<T>(UnboundedSender<T>);

/// The outbound queue of one subscriber.
pub type Tx = UnboundedSender<String>;

/// Relies on tokio's `UnboundedSender::send`, which queues the message and
/// reports success unless the receiving half has been closed or dropped.
#[verifier::external_body]
fn deliver(tx: &Tx, message: String) -> (delivered: bool) {
    tx.send(message).is_ok()
}

/// Relies on tokio's `UnboundedSender::is_closed`: whether the receiving half
/// has been closed or dropped.
#[verifier::external_body]
fn queue_closed(tx: &Tx) -> (closed: bool) {
    tx.is_closed()
}

/// The elements of `s` whose flag at the same position is set, in order.
pub open spec fn kept<T>(s: Seq<T>, flags: Seq<bool>) -> Seq<T>
    decreases s.len(),
{
    if s.len() == 0 {
        Seq::empty()
    } else {
        let rest = kept(s.drop_last(), flags.subrange(0, s.len() - 1));
        if flags[s.len() - 1] {
            rest.push(s.last())
        } else {
            rest
        }
    }
}

proof fn lemma_kept_step<T>(s: Seq<T>, flags: Seq<bool>, i: int, b: bool)
    requires
        0 <= i < s.len(),
        flags.len() == i,
    ensures
        kept(s.subrange(0, i + 1), flags.push(b)) == if b {
            kept(s.subrange(0, i), flags).push(s[i])
        } else {
            kept(s.subrange(0, i), flags)
        },
{
    assert(s.subrange(0, i + 1).drop_last() =~= s.subrange(0, i));
    assert(flags.push(b).subrange(0, i) =~= flags);
}

/// When every subscriber but the one at `k` took a broadcast, the registry keeps
/// all the others, in order, and only that one is dropped.
pub proof fn lemma_only_failed_is_dropped<T>(s: Seq<T>, flags: Seq<bool>, k: int)
    requires
        flags.len() == s.len(),
        0 <= k < s.len(),
        !flags[k],
        forall|i: int| 0 <= i < s.len() && i != k ==> flags[i],
    ensures
        kept(s, flags) == s.remove(k),
        kept(s, flags).len() == s.len() - 1,
    decreases s.len(),
{
    let n = s.len();
    let prefix = s.drop_last();
    let pflags = flags.subrange(0, n - 1);
    if k == n - 1 {
        lemma_all_kept(prefix, pflags);
        assert(s.remove(k) =~= prefix);
    } else {
        lemma_only_failed_is_dropped(prefix, pflags, k);
        assert(s.remove(k) =~= prefix.remove(k).push(s.last()));
    }
}

/// When every subscriber took a broadcast, none is dropped.
pub proof fn lemma_all_kept<T>(s: Seq<T>, flags: Seq<bool>)
    requires
        flags.len() == s.len(),
        forall|i: int| 0 <= i < s.len() ==> flags[i],
    ensures
        kept(s, flags) == s,
    decreases s.len(),
{
    if s.len() > 0 {
        lemma_all_kept(s.drop_last(), flags.subrange(0, s.len() - 1));
        assert(s.drop_last().push(s.last()) =~= s);
    }
}

/// One offer of `message` to each of `subscribers`, in order.
pub open spec fn offers_to(subscribers: Seq<Tx>, message: Seq<char>) -> Seq<(Tx, Seq<char>)> {
    subscribers.map_values(|tx: Tx| (tx, message))
}

/// The connected subscribers, in order of registration.
pub struct Registry {
    subscribers: Vec<Tx>,
    sent: Ghost<Seq<Seq<char>>>,
    offers: Ghost<Seq<(Tx, Seq<char>)>>,
}

impl View for Registry {
    type V = Seq<Tx>;

    closed spec fn view(&self) -> Seq<Tx> {
        self.subscribers@
    }
}

impl Registry {
    /// Every message broadcast so far, in order.
    pub closed spec fn history(&self) -> Seq<Seq<char>> {
        self.sent@
    }

    /// Every (subscriber, message) pair a message was offered to so far, in order.
    pub closed spec fn offered(&self) -> Seq<(Tx, Seq<char>)> {
        self.offers@
    }

    /// A registry with no subscriber and nothing broadcast.
    pub fn new() -> (r: Registry)
        ensures
            r@ == Seq::<Tx>::empty(),
            r.history() == Seq::<Seq<char>>::empty(),
            r.offered() == Seq::<(Tx, Seq<char>)>::empty(),
    {
        Registry { subscribers: Vec::new(), sent: Ghost(Seq::empty()), offers: Ghost(Seq::empty()) }
    }

    /// The number of registered subscribers.
    pub fn len(&self) -> (r: usize)
        ensures
            r == self@.len(),
    {
        self.subscribers.len()
    }

    /// Adds a subscriber; it receives every later broadcast while its queue is open.
    pub fn register(&mut self, tx: Tx)
        ensures
            final(self)@ == old(self)@.push(tx),
            final(self).history() == old(self).history(),
            final(self).offered() == old(self).offered(),
    {
        self.subscribers.push(tx);
    }

    /// Offers `message` to every subscriber, in order, and keeps exactly those
    /// whose queue took it. The result says, per subscriber, whether it did.
    pub fn broadcast(&mut self, message: &String) -> (delivered: Vec<bool>)
        ensures
            delivered@.len() == old(self)@.len(),
            final(self)@ == kept(old(self)@, delivered@),
            final(self).history() == old(self).history().push(message@),
            final(self).offered() == old(self).offered() + offers_to(old(self)@, message@),
    {
        let ghost all = self@;
        let mut pending: Vec<Tx> = Vec::new();
        std::mem::swap(&mut pending, &mut self.subscribers);
        let mut delivered: Vec<bool> = Vec::new();
        let n = pending.len();
        let mut i: usize = 0;
        while i < n
            invariant
                n == all.len(),
                i <= n,
                pending@ == all.subrange(i as int, n as int),
                self.sent == old(self).sent,
                self.offers@ == old(self).offers@ + offers_to(
                    all.subrange(0, i as int),
                    message@,
                ),
                delivered@.len() == i,
                self.subscribers@ == kept(all.subrange(0, i as int), delivered@),
            decreases n - i,
        {
            let tx = pending.remove(0);
            let ok = deliver(&tx, message.clone());
            proof {
                lemma_kept_step(all, delivered@, i as int, ok);
                assert(offers_to(all.subrange(0, i + 1), message@) =~= offers_to(
                    all.subrange(0, i as int),
                    message@,
                ).push((tx, message@)));
                self.offers@ = self.offers@.push((tx, message@));
            }
            if ok {
                self.subscribers.push(tx);
            }
            delivered.push(ok);
            i = i + 1;
            assert(pending@ =~= all.subrange(i as int, n as int));
        }
        assert(all.subrange(0, n as int) =~= all);
        self.sent = Ghost(self.sent@.push(message@));
        delivered
    }

    /// Drops every subscriber whose queue is closed, keeping the others in
    /// order. The result says, per subscriber, whether its queue was open.
    pub fn prune_closed(&mut self) -> (open: Vec<bool>)
        ensures
            open@.len() == old(self)@.len(),
            final(self)@ == kept(old(self)@, open@),
            final(self).history() == old(self).history(),
            final(self).offered() == old(self).offered(),
    {
        let ghost all = self@;
        let mut open: Vec<bool> = Vec::new();
        let mut pending: Vec<Tx> = Vec::new();
        std::mem::swap(&mut pending, &mut self.subscribers);
        let n = pending.len();
        let mut i: usize = 0;
        while i < n
            invariant
                n == all.len(),
                i <= n,
                pending@ == all.subrange(i as int, n as int),
                self.sent == old(self).sent,
                self.offers == old(self).offers,
                open@.len() == i,
                self.subscribers@ == kept(all.subrange(0, i as int), open@),
            decreases n - i,
        {
            let tx = pending.remove(0);
            let closed = queue_closed(&tx);
            proof {
                lemma_kept_step(all, open@, i as int, !closed);
            }
            if !closed {
                self.subscribers.push(tx);
            }
            open.push(!closed);
            i = i + 1;
            assert(pending@ =~= all.subrange(i as int, n as int));
        }
        assert(all.subrange(0, n as int) =~= all);
        open
    }
}

} // verus!
