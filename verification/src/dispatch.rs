//! The event dispatcher: ordered queues between the engine and its host.

use vstd::prelude::*;
use crate::store::User;

verus! {

/// An event for the host.
#[derive(Debug)]
pub enum SrvMsg {
    /// The login image is stored at this path and is to be shown.
    ShowVerifyImage(String),
    /// A direct contact is to be added to the contact list.
    AddContact(User),
}

/// What an event says, with texts in place of strings.
pub enum SrvMsgView {
    ShowVerifyImage(Seq<char>),
    /// The contact's identifier and display name.
    AddContact(Seq<char>, Seq<char>),
}

impl View for SrvMsg {
    type V = SrvMsgView;

    open spec fn view(&self) -> SrvMsgView {
        match *self {
            SrvMsg::ShowVerifyImage(p) => SrvMsgView::ShowVerifyImage(p@),
            SrvMsg::AddContact(u) => SrvMsgView::AddContact(u.user_name@, u.nick_name@),
        }
    }
}

/// The views of a list of events.
pub open spec fn events_view(l: Seq<SrvMsg>) -> Seq<SrvMsgView> {
    Seq::new(l.len(), |i: int| l[i]@)
}

/// A command from the host.
#[derive(Debug)]
pub enum CltMsg {
    /// A message is to be sent.
    SendMsg,
}

/// A first-in, first-out queue without a bound. Its view is the sequence of
/// waiting items, oldest first.
pub struct Queue<T> {
    pub items: Vec<T>,
}

impl<T> View for Queue<T> {
    type V = Seq<T>;

    open spec fn view(&self) -> Seq<T> {
        self.items@
    }
}

impl<T> Queue<T> {
    /// An empty queue.
    pub fn new() -> (r: Queue<T>)
        ensures
            r@ == Seq::<T>::empty(),
    {
        Queue { items: Vec::new() }
    }

    /// The number of waiting items.
    pub fn len(&self) -> (r: usize)
        ensures
            r == self@.len(),
    {
        self.items.len()
    }

    /// Puts an item behind all waiting ones.
    pub fn send(&mut self, item: T)
        ensures
            final(self)@ == old(self)@.push(item),
    {
        self.items.push(item);
    }

    /// Puts several items behind all waiting ones, in their order.
    pub fn send_all(&mut self, items: Vec<T>)
        ensures
            final(self)@ == old(self)@ + items@,
    {
        let mut items = items;
        self.items.append(&mut items);
    }

    /// Takes the oldest item, if there is one, and at most that one. On an
    /// empty queue nothing changes and nothing is waited for.
    pub fn try_recv(&mut self) -> (r: Option<T>)
        ensures
            old(self)@.len() == 0 ==> r.is_none() && final(self)@ == old(self)@,
            old(self)@.len() > 0 ==> r == Some(old(self)@[0]),
            old(self)@.len() > 0 ==> final(self)@ == old(self)@.drop_first(),
    {
        if self.items.len() == 0 {
            None
        } else {
            let item = self.items.remove(0);
            assert(self.items@ =~= old(self)@.drop_first());
            Some(item)
        }
    }
}

/// What is sent comes out in the order sent: after sending `a` and then
/// `b` into an empty queue, `a` is the first to leave and `b` the next.
pub proof fn lemma_queue_order<T>(a: T, b: T)
    ensures
        Seq::<T>::empty().push(a).push(b)[0] == a,
        Seq::<T>::empty().push(a).push(b).drop_first()[0] == b,
        Seq::<T>::empty().push(a).push(b).drop_first().drop_first().len() == 0,
{
}

} // verus!
