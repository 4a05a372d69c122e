use std::collections::VecDeque;
use vstd::prelude::*;

verus! {

/// How many turns of conversation are kept.
pub const HISTORY_SIZE: usize = 10;

/// Who spoke a turn of the conversation.
#[derive(Clone, Copy, Debug, PartialEq, Eq, Structural)]
pub enum Role {
    User,
    Assistant,
}

impl Role {
    /// The role tag a completion request carries.
    pub fn tag(&self) -> (r: &'static str)
        ensures
            r@ == role_tag(*self),
    {
        match self {
            Role::User => "user",
            Role::Assistant => "assistant",
        }
    }
}

pub open spec fn role_tag(r: Role) -> Seq<char> {
    match r {
        Role::User => "user"@,
        Role::Assistant => "assistant"@,
    }
}

/// One turn of the conversation.
pub struct HistoryEntry {
    pub role: Role,
    pub content: String,
}

/// The history after `e` is recorded in `h`: `e` goes in front and, when
/// the buffer is full, the oldest entry (at the back) leaves.
pub open spec fn pushed(h: Seq<HistoryEntry>, e: HistoryEntry) -> Seq<HistoryEntry> {
    if h.len() >= HISTORY_SIZE {
        seq![e] + h.drop_last()
    } else {
        seq![e] + h
    }
}

/// The history after each of `es` is recorded in turn.
pub open spec fn pushed_all(h: Seq<HistoryEntry>, es: Seq<HistoryEntry>) -> Seq<HistoryEntry>
    decreases es.len(),
{
    if es.len() == 0 {
        h
    } else {
        pushed(pushed_all(h, es.drop_last()), es.last())
    }
}

/// The last `min(|s|, HISTORY_SIZE)` items of `s`.
pub open spec fn latest(s: Seq<HistoryEntry>) -> Seq<HistoryEntry> {
    if s.len() > HISTORY_SIZE {
        s.subrange(s.len() - HISTORY_SIZE, s.len() as int)
    } else {
        s
    }
}

/// The recent turns of the conversation, most recent first, at most
/// `HISTORY_SIZE` of them.
pub struct History {
    entries: VecDeque<HistoryEntry>,
}

impl View for History {
    type V = Seq<HistoryEntry>;

    closed spec fn view(&self) -> Seq<HistoryEntry> {
        self.entries@
    }
}

impl History {
    /// A history never holds more than `HISTORY_SIZE` entries.
    pub open spec fn wf(&self) -> bool {
        self@.len() <= HISTORY_SIZE
    }

    /// An empty history.
    pub fn new() -> (r: Self)
        ensures
            r@ == Seq::<HistoryEntry>::empty(),
            r.wf(),
    {
        History { entries: VecDeque::with_capacity(HISTORY_SIZE) }
    }

    pub fn len(&self) -> (r: usize)
        ensures
            r == self@.len(),
    {
        self.entries.len()
    }

    /// Records a turn, dropping the oldest one when the history is full.
    pub fn push(&mut self, role: Role, content: String)
        requires
            old(self).wf(),
        ensures
            final(self)@ == pushed(old(self)@, HistoryEntry { role, content }),
            final(self).wf(),
    {
        if self.entries.len() >= HISTORY_SIZE {
            self.entries.pop_back();
        }
        self.entries.push_front(HistoryEntry { role, content });
    }

    /// The recorded turns as a completion request carries them: most recent
    /// first, the reverse of the order in which they were recorded.
    pub fn messages(&self) -> (r: Vec<HistoryEntry>)
        ensures
            r@ == self@,
    {
        let mut r: Vec<HistoryEntry> = Vec::new();
        let n = self.entries.len();
        let mut i: usize = 0;
        while i < n
            invariant
                n == self@.len(),
                0 <= i <= n,
                r@ == self@.subrange(0, i as int),
            decreases n - i,
        {
            let e = &self.entries[i];
            r.push(HistoryEntry { role: e.role, content: e.content.clone() });
            proof {
                assert(r@ =~= self@.subrange(0, i + 1));
            }
            i = i + 1;
        }
        assert(r@ =~= self@);
        r
    }
}

/// Recording entries one after another into a history that holds at most
/// `HISTORY_SIZE` keeps exactly the `HISTORY_SIZE` most recent of all
/// entries seen, with the most recent first: the reverse of the order in
/// which they were recorded.
pub proof fn lemma_history_keeps_latest(h: Seq<HistoryEntry>, es: Seq<HistoryEntry>)
    requires
        h.len() <= HISTORY_SIZE,
    ensures
        pushed_all(h, es) == latest(h.reverse() + es).reverse(),
    decreases es.len(),
{
    if es.len() == 0 {
        assert(h.reverse() + es =~= h.reverse());
        assert(h.reverse().reverse() =~= h);
    } else {
        let prev = es.drop_last();
        let e = es.last();
        lemma_history_keeps_latest(h, prev);
        let s = h.reverse() + prev;
        assert(h.reverse() + es =~= s.push(e));
        let l = latest(s);
        assert(l.reverse().len() == l.len());
        if s.len() >= HISTORY_SIZE {
            assert(latest(s.push(e)) =~= l.drop_first().push(e));
            assert(seq![e] + l.reverse().drop_last() =~= l.drop_first().push(e).reverse());
        } else {
            assert(latest(s.push(e)) =~= l.push(e));
            assert(seq![e] + l.reverse() =~= l.push(e).reverse());
        }
    }
}

} // verus!
