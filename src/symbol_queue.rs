use vstd::prelude::*;

use std::collections::VecDeque;

use crate::symbol::Symbol;

verus! {

/// What `pop_front` returns from a queue holding `q`.
pub open spec fn front_of(q: Seq<Symbol>) -> Option<Symbol> {
    if q.len() == 0 { None } else { Some(q[0]) }
}

/// What a queue holding `q` holds after `pop_front`.
pub open spec fn rest_of(q: Seq<Symbol>) -> Seq<Symbol> {
    if q.len() == 0 { q } else { q.drop_first() }
}

/// The symbols that `n` successive calls of `pop_front` return, in order,
/// leaving out the calls that found the queue empty.
pub open spec fn drained(q: Seq<Symbol>, n: nat) -> Seq<Symbol>
    decreases n,
{
    if n == 0 {
        Seq::empty()
    } else {
        match front_of(q) {
            None => Seq::empty(),
            Some(s) => seq![s] + drained(rest_of(q), (n - 1) as nat),
        }
    }
}

/// First-in first-out buffer of symbols between the frame producer and the
/// modulator. It has no capacity bound.
pub struct SymbolQueue {
    symbols: VecDeque<Symbol>,
}

impl View for SymbolQueue {
    type V = Seq<Symbol>;

    closed spec fn view(&self) -> Seq<Symbol> {
        self.symbols@
    }
}

impl SymbolQueue {
    pub fn new() -> (r: SymbolQueue)
        ensures
            r@ == Seq::<Symbol>::empty(),
    {
        SymbolQueue { symbols: VecDeque::new() }
    }

    /// Appends `symbols` at the back, in order.
    pub fn append(&mut self, symbols: &[Symbol])
        requires
            old(self)@.len() + symbols@.len() <= usize::MAX,
        ensures
            final(self)@ == old(self)@ + symbols@,
    {
        let mut i: usize = 0;
        while i < symbols.len()
            invariant
                i <= symbols@.len(),
                self@ == old(self)@ + symbols@.subrange(0, i as int),
            decreases symbols@.len() - i,
        {
            self.symbols.push_back(symbols[i]);
            proof {
                assert(symbols@.subrange(0, i + 1) =~= symbols@.subrange(0, i as int).push(symbols@[i as int]));
            }
            i = i + 1;
        }
        assert(symbols@.subrange(0, i as int) =~= symbols@);
    }

    /// Removes and returns the front symbol, or `None` when the queue is empty.
    pub fn pop_front(&mut self) -> (r: Option<Symbol>)
        ensures
            r == front_of(old(self)@),
            final(self)@ == rest_of(old(self)@),
    {
        let r = self.symbols.pop_front();
        proof {
            if old(self)@.len() > 0 {
                assert(old(self)@.subrange(1, old(self)@.len() as int) =~= old(self)@.drop_first());
            }
        }
        r
    }

    pub fn len(&self) -> (r: usize)
        ensures
            r == self@.len(),
    {
        self.symbols.len()
    }

    pub fn is_empty(&self) -> (r: bool)
        ensures
            r == (self@.len() == 0),
    {
        self.symbols.len() == 0
    }
}

/// Symbols leave the queue in the order in which they were appended: popping
/// as many times as there are symbols returns exactly the queued symbols
/// followed by the appended ones.
pub proof fn lemma_queue_fifo(queued: Seq<Symbol>, appended: Seq<Symbol>)
    ensures
        drained(queued + appended, queued.len() + appended.len()) == queued + appended,
{
    lemma_drain_all(queued + appended);
}

proof fn lemma_drain_all(q: Seq<Symbol>)
    ensures
        drained(q, q.len()) == q,
    decreases q.len(),
{
    if q.len() > 0 {
        lemma_drain_all(q.drop_first());
        assert(seq![q[0]] + q.drop_first() =~= q);
    } else {
        assert(q =~= Seq::<Symbol>::empty());
    }
}

} // verus!
