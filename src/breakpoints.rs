use vstd::prelude::*;
use std::collections::HashMap;
use std::sync::Arc;

verus! {

broadcast use vstd::std_specs::hash::group_hash_axioms;

/// Breakpoint callbacks keyed by the instruction address they stop at.
pub struct BreakpointTable<C> {
    entries: HashMap<u64, C>,
}

impl<C> View for BreakpointTable<C> {
    type V = Map<u64, C>;

    closed spec fn view(&self) -> Map<u64, C> {
        self.entries@
    }
}

impl<C> BreakpointTable<C> {
    /// A table with no breakpoint.
    pub fn new() -> (t: Self)
        ensures
            t@ == Map::<u64, C>::empty(),
    {
        BreakpointTable { entries: HashMap::new() }
    }

    /// Registers `callback` at instruction address `addr`, replacing any
    /// callback registered there before.
    pub fn insert(&mut self, addr: u64, callback: C)
        ensures
            final(self)@ == old(self)@.insert(addr, callback),
    {
        self.entries.insert(addr, callback);
    }

    /// The callback registered at `addr`, if any.
    pub fn get(&self, addr: u64) -> (r: Option<&C>)
        ensures
            match r {
                Some(c) => self@.contains_key(addr) && self@[addr] == *c,
                None => !self@.contains_key(addr),
            },
    {
        self.entries.get(&addr)
    }
}

/// The callback that a debug trap at `ip` runs, given the tables live on the
/// thread, innermost last: the innermost table that holds `ip` decides.
pub open spec fn dispatch<C>(tables: Seq<Map<u64, C>>, ip: u64) -> Option<C>
    decreases tables.len(),
{
    if tables.len() == 0 {
        None
    } else if tables.last().contains_key(ip) {
        Some(tables.last()[ip])
    } else {
        dispatch(tables.drop_last(), ip)
    }
}

/// The breakpoint tables of the protected calls live on one thread, pushed
/// on entry and popped on exit in strict reverse order.
pub struct BreakpointStack<C> {
    tables: Vec<Arc<BreakpointTable<C>>>,
}

impl<C> View for BreakpointStack<C> {
    type V = Seq<Map<u64, C>>;

    closed spec fn view(&self) -> Seq<Map<u64, C>> {
        self.tables@.map_values(|t: Arc<BreakpointTable<C>>| t@)
    }
}

impl<C> BreakpointStack<C> {
    /// A stack with no table.
    pub fn new() -> (s: Self)
        ensures
            s@ == Seq::<Map<u64, C>>::empty(),
    {
        BreakpointStack { tables: Vec::new() }
    }

    /// Number of tables on the stack.
    pub fn depth(&self) -> (n: usize)
        ensures
            n == self@.len(),
    {
        self.tables.len()
    }

    /// Pushes the table of a protected call that is being entered.
    pub fn push(&mut self, table: Arc<BreakpointTable<C>>)
        ensures
            final(self)@ == old(self)@.push(table@),
    {
        self.tables.push(table);
        proof {
            assert(final(self)@ =~= old(self)@.push(table@));
        }
    }

    /// Pops the table of the innermost protected call, which is leaving.
    pub fn pop(&mut self) -> (t: Option<Arc<BreakpointTable<C>>>)
        ensures
            old(self)@.len() == 0 ==> t is None && final(self)@ == old(self)@,
            old(self)@.len() > 0 ==> t is Some && t->0@ == old(self)@.last()
                && final(self)@ == old(self)@.drop_last(),
    {
        let t = self.tables.pop();
        proof {
            assert(final(self)@ =~= old(self)@.drop_last() || old(self)@.len() == 0);
        }
        t
    }

    /// The callback a debug trap at `ip` runs: tables are searched from the
    /// innermost outwards and the first that holds `ip` decides.
    pub fn lookup(&self, ip: u64) -> (r: Option<&C>)
        ensures
            match r {
                Some(c) => dispatch(self@, ip) == Some(*c),
                None => dispatch(self@, ip) is None,
            },
    {
        let mut i: usize = self.tables.len();
        proof {
            assert(self@.subrange(0, i as int) =~= self@);
        }
        while i > 0
            invariant
                i <= self.tables@.len(),
                self@.len() == self.tables@.len(),
                dispatch(self@, ip) == dispatch(self@.subrange(0, i as int), ip),
            decreases i,
        {
            let table: &BreakpointTable<C> = &self.tables[i - 1];
            let found = table.get(ip);
            proof {
                let prefix = self@.subrange(0, i as int);
                assert(prefix.last() == table@);
                assert(prefix.drop_last() =~= self@.subrange(0, i - 1));
            }
            if found.is_some() {
                return found;
            }
            i = i - 1;
        }
        proof {
            assert(self@.subrange(0, 0) =~= Seq::<Map<u64, C>>::empty());
        }
        None
    }
}

} // verus!
