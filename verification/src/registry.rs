//! The symbol registry: a global id and arity table for every declared
//! function.
//!
//! Entries are keyed by the hashed symbol of the function's source name
//! (see [`crate::symbols`]) and inserted once per declaration, before any
//! body is translated, so call sites can resolve forward and mutual
//! references.  A later declaration of the same name overrides the earlier
//! one.

use vstd::prelude::*;

verus! {

use crate::symbols::symbol_of;
use crate::symbols::symbol_spec;

/// What a call site needs to know about a callee: its native function id
/// and how many parameters and results it takes.
#[derive(Debug, Clone, Copy, PartialEq, Eq, Structural)]
pub struct FuncInfo {
    /// Index of the function in the compiled module's function table.
    pub id: usize,
    /// Number of value parameters.
    pub params: usize,
    /// Number of results: 0 or 1.
    pub returns: usize,
}

/// One registry entry: a hashed symbol and the callee facts it maps to.
#[derive(Debug)]
pub struct RegEntry {
    pub symbol: String,
    pub info: FuncInfo,
}

/// The registry's mathematical content: hashed symbols paired with callee
/// facts, in declaration order.
pub type RegView = Seq<(Seq<char>, FuncInfo)>;

/// The function the registry denotes for `key`: the info of the last entry
/// with that symbol, if any.
pub open spec fn reg_lookup(s: RegView, key: Seq<char>) -> Option<FuncInfo>
    decreases s.len(),
{
    if s.len() == 0 {
        None
    } else if s.last().0 == key {
        Some(s.last().1)
    } else {
        reg_lookup(s.drop_last(), key)
    }
}

/// The deterministic symbol-to-function table consulted by every call
/// site.
#[derive(Debug)]
pub struct Registry {
    pub entries: Vec<RegEntry>,
}

impl View for Registry {
    type V = RegView;

    open spec fn view(&self) -> RegView {
        self.entries@.map_values(|e: RegEntry| (e.symbol@, e.info))
    }
}

impl Registry {
    /// The empty registry.
    pub fn new() -> (r: Registry)
        ensures
            r@.len() == 0,
    {
        let r = Registry { entries: Vec::new() };
        proof {
            assert(r@ =~= Seq::<(Seq<char>, FuncInfo)>::empty());
        }
        r
    }

    /// Declare a function: hash its source name and record its id and
    /// arities under the resulting symbol.
    pub fn register(&mut self, name: &str, id: usize, params: usize, returns: usize)
        ensures
            final(self)@ == old(self)@.push(
                (symbol_spec(name@), FuncInfo { id, params, returns }),
            ),
            reg_lookup(final(self)@, symbol_spec(name@)) == Some(FuncInfo { id, params, returns }),
    {
        let symbol = symbol_of(name);
        let entry = RegEntry { symbol, info: FuncInfo { id, params, returns } };
        self.entries.push(entry);
        proof {
            assert(final(self)@ =~= old(self)@.push(
                (symbol_spec(name@), FuncInfo { id, params, returns }),
            ));
            assert(final(self)@.drop_last() =~= old(self)@);
        }
    }

    /// Resolve a source name through the registry: hash it and look the
    /// symbol up.
    pub fn resolve(&self, name: &str) -> (r: Option<FuncInfo>)
        ensures
            r == reg_lookup(self@, symbol_spec(name@)),
    {
        let symbol = symbol_of(name);
        self.lookup_symbol(&symbol)
    }

    /// Look a hashed symbol up, last declaration winning.
    pub fn lookup_symbol(&self, symbol: &String) -> (r: Option<FuncInfo>)
        ensures
            r == reg_lookup(self@, symbol@),
    {
        let n = self.entries.len();
        let mut j: usize = n;
        proof {
            assert(self@.take(n as int) =~= self@);
        }
        while j > 0
            invariant
                j <= n,
                n == self.entries@.len(),
                n == self@.len(),
                reg_lookup(self@, symbol@) == reg_lookup(self@.take(j as int), symbol@),
            decreases j,
        {
            j = j - 1;
            if self.entries[j].symbol == *symbol {
                proof {
                    assert(self@.take(j as int + 1).last() == self@[j as int]);
                    assert(self@[j as int].0 == self.entries@[j as int].symbol@);
                }
                return Some(self.entries[j].info);
            }
            proof {
                assert(self@[j as int].0 == self.entries@[j as int].symbol@);
                assert(self@.take(j as int + 1).last() == self@[j as int]);
                assert(self@.take(j as int + 1).drop_last() =~= self@.take(j as int));
            }
        }
        proof {
            assert(self@.take(0) =~= Seq::<(Seq<char>, FuncInfo)>::empty());
        }
        None
    }
}

} // verus!
