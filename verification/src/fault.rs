//! Errors with their causes.
use vstd::prelude::*;

use crate::text::{copy_texts, join, joined, texts};

verus! {

/// An error: what failed, followed by what caused it.
pub struct Fault {
    pub chain: Vec<String>,
}

impl View for Fault {
    type V = Seq<Seq<char>>;

    open spec fn view(&self) -> Seq<Seq<char>> {
        texts(self.chain@)
    }
}

/// The error `m` without a cause.
pub open spec fn fault_v(m: Seq<char>) -> Seq<Seq<char>> {
    seq![m]
}

/// The error `m` caused by `cause`.
pub open spec fn caused_v(m: Seq<char>, cause: Seq<Seq<char>>) -> Seq<Seq<char>> {
    seq![m] + cause
}

/// What failed, without the causes.
pub open spec fn top_v(f: Seq<Seq<char>>) -> Seq<char> {
    if f.len() == 0 {
        Seq::empty()
    } else {
        f[0]
    }
}

/// What failed and its causes, in one line.
pub open spec fn full_v(f: Seq<Seq<char>>) -> Seq<char> {
    joined(f, ": "@)
}

impl Fault {
    /// The error `m` without a cause.
    pub fn new(m: String) -> (r: Fault)
        ensures
            r@ == fault_v(m@),
    {
        let mut chain: Vec<String> = Vec::new();
        let ghost t = m@;
        chain.push(m);
        let r = Fault { chain };
        assert(r@ =~= fault_v(t));
        r
    }

    /// The error `m` without a cause.
    pub fn of(m: &str) -> (r: Fault)
        ensures
            r@ == fault_v(m@),
    {
        Fault::new(m.to_owned())
    }

    /// The error `m` caused by this one.
    pub fn because(self, m: &str) -> (r: Fault)
        ensures
            r@ == caused_v(m@, self@),
    {
        let mut chain = self.chain;
        let ghost before = texts(chain@);
        let t = m.to_owned();
        chain.insert(0, t);
        let r = Fault { chain };
        assert(r@ =~= seq![m@] + before);
        r
    }

    /// What failed, without the causes.
    pub fn top(&self) -> (r: String)
        ensures
            r@ == top_v(self@),
    {
        if self.chain.len() == 0 {
            String::new()
        } else {
            self.chain[0].clone()
        }
    }

    /// What failed and its causes, in one line.
    pub fn full(&self) -> (r: String)
        ensures
            r@ == full_v(self@),
    {
        join(&self.chain, ": ")
    }

    /// A copy.
    pub fn copy(&self) -> (r: Fault)
        ensures
            r@ == self@,
    {
        Fault { chain: copy_texts(&self.chain) }
    }
}

/// What a text or an error says.
pub open spec fn text_result(r: Result<String, Fault>) -> Result<Seq<char>, Seq<Seq<char>>> {
    match r {
        Ok(t) => Ok(t@),
        Err(f) => Err(f@),
    }
}

} // verus!
