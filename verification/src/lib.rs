//! SCPI / IEEE 488.2 parser and command library.
//!
//! The parser reads ASCII program messages (`[u8]`) into tokens and
//! parameters; the response formatter writes ASCII response messages.

use vstd::prelude::*;

use crate::error::Error;
use crate::parser::tokenizer::{TokState, Tokenizer};

pub mod error;
pub mod expression;
pub mod ieee488;
pub mod option;
pub mod parser;
pub mod scpi1999;
pub mod tree;

verus! {

/// A basic device capable of executing commands and not much else
pub trait Device {
    /// Called when the parser encounters a syntax error or a command handler returns an error.
    fn handle_error(&mut self, err: Error);
}

/// Context in which to execute a message.
pub struct Context {
    /// Does output buffer contain data?
    pub mav: bool,
    /// The command handlers called in this context, oldest first (a ghost
    /// record): whether the query form was called, and where the parameter
    /// tokenizer stood.
    pub calls: Ghost<Seq<(bool, TokState)>>,
    /// What each command handler called in this context returned, oldest
    /// first, and where the tokenizer stood after it (a ghost record).
    pub results: Ghost<Seq<(Result<(), Error>, TokState)>>,
    /// What the device methods that command handlers handed their work to
    /// returned, oldest first (a ghost record).
    pub hooks: Ghost<Seq<Result<(), Error>>>,
    /// The errors handed to the device's error handler, oldest first (a
    /// ghost record).
    pub handled: Ghost<Seq<Error>>,
}

impl Default for Context {
    fn default() -> (c: Self)
        ensures
            !c.mav,
            c.calls@.len() == 0,
            c.results@.len() == 0,
            c.hooks@.len() == 0,
            c.handled@.len() == 0,
    {
        Context::new()
    }
}

impl Context {
    /// Create a new context
    pub fn new() -> (c: Self)
        ensures
            !c.mav,
            c.calls@.len() == 0,
            c.results@.len() == 0,
            c.hooks@.len() == 0,
            c.handled@.len() == 0,
    {
        Context {
            mav: false,
            calls: Ghost(Seq::empty()),
            results: Ghost(Seq::empty()),
            hooks: Ghost(Seq::empty()),
            handled: Ghost(Seq::empty()),
        }
    }

    /// Records a call of a command handler, in the query form or not, with
    /// its parameter tokenizer `params`: a ghost record, nothing is kept at
    /// run time.
    pub fn record_call(&mut self, query: bool, params: &Tokenizer)
        ensures
            final(self).calls@ == old(self).calls@.push((query, params.state())),
            final(self).results@ == old(self).results@,
            final(self).hooks@ == old(self).hooks@,
            final(self).handled@ == old(self).handled@,
            final(self).mav == old(self).mav,
    {
        self.calls = Ghost(self.calls@.push((query, params.state())));
    }

    /// Records what a command handler returned and where the tokenizer
    /// stood after it: a ghost record, nothing is kept at run time.
    pub fn record_return(&mut self, r: &Result<(), Error>, tokens: &Tokenizer)
        ensures
            final(self).results@ == old(self).results@.push((*r, tokens.state())),
            final(self).calls@ == old(self).calls@,
            final(self).handled@ == old(self).handled@,
            final(self).mav == old(self).mav,
    {
        self.results = Ghost(self.results@.push((*r, tokens.state())));
    }

    /// Records what a device method that a handler handed its work to
    /// returned: a ghost record, nothing is kept at run time.
    pub fn record_hook(&mut self, r: &Result<(), Error>)
        ensures
            final(self).hooks@ == old(self).hooks@.push(*r),
            final(self).calls@ == old(self).calls@,
            final(self).results@ == old(self).results@,
            final(self).handled@ == old(self).handled@,
            final(self).mav == old(self).mav,
    {
        self.hooks = Ghost(self.hooks@.push(*r));
    }

    /// Records an error handed to the device's error handler: a ghost
    /// record, nothing is kept at run time.
    pub fn record_handled(&mut self, e: &Error)
        ensures
            final(self).handled@ == old(self).handled@.push(*e),
            final(self).calls@ == old(self).calls@,
            final(self).results@ == old(self).results@,
            final(self).hooks@ == old(self).hooks@,
            final(self).mav == old(self).mav,
    {
        self.handled = Ghost(self.handled@.push(*e));
    }

    /// Returns true if output buffer contains data
    pub fn mav(&self) -> (b: bool)
        ensures
            b == self.mav,
    {
        self.mav
    }
}

} // verus!
