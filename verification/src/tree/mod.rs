//! A SCPI command tree consisting of command nodes and handlers.
//!
//! See chapter 6 of the SCPI standard for guidelines on headers and command
//! trees. Each node stands for a header mnemonic; a leaf holds the handler
//! of both the event and the query form of its command.

use vstd::prelude::*;

use crate::error::{Error, ErrorCode, Result};
use crate::parser::parameters::Parameters;
use crate::parser::response::Formatter;
use crate::parser::token::{SpecToken, Token};
use crate::parser::util::span;
use crate::parser::tokenizer::{ws_p, lemma_unit_separator, lemma_skip_skip, lemma_message_end, lemma_step_state, lemma_token_progress, lex_next, tok_step, view_next, TokState, Tokenizer};
use crate::{Context, Device};

use self::command::Command;

pub mod command;

verus! {

/// A SCPI command node.
/// These nodes are structured as a command tree where each node represent a SCPI header mnemonic.
///
/// `H` is the type of the command handlers: a command of the library, or an
/// enum of the device's own commands.
pub enum Node<'a, H> {
    /// A leaf node which can be called or queried.
    Leaf {
        /// Mnemonic of this leaf
        name: &'static [u8],
        /// Default node, will be executed if the branch immediately above is executed.
        /// Only one default node is allowed in each branch.
        default: bool,
        /// Command handler
        handler: &'a H,
    },
    /// A branch which contains one or more leaves.
    Branch {
        /// Mnemonic of this branch
        name: &'static [u8],
        /// Default node.
        default: bool,
        /// Child nodes
        /// **Note:** Default node must be first!
        sub: &'a [Node<'a, H>],
    },
}

/// Where routing a header through the tree ends: the handler and whether
/// the query form was named (or the error), the tokenizer state after the
/// header, and the branch that later headers of the message are relative to.
pub struct Route<'a, H> {
    pub result: core::result::Result<(&'a H, bool), ErrorCode>,
    pub after: TokState,
    pub leaf: Node<'a, H>,
}

/// `i` is where a message unit of `buffer` can start: at the start, or
/// after a `;` and the whitespace that follows it.
pub open spec fn unit_start(buffer: Seq<u8>, i: int) -> bool {
    ||| i == 0
    ||| exists|j: int| 0 <= j < buffer.len() && buffer[j] == 59 && i == j + 1 + span(#[trigger] buffer.skip(j + 1), ws_p())
}

/// A state of the tokenizer where the header of a unit of `buffer` is
/// routed from: the start of the unit, or after its leading `:`.
pub open spec fn unit_state(buffer: Seq<u8>, st: TokState) -> bool {
    exists|i: int| 0 <= i <= buffer.len() && unit_start(buffer, i) && {
        let s0 = (buffer.skip(i), true, false);
        ||| st == s0
        ||| tok_step(s0).0 == Some(Ok::<SpecToken, ErrorCode>(SpecToken::HeaderMnemonicSeparator)) && st == tok_step(s0).1
    }
}

/// The index of the first node of `sub` that satisfies `p`.
pub open spec fn first_index<'a, H>(sub: Seq<Node<'a, H>>, p: spec_fn(Node<'a, H>) -> bool) -> Option<int>
    decreases sub.len(),
{
    if sub.len() == 0 {
        None
    } else if p(sub[0]) {
        Some(0)
    } else {
        match first_index(sub.drop_first(), p) {
            Some(i) => Some(i + 1),
            None => None,
        }
    }
}

pub proof fn lemma_first_index<'a, H>(sub: Seq<Node<'a, H>>, p: spec_fn(Node<'a, H>) -> bool)
    ensures
        match first_index(sub, p) {
            Some(i) => 0 <= i < sub.len() && p(sub[i]) && forall|j: int| 0 <= j < i ==> !p(#[trigger] sub[j]),
            None => forall|j: int| 0 <= j < sub.len() ==> !p(#[trigger] sub[j]),
        },
    decreases sub.len(),
{
    if sub.len() > 0 && !p(sub[0]) {
        let rest = sub.drop_first();
        lemma_first_index(rest, p);
        assert forall|j: int| 0 < j < sub.len() implies sub[j] == rest[j - 1] by {}
    }
}

/// The nodes whose name `token` matches.
pub open spec fn named<'a, H>(token: SpecToken) -> spec_fn(Node<'a, H>) -> bool {
    |n: Node<'a, H>| token.matches_header(n.name_view())
}

/// Default leaves.
pub open spec fn default_leaf<'a, H>() -> spec_fn(Node<'a, H>) -> bool {
    |n: Node<'a, H>| n matches Node::Leaf { default: true, .. }
}

/// Default branches.
pub open spec fn default_branch<'a, H>() -> spec_fn(Node<'a, H>) -> bool {
    |n: Node<'a, H>| n matches Node::Branch { default: true, .. }
}

impl<'a, H> Node<'a, H> {
    /// The node's mnemonic.
    pub open spec fn name_view(self) -> Seq<u8> {
        match self {
            Node::Leaf { name, .. } => name@,
            Node::Branch { name, .. } => name@,
        }
    }

    /// The tree has fewer than `depth` levels of branches.
    pub open spec fn ready<D: Device>(self, depth: nat) -> bool
        where
            H: Command<D>,
        decreases depth,
    {
        match self {
            Node::Leaf { .. } => true,
            Node::Branch { sub, .. } => depth > 0 && forall|i: int| 0 <= i < sub@.len()
                ==> (#[trigger] sub@[i]).ready::<D>((depth - 1) as nat),
        }
    }

    /// `n` is this node or a node of its tree at most `k` levels down.
    pub open spec fn within(self, n: Node<'a, H>, k: nat) -> bool
        decreases k,
    {
        ||| n == self
        ||| k > 0 && match self {
            Node::Branch { sub, .. } => exists|i: int| 0 <= i < sub@.len() && (#[trigger] sub@[i]).within(n, (k - 1) as nat),
            Node::Leaf { .. } => false,
        }
    }

    /// Every handler that the header of a unit of the message `buffer` can
    /// be routed to, from any node of the tree, can run: a message whose
    /// units reach no unfinished handler can be run.
    pub open spec fn runs_implemented<D: Device>(self, buffer: Seq<u8>, depth: nat) -> bool
        where
            H: Command<D>,
    {
        forall|n: Node<'a, H>, k: nat, st: TokState|
            #[trigger] self.within(n, k) && unit_state(buffer, st)
                && (#[trigger] n.route(n, st, depth)).result is Ok
                ==> n.route(n, st, depth).result->Ok_0.0.implemented()
    }

    /// Routes the header at `st` from this node, `leaf` being the branch
    /// that the header is relative to.
    ///
    /// At a leaf, the header ends: with `?` it names the query form (a
    /// header separator after it is read too), else the event form; a
    /// further mnemonic is an [`ErrorCode::UndefinedHeader`]. At a branch, a
    /// mnemonic (after an optional `:`) selects the first child it matches,
    /// else the default branch; at the end of the header, the default leaf,
    /// else the default branch, is taken. Tokenizer errors are returned as
    /// they come.
    pub open spec fn route(self, leaf: Node<'a, H>, st: TokState, depth: nat) -> Route<'a, H>
        decreases depth,
    {
        let (peeked, st1) = tok_step(st);
        match peeked {
            Some(Err(e)) => Route { result: Err(e), after: st, leaf },
            _ => match self {
                Node::Leaf { handler, .. } => match peeked {
                    Some(Ok(SpecToken::ProgramHeaderSeparator)) => Route { result: Ok((handler, false)), after: st1, leaf },
                    Some(Ok(SpecToken::ProgramMessageUnitSeparator)) => Route { result: Ok((handler, false)), after: st, leaf },
                    None => Route { result: Ok((handler, false)), after: st, leaf },
                    Some(Ok(SpecToken::HeaderQuerySuffix)) => {
                        let (t2, st2) = tok_step(st1);
                        Route {
                            result: Ok((handler, true)),
                            after: if t2 == Some(Ok::<SpecToken, ErrorCode>(SpecToken::ProgramHeaderSeparator)) { st2 } else { st1 },
                            leaf,
                        }
                    },
                    Some(Ok(SpecToken::HeaderMnemonicSeparator)) => Route { result: Err(ErrorCode::UndefinedHeader), after: st, leaf },
                    Some(Ok(SpecToken::ProgramMnemonic(_))) => Route { result: Err(ErrorCode::UndefinedHeader), after: st, leaf },
                    _ => Route { result: Err(ErrorCode::SyntaxError), after: st, leaf },
                },
                Node::Branch { sub, .. } => {
                    if peeked == Some(Ok::<SpecToken, ErrorCode>(SpecToken::HeaderMnemonicSeparator))
                        || peeked matches Some(Ok(SpecToken::ProgramMnemonic(_))) {
                        let st2 = if peeked == Some(Ok::<SpecToken, ErrorCode>(SpecToken::HeaderMnemonicSeparator)) { st1 } else { st };
                        let (t3, st3) = tok_step(st2);
                        match t3 {
                            Some(Ok(SpecToken::ProgramMnemonic(m))) => {
                                if depth == 0 {
                                    Route { result: Err(ErrorCode::UndefinedHeader), after: st2, leaf: self }
                                } else {
                                    match first_index(sub@, named(SpecToken::ProgramMnemonic(m))) {
                                        Some(i) => sub@[i].route(self, st3, (depth - 1) as nat),
                                        None => match first_index(sub@, default_branch()) {
                                            Some(i) => sub@[i].route(self, st2, (depth - 1) as nat),
                                            None => Route { result: Err(ErrorCode::UndefinedHeader), after: st2, leaf: self },
                                        },
                                    }
                                }
                            },
                            Some(Err(e)) => Route { result: Err(e), after: st2, leaf },
                            _ => Route { result: Err(ErrorCode::CommandHeaderError), after: st2, leaf },
                        }
                    } else if peeked is None || peeked == Some(Ok::<SpecToken, ErrorCode>(SpecToken::ProgramHeaderSeparator))
                        || peeked == Some(Ok::<SpecToken, ErrorCode>(SpecToken::ProgramMessageUnitSeparator))
                        || peeked == Some(Ok::<SpecToken, ErrorCode>(SpecToken::HeaderQuerySuffix)) {
                        if depth == 0 {
                            Route { result: Err(ErrorCode::UndefinedHeader), after: st, leaf }
                        } else {
                            match first_index(sub@, default_leaf()) {
                                Some(i) => sub@[i].route(leaf, st, (depth - 1) as nat),
                                None => match first_index(sub@, default_branch()) {
                                    Some(i) => sub@[i].route(leaf, st, (depth - 1) as nat),
                                    None => Route { result: Err(ErrorCode::UndefinedHeader), after: st, leaf },
                                },
                            }
                        }
                    } else {
                        Route { result: Err(ErrorCode::SyntaxError), after: st, leaf }
                    }
                },
            },
        }
    }
}

/// What a header routes to does not depend on the branch it is relative
/// to; only the branch that later headers are relative to does.
pub proof fn lemma_route_result_any_leaf<'a, H>(n: Node<'a, H>, l1: Node<'a, H>, l2: Node<'a, H>, st: TokState, d: nat)
    ensures
        n.route(l1, st, d).result == n.route(l2, st, d).result,
        n.route(l1, st, d).after == n.route(l2, st, d).after,
    decreases d,
{
    if let Node::Branch { sub, .. } = n {
        if d > 0 {
            if let Some(i) = first_index(sub@, default_leaf()) {
                lemma_first_index(sub@, default_leaf());
                lemma_route_result_any_leaf(sub@[i], l1, l2, st, (d - 1) as nat);
            }
            if let Some(i) = first_index(sub@, default_branch()) {
                lemma_first_index(sub@, default_branch());
                lemma_route_result_any_leaf(sub@[i], l1, l2, st, (d - 1) as nat);
            }
        }
    }
}

/// Within is transitive.
pub proof fn lemma_within_trans<'a, H>(a: Node<'a, H>, b: Node<'a, H>, c: Node<'a, H>, k1: nat, k2: nat)
    requires
        a.within(b, k1),
        b.within(c, k2),
    ensures
        a.within(c, k1 + k2),
    decreases k1,
{
    if b == a {
        lemma_within_more(a, c, k2, k1 + k2);
    } else {
        if let Node::Branch { sub, .. } = a {
            let i = choose|i: int| 0 <= i < sub@.len() && (#[trigger] sub@[i]).within(b, (k1 - 1) as nat);
            lemma_within_trans(sub@[i], b, c, (k1 - 1) as nat, k2);
            assert(sub@[i].within(c, (k1 + k2 - 1) as nat));
        }
    }
}

/// Within `k` levels is within more.
pub proof fn lemma_within_more<'a, H>(a: Node<'a, H>, c: Node<'a, H>, k: nat, m: nat)
    requires
        a.within(c, k),
        k <= m,
    ensures
        a.within(c, m),
    decreases k,
{
    if c != a {
        if let Node::Branch { sub, .. } = a {
            let i = choose|i: int| 0 <= i < sub@.len() && (#[trigger] sub@[i]).within(c, (k - 1) as nat);
            lemma_within_more(sub@[i], c, (k - 1) as nat, (m - 1) as nat);
        }
    }
}

/// The branch that later headers are relative to, after routing, is the
/// one given or a node of the tree routed through.
pub proof fn lemma_route_leaf_within<'a, H>(n: Node<'a, H>, leaf: Node<'a, H>, st: TokState, d: nat)
    ensures
        n.route(leaf, st, d).leaf == leaf || n.within(n.route(leaf, st, d).leaf, d),
    decreases d,
{
    if let Node::Branch { sub, .. } = n {
        if d > 0 {
            let (peeked, st1) = tok_step(st);
            let st2 = if peeked == Some(Ok::<SpecToken, ErrorCode>(SpecToken::HeaderMnemonicSeparator)) { st1 } else { st };
            let (t3, st3) = tok_step(st2);
            if let Some(Ok(SpecToken::ProgramMnemonic(m))) = t3 {
                if let Some(i) = first_index(sub@, named(SpecToken::ProgramMnemonic(m))) {
                    lemma_first_index(sub@, named(SpecToken::ProgramMnemonic(m)));
                    lemma_route_leaf_within(sub@[i], n, st3, (d - 1) as nat);
                }
                if let Some(i) = first_index(sub@, default_branch()) {
                    lemma_first_index(sub@, default_branch());
                    lemma_route_leaf_within(sub@[i], n, st2, (d - 1) as nat);
                }
            }
            if let Some(i) = first_index(sub@, default_leaf()) {
                lemma_first_index(sub@, default_leaf());
                lemma_route_leaf_within(sub@[i], leaf, st, (d - 1) as nat);
            }
            if let Some(i) = first_index(sub@, default_branch()) {
                lemma_first_index(sub@, default_branch());
                lemma_route_leaf_within(sub@[i], leaf, st, (d - 1) as nat);
            }
        }
    }
}

/// A default branch may be left out of a header: where a mnemonic `m`
/// names no child of a branch, the header is routed as if the name of the
/// branch's (first) default branch had been written before it. `st_short`
/// is the header `m...`, `st_long` the header `<name>:m...`, whose name is
/// the first child that it matches.
pub proof fn lemma_default_branch_optional<'a, H>(
    n: Node<'a, H>,
    leaf: Node<'a, H>,
    st_short: TokState,
    st_long: TokState,
    after_name: TokState,
    m: Seq<u8>,
    name: Seq<u8>,
    k: int,
    d: nat,
)
    requires
        n is Branch,
        d > 1,
        tok_step(st_short).0 == Some(Ok::<SpecToken, ErrorCode>(SpecToken::ProgramMnemonic(m))),
        tok_step(st_long) == (Some(Ok::<SpecToken, ErrorCode>(SpecToken::ProgramMnemonic(name))), after_name),
        tok_step(after_name) == (Some(Ok::<SpecToken, ErrorCode>(SpecToken::HeaderMnemonicSeparator)), st_short),
        ({
            let sub = n->Branch_sub@;
            &&& first_index(sub, named(SpecToken::ProgramMnemonic(m))) is None
            &&& first_index(sub, default_branch()) == Some(k)
            &&& first_index(sub, named(SpecToken::ProgramMnemonic(name))) == Some(k)
        }),
    ensures
        n.route(leaf, st_short, d) == n.route(leaf, st_long, d),
{
    let sub = n->Branch_sub@;
    lemma_first_index(sub, default_branch());
    let b = sub[k];
    assert((default_branch::<'a, H>())(b));
    assert(b is Branch);
    assert(n.route(leaf, st_short, d) == b.route(n, st_short, (d - 1) as nat));
    assert(n.route(leaf, st_long, d) == b.route(n, after_name, (d - 1) as nat));
    assert(b.route(n, st_short, (d - 1) as nat) == b.route(n, after_name, (d - 1) as nat));
}

/// A ready tree stays ready with more room.
pub proof fn lemma_ready_mono<'a, H: Command<D>, D: Device>(n: Node<'a, H>, d: nat, e: nat)
    requires
        n.ready::<D>(d),
        d <= e,
    ensures
        n.ready::<D>(e),
    decreases d,
{
    if let Node::Branch { sub, .. } = n {
        assert forall|i: int| 0 <= i < sub@.len() implies (#[trigger] sub@[i]).ready::<D>((e - 1) as nat) by {
            lemma_ready_mono::<H, D>(sub@[i], (d - 1) as nat, (e - 1) as nat);
        }
    }
}

/// Routing keeps the branch that later headers are relative to within the
/// tree: it is the one given, or a branch of the tree.
pub proof fn lemma_route_leaf_ready<'a, H: Command<D>, D: Device>(n: Node<'a, H>, leaf: Node<'a, H>, st: TokState, d: nat, e: nat)
    requires
        n.ready::<D>(d),
        leaf.ready::<D>(e),
        d <= e,
    ensures
        n.route(leaf, st, d).leaf.ready::<D>(e),
    decreases d,
{
    lemma_ready_mono::<H, D>(n, d, e);
    if let Node::Branch { sub, .. } = n {
        if d > 0 {
            lemma_first_index(sub@, default_leaf());
            lemma_first_index(sub@, default_branch());
            let (peeked, st1) = tok_step(st);
            let st2 = if peeked == Some(Ok::<SpecToken, ErrorCode>(SpecToken::HeaderMnemonicSeparator)) { st1 } else { st };
            let (t3, st3) = tok_step(st2);
            if let Some(Ok(SpecToken::ProgramMnemonic(m))) = t3 {
                lemma_first_index(sub@, named(SpecToken::ProgramMnemonic(m)));
                if let Some(i) = first_index(sub@, named(SpecToken::ProgramMnemonic(m))) {
                    lemma_route_leaf_ready::<H, D>(sub@[i], n, st3, (d - 1) as nat, e);
                }
                if let Some(i) = first_index(sub@, default_branch()) {
                    lemma_route_leaf_ready::<H, D>(sub@[i], n, st2, (d - 1) as nat, e);
                }
            }
            if let Some(i) = first_index(sub@, default_leaf()) {
                lemma_route_leaf_ready::<H, D>(sub@[i], leaf, st, (d - 1) as nat, e);
            }
            if let Some(i) = first_index(sub@, default_branch()) {
                lemma_route_leaf_ready::<H, D>(sub@[i], leaf, st, (d - 1) as nat, e);
            }
        }
    }
}

} // verus!

verus! {

impl<'a, H> Node<'a, H> {
    /// Create a leaf node
    pub fn leaf(name: &'static [u8], handler: &'a H) -> (n: Self)
        ensures
            n == (Node::Leaf { name, default: false, handler }),
    {
        Self::Leaf { name, default: false, handler }
    }

    /// Create a default leaf node
    pub fn default_leaf(name: &'static [u8], handler: &'a H) -> (n: Self)
        ensures
            n == (Node::Leaf { name, default: true, handler }),
    {
        Self::Leaf { name, default: true, handler }
    }

    /// Create a branch node
    pub fn branch(name: &'static [u8], sub: &'a [Node<'a, H>]) -> (n: Self)
        ensures
            n == (Node::Branch { name, default: false, sub }),
    {
        Self::Branch { name, default: false, sub }
    }

    /// Create a default branch node
    pub fn default_branch(name: &'static [u8], sub: &'a [Node<'a, H>]) -> (n: Self)
        ensures
            n == (Node::Branch { name, default: true, sub }),
    {
        Self::Branch { name, default: true, sub }
    }

    /// Create a root node: a branch without a name.
    pub fn root(sub: &'a [Node<'a, H>]) -> (n: Self)
        ensures
            n == (Node::Branch { name: &[], default: false, sub }),
    {
        Self::Branch { name: &[], default: false, sub }
    }

    /// The node's mnemonic.
    pub fn name(&self) -> (r: &'static [u8])
        ensures
            r@ == self.name_view(),
    {
        match self {
            Self::Leaf { name, .. } => name,
            Self::Branch { name, .. } => name,
        }
    }
}

/// The first node of `sub` whose name `mnemonic` matches.
fn find_named<'a, H>(sub: &'a [Node<'a, H>], mnemonic: &Token) -> (r: Option<&'a Node<'a, H>>)
    ensures
        match first_index(sub@, named(mnemonic@)) {
            Some(i) => 0 <= i < sub@.len() && (r matches Some(n) && *n == sub@[i]),
            None => r is None,
        },
{
    let mut i: usize = 0;
    while i < sub.len()
        invariant
            i <= sub@.len(),
            forall|j: int| 0 <= j < i ==> !(named::<'a, H>(mnemonic@))(#[trigger] sub@[j]),
        decreases sub.len() - i,
    {
        if mnemonic.match_program_header(sub[i].name()) {
            proof {
                lemma_first_index(sub@, named(mnemonic@));
                assert((named::<'a, H>(mnemonic@))(sub@[i as int]));
                if let Some(k) = first_index(sub@, named(mnemonic@)) {
                    assert(k == i as int);
                }
            }
            return Some(&sub[i]);
        }
        i += 1;
    }
    proof {
        lemma_first_index(sub@, named(mnemonic@));
    }
    None
}

/// The first default leaf of `sub`.
fn find_default_leaf<'a, H>(sub: &'a [Node<'a, H>]) -> (r: Option<&'a Node<'a, H>>)
    ensures
        match first_index(sub@, default_leaf()) {
            Some(i) => 0 <= i < sub@.len() && (r matches Some(n) && *n == sub@[i]),
            None => r is None,
        },
{
    proof {
        lemma_first_index(sub@, default_leaf());
    }
    let mut i: usize = 0;
    while i < sub.len()
        invariant
            i <= sub@.len(),
            forall|j: int| 0 <= j < i ==> !(default_leaf::<'a, H>())(#[trigger] sub@[j]),
        decreases sub.len() - i,
    {
        if let Node::Leaf { default: true, .. } = &sub[i] {
            proof {
                lemma_first_index(sub@, default_leaf());
                assert((default_leaf::<'a, H>())(sub@[i as int]));
                if let Some(k) = first_index(sub@, default_leaf()) {
                    assert(k == i as int);
                }
            }
            return Some(&sub[i]);
        }
        i += 1;
    }
    proof {
        lemma_first_index(sub@, default_leaf());
        lemma_first_index(sub@, default_branch());
    }
    None
}

/// The first default branch of `sub`.
fn find_default_branch<'a, H>(sub: &'a [Node<'a, H>]) -> (r: Option<&'a Node<'a, H>>)
    ensures
        match first_index(sub@, default_branch()) {
            Some(i) => 0 <= i < sub@.len() && (r matches Some(n) && *n == sub@[i]),
            None => r is None,
        },
{
    proof {
        lemma_first_index(sub@, default_branch());
    }
    let mut i: usize = 0;
    while i < sub.len()
        invariant
            i <= sub@.len(),
            forall|j: int| 0 <= j < i ==> !(default_branch::<'a, H>())(#[trigger] sub@[j]),
        decreases sub.len() - i,
    {
        if let Node::Branch { default: true, .. } = &sub[i] {
            proof {
                lemma_first_index(sub@, default_branch());
                assert((default_branch::<'a, H>())(sub@[i as int]));
                if let Some(k) = first_index(sub@, default_branch()) {
                    assert(k == i as int);
                }
            }
            return Some(&sub[i]);
        }
        i += 1;
    }
    proof {
        lemma_first_index(sub@, default_leaf());
        lemma_first_index(sub@, default_branch());
    }
    None
}

} // verus!

verus! {

impl<'a, H> Node<'a, H> {
    /// Routes the header at the tokenizer (see [`Node::route`]) and calls
    /// the handler it names: the event form, or the query form with a new
    /// response unit.
    pub(crate) fn exec<'b, D: Device, F: Formatter>(
        &'a self,
        leaf: &mut &'a Node<'a, H>,
        device: &mut D,
        context: &mut Context,
        tokens: &mut Tokenizer<'b>,
        response: &mut F,
        Ghost(depth): Ghost<nat>,
    ) -> (r: Result<()>)
        where
            H: Command<D>,
        requires
            self.ready::<D>(depth),
            self.route(**old(leaf), old(tokens).state(), depth).result matches Ok((h, _)) ==> h.implemented(),
        ensures
            ({
                let rt = self.route(**old(leaf), old(tokens).state(), depth);
                &&& **final(leaf) == rt.leaf
                &&& match rt.result {
                    Err(e) => r == Err::<(), Error>(Error(e, None)) && final(tokens).state() == rt.after
                        && *final(device) == *old(device) && *final(response) == *old(response)
                        && final(context).calls@ == old(context).calls@
                        && final(context).results@ == old(context).results@,
                    // The handler is called in the routed form, with the
                    // parameters where the header ends; a query that finds no
                    // room for its response unit calls nothing.
                    Ok((_, query)) => {
                        &&& !query ==> *final(response) == *old(response)
                        &&& (final(context).calls@ == old(context).calls@.push((query, rt.after))
                                && final(context).results@ == old(context).results@.push((r, final(tokens).state()))
                            || (query && final(context).calls@ == old(context).calls@ && r is Err
                                && final(context).results@ == old(context).results@
                                && !old(response).accepts(1) && *final(response) == *old(response)))
                    },
                }
            }),
            final(tokens).reads_on(*old(tokens)),
            final(context).handled@ == old(context).handled@,
        decreases depth,
    {
        let mut peek = *tokens;
        let first = peek.next();
        proof {
            lemma_step_state(*tokens, peek);
        }
        if let Some(Err(e)) = first {
            return Err(Error::new(e));
        }
        match self {
            Node::Leaf { handler, .. } => {
                match first {
                    Some(Ok(Token::ProgramHeaderSeparator)) => {
                        *tokens = peek;
                        let res = handler.event(device, context, Parameters::with(tokens));
                        context.record_return(&res, &*tokens);
                        res
                    },
                    Some(Ok(Token::ProgramMessageUnitSeparator)) | None => {
                        let res = handler.event(device, context, Parameters::with(tokens));
                        context.record_return(&res, &*tokens);
                        res
                    },
                    Some(Ok(Token::HeaderQuerySuffix)) => {
                        *tokens = peek;
                        let mut peek2 = *tokens;
                        let second = peek2.next();
                        proof {
                            lemma_step_state(*tokens, peek2);
                        }
                        if let Some(Ok(Token::ProgramHeaderSeparator)) = second {
                            *tokens = peek2;
                        }
                        let mut unit = match response.response_unit() {
                            Ok(u) => u,
                            Err(e) => return Err(e),
                        };
                        let res = handler.query(device, context, Parameters::with(tokens), &mut unit);
                        context.record_return(&res, &*tokens);
                        res
                    },
                    Some(Ok(Token::HeaderMnemonicSeparator)) | Some(Ok(Token::ProgramMnemonic(_))) => {
                        Err(Error::new(ErrorCode::UndefinedHeader))
                    },
                    _ => Err(Error::new(ErrorCode::SyntaxError)),
                }
            },
            Node::Branch { sub, .. } => {
                proof {
                    assert(depth > 0);
                    assert(forall|j: int| 0 <= j < sub@.len() ==> (#[trigger] sub@[j]).ready::<D>((depth - 1) as nat));
                }
                match first {
                    Some(Ok(Token::HeaderMnemonicSeparator)) | Some(Ok(Token::ProgramMnemonic(_))) => {
                        if let Some(Ok(Token::HeaderMnemonicSeparator)) = first {
                            *tokens = peek;
                        }
                        let mut peek3 = *tokens;
                        let third = peek3.next();
                        proof {
                            lemma_step_state(*tokens, peek3);
                        }
                        let mnemonic = match third {
                            Some(Ok(Token::ProgramMnemonic(m))) => Token::ProgramMnemonic(m),
                            Some(Err(e)) => return Err(Error::new(e)),
                            _ => return Err(Error::new(ErrorCode::CommandHeaderError)),
                        };
                        *leaf = self;
                        if let Some(child) = find_named(sub, &mnemonic) {
                            *tokens = peek3;
                            return child.exec(leaf, device, context, tokens, response, Ghost((depth - 1) as nat));
                        }
                        match find_default_branch(sub) {
                            Some(child) => child.exec(leaf, device, context, tokens, response, Ghost((depth - 1) as nat)),
                            None => Err(Error::new(ErrorCode::UndefinedHeader)),
                        }
                    },
                    Some(Ok(Token::ProgramHeaderSeparator)) | Some(Ok(Token::ProgramMessageUnitSeparator))
                    | Some(Ok(Token::HeaderQuerySuffix)) | None => {
                        match find_default_leaf(sub) {
                            Some(child) => child.exec(leaf, device, context, tokens, response, Ghost((depth - 1) as nat)),
                            None => match find_default_branch(sub) {
                                Some(child) => child.exec(leaf, device, context, tokens, response, Ghost((depth - 1) as nat)),
                                None => Err(Error::new(ErrorCode::UndefinedHeader)),
                            },
                        }
                    },
                    _ => Err(Error::new(ErrorCode::SyntaxError)),
                }
            },
        }
    }
}


/// How a message unit ends once its handler has returned, with the
/// tokenizer at `st`: the message ends, the next unit follows a `;`, or the
/// unit holds more than its handler read.
pub enum UnitEnd {
    Done,
    Next(TokState),
    Fail(Error),
}

/// See [`UnitEnd`]: left-over data is a parameter that is not allowed,
/// anything else but a `;` a syntax error.
pub open spec fn unit_end(st: TokState) -> UnitEnd {
    let (t, st1) = tok_step(st);
    match t {
        None => UnitEnd::Done,
        Some(Ok(SpecToken::ProgramMessageUnitSeparator)) => UnitEnd::Next(st1),
        Some(Ok(tok)) => if tok.is_data() || tok == SpecToken::ProgramDataSeparator {
            UnitEnd::Fail(Error(ErrorCode::ParameterNotAllowed, None))
        } else {
            UnitEnd::Fail(Error(ErrorCode::SyntaxError, None))
        },
        Some(Err(e)) => UnitEnd::Fail(Error(e, None)),
    }
}

/// The error at the start of a unit that holds no header; `None` at the
/// end of the message.
pub open spec fn start_error(st: TokState) -> Option<Error> {
    match tok_step(st).0 {
        None => None,
        Some(Err(e)) => Some(Error(e, None)),
        Some(Ok(_)) => Some(Error(ErrorCode::SyntaxError, None)),
    }
}

impl<'a, H> Node<'a, H> {
    /// The route of the header that starts the unit at `st`, `leaf` being
    /// the current branch, and the branch that the next unit is relative to;
    /// `None` where no header starts there. A header after `:` is routed
    /// from the root; a common command (`*`) from the root, keeping the
    /// current branch; any other from the current branch.
    pub open spec fn unit_route(self, leaf: Node<'a, H>, st: TokState, depth: nat) -> Option<(Route<'a, H>, Node<'a, H>)> {
        let (t, st1) = tok_step(st);
        match t {
            Some(Ok(SpecToken::HeaderMnemonicSeparator)) => {
                let rt = self.route(self, st1, depth);
                Some((rt, rt.leaf))
            },
            Some(Ok(SpecToken::ProgramMnemonic(m))) => if m.len() > 0 && m[0] == 42 {
                Some((self.route(self, st, depth), leaf))
            } else {
                let rt = leaf.route(leaf, st, depth);
                Some((rt, rt.leaf))
            },
            _ => None,
        }
    }

    /// Running the units of the message from `st`, with `leaf` the current
    /// branch, gives `r`, where `calls` and `returns` record, unit by unit,
    /// the handler called (its form and where its parameters begin) and what
    /// it returned (with where it left the tokenizer). Units run in order
    /// until the first error, which is the result; `refused` says that the
    /// formatter had no room left (for a query's response unit, or the final
    /// line feed).
    pub open spec fn run_outcome(
        self,
        leaf: Node<'a, H>,
        st: TokState,
        calls: Seq<(bool, TokState)>,
        results: Seq<(Result<()>, TokState)>,
        r: Result<()>,
        depth: nat,
        refused: bool,
        terminated: bool,
    ) -> bool
        decreases calls.len(),
    {
        match self.unit_route(leaf, st, depth) {
            None => calls.len() == 0 && results.len() == 0 && match start_error(st) {
                None => r == Ok::<(), Error>(()),
                Some(e) => r == Err::<(), Error>(e),
            },
            Some((rt, next)) => match rt.result {
                Err(c) => calls.len() == 0 && results.len() == 0 && r == Err::<(), Error>(Error(c, None)),
                Ok((_, q)) => if calls.len() == 0 {
                    results.len() == 0 && q && r is Err && refused
                } else {
                    &&& calls.len() == results.len()
                    &&& calls[0] == (q, rt.after)
                    &&& match results[0].0 {
                        Err(e) => calls.len() == 1 && r == Err::<(), Error>(e),
                        Ok(_) => match unit_end(results[0].1) {
                            UnitEnd::Done => calls.len() == 1 && (r == Ok::<(), Error>(()) && terminated || (r is Err && refused)),
                            UnitEnd::Fail(e) => calls.len() == 1 && r == Err::<(), Error>(e),
                            UnitEnd::Next(st2) => self.run_outcome(next, st2, calls.drop_first(), results.drop_first(), r, depth, refused, terminated),
                        },
                    }
                },
            },
        }
    }

    /// Execute a command against a given device.
    ///
    /// # Arguments:
    /// * command - To be executed
    /// * device - To execute against
    /// * context - Context for this command
    /// * response - A formatter to write a response into.
    ///
    /// The units of the message run in order until the first error, which
    /// is returned (see [`Node::run_outcome`]); an error is handed to
    /// [`Device::handle_error`] before it is returned. Every handler that a
    /// header of the message can be routed to must be implemented (see
    /// [`Node::runs_implemented`]).
    pub fn run<D: Device, F: Formatter>(
        &'a self,
        command: &[u8],
        device: &mut D,
        context: &mut Context,
        response: &mut F,
    ) -> (r: Result<()>)
        where
            H: Command<D>,
        requires
            exists|depth: nat| self.ready::<D>(depth) && self.runs_implemented::<D>(command@, depth),
        ensures
            final(context).calls@.len() >= old(context).calls@.len(),
            final(context).calls@.subrange(0, old(context).calls@.len() as int) == old(context).calls@,
            final(context).results@.len() >= old(context).results@.len(),
            final(context).results@.subrange(0, old(context).results@.len() as int) == old(context).results@,
            self.run_outcome(*self, (command@, true, false),
                final(context).calls@.skip(old(context).calls@.len() as int),
                final(context).results@.skip(old(context).results@.len() as int),
                r, choose|depth: nat| self.ready::<D>(depth) && self.runs_implemented::<D>(command@, depth),
                !final(response).accepts(1),
                final(response).bytes().len() == 0 || final(response).bytes().last() == 10u8),
            r matches Err(e) ==> final(context).handled@ == old(context).handled@.push(e),
            r is Ok ==> final(context).handled@ == old(context).handled@,
    {
        let ghost depth = choose|depth: nat| self.ready::<D>(depth) && self.runs_implemented::<D>(command@, depth);
        let mut tokenizer = Tokenizer::new(command);
        proof {
            assert(tokenizer.rest() =~= command@);
        }
        let res = self.run_tokens(device, context, &mut tokenizer, response, Ghost(depth));
        if let Err(err) = res {
            device.handle_error(err);
            context.record_handled(&err);
        }
        res
    }

    /// Executes each program message unit of the message at the tokenizer,
    /// see [`Node::run_outcome`].
    #[verifier::rlimit(80)]
    pub(crate) fn run_tokens<'b, D: Device, F: Formatter>(
        &'a self,
        device: &mut D,
        context: &mut Context,
        tokens: &mut Tokenizer<'b>,
        response: &mut F,
        Ghost(depth): Ghost<nat>,
    ) -> (r: Result<()>)
        where
            H: Command<D>,
        requires
            self.ready::<D>(depth),
            self.runs_implemented::<D>(old(tokens).rest(), depth),
            old(tokens).header(),
            !old(tokens).common(),
            old(tokens).position() <= old(tokens).buffer().len(),
        ensures
            r is Ok ==> final(tokens).rest().len() == 0 || final(tokens).rest() == seq![10u8],
            final(tokens).reads_on(*old(tokens)),
            final(context).calls@.len() >= old(context).calls@.len(),
            final(context).calls@.subrange(0, old(context).calls@.len() as int) == old(context).calls@,
            final(context).results@.len() >= old(context).results@.len(),
            final(context).results@.subrange(0, old(context).results@.len() as int) == old(context).results@,
            self.run_outcome(*self, old(tokens).state(),
                final(context).calls@.skip(old(context).calls@.len() as int),
                final(context).results@.skip(old(context).results@.len() as int),
                r, depth, !final(response).accepts(1),
                final(response).bytes().len() == 0 || final(response).bytes().last() == 10u8),
            final(context).handled@ == old(context).handled@,
    {
        let mut leaf: &'a Node<'a, H> = self;
        let ghost n0 = context.calls@.len();
        let ghost m0 = context.results@.len();
        let ghost mut leaf_k: nat = 0;
        proof {
            assert(context.calls@.subrange(0, n0 as int) =~= old(context).calls@);
            assert(context.results@.subrange(0, m0 as int) =~= old(context).results@);
            assert(self.within(*self, 0));
            assert forall|c2: Seq<(bool, TokState)>, rs2: Seq<(Result<()>, TokState)>, r2: Result<()>, f2: bool, t2: bool|
                #[trigger] self.run_outcome(*self, old(tokens).state(), c2, rs2, r2, depth, f2, t2)
                implies self.run_outcome(*self, old(tokens).state(), context.calls@.skip(n0 as int) + c2,
                    context.results@.skip(m0 as int) + rs2, r2, depth, f2, t2) by {
                assert(context.calls@.skip(n0 as int) + c2 =~= c2);
                assert(context.results@.skip(m0 as int) + rs2 =~= rs2);
            }
        }
        if let Err(e) = response.message_start() {
            return Err(e);
        }
        loop
            invariant
                self.ready::<D>(depth),
                leaf.ready::<D>(depth),
                tokens.reads_on(*old(tokens)),
                n0 == old(context).calls@.len(),
                m0 == old(context).results@.len(),
                context.calls@.len() >= n0,
                context.calls@.subrange(0, n0 as int) == old(context).calls@,
                context.results@.len() >= m0,
                context.results@.subrange(0, m0 as int) == old(context).results@,
                context.handled@ == old(context).handled@,
                forall|c2: Seq<(bool, TokState)>, rs2: Seq<(Result<()>, TokState)>, r2: Result<()>, f2: bool, t2: bool|
                    #[trigger] self.run_outcome(*leaf, tokens.state(), c2, rs2, r2, depth, f2, t2)
                    ==> self.run_outcome(*self, old(tokens).state(), context.calls@.skip(n0 as int) + c2,
                        context.results@.skip(m0 as int) + rs2, r2, depth, f2, t2),
                self.runs_implemented::<D>(old(tokens).rest(), depth),
                self.within(*leaf, leaf_k),
                tokens.header(),
                !tokens.common(),
                unit_start(old(tokens).rest(), tokens.position() - old(tokens).position()),
                tokens.position() <= tokens.buffer().len(),
            decreases tokens.buffer().len() - tokens.position(),
        {
            let ghost kpos: int = tokens.position() - old(tokens).position();
            proof {
                lemma_skip_skip(tokens.buffer(), old(tokens).position() as int, kpos);
                assert(tokens.rest() == old(tokens).rest().skip(kpos));
                assert(tokens.state() == (old(tokens).rest().skip(kpos), true, false));
            }
            let ghost l0 = *leaf;
            let ghost cs = context.calls@;
            let ghost rs = context.results@;
            let mut peek = *tokens;
            let first = peek.next();
            proof {
                lemma_step_state(*tokens, peek);
                lemma_message_end(tokens.rest(), tokens.header(), tokens.common());
            }
            let ghost st0 = tokens.state();
            let ghost unit = self.unit_route(l0, st0, depth);
            match first {
                Some(Ok(Token::HeaderMnemonicSeparator)) => {
                    leaf = self;
                    *tokens = peek;
                    proof {
                        lemma_route_leaf_ready::<H, D>(*self, *self, tokens.state(), depth, depth);
                    }
                    let ghost st1 = tokens.state();
                    proof {
                        assert(self.within(*self, 0));
                        assert(unit_state(old(tokens).rest(), st1));
                        let _ = self.route(*self, st1, depth);
                    }
                    let res = self.exec(&mut leaf, device, context, tokens, response, Ghost(depth));
                    proof {
                        lemma_route_leaf_within(*self, *self, st1, depth);
                        leaf_k = depth;
                        lemma_calls_grow(cs, context.calls@, n0 as int);
                        lemma_returns_grow(rs, context.results@, m0 as int);
                    }
                    if let Err(e) = res {
                        proof {
                            let c2 = context.calls@.skip(cs.len() as int);
                            let rs2 = context.results@.skip(rs.len() as int);
                            lemma_tail(cs, context.calls@);
                            lemma_tail(rs, context.results@);
                            assert(self.run_outcome(l0, st0, c2, rs2, Err::<(), Error>(e), depth, !response.accepts(1), (response.bytes().len() == 0 || response.bytes().last() == 10u8)));
                            lemma_chain(*self, l0, st0, old(tokens).state(), depth, cs, rs, c2, rs2, Err::<(), Error>(e), !response.accepts(1), (response.bytes().len() == 0 || response.bytes().last() == 10u8), n0, m0);
                        }
                        return Err(e);
                    }
                },
                Some(Ok(Token::ProgramMnemonic(s))) => {
                    if s.len() > 0 && s[0] == 42u8 {
                        let mut common: &'a Node<'a, H> = self;
                        proof {
                            assert(self.within(*self, 0));
                            assert(unit_state(old(tokens).rest(), st0));
                            let _ = self.route(*self, st0, depth);
                        }
                        let res = self.exec(&mut common, device, context, tokens, response, Ghost(depth));
                        proof {
                            lemma_calls_grow(cs, context.calls@, n0 as int);
                            lemma_returns_grow(rs, context.results@, m0 as int);
                        }
                        if let Err(e) = res {
                            proof {
                                let c2 = context.calls@.skip(cs.len() as int);
                            let rs2 = context.results@.skip(rs.len() as int);
                            lemma_tail(cs, context.calls@);
                            lemma_tail(rs, context.results@);
                            assert(self.run_outcome(l0, st0, c2, rs2, Err::<(), Error>(e), depth, !response.accepts(1), (response.bytes().len() == 0 || response.bytes().last() == 10u8)));
                            lemma_chain(*self, l0, st0, old(tokens).state(), depth, cs, rs, c2, rs2, Err::<(), Error>(e), !response.accepts(1), (response.bytes().len() == 0 || response.bytes().last() == 10u8), n0, m0);
                            }
                            return Err(e);
                        }
                    } else {
                        let current = leaf;
                        proof {
                            lemma_route_leaf_ready::<H, D>(*current, *current, tokens.state(), depth, depth);
                        }
                        proof {
                            assert(unit_state(old(tokens).rest(), st0));
                            let _ = current.route(*current, st0, depth);
                        }
                        let ghost k0 = leaf_k;
                        let res = current.exec(&mut leaf, device, context, tokens, response, Ghost(depth));
                        proof {
                            lemma_route_leaf_within(*current, *current, st0, depth);
                            if *leaf != *current {
                                lemma_within_trans(*self, *current, *leaf, k0, depth);
                                leaf_k = k0 + depth;
                            }
                            lemma_calls_grow(cs, context.calls@, n0 as int);
                            lemma_returns_grow(rs, context.results@, m0 as int);
                        }
                        if let Err(e) = res {
                            proof {
                                let c2 = context.calls@.skip(cs.len() as int);
                            let rs2 = context.results@.skip(rs.len() as int);
                            lemma_tail(cs, context.calls@);
                            lemma_tail(rs, context.results@);
                            assert(self.run_outcome(l0, st0, c2, rs2, Err::<(), Error>(e), depth, !response.accepts(1), (response.bytes().len() == 0 || response.bytes().last() == 10u8)));
                            lemma_chain(*self, l0, st0, old(tokens).state(), depth, cs, rs, c2, rs2, Err::<(), Error>(e), !response.accepts(1), (response.bytes().len() == 0 || response.bytes().last() == 10u8), n0, m0);
                            }
                            return Err(e);
                        }
                    }
                },
                None => {
                    proof {
                        assert(self.run_outcome(l0, st0, Seq::empty(), Seq::empty(), Ok::<(), Error>(()), depth, !response.accepts(1), (response.bytes().len() == 0 || response.bytes().last() == 10u8)));
                        assert(cs.skip(n0 as int) + Seq::<(bool, TokState)>::empty() =~= cs.skip(n0 as int));
                        assert(rs.skip(m0 as int) + Seq::<(Result<()>, TokState)>::empty() =~= rs.skip(m0 as int));
                    }
                    return Ok(());
                },
                Some(Err(e)) => {
                    proof {
                        assert(self.run_outcome(l0, st0, Seq::empty(), Seq::empty(), Err::<(), Error>(Error(e, None)), depth, !response.accepts(1), (response.bytes().len() == 0 || response.bytes().last() == 10u8)));
                        assert(cs.skip(n0 as int) + Seq::<(bool, TokState)>::empty() =~= cs.skip(n0 as int));
                        assert(rs.skip(m0 as int) + Seq::<(Result<()>, TokState)>::empty() =~= rs.skip(m0 as int));
                    }
                    return Err(Error::new(e));
                },
                Some(Ok(_)) => {
                    proof {
                        assert(self.run_outcome(l0, st0, Seq::empty(), Seq::empty(), Err::<(), Error>(Error(ErrorCode::SyntaxError, None)), depth, !response.accepts(1), (response.bytes().len() == 0 || response.bytes().last() == 10u8)));
                        assert(cs.skip(n0 as int) + Seq::<(bool, TokState)>::empty() =~= cs.skip(n0 as int));
                        assert(rs.skip(m0 as int) + Seq::<(Result<()>, TokState)>::empty() =~= rs.skip(m0 as int));
                    }
                    return Err(Error::new(ErrorCode::SyntaxError));
                },
            }
            // The unit's handler ran and succeeded.
            let ghost call = context.calls@.last();
            let ghost ret = context.results@.last();
            proof {
                assert(context.calls@ == cs.push(call));
                assert(context.results@ == rs.push(ret));
                assert(ret.1 == tokens.state());
            }
            let ghost before = *tokens;
            let next = tokens.next();
            proof {
                lemma_message_end(before.rest(), before.header(), before.common());
                lemma_token_progress(before.rest(), before.header(), before.common());
                lemma_step_state(before, *tokens);
                lemma_unit_separator(before.rest(), before.header(), before.common());
            }
            match next {
                None => {
                    if !response.is_empty() {
                        if let Err(e) = response.message_end() {
                            proof {
                                assert(self.run_outcome(l0, st0, seq![call], seq![ret], Err::<(), Error>(e), depth, !response.accepts(1), (response.bytes().len() == 0 || response.bytes().last() == 10u8)));
                                lemma_chain(*self, l0, st0, old(tokens).state(), depth, cs, rs, seq![call], seq![ret], Err::<(), Error>(e), !response.accepts(1), (response.bytes().len() == 0 || response.bytes().last() == 10u8), n0, m0);
                                assert(cs.push(call) =~= cs + seq![call]);
                                assert(rs.push(ret) =~= rs + seq![ret]);
                            }
                            return Err(e);
                        }
                    }
                    proof {
                        assert(self.run_outcome(l0, st0, seq![call], seq![ret], Ok::<(), Error>(()), depth, !response.accepts(1), (response.bytes().len() == 0 || response.bytes().last() == 10u8)));
                                lemma_chain(*self, l0, st0, old(tokens).state(), depth, cs, rs, seq![call], seq![ret], Ok::<(), Error>(()), !response.accepts(1), (response.bytes().len() == 0 || response.bytes().last() == 10u8), n0, m0);
                                assert(cs.push(call) =~= cs + seq![call]);
                                assert(rs.push(ret) =~= rs + seq![ret]);
                    }
                    return Ok(());
                },
                Some(Ok(Token::ProgramMessageUnitSeparator)) => {
                    proof {
                        let rr = old(tokens).rest();
                        let kb: int = before.position() - old(tokens).position();
                        lemma_skip_skip(before.buffer(), old(tokens).position() as int, kb);
                        assert(before.rest() == rr.skip(kb));
                        assert(rr[kb] == 59);
                        lemma_skip_skip(rr, kb, 1);
                        assert(before.rest().skip(1) == rr.skip(kb + 1));
                        assert(tokens.position() - old(tokens).position() == kb + 1 + span(rr.skip(kb + 1), ws_p()));
                        assert(unit_start(rr, tokens.position() - old(tokens).position()));
                        assert forall|c2: Seq<(bool, TokState)>, rs2: Seq<(Result<()>, TokState)>, r2: Result<()>, f2: bool, t2: bool|
                            #[trigger] self.run_outcome(*leaf, tokens.state(), c2, rs2, r2, depth, f2, t2)
                            implies self.run_outcome(*self, old(tokens).state(), context.calls@.skip(n0 as int) + c2,
                                context.results@.skip(m0 as int) + rs2, r2, depth, f2, t2) by {
                            lemma_outcome_lengths(*self, *leaf, tokens.state(), c2, rs2, r2, depth, f2, t2);
                            assert((seq![call] + c2).drop_first() =~= c2);
                            assert((seq![ret] + rs2).drop_first() =~= rs2);
                            assert(self.run_outcome(l0, st0, seq![call] + c2, seq![ret] + rs2, r2, depth, f2, t2));
                            lemma_chain(*self, l0, st0, old(tokens).state(), depth, cs, rs, seq![call] + c2, seq![ret] + rs2, r2, f2, t2, n0, m0);
                            assert((cs + (seq![call] + c2)).skip(n0 as int) =~= context.calls@.skip(n0 as int) + c2);
                            assert((rs + (seq![ret] + rs2)).skip(m0 as int) =~= context.results@.skip(m0 as int) + rs2);
                        }
                    }
                },
                Some(Ok(tok)) => {
                    if tok.is_data() || matches!(tok, Token::ProgramDataSeparator) {
                        proof {
                            assert(self.run_outcome(l0, st0, seq![call], seq![ret], Err::<(), Error>(Error(ErrorCode::ParameterNotAllowed, None)), depth, !response.accepts(1), (response.bytes().len() == 0 || response.bytes().last() == 10u8)));
                                lemma_chain(*self, l0, st0, old(tokens).state(), depth, cs, rs, seq![call], seq![ret], Err::<(), Error>(Error(ErrorCode::ParameterNotAllowed, None)), !response.accepts(1), (response.bytes().len() == 0 || response.bytes().last() == 10u8), n0, m0);
                                assert(cs.push(call) =~= cs + seq![call]);
                                assert(rs.push(ret) =~= rs + seq![ret]);
                        }
                        return Err(Error::new(ErrorCode::ParameterNotAllowed));
                    } else {
                        proof {
                            assert(self.run_outcome(l0, st0, seq![call], seq![ret], Err::<(), Error>(Error(ErrorCode::SyntaxError, None)), depth, !response.accepts(1), (response.bytes().len() == 0 || response.bytes().last() == 10u8)));
                                lemma_chain(*self, l0, st0, old(tokens).state(), depth, cs, rs, seq![call], seq![ret], Err::<(), Error>(Error(ErrorCode::SyntaxError, None)), !response.accepts(1), (response.bytes().len() == 0 || response.bytes().last() == 10u8), n0, m0);
                                assert(cs.push(call) =~= cs + seq![call]);
                                assert(rs.push(ret) =~= rs + seq![ret]);
                        }
                        return Err(Error::new(ErrorCode::SyntaxError));
                    }
                },
                Some(Err(e)) => {
                    proof {
                        assert(self.run_outcome(l0, st0, seq![call], seq![ret], Err::<(), Error>(Error(e, None)), depth, !response.accepts(1), (response.bytes().len() == 0 || response.bytes().last() == 10u8)));
                                lemma_chain(*self, l0, st0, old(tokens).state(), depth, cs, rs, seq![call], seq![ret], Err::<(), Error>(Error(e, None)), !response.accepts(1), (response.bytes().len() == 0 || response.bytes().last() == 10u8), n0, m0);
                                assert(cs.push(call) =~= cs + seq![call]);
                                assert(rs.push(ret) =~= rs + seq![ret]);
                    }
                    return Err(Error::new(e));
                },
            }
        }
    }
}

/// One unit's outcome, put after what the units before it recorded,
/// gives the outcome of the whole message.
proof fn lemma_chain<'a, H>(
    root: Node<'a, H>,
    l0: Node<'a, H>,
    st0: TokState,
    start: TokState,
    depth: nat,
    cs: Seq<(bool, TokState)>,
    rs: Seq<(Result<()>, TokState)>,
    c2: Seq<(bool, TokState)>,
    rs2: Seq<(Result<()>, TokState)>,
    r: Result<()>,
    f: bool,
    t: bool,
    n0: nat,
    m0: nat,
)
    requires
        n0 <= cs.len(),
        m0 <= rs.len(),
        forall|c3: Seq<(bool, TokState)>, rs3: Seq<(Result<()>, TokState)>, r3: Result<()>, f3: bool, t3: bool|
            #[trigger] root.run_outcome(l0, st0, c3, rs3, r3, depth, f3, t3)
            ==> root.run_outcome(root, start, cs.skip(n0 as int) + c3, rs.skip(m0 as int) + rs3, r3, depth, f3, t3),
        root.run_outcome(l0, st0, c2, rs2, r, depth, f, t),
    ensures
        root.run_outcome(root, start, (cs + c2).skip(n0 as int), (rs + rs2).skip(m0 as int), r, depth, f, t),
{
    assert((cs + c2).skip(n0 as int) =~= cs.skip(n0 as int) + c2);
    assert((rs + rs2).skip(m0 as int) =~= rs.skip(m0 as int) + rs2);
}

/// An outcome records as many handler calls as results.
proof fn lemma_outcome_lengths<'a, H>(
    root: Node<'a, H>,
    leaf: Node<'a, H>,
    st: TokState,
    calls: Seq<(bool, TokState)>,
    results: Seq<(Result<()>, TokState)>,
    r: Result<()>,
    depth: nat,
    f: bool,
    t: bool,
)
    requires
        root.run_outcome(leaf, st, calls, results, r, depth, f, t),
    ensures
        calls.len() == results.len(),
{
}

/// What was added after `before`.
proof fn lemma_tail<T>(before: Seq<T>, after: Seq<T>)
    requires
        after.len() >= before.len(),
        after.subrange(0, before.len() as int) == before,
    ensures
        after == before + after.skip(before.len() as int),
{
    assert(after =~= before + after.skip(before.len() as int));
}

/// A result added at the end keeps the results before it.
proof fn lemma_returns_grow(before: Seq<(Result<()>, TokState)>, after: Seq<(Result<()>, TokState)>, n0: int)
    requires
        0 <= n0 <= before.len(),
        after == before || exists|x: (Result<()>, TokState)| after == before.push(x),
    ensures
        after.len() >= before.len(),
        after.subrange(0, n0) == before.subrange(0, n0),
        after.subrange(0, before.len() as int) == before,
{
    if after != before {
        let x = choose|x: (Result<()>, TokState)| after == before.push(x);
        assert(after.subrange(0, n0) =~= before.subrange(0, n0));
        assert(after.subrange(0, before.len() as int) =~= before);
    } else {
        assert(after.subrange(0, before.len() as int) =~= before);
    }
}

/// A record added at the end keeps the records before it.
proof fn lemma_calls_grow(before: Seq<(bool, TokState)>, after: Seq<(bool, TokState)>, n0: int)
    requires
        0 <= n0 <= before.len(),
        after == before || exists|x: (bool, TokState)| after == before.push(x),
    ensures
        after.len() >= before.len(),
        after.subrange(0, n0) == before.subrange(0, n0),
        after.subrange(0, before.len() as int) == before,
        n0 < before.len() ==> after[n0] == before[n0],
{
    if after != before {
        let x = choose|x: (bool, TokState)| after == before.push(x);
        assert(after.subrange(0, n0) =~= before.subrange(0, n0));
        assert(after.subrange(0, before.len() as int) =~= before);
    } else {
        assert(after.subrange(0, before.len() as int) =~= before);
    }
}

} // verus!
