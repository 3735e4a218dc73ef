//! Exactly-once, concurrency-safe registration of window classes.
//!
//! Every window of a class shares one native class token, minted by a
//! native registration call that must run exactly once per class identity.
//! The registry keeps one [`RegState`] per identity; an identity it has no
//! entry for is unregistered. A caller's [`ClassRegistry::class_token`]
//! query either reads a settled state or — exactly once per identity — wins
//! the right to perform the native registration and report its outcome
//! back. Callers that find the state `Registering` retry until the winner
//! has reported; the transitions are monotonic, so they never spin forever
//! once the winner reports, and nobody registers a second native class for
//! the same identity.
//!
//! The per-thread driver serialises the steps; across threads, each
//! registry operation is one atomic step of the protocol, and the laws at
//! the bottom quantify over every interleaving of steps.

use vstd::prelude::*;
use vstd::seq_lib::group_seq_properties;

verus! {

/// The registration state of one class identity. An identity without an
/// entry is unregistered; the transitions out of each state are monotonic
/// and irreversible.
#[derive(PartialEq, Eq, Structural, Clone, Copy, Debug)]
pub enum RegState {
    /// One caller has won the race and is performing the native
    /// registration call.
    Registering,
    /// The native call succeeded; the token is immutable from here on.
    Registered(u16),
    /// The native call failed with this code. Fatal for the class: the
    /// registration is never retried.
    Failed(u32),
}

/// What a token query tells its caller.
#[derive(PartialEq, Eq, Structural, Clone, Copy, Debug)]
pub enum TokenQuery {
    /// The class is registered; every query for it returns this same token.
    Token(u16),
    /// The caller won the race: it alone performs the native registration
    /// call and reports the outcome.
    MustRegister,
    /// Another caller is registering; retry until the state settles.
    Busy,
    /// Registration failed earlier with this code; fatal for the class.
    Failed(u32),
}

/// The answer a query for `name` receives from registry state `m`.
pub open spec fn query_answer(m: Map<Seq<char>, RegState>, name: Seq<char>) -> TokenQuery {
    if m.contains_key(name) {
        match m[name] {
            RegState::Registering => TokenQuery::Busy,
            RegState::Registered(a) => TokenQuery::Token(a),
            RegState::Failed(c) => TokenQuery::Failed(c),
        }
    } else {
        TokenQuery::MustRegister
    }
}

/// The registry state after a query for `name`: the winning first query
/// moves the identity to `Registering`; any other query changes nothing.
pub open spec fn query_next(
    m: Map<Seq<char>, RegState>,
    name: Seq<char>,
) -> Map<Seq<char>, RegState> {
    if m.contains_key(name) {
        m
    } else {
        m.insert(name, RegState::Registering)
    }
}

/// The association underlying the registry, read off its entry list.
pub open spec fn entries_map(s: Seq<(String, RegState)>) -> Map<Seq<char>, RegState>
    decreases s.len(),
{
    if s.len() == 0 {
        Map::empty()
    } else {
        entries_map(s.drop_last()).insert(s.last().0@, s.last().1)
    }
}

/// Each identity has at most one entry.
pub open spec fn distinct_names(s: Seq<(String, RegState)>) -> bool {
    forall|i: int, j: int| 0 <= i < j < s.len() ==> s[i].0@ != s[j].0@
}

proof fn lemma_absent(s: Seq<(String, RegState)>, k: Seq<char>)
    requires
        forall|i: int| 0 <= i < s.len() ==> s[i].0@ != k,
    ensures
        !entries_map(s).contains_key(k),
    decreases s.len(),
{
    if s.len() > 0 {
        assert(forall|i: int| 0 <= i < s.drop_last().len() ==> s.drop_last()[i] == s[i]);
        lemma_absent(s.drop_last(), k);
    }
}

proof fn lemma_found(s: Seq<(String, RegState)>, i: int)
    requires
        distinct_names(s),
        0 <= i < s.len(),
    ensures
        entries_map(s).contains_key(s[i].0@),
        entries_map(s)[s[i].0@] == s[i].1,
    decreases s.len(),
{
    if i < s.len() - 1 {
        assert(forall|j: int| 0 <= j < s.drop_last().len() ==> s.drop_last()[j] == s[j]);
        lemma_found(s.drop_last(), i);
        assert(s[i].0@ != s.last().0@);
    }
}

proof fn lemma_update(s: Seq<(String, RegState)>, i: int, st: RegState)
    requires
        distinct_names(s),
        0 <= i < s.len(),
    ensures
        entries_map(s.update(i, (s[i].0, st))) == entries_map(s).insert(s[i].0@, st),
    decreases s.len(),
{
    let t = s.update(i, (s[i].0, st));
    if i == s.len() - 1 {
        assert(t.drop_last() =~= s.drop_last());
        assert(entries_map(t) =~= entries_map(s).insert(s[i].0@, st));
    } else {
        assert(forall|j: int| 0 <= j < s.drop_last().len() ==> s.drop_last()[j] == s[j]);
        assert(t.drop_last() =~= s.drop_last().update(i, (s[i].0, st)));
        lemma_update(s.drop_last(), i, st);
        assert(s[i].0@ != s.last().0@);
        assert(entries_map(t) =~= entries_map(s).insert(s[i].0@, st));
    }
}

/// The process-wide table mapping each class identity to its registration
/// state.
pub struct ClassRegistry {
    entries: Vec<(String, RegState)>,
}

impl View for ClassRegistry {
    type V = Map<Seq<char>, RegState>;

    closed spec fn view(&self) -> Map<Seq<char>, RegState> {
        entries_map(self.entries@)
    }
}

impl ClassRegistry {
    /// The registry's internal invariant: one entry per identity.
    pub closed spec fn wf(self) -> bool {
        distinct_names(self.entries@)
    }

    /// An empty registry: every identity unregistered.
    pub fn new() -> (r: ClassRegistry)
        ensures
            r@ == Map::<Seq<char>, RegState>::empty(),
            r.wf(),
    {
        ClassRegistry { entries: Vec::new() }
    }

    /// One step of the registration protocol for the class identified by
    /// `name`. A registered or failed class answers with its settled state;
    /// a class being registered answers `Busy`; a first-ever query answers
    /// `MustRegister`, moving the identity to `Registering` — so at most
    /// one caller ever receives `MustRegister` for an identity, and only
    /// that caller performs the native registration call.
    pub fn class_token(&mut self, name: &str) -> (r: TokenQuery)
        requires
            old(self).wf(),
        ensures
            final(self).wf(),
            r == query_answer(old(self)@, name@),
            final(self)@ == query_next(old(self)@, name@),
    {
        let key: String = name.to_owned();
        let n = self.entries.len();
        let mut i: usize = 0;
        while i < n
            invariant
                i <= n,
                n == self.entries@.len(),
                distinct_names(self.entries@),
                key@ == name@,
                self@ == entries_map(self.entries@),
                forall|j: int| 0 <= j < i ==> self.entries@[j].0@ != name@,
            decreases n - i,
        {
            let entry = &self.entries[i];
            if entry.0 == key {
                proof {
                    lemma_found(self.entries@, i as int);
                }
                let st = entry.1;
                return match st {
                    RegState::Registering => TokenQuery::Busy,
                    RegState::Registered(a) => TokenQuery::Token(a),
                    RegState::Failed(c) => TokenQuery::Failed(c),
                };
            }
            i = i + 1;
        }
        proof {
            lemma_absent(self.entries@, name@);
        }
        self.entries.push((key, RegState::Registering));
        proof {
            assert(self.entries@.drop_last() =~= old(self).entries@);
        }
        TokenQuery::MustRegister
    }

    /// The race winner reports a successful native registration: the
    /// identity settles on `token`, immutably.
    pub fn complete_registration(&mut self, name: &str, token: u16)
        requires
            old(self).wf(),
            old(self)@.contains_key(name@),
            old(self)@[name@] is Registering,
            token != 0,
        ensures
            final(self).wf(),
            final(self)@ == old(self)@.insert(name@, RegState::Registered(token)),
    {
        self.settle(name, RegState::Registered(token));
    }

    /// The race winner reports a failed native registration: fatal for the
    /// class, never retried; every caller for this identity sees the same
    /// failure from now on.
    pub fn fail_registration(&mut self, name: &str, code: u32)
        requires
            old(self).wf(),
            old(self)@.contains_key(name@),
            old(self)@[name@] is Registering,
        ensures
            final(self).wf(),
            final(self)@ == old(self)@.insert(name@, RegState::Failed(code)),
    {
        self.settle(name, RegState::Failed(code));
    }

    /// Moves `name` out of `Registering` into its settled state.
    fn settle(&mut self, name: &str, st: RegState)
        requires
            old(self).wf(),
            old(self)@.contains_key(name@),
            old(self)@[name@] is Registering,
        ensures
            final(self).wf(),
            final(self)@ == old(self)@.insert(name@, st),
    {
        let key: String = name.to_owned();
        let n = self.entries.len();
        let mut i: usize = 0;
        while i < n
            invariant
                i <= n,
                n == self.entries@.len(),
                distinct_names(self.entries@),
                key@ == name@,
                self@ == entries_map(self.entries@),
                old(self)@ == self@,
                self.entries@ == old(self).entries@,
                forall|j: int| 0 <= j < i ==> self.entries@[j].0@ != name@,
            decreases n - i,
        {
            let hit = self.entries[i].0 == key;
            if hit {
                proof {
                    lemma_found(self.entries@, i as int);
                    lemma_update(self.entries@, i as int, st);
                }
                self.entries[i].1 = st;
                return ;
            }
            i = i + 1;
        }
        proof {
            lemma_absent(self.entries@, name@);
            assert(false);
        }
    }
}

/// One atomic step some thread takes against the registry: a token query,
/// or the race winner reporting its native registration's outcome.
pub enum RegOp {
    Query(Seq<char>),
    Complete(Seq<char>, u16),
    Fail(Seq<char>, u32),
}

/// The registry state after one step. Reports settle an identity only out
/// of `Registering` — exactly what the exec operations allow.
pub open spec fn apply_op(m: Map<Seq<char>, RegState>, op: RegOp) -> Map<Seq<char>, RegState> {
    match op {
        RegOp::Query(n) => query_next(m, n),
        RegOp::Complete(n, a) => if m.contains_key(n) && m[n] is Registering {
            m.insert(n, RegState::Registered(a))
        } else {
            m
        },
        RegOp::Fail(n, c) => if m.contains_key(n) && m[n] is Registering {
            m.insert(n, RegState::Failed(c))
        } else {
            m
        },
    }
}

/// The registry state after a whole interleaving of steps.
pub open spec fn run_ops(m: Map<Seq<char>, RegState>, ops: Seq<RegOp>) -> Map<Seq<char>, RegState>
    decreases ops.len(),
{
    if ops.len() == 0 {
        m
    } else {
        run_ops(apply_op(m, ops[0]), ops.drop_first())
    }
}

/// How many queries for `name` along the interleaving win the registration
/// race — that is, how many times the native registration call is invoked
/// for this identity.
pub open spec fn wins(m: Map<Seq<char>, RegState>, ops: Seq<RegOp>, name: Seq<char>) -> nat
    decreases ops.len(),
{
    if ops.len() == 0 {
        0
    } else {
        let w: nat = if ops[0] == RegOp::Query(name) && !m.contains_key(name) {
            1
        } else {
            0
        };
        w + wins(apply_op(m, ops[0]), ops.drop_first(), name)
    }
}

proof fn lemma_op_preserves_key(m: Map<Seq<char>, RegState>, op: RegOp, name: Seq<char>)
    requires
        m.contains_key(name),
    ensures
        apply_op(m, op).contains_key(name),
{
}

/// An identity the registry already knows is never won again: no further
/// query for it triggers a native registration call.
pub proof fn lemma_no_win_once_known(
    m: Map<Seq<char>, RegState>,
    ops: Seq<RegOp>,
    name: Seq<char>,
)
    requires
        m.contains_key(name),
    ensures
        wins(m, ops, name) == 0,
    decreases ops.len(),
{
    if ops.len() > 0 {
        lemma_op_preserves_key(m, ops[0], name);
        lemma_no_win_once_known(apply_op(m, ops[0]), ops.drop_first(), name);
    }
}

/// Exactly-once registration, the at-most-once half: over any interleaving
/// of registry steps by any number of threads, the registration race for
/// one identity is won at most once, so the native registration call runs
/// at most once per identity.
pub proof fn lemma_registration_won_at_most_once(
    m: Map<Seq<char>, RegState>,
    ops: Seq<RegOp>,
    name: Seq<char>,
)
    ensures
        wins(m, ops, name) <= 1,
    decreases ops.len(),
{
    if ops.len() > 0 {
        if ops[0] == RegOp::Query(name) && !m.contains_key(name) {
            lemma_no_win_once_known(apply_op(m, ops[0]), ops.drop_first(), name);
        } else {
            lemma_registration_won_at_most_once(apply_op(m, ops[0]), ops.drop_first(), name);
        }
    }
}

/// Exactly-once registration, the at-least-once half: if an unregistered
/// identity is queried anywhere in the interleaving, the race for it is won
/// exactly once — some single caller performs the native registration call.
pub proof fn lemma_registration_won_exactly_once(
    m: Map<Seq<char>, RegState>,
    ops: Seq<RegOp>,
    name: Seq<char>,
)
    requires
        !m.contains_key(name),
        ops.contains(RegOp::Query(name)),
    ensures
        wins(m, ops, name) == 1,
    decreases ops.len(),
{
    broadcast use group_seq_properties;

    let i = choose|i: int| 0 <= i < ops.len() && ops[i] == RegOp::Query(name);
    if ops[0] == RegOp::Query(name) {
        lemma_no_win_once_known(apply_op(m, ops[0]), ops.drop_first(), name);
    } else {
        assert(i > 0);
        assert(ops.drop_first()[i - 1] == RegOp::Query(name));
        assert(ops.drop_first().contains(RegOp::Query(name)));
        assert(!apply_op(m, ops[0]).contains_key(name)) by {
            match ops[0] {
                RegOp::Query(n) => {
                    assert(n != name);
                },
                RegOp::Complete(..) => {},
                RegOp::Fail(..) => {},
            }
        }
        lemma_registration_won_exactly_once(apply_op(m, ops[0]), ops.drop_first(), name);
    }
}

/// A settled state never moves again under any step.
proof fn lemma_op_keeps_settled(m: Map<Seq<char>, RegState>, op: RegOp, name: Seq<char>)
    requires
        m.contains_key(name),
        !(m[name] is Registering),
    ensures
        apply_op(m, op).contains_key(name),
        apply_op(m, op)[name] == m[name],
{
}

/// All callers observe the same outcome: once an identity is registered
/// with a token (or has failed with a code), every later query along any
/// interleaving answers with exactly that token (or that failure).
pub proof fn lemma_settled_state_is_stable(
    m: Map<Seq<char>, RegState>,
    ops: Seq<RegOp>,
    name: Seq<char>,
)
    requires
        m.contains_key(name),
        !(m[name] is Registering),
    ensures
        run_ops(m, ops).contains_key(name),
        run_ops(m, ops)[name] == m[name],
        m[name] matches RegState::Registered(a) ==> query_answer(run_ops(m, ops), name)
            == TokenQuery::Token(a),
        m[name] matches RegState::Failed(c) ==> query_answer(run_ops(m, ops), name)
            == TokenQuery::Failed(c),
    decreases ops.len(),
{
    if ops.len() > 0 {
        lemma_op_keeps_settled(m, ops[0], name);
        lemma_settled_state_is_stable(apply_op(m, ops[0]), ops.drop_first(), name);
    }
}

} // verus!
