//! Aggregation of the community contract's streams into per-token totals:
//! how many streams each token has, how much was sent, how many are active.
use crate::keyed::{
    as_map, index_of_key, lemma_as_map_dom, lemma_as_map_index, lemma_as_map_len, unique_keys, upsert,
    KeyedList,
};
use vstd::prelude::*;

pub use crate::community::{StreamInstruction, TokenStreamData};

verus! {

/// Ten to the power `n`.
pub open spec fn pow10(n: nat) -> nat
    decreases n,
{
    if n == 0 {
        1
    } else {
        10 * pow10((n - 1) as nat)
    }
}

/// Powers of ten grow with the exponent.
pub proof fn lemma_pow10_monotonic(n: nat, m: nat)
    requires
        n <= m,
    ensures
        pow10(n) <= pow10(m),
    decreases m,
{
    if n < m {
        lemma_pow10_monotonic(n, (m - 1) as nat);
    }
}

/// `10^19` is the largest power of ten that a `u64` holds.
pub proof fn lemma_pow10_fits(n: nat)
    requires
        n <= 19,
    ensures
        pow10(n) <= 10_000_000_000_000_000_000,
{
    lemma_pow10_monotonic(n, 19);
    reveal_with_fuel(pow10, 20);
}

/// The divisor that turns a token amount into whole tokens: `10^decimals`.
pub fn decimals_divisor(decimals: u8) -> (r: u64)
    requires
        decimals <= 19,
    ensures
        r as nat == pow10(decimals as nat),
        r >= 1,
{
    proof {
        lemma_pow10_monotonic(0, decimals as nat);
    }
    let mut r: u64 = 1;
    let mut i: u8 = 0;
    while i < decimals
        invariant
            i <= decimals <= 19,
            r as nat == pow10(i as nat),
        decreases decimals - i,
    {
        proof {
            lemma_pow10_fits((i + 1) as nat);
        }
        r = r * 10;
        i = i + 1;
    }
    r
}

/// Whole tokens in `amount` smallest units of a token with `decimals`
/// decimals, rounded down.
pub open spec fn whole_tokens(amount: u64, decimals: u8) -> nat {
    amount as nat / pow10(decimals as nat)
}

/// Whole tokens in `amount`, rounded down: `amount / 10^decimals`.
pub fn adjusted_for_decimals(amount: u64, decimals: u8) -> (r: u64)
    requires
        decimals <= 19,
    ensures
        r as nat == whole_tokens(amount, decimals),
{
    let divisor = decimals_divisor(decimals);
    amount / divisor
}

/// Whether a stream is running at time `now`: strictly after its start and
/// strictly before its end.
pub open spec fn active_at(now: u64, ix: StreamInstruction) -> bool {
    now > ix.start_time && now < ix.end_time
}

/// Whether the stream is running at time `now`.
pub fn is_active(now: u64, ix: &StreamInstruction) -> (r: bool)
    ensures
        r == active_at(now, *ix),
        r == (now > ix.start_time && now < ix.end_time),
{
    now > ix.start_time && now < ix.end_time
}


/// A stream is active exactly inside its window: strictly after its start
/// and strictly before its end; its cliff, period and amounts play no part.
pub proof fn lemma_active_is_window(now: u64, ix: StreamInstruction, other: StreamInstruction)
    requires
        other.start_time == ix.start_time,
        other.end_time == ix.end_time,
    ensures
        active_at(now, ix) <==> (now > ix.start_time && now < ix.end_time),
        active_at(now, ix) == active_at(now, other),
{
}

/// Display labels of a token.
#[derive(Debug)]
pub struct TokenLabels {
    pub name: String,
    pub symbol: String,
    pub logo: String,
}

/// Everything the aggregation knows of a token that does not depend on its
/// price: its labels, its decimals, the amount sent in its streams and their
/// number.
#[derive(Debug)]
pub struct TokenTally {
    pub name: String,
    pub symbol: String,
    pub logo: String,
    pub decimals: u8,
    pub amount_sent: u64,
    pub amount_of_streams: u64,
}

impl Clone for TokenTally {
    fn clone(&self) -> (r: Self)
        ensures
            r == *self,
    {
        TokenTally {
            name: self.name.clone(),
            symbol: self.symbol.clone(),
            logo: self.logo.clone(),
            decimals: self.decimals,
            amount_sent: self.amount_sent,
            amount_of_streams: self.amount_of_streams,
        }
    }
}

/// What one recorded stream changed in its token's total, in whole tokens
/// (`amount_sent / 10^decimals`) before and after, and whether the stream is
/// active.
#[derive(Clone, Copy, Debug, PartialEq, Eq)]
pub struct Credit {
    pub active: bool,
    pub units_before: u64,
    pub units_after: u64,
}

/// Number of streams over all tokens.
pub open spec fn streams_sum(s: Seq<([u8; 32], TokenTally)>) -> nat
    decreases s.len(),
{
    if s.len() == 0 {
        0
    } else {
        streams_sum(s.drop_last()) + s.last().1.amount_of_streams as nat
    }
}

/// Amount sent over all tokens, in their smallest units.
pub open spec fn sent_sum(s: Seq<([u8; 32], TokenTally)>) -> nat
    decreases s.len(),
{
    if s.len() == 0 {
        0
    } else {
        sent_sum(s.drop_last()) + s.last().1.amount_sent as nat
    }
}

/// Replacing one token's entry changes the sums by the difference between
/// the new entry and the old one.
pub proof fn lemma_sums_update(s: Seq<([u8; 32], TokenTally)>, i: int, e: ([u8; 32], TokenTally))
    requires
        0 <= i < s.len(),
    ensures
        streams_sum(s.update(i, e)) == streams_sum(s) - s[i].1.amount_of_streams
            + e.1.amount_of_streams,
        sent_sum(s.update(i, e)) == sent_sum(s) - s[i].1.amount_sent + e.1.amount_sent,
    decreases s.len(),
{
    let t = s.update(i, e);
    if i == s.len() - 1 {
        assert(t.drop_last() =~= s.drop_last());
    } else {
        assert(t.drop_last() =~= s.drop_last().update(i, e));
        lemma_sums_update(s.drop_last(), i, e);
    }
}

/// The entry of a token after one more stream of `deposited` units.
pub open spec fn credited(t: TokenTally, deposited: u64) -> TokenTally {
    TokenTally {
        amount_sent: (t.amount_sent + deposited) as u64,
        amount_of_streams: (t.amount_of_streams + 1) as u64,
        ..t
    }
}

/// The entry of a token first seen in a stream of `deposited` units.
pub open spec fn first_entry(labels: TokenLabels, decimals: u8, deposited: u64) -> TokenTally {
    TokenTally {
        name: labels.name,
        symbol: labels.symbol,
        logo: labels.logo,
        decimals,
        amount_sent: deposited,
        amount_of_streams: 1,
    }
}

/// Sum of `f` over the entries of `s`.
pub open spec fn sum_by<E>(s: Seq<E>, f: spec_fn(E) -> nat) -> nat
    decreases s.len(),
{
    if s.len() == 0 {
        0
    } else {
        sum_by(s.drop_last(), f) + f(s.last())
    }
}

/// Removing one entry takes its term out of the sum.
pub proof fn lemma_sum_by_remove<E>(s: Seq<E>, f: spec_fn(E) -> nat, i: int)
    requires
        0 <= i < s.len(),
    ensures
        sum_by(s, f) == sum_by(s.remove(i), f) + f(s[i]),
    decreases s.len(),
{
    if i < s.len() - 1 {
        assert(s.remove(i).drop_last() =~= s.drop_last().remove(i));
        assert(s.remove(i).last() == s.last());
        lemma_sum_by_remove(s.drop_last(), f, i);
    } else {
        assert(s.remove(i) =~= s.drop_last());
    }
}

/// A sum does not depend on the order of the entries.
pub proof fn lemma_sum_by_permutation<E>(s: Seq<E>, t: Seq<E>, f: spec_fn(E) -> nat)
    requires
        s.to_multiset() == t.to_multiset(),
    ensures
        sum_by(s, f) == sum_by(t, f),
    decreases s.len(),
{
    broadcast use vstd::seq_lib::group_to_multiset_ensures;

    if s.len() == 0 {
        assert(t.to_multiset().len() == 0);
        assert(t.len() == 0);
    } else {
        let a = s.last();
        assert(s =~= s.drop_last().push(a));
        assert(s.to_multiset() == s.drop_last().to_multiset().insert(a));
        assert(t.to_multiset().count(a) > 0);
        assert(t.contains(a));
        let j = choose|j: int| 0 <= j < t.len() && t[j] == a;
        assert(t.remove(j).to_multiset() == t.to_multiset().remove(a));
        assert(s.drop_last().to_multiset() =~= s.to_multiset().remove(a));
        lemma_sum_by_permutation(s.drop_last(), t.remove(j), f);
        lemma_sum_by_remove(t, f, j);
    }
}

/// What was recorded of one stream: its mint, its deposit and whether it
/// was active.
pub open spec fn record_of(mint: Seq<u8>, ix: StreamInstruction, now: u64) -> (Seq<u8>, u64, bool) {
    (mint, ix.deposited_amount, active_at(now, ix))
}

/// The deposit of a recorded stream if it is of mint `m`, else 0.
pub open spec fn units_of(m: Seq<u8>) -> spec_fn((Seq<u8>, u64, bool)) -> nat {
    |e: (Seq<u8>, u64, bool)| if e.0 == m { e.1 as nat } else { 0 }
}

/// 1 for a recorded stream of mint `m`, else 0.
pub open spec fn one_of(m: Seq<u8>) -> spec_fn((Seq<u8>, u64, bool)) -> nat {
    |e: (Seq<u8>, u64, bool)| if e.0 == m { 1 } else { 0 }
}

/// 1 for a recorded stream that was active, else 0.
pub open spec fn one_if_active() -> spec_fn((Seq<u8>, u64, bool)) -> nat {
    |e: (Seq<u8>, u64, bool)| if e.2 { 1 } else { 0 }
}

/// Units deposited in the recorded streams of mint `m`.
pub open spec fn mint_sent(h: Seq<(Seq<u8>, u64, bool)>, m: Seq<u8>) -> nat {
    sum_by(h, units_of(m))
}

/// Number of recorded streams of mint `m`.
pub open spec fn mint_count(h: Seq<(Seq<u8>, u64, bool)>, m: Seq<u8>) -> nat {
    sum_by(h, one_of(m))
}

/// Number of recorded streams that were active.
pub open spec fn active_total(h: Seq<(Seq<u8>, u64, bool)>) -> nat {
    sum_by(h, one_if_active())
}

/// A mint with no recorded stream has nothing deposited.
pub proof fn lemma_no_streams_no_units(h: Seq<(Seq<u8>, u64, bool)>, m: Seq<u8>)
    requires
        mint_count(h, m) == 0,
    ensures
        mint_sent(h, m) == 0,
    decreases h.len(),
{
    if h.len() > 0 {
        lemma_no_streams_no_units(h.drop_last(), m);
    }
}

/// The totals do not depend on the order in which the streams were
/// recorded: two tallies that recorded the same streams, in any order, know
/// the same tokens, with the same amounts sent and stream counts, hold the
/// same number of tokens and count the same active streams.
pub proof fn lemma_order_independent(a: StreamTally, b: StreamTally)
    requires
        a.totals_match(),
        b.totals_match(),
        a.history().to_multiset() == b.history().to_multiset(),
    ensures
        a.tokens_map().dom() == b.tokens_map().dom(),
        forall|m: Seq<u8>|
            #[trigger] a.tokens_map().dom().contains(m) ==> a.tokens_map()[m].amount_sent
                == b.tokens_map()[m].amount_sent && a.tokens_map()[m].amount_of_streams
                == b.tokens_map()[m].amount_of_streams,
        a.tokens_seq().len() == b.tokens_seq().len(),
        a.active_count() == b.active_count(),
{
    let ha = a.history();
    let hb = b.history();
    assert forall|m: Seq<u8>|
        mint_count(ha, m) == mint_count(hb, m) && mint_sent(ha, m) == mint_sent(hb, m) by {
        lemma_sum_by_permutation(ha, hb, one_of(m));
        lemma_sum_by_permutation(ha, hb, units_of(m));
    }
    lemma_sum_by_permutation(ha, hb, one_if_active());
    assert forall|m: Seq<u8>| a.tokens_map().dom().contains(m) <==> b.tokens_map().dom().contains(m) by {
        assert(mint_count(ha, m) == mint_count(hb, m));
    }
    assert(a.tokens_map().dom() =~= b.tokens_map().dom());
    lemma_as_map_len(a.tokens_seq());
    lemma_as_map_len(b.tokens_seq());
}

/// A token first seen keeps the labels and decimals it was given, with the
/// one stream's deposit as its amount and one stream.
pub proof fn lemma_first_entry_fields(labels: TokenLabels, decimals: u8, deposited: u64)
    ensures
        first_entry(labels, decimals, deposited).name == labels.name,
        first_entry(labels, decimals, deposited).symbol == labels.symbol,
        first_entry(labels, decimals, deposited).logo == labels.logo,
        first_entry(labels, decimals, deposited).decimals == decimals,
        first_entry(labels, decimals, deposited).amount_sent == deposited,
        first_entry(labels, decimals, deposited).amount_of_streams == 1,
{
}

/// One more stream keeps a token's labels and decimals, adds its deposit to
/// the amount sent and one to the number of streams.
pub proof fn lemma_credited_fields(t: TokenTally, deposited: u64)
    requires
        t.amount_sent + deposited <= u64::MAX,
        t.amount_of_streams < u64::MAX,
    ensures
        credited(t, deposited).name == t.name,
        credited(t, deposited).symbol == t.symbol,
        credited(t, deposited).logo == t.logo,
        credited(t, deposited).decimals == t.decimals,
        credited(t, deposited).amount_sent == t.amount_sent + deposited,
        credited(t, deposited).amount_of_streams == t.amount_of_streams + 1,
{
}

/// Per-token totals of the streams recorded so far, and how many of them
/// are active.
pub struct StreamTally {
    tokens: KeyedList<TokenTally>,
    active_streams: u64,
    history: Ghost<Seq<(Seq<u8>, u64, bool)>>,
}

impl StreamTally {
    /// Each token with its entry, in the order the tokens were first seen.
    pub closed spec fn tokens_seq(self) -> Seq<([u8; 32], TokenTally)> {
        self.tokens.entries_seq()
    }

    /// Number of active streams recorded.
    pub closed spec fn active_count(self) -> nat {
        self.active_streams as nat
    }

    /// What was recorded of each stream, in the order of recording.
    pub closed spec fn history(self) -> Seq<(Seq<u8>, u64, bool)> {
        self.history@
    }

    /// The totals are those of the recorded streams: a token is known
    /// exactly when a stream of its mint was recorded, its amount sent is the
    /// sum of their deposits, its stream count their number, and the active
    /// count is the number of recorded streams that were active.
    pub open spec fn totals_match(self) -> bool {
        &&& forall|m: Seq<u8>|
            #![trigger self.tokens_map().dom().contains(m)]
            #![trigger mint_count(self.history(), m)]
            self.tokens_map().dom().contains(m) <==> mint_count(self.history(), m) > 0
        &&& forall|m: Seq<u8>|
            #[trigger] self.tokens_map().dom().contains(m) ==> {
                &&& self.tokens_map()[m].amount_sent == mint_sent(self.history(), m)
                &&& self.tokens_map()[m].amount_of_streams == mint_count(self.history(), m)
            }
        &&& self.active_count() == active_total(self.history())
        &&& unique_keys(self.tokens_seq())
    }

    /// Each token's entry, by mint address.
    pub open spec fn tokens_map(self) -> Map<Seq<u8>, TokenTally> {
        as_map(self.tokens_seq())
    }

    /// Active streams are among the recorded ones, and every token's
    /// decimals give a divisor that fits in a `u64`.
    #[verifier::type_invariant]
    closed spec fn inv(self) -> bool {
        &&& self.active_streams <= streams_sum(self.tokens.entries_seq())
        &&& self.totals_match()
        &&& forall|i: int|
            0 <= i < self.tokens.entries_seq().len() ==> (#[trigger] self.tokens.entries_seq()[i]).1.decimals
                <= 19
    }

    /// Whether one more stream of `deposited` units for `mint`, active or not,
    /// keeps every counter within a `u64`.
    pub open spec fn has_room(self, active: bool, mint: Seq<u8>, deposited: u64) -> bool {
        &&& active ==> self.active_count() < u64::MAX
        &&& self.tokens_map().dom().contains(mint) ==> {
            &&& self.tokens_map()[mint].amount_sent + deposited <= u64::MAX
            &&& self.tokens_map()[mint].amount_of_streams < u64::MAX
        }
    }

    /// No streams yet.
    pub fn new() -> (r: Self)
        ensures
            r.tokens_seq() == Seq::<([u8; 32], TokenTally)>::empty(),
            r.active_count() == 0,
            r.history() == Seq::<(Seq<u8>, u64, bool)>::empty(),
            r.totals_match(),
    {
        let r = StreamTally { tokens: KeyedList::new(), active_streams: 0, history: Ghost(Seq::empty()) };
        proof {
            assert forall|m: Seq<u8>| !r.tokens_map().dom().contains(m) by {}
        }
        r
    }

    /// Number of active streams recorded.
    pub fn active_streams(&self) -> (r: u64)
        ensures
            r == self.active_count(),
            r <= streams_sum(self.tokens_seq()),
    {
        proof {
            use_type_invariant(self);
        }
        self.active_streams
    }

    /// Number of distinct tokens.
    pub fn no_tokens(&self) -> (r: usize)
        ensures
            r == self.tokens_seq().len(),
            unique_keys(self.tokens_seq()),
    {
        self.tokens.len()
    }

    /// The mint address and entry of the `i`-th token.
    pub fn token_at(&self, i: usize) -> (r: &([u8; 32], TokenTally))
        requires
            i < self.tokens_seq().len(),
        ensures
            *r == self.tokens_seq()[i as int],
    {
        self.tokens.entry(i)
    }

    /// Whether a token with this mint has been seen.
    pub fn knows(&self, mint: &[u8; 32]) -> (r: bool)
        ensures
            r == self.tokens_map().dom().contains(mint@),
    {
        self.tokens.get(mint).is_some()
    }

    /// Whether recording a stream of `ix` for `mint` at time `now` keeps
    /// every counter within a `u64`.
    pub fn can_record(&self, now: u64, mint: &[u8; 32], ix: &StreamInstruction) -> (r: bool)
        ensures
            r == self.has_room(active_at(now, *ix), mint@, ix.deposited_amount),
    {
        let active = is_active(now, ix);
        if active && self.active_streams == u64::MAX {
            return false;
        }
        match self.tokens.get(mint) {
            Some(t) => t.amount_sent <= u64::MAX - ix.deposited_amount && t.amount_of_streams
                < u64::MAX,
            None => true,
        }
    }

    /// Records a stream of `ix` for an already seen `mint` at time `now`:
    /// one more stream and `ix.deposited_amount` more units for that token,
    /// one more active stream when it is active. `None`, and nothing
    /// recorded, when the mint has not been seen (its labels and decimals are
    /// then needed, see [`StreamTally::record_new`]).
    pub fn record_known(&mut self, now: u64, mint: &[u8; 32], ix: &StreamInstruction) -> (r: Option<
        Credit,
    >)
        requires
            old(self).has_room(active_at(now, *ix), mint@, ix.deposited_amount),
        ensures
            r is Some <==> old(self).tokens_map().dom().contains(mint@),
            r is None ==> final(self).tokens_seq() == old(self).tokens_seq()
                && final(self).active_count() == old(self).active_count() && final(self).history()
                == old(self).history(),
            r is Some ==> final(self).history() == old(self).history().push(
                record_of(mint@, *ix, now),
            ),
            final(self).totals_match(),
            r matches Some(c) ==> {
                let t = old(self).tokens_map()[mint@];
                let n = credited(t, ix.deposited_amount);
                &&& final(self).tokens_seq() == upsert(old(self).tokens_seq(), *mint, n)
                &&& final(self).tokens_map() == old(self).tokens_map().insert(mint@, n)
                &&& c.active == active_at(now, *ix)
                &&& c.active == (now > ix.start_time && now < ix.end_time)
                &&& final(self).tokens_map()[mint@].name == t.name
                &&& final(self).tokens_map()[mint@].symbol == t.symbol
                &&& final(self).tokens_map()[mint@].logo == t.logo
                &&& final(self).tokens_map()[mint@].decimals == t.decimals
                &&& final(self).tokens_map()[mint@].amount_sent == t.amount_sent
                    + ix.deposited_amount
                &&& final(self).tokens_map()[mint@].amount_of_streams == t.amount_of_streams + 1
                &&& c.units_before as nat == t.amount_sent as nat / pow10(t.decimals as nat)
                &&& c.units_after as nat == (t.amount_sent + ix.deposited_amount) as nat / pow10(
                    t.decimals as nat,
                )
                &&& final(self).active_count() == old(self).active_count() + (if c.active {
                    1int
                } else {
                    0int
                })
                &&& c.units_before as nat == whole_tokens(t.amount_sent, t.decimals)
                &&& c.units_after as nat == whole_tokens(n.amount_sent, t.decimals)
                &&& streams_sum(final(self).tokens_seq()) == streams_sum(old(self).tokens_seq()) + 1
                &&& sent_sum(final(self).tokens_seq()) == sent_sum(old(self).tokens_seq())
                    + ix.deposited_amount
            },
    {
        proof {
            use_type_invariant(&*self);
        }
        let active = is_active(now, ix);
        let found = self.tokens.find(mint);
        let i = match found {
            Some(i) => i,
            None => {
                proof {
                    lemma_as_map_dom(self.tokens.entries_seq(), mint@);
                }
                return None;
            },
        };
        let ghost s = self.tokens.entries_seq();
        proof {
            lemma_as_map_index(s, i as int);
        }
        let t = self.tokens.entry(i).1.clone();
        let before = adjusted_for_decimals(t.amount_sent, t.decimals);
        let n = TokenTally {
            name: t.name,
            symbol: t.symbol,
            logo: t.logo,
            decimals: t.decimals,
            amount_sent: t.amount_sent + ix.deposited_amount,
            amount_of_streams: t.amount_of_streams + 1,
        };
        let after = adjusted_for_decimals(n.amount_sent, n.decimals);
        let ghost n_spec = n;
        let mut cur = StreamTally::new();
        std::mem::swap(&mut cur, self);
        let StreamTally { mut tokens, active_streams, history } = cur;
        tokens.insert(*mint, n);
        proof {
            lemma_sums_update(s, i as int, (*mint, n_spec));
            assert(tokens.entries_seq() == s.update(i as int, (*mint, n_spec)));
        }
        let active_streams = if active {
            active_streams + 1
        } else {
            active_streams
        };
        let ghost h = history@;
        let ghost e = record_of(mint@, *ix, now);
        let history = Ghost(history@.push(e));
        proof {
            let old_map = as_map(s);
            let new_map = as_map(tokens.entries_seq());
            assert(history@.drop_last() =~= h);
            assert(new_map == old_map.insert(mint@, n_spec));
            assert forall|m: Seq<u8>| #![trigger new_map.dom().contains(m)] #![trigger mint_count(history@, m)]
                new_map.dom().contains(m) <==> mint_count(history@, m) > 0 by {
                assert(mint_count(history@, m) == mint_count(h, m) + (if m == mint@ { 1nat } else { 0nat }));
                if m != mint@ {
                    assert(old_map.dom().contains(m) <==> mint_count(h, m) > 0);
                }
            }
            assert forall|m: Seq<u8>| #[trigger] new_map.dom().contains(m) implies new_map[m].amount_sent
                == mint_sent(history@, m) && new_map[m].amount_of_streams == mint_count(history@, m) by {
                assert(mint_count(history@, m) == mint_count(h, m) + (if m == mint@ { 1nat } else { 0nat }));
                assert(mint_sent(history@, m) == mint_sent(h, m) + (if m == mint@ { ix.deposited_amount as nat } else { 0nat }));
                assert(old_map.dom().contains(m));
            }
            assert(active_total(history@) == active_total(h) + (if active { 1nat } else { 0nat }));
        }
        *self = StreamTally { tokens, active_streams, history };
        Some(Credit { active, units_before: before, units_after: after })
    }

    /// Records a stream of `ix` for a `mint` not seen before, with the
    /// token's labels and decimals: a new token with this one stream and its
    /// deposit, one more active stream when it is active.
    pub fn record_new(
        &mut self,
        now: u64,
        mint: [u8; 32],
        ix: &StreamInstruction,
        labels: TokenLabels,
        decimals: u8,
    ) -> (c: Credit)
        requires
            !old(self).tokens_map().dom().contains(mint@),
            decimals <= 19,
            active_at(now, *ix) ==> old(self).active_count() < u64::MAX,
        ensures
            final(self).tokens_seq() == old(self).tokens_seq().push(
                (mint, first_entry(labels, decimals, ix.deposited_amount)),
            ),
            final(self).tokens_map() == old(self).tokens_map().insert(
                mint@,
                first_entry(labels, decimals, ix.deposited_amount),
            ),
            c.active == active_at(now, *ix),
            c.active == (now > ix.start_time && now < ix.end_time),
            final(self).tokens_map().dom().contains(mint@),
            final(self).tokens_map()[mint@].name == labels.name,
            final(self).tokens_map()[mint@].symbol == labels.symbol,
            final(self).tokens_map()[mint@].logo == labels.logo,
            final(self).tokens_map()[mint@].decimals == decimals,
            final(self).tokens_map()[mint@].amount_sent == ix.deposited_amount,
            final(self).tokens_map()[mint@].amount_of_streams == 1,
            c.units_after as nat == ix.deposited_amount as nat / pow10(decimals as nat),
            final(self).active_count() == old(self).active_count() + (if c.active {
                1int
            } else {
                0int
            }),
            c.units_before == 0,
            c.units_after as nat == whole_tokens(ix.deposited_amount, decimals),
            streams_sum(final(self).tokens_seq()) == streams_sum(old(self).tokens_seq()) + 1,
            sent_sum(final(self).tokens_seq()) == sent_sum(old(self).tokens_seq())
                + ix.deposited_amount,
            final(self).history() == old(self).history().push(record_of(mint@, *ix, now)),
            final(self).totals_match(),
    {
        proof {
            use_type_invariant(&*self);
            lemma_as_map_dom(self.tokens.entries_seq(), mint@);
        }
        let ghost s = self.tokens.entries_seq();
        let active = is_active(now, ix);
        let after = adjusted_for_decimals(ix.deposited_amount, decimals);
        let n = TokenTally {
            name: labels.name,
            symbol: labels.symbol,
            logo: labels.logo,
            decimals,
            amount_sent: ix.deposited_amount,
            amount_of_streams: 1,
        };
        let ghost n_spec = n;
        let mut cur = StreamTally::new();
        std::mem::swap(&mut cur, self);
        let StreamTally { mut tokens, active_streams, history } = cur;
        tokens.insert(mint, n);
        proof {
            assert(index_of_key(s, mint@) is None);
            assert(tokens.entries_seq() == s.push((mint, n_spec)));
            assert(s.push((mint, n_spec)).drop_last() =~= s);
        }
        let active_streams = if active {
            active_streams + 1
        } else {
            active_streams
        };
        let ghost h = history@;
        let ghost e = record_of(mint@, *ix, now);
        let history = Ghost(history@.push(e));
        proof {
            let old_map = as_map(s);
            let new_map = as_map(tokens.entries_seq());
            assert(history@.drop_last() =~= h);
            assert(new_map == old_map.insert(mint@, n_spec));
            assert(mint_count(h, mint@) == 0);
            lemma_no_streams_no_units(h, mint@);
            assert forall|m: Seq<u8>| #![trigger new_map.dom().contains(m)] #![trigger mint_count(history@, m)]
                new_map.dom().contains(m) <==> mint_count(history@, m) > 0 by {
                assert(mint_count(history@, m) == mint_count(h, m) + (if m == mint@ { 1nat } else { 0nat }));
                if m != mint@ {
                    assert(old_map.dom().contains(m) <==> mint_count(h, m) > 0);
                }
            }
            assert forall|m: Seq<u8>| #[trigger] new_map.dom().contains(m) implies new_map[m].amount_sent
                == mint_sent(history@, m) && new_map[m].amount_of_streams == mint_count(history@, m) by {
                assert(mint_count(history@, m) == mint_count(h, m) + (if m == mint@ { 1nat } else { 0nat }));
                assert(mint_sent(history@, m) == mint_sent(h, m) + (if m == mint@ { ix.deposited_amount as nat } else { 0nat }));
                if m != mint@ {
                    assert(old_map.dom().contains(m));
                }
            }
            assert(active_total(history@) == active_total(h) + (if active { 1nat } else { 0nat }));
        }
        *self = StreamTally { tokens, active_streams, history };
        Credit { active, units_before: 0, units_after: after }
    }
}


/// What reading the member `key` of the JSON text `text` as a string gives:
/// `None` when the text is not JSON, `Some(None)` when the member is missing
/// or is not a string, `Some(Some(s))` when it is the string `s`.
pub uninterp spec fn json_string_member(text: Seq<char>, key: Seq<char>) -> Option<
    Option<Seq<char>>,
>;

/// The text of an optional string member.
pub open spec fn member_text(m: Option<Option<String>>) -> Option<Option<Seq<char>>> {
    match m {
        Some(Some(s)) => Some(Some(s@)),
        Some(None) => Some(None),
        None => None,
    }
}

/// Whether `s` can stand between the quotes of a JSON string as it is: no
/// quote, no backslash and no control character.
pub open spec fn json_plain(s: Seq<char>) -> bool {
    forall|i: int| 0 <= i < s.len() ==> s[i] != '"' && s[i] != '\\' && (s[i] as u32) >= 0x20
}

/// Whether `k` is a plain JSON object key that is read as an ordinary key
/// (one not starting with `$`, which serde_json may reserve).
pub open spec fn json_plain_key(k: Seq<char>) -> bool {
    json_plain(k) && (k.len() == 0 || k[0] != '$')
}

/// Whether every member of `m` has a plain key and a plain string value.
pub open spec fn json_plain_members(m: Seq<(Seq<char>, Seq<char>)>) -> bool {
    forall|i: int| 0 <= i < m.len() ==> json_plain_key(#[trigger] m[i].0) && json_plain(m[i].1)
}

/// The JSON text of a string whose characters are plain.
pub open spec fn json_string_text(s: Seq<char>) -> Seq<char> {
    seq!['"'] + s + seq!['"']
}

/// The JSON text of the members `m`, separated by commas.
pub open spec fn json_members_text(m: Seq<(Seq<char>, Seq<char>)>) -> Seq<char>
    decreases m.len(),
{
    if m.len() == 0 {
        Seq::empty()
    } else if m.len() == 1 {
        json_string_text(m[0].0) + seq![':'] + json_string_text(m[0].1)
    } else {
        json_members_text(m.drop_last()) + seq![','] + json_string_text(m.last().0) + seq![':']
            + json_string_text(m.last().1)
    }
}

/// The JSON text of an object whose members are the strings `m`.
pub open spec fn json_object_text(m: Seq<(Seq<char>, Seq<char>)>) -> Seq<char> {
    seq!['{'] + json_members_text(m) + seq!['}']
}

/// The string of member `k` in `m`: the last member with that key wins.
pub open spec fn json_lookup(m: Seq<(Seq<char>, Seq<char>)>, k: Seq<char>) -> Option<Seq<char>>
    decreases m.len(),
{
    if m.len() == 0 {
        None
    } else if m.last().0 == k {
        Some(m.last().1)
    } else {
        json_lookup(m.drop_last(), k)
    }
}

/// In an object whose keys are distinct, the string read for a member's key
/// is exactly that member's string, and a key no member has reads nothing.
pub proof fn lemma_lookup_member(m: Seq<(Seq<char>, Seq<char>)>, i: int, absent: Seq<char>)
    requires
        0 <= i < m.len(),
        forall|a: int, b: int| 0 <= a < b < m.len() ==> (#[trigger] m[a]).0 != (#[trigger] m[b]).0,
        forall|j: int| 0 <= j < m.len() ==> (#[trigger] m[j]).0 != absent,
    ensures
        json_lookup(m, m[i].0) == Some(m[i].1),
        json_lookup(m, absent) is None,
    decreases m.len(),
{
    let t = m.drop_last();
    if i < m.len() - 1 {
        assert(m[i] == t[i]);
        assert(m[i].0 != m[m.len() - 1].0);
        lemma_lookup_member(t, i, absent);
    } else if m.len() > 1 {
        lemma_lookup_member(t, 0, absent);
    } else {
        assert(json_lookup(t, absent) is None);
    }
}

/// Parses `text` with `serde_json::from_str` into a `serde_json::Value` and
/// reads `value[key].as_str()`. The result is named as a function of the text
/// and the key; on the text of an object of plain string members it is that
/// object's string for `key` (the last one when the key repeats, as
/// serde_json's map insertion keeps the last value), or `Some(None)` when the
/// object has no such member. Other texts are left to the name.
#[verifier::external_body]
fn json_member_str(text: &str, key: &str) -> (r: Option<Option<String>>)
    ensures
        member_text(r) == json_string_member(text@, key@),
        forall|m: Seq<(Seq<char>, Seq<char>)>|
            json_plain_members(m) && #[trigger] json_object_text(m) == text@ ==> member_text(r)
                == Some(json_lookup(m, key@)),
{
    match serde_json::from_str::<serde_json::Value>(text) {
        Ok(v) => match v[key].as_str() {
            Some(s) => Some(Some(s.to_string())),
            None => Some(None),
        },
        Err(_) => None,
    }
}

/// A token label: the member's text, or `"null"` when it is absent.
pub open spec fn label_or_null(m: Option<Seq<char>>) -> Seq<char> {
    match m {
        Some(s) => s,
        None => "null"@,
    }
}

/// The label of a string member, `"null"` when it is absent.
pub fn label(member: Option<String>) -> (r: String)
    ensures
        r@ == label_or_null(match member {
            Some(s) => Some(s@),
            None => None,
        }),
{
    match member {
        Some(s) => s,
        None => "null".to_owned(),
    }
}

/// Whether `l` holds the labels read from the JSON metadata `metadata`: its
/// `name`, `symbol` and `icon` string members, each `"null"` when absent.
pub open spec fn labels_of(metadata: Seq<char>, l: TokenLabels) -> bool {
    &&& json_string_member(metadata, "name"@) matches Some(m) && l.name@ == label_or_null(m)
    &&& json_string_member(metadata, "symbol"@) matches Some(m) && l.symbol@ == label_or_null(m)
    &&& json_string_member(metadata, "icon"@) matches Some(m) && l.logo@ == label_or_null(m)
}

/// Reads a token's labels from its JSON metadata: the `name`, `symbol` and
/// `icon` string members, each `"null"` when absent. `None` when the
/// metadata is not JSON.
pub fn token_labels(metadata: &str) -> (r: Option<TokenLabels>)
    ensures
        r is Some <==> (json_string_member(metadata@, "name"@) is Some && json_string_member(
            metadata@,
            "symbol"@,
        ) is Some && json_string_member(metadata@, "icon"@) is Some),
        r matches Some(l) ==> labels_of(metadata@, l),
        forall|m: Seq<(Seq<char>, Seq<char>)>|
            json_plain_members(m) && #[trigger] json_object_text(m) == metadata@ ==> {
                &&& r is Some
                &&& r->0.name@ == label_or_null(json_lookup(m, "name"@))
                &&& r->0.symbol@ == label_or_null(json_lookup(m, "symbol"@))
                &&& r->0.logo@ == label_or_null(json_lookup(m, "icon"@))
            },
{
    let name = json_member_str(metadata, "name")?;
    let symbol = json_member_str(metadata, "symbol")?;
    let logo = json_member_str(metadata, "icon")?;
    Some(TokenLabels { name: label(name), symbol: label(symbol), logo: label(logo) })
}

} // verus!
