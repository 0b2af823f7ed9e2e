use crate::amount::{amount_limit, lemma_amount_below_limit, units_text, Amount};
use crate::records::Transfer;
use vstd::prelude::*;

verus! {

/// Which side of a transfer the target address is looked for on.
#[derive(Clone, Copy, PartialEq, Eq, Structural, Debug)]
pub enum Direction {
    /// The target sent the value (`from`).
    Outflow,
    /// The target received the value (`to`).
    Inflow,
}

/// Whether `t` has `target` on side `dir`.
pub open spec fn on_side<T: Transfer>(t: T, target: Seq<char>, dir: Direction) -> bool {
    match dir {
        Direction::Outflow => t.sender() == target,
        Direction::Inflow => t.receiver() == target,
    }
}

/// The value of the records with `target` on side `dir` whose error flag is
/// `failed`.
pub open spec fn flow_sum<T: Transfer>(txs: Seq<T>, target: Seq<char>, dir: Direction, failed: bool) -> nat
    decreases txs.len(),
{
    if txs.len() == 0 {
        0
    } else {
        flow_sum(txs.drop_last(), target, dir, failed) + if on_side(txs.last(), target, dir)
            && txs.last().failed() == failed {
            txs.last().amount()
        } else {
            0
        }
    }
}

/// The value of all records with `target` on side `dir`, failed or not.
pub open spec fn gross_flow<T: Transfer>(txs: Seq<T>, target: Seq<char>, dir: Direction) -> nat
    decreases txs.len(),
{
    if txs.len() == 0 {
        0
    } else {
        gross_flow(txs.drop_last(), target, dir) + if on_side(txs.last(), target, dir) {
            txs.last().amount()
        } else {
            0
        }
    }
}

/// The flow of `target` on side `dir`: failed transactions moved nothing.
pub open spec fn flow_of<T: Transfer>(txs: Seq<T>, target: Seq<char>, dir: Direction) -> nat {
    flow_sum(txs, target, dir, false)
}

proof fn lemma_flow_prefix_le<T: Transfer>(txs: Seq<T>, i: int, target: Seq<char>, dir: Direction)
    requires
        0 <= i <= txs.len(),
    ensures
        flow_of(txs.take(i), target, dir) <= flow_of(txs, target, dir),
    decreases txs.len() - i,
{
    if i < txs.len() {
        lemma_flow_prefix_le(txs, i + 1, target, dir);
        assert(txs.take(i + 1).drop_last() =~= txs.take(i));
    } else {
        assert(txs.take(i) =~= txs);
    }
}

/// The exact flow of `target` on side `dir` over `txs`, leaving out records
/// flagged as failed; `None` when it reaches 2^256.
pub fn flow<T: Transfer>(txs: &Vec<T>, target: &String, dir: Direction) -> (r: Option<Amount>)
    ensures
        r is Some <==> flow_of(txs@, target@, dir) < amount_limit(),
        r matches Some(a) ==> a@ == flow_of(txs@, target@, dir),
{
    let mut total = Amount::zero();
    let mut i: usize = 0;
    while i < txs.len()
        invariant
            i <= txs@.len(),
            total@ == flow_of(txs@.take(i as int), target@, dir),
        decreases txs@.len() - i,
    {
        let t = &txs[i];
        assert(txs@.take(i + 1).drop_last() =~= txs@.take(i as int));
        let side = match dir {
            Direction::Outflow => t.from_address(),
            Direction::Inflow => t.to_address(),
        };
        if *side == *target && !t.is_error() {
            match total.checked_add(t.value()) {
                Some(s) => {
                    total = s;
                },
                None => {
                    proof {
                        lemma_flow_prefix_le(txs@, i + 1, target@, dir);
                    }
                    return None;
                },
            }
        }
        i = i + 1;
    }
    assert(txs@.take(i as int) =~= txs@);
    proof {
        lemma_amount_below_limit(total);
    }
    Some(total)
}

/// A signed amount: `inflow - outflow`.
#[derive(Clone, Copy, PartialEq, Eq, Structural, Debug)]
pub struct NetFlow {
    /// Whether more went out than came in.
    pub negative: bool,
    pub magnitude: Amount,
}

impl NetFlow {
    pub open spec fn signed_value(self) -> int {
        if self.negative {
            -(self.magnitude@ as int)
        } else {
            self.magnitude@ as int
        }
    }

    /// The net flow in tokens of `10^decimals` units, with a leading `-`
    /// when negative.
    pub fn format_units(self, decimals: u32) -> (r: String)
        requires
            decimals <= 19,
        ensures
            r@ == if self.negative {
                seq!['-'] + units_text(self.magnitude@, decimals as nat)
            } else {
                units_text(self.magnitude@, decimals as nat)
            },
    {
        let digits = self.magnitude.format_units(decimals);
        if self.negative {
            let mut text = String::from_str("-");
            proof {
                reveal_strlit("-");
            }
            text.append(digits.as_str());
            assert(text@ =~= seq!['-'] + units_text(self.magnitude@, decimals as nat));
            text
        } else {
            digits
        }
    }
}

/// `inflow - outflow`, exactly; zero is never negative.
pub fn net_flow(inflow: Amount, outflow: Amount) -> (r: NetFlow)
    ensures
        r.signed_value() == inflow@ - outflow@,
        r.negative ==> r.magnitude@ > 0,
{
    match inflow.checked_sub(outflow) {
        Some(d) => NetFlow { negative: false, magnitude: d },
        None => match outflow.checked_sub(inflow) {
            Some(d) => NetFlow { negative: true, magnitude: d },
            None => {
                assert(false);
                NetFlow { negative: false, magnitude: Amount::zero() }
            },
        },
    }
}

/// Counts and flows of one transaction list for one address.
#[derive(Clone, Copy, PartialEq, Eq, Structural, Debug)]
pub struct FlowSummary {
    /// How many transactions were listed.
    pub count: usize,
    pub outflow: Amount,
    pub inflow: Amount,
    /// `inflow - outflow`.
    pub net: NetFlow,
}

/// Outflow, inflow and net flow of `target` over `txs`, failed transactions
/// left out; `None` when the outflow or the inflow reaches 2^256.
pub fn summarize<T: Transfer>(txs: &Vec<T>, target: &String) -> (r: Option<FlowSummary>)
    ensures
        r is Some <==> flow_of(txs@, target@, Direction::Outflow) < amount_limit() && flow_of(
            txs@,
            target@,
            Direction::Inflow,
        ) < amount_limit(),
        r matches Some(s) ==> {
            &&& s.count == txs@.len()
            &&& s.outflow@ == flow_of(txs@, target@, Direction::Outflow)
            &&& s.inflow@ == flow_of(txs@, target@, Direction::Inflow)
            &&& s.net.signed_value() == s.inflow@ - s.outflow@
        },
{
    let outflow = match flow(txs, target, Direction::Outflow) {
        Some(a) => a,
        None => return None,
    };
    let inflow = match flow(txs, target, Direction::Inflow) {
        Some(a) => a,
        None => return None,
    };
    Some(FlowSummary { count: txs.len(), outflow, inflow, net: net_flow(inflow, outflow) })
}

proof fn lemma_gross_is_ok_plus_failed<T: Transfer>(txs: Seq<T>, target: Seq<char>, dir: Direction)
    ensures
        gross_flow(txs, target, dir) == flow_sum(txs, target, dir, false) + flow_sum(
            txs,
            target,
            dir,
            true,
        ),
    decreases txs.len(),
{
    if txs.len() > 0 {
        lemma_gross_is_ok_plus_failed(txs.drop_last(), target, dir);
    }
}

/// Leaving failed transactions out changes `sent - received` by exactly what
/// the failed transactions sent minus what they received.
pub proof fn lemma_failed_records_make_the_difference<T: Transfer>(txs: Seq<T>, target: Seq<char>)
    ensures
        (gross_flow(txs, target, Direction::Outflow) - gross_flow(txs, target, Direction::Inflow))
            - (flow_of(txs, target, Direction::Outflow) - flow_of(txs, target, Direction::Inflow))
            == flow_sum(txs, target, Direction::Outflow, true) - flow_sum(
            txs,
            target,
            Direction::Inflow,
            true,
        ),
{
    lemma_gross_is_ok_plus_failed(txs, target, Direction::Outflow);
    lemma_gross_is_ok_plus_failed(txs, target, Direction::Inflow);
}

/// When no transaction was sent from `target`, its outflow is zero and its
/// net flow is its inflow.
pub proof fn lemma_no_sends_no_outflow<T: Transfer>(txs: Seq<T>, target: Seq<char>)
    requires
        forall|i: int| 0 <= i < txs.len() ==> (#[trigger] txs[i]).sender() != target,
    ensures
        flow_of(txs, target, Direction::Outflow) == 0,
        flow_of(txs, target, Direction::Inflow) - flow_of(txs, target, Direction::Outflow)
            == flow_of(txs, target, Direction::Inflow),
    decreases txs.len(),
{
    if txs.len() > 0 {
        let init = txs.drop_last();
        assert forall|i: int| 0 <= i < init.len() implies (#[trigger] init[i]).sender() != target by {
            assert(init[i] == txs[i]);
        }
        lemma_no_sends_no_outflow(init, target);
        assert(txs.last() == txs[txs.len() - 1]);
    }
}

} // verus!
