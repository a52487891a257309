//! Money flow index: the share of the money that flowed in over the
//! last `N` observations in all the money that flowed.

use crate::bar::{typical_price_spec, Bar};
use crate::fixed::{
    abs, clamp, div_round, div_round_unsigned, lemma_round_div_bounds, round_div, saturate_unsigned,
    FIFTY, HUNDRED, SCALE,
};
use crate::label::{decimal, label_text, period_label};
use crate::window::{slide, CircularWindow};
use vstd::prelude::*;

verus! {

/// The longest window that a money flow index can have.
pub const MAX_PERIOD: usize = 0xffff_ffff;

/// The money that changed hands in a period: the typical price times
/// the volume, without its sign.
pub open spec fn money_flow(typical_price: int, volume: int) -> int {
    clamp(round_div(abs(typical_price * volume), SCALE as int))
}

/// The flow of a period with its direction: positive where the typical
/// price rose against the previous period, negative where it fell, zero
/// where it stayed or there was no previous period.
pub open spec fn signed_flow(previous: Option<i64>, typical_price: int, volume: int) -> int {
    match previous {
        None => 0,
        Some(p) => if typical_price > p {
            money_flow(typical_price, volume)
        } else if typical_price < p {
            -money_flow(typical_price, volume)
        } else {
            0
        },
    }
}

/// The sum of the positive flows of `flows`.
pub open spec fn inflow(flows: Seq<i64>) -> int
    decreases flows.len(),
{
    if flows.len() == 0 {
        0
    } else {
        inflow(flows.drop_last()) + if flows.last() > 0 {
            flows.last() as int
        } else {
            0
        }
    }
}

/// The sum of the negative flows of `flows`, without its sign.
pub open spec fn outflow(flows: Seq<i64>) -> int
    decreases flows.len(),
{
    if flows.len() == 0 {
        0
    } else {
        outflow(flows.drop_last()) + if flows.last() < 0 {
            -(flows.last() as int)
        } else {
            0
        }
    }
}

/// The index read off a window of signed flows: the inflow in percent
/// of all flow, and the neutral fifty where nothing flowed.
pub open spec fn flow_index(flows: Seq<i64>) -> int {
    let total = inflow(flows) + outflow(flows);
    if total == 0 {
        FIFTY as int
    } else {
        round_div(inflow(flows) * HUNDRED, total)
    }
}

/// Appending a flow adds it to the total of its direction.
pub proof fn lemma_flow_push(flows: Seq<i64>, flow: i64)
    ensures
        inflow(flows.push(flow)) == inflow(flows) + if flow > 0 {
            flow as int
        } else {
            0
        },
        outflow(flows.push(flow)) == outflow(flows) + if flow < 0 {
            -(flow as int)
        } else {
            0
        },
{
    assert(flows.push(flow).drop_last() =~= flows);
}

/// Dropping the oldest flow takes it off the total of its direction.
pub proof fn lemma_flow_drop_first(flows: Seq<i64>)
    requires
        flows.len() > 0,
    ensures
        inflow(flows.drop_first()) == inflow(flows) - if flows[0] > 0 {
            flows[0] as int
        } else {
            0
        },
        outflow(flows.drop_first()) == outflow(flows) - if flows[0] < 0 {
            -(flows[0] as int)
        } else {
            0
        },
    decreases flows.len(),
{
    if flows.len() == 1 {
        assert(flows.drop_first() =~= Seq::<i64>::empty());
        assert(flows.drop_last() =~= Seq::<i64>::empty());
    } else {
        lemma_flow_drop_first(flows.drop_last());
        assert(flows.drop_first().drop_last() =~= flows.drop_last().drop_first());
    }
}

/// Neither total is negative, and neither exceeds the number of flows
/// times the greatest magnitude an `i64` can have.
pub proof fn lemma_flow_bounds(flows: Seq<i64>)
    ensures
        0 <= inflow(flows) <= flows.len() * 0x8000_0000_0000_0000,
        0 <= outflow(flows) <= flows.len() * 0x8000_0000_0000_0000,
    decreases flows.len(),
{
    if flows.len() > 0 {
        lemma_flow_bounds(flows.drop_last());
        assert((flows.len() - 1) * 0x8000_0000_0000_0000 + 0x8000_0000_0000_0000 == flows.len()
            * 0x8000_0000_0000_0000) by (nonlinear_arith);
    }
}

/// The totals of a window of at most `MAX_PERIOD` flows stay below
/// 2^95, so that a hundred times their sum is within an `i128`.
pub proof fn lemma_flow_fits(flows: Seq<i64>)
    requires
        flows.len() <= MAX_PERIOD,
    ensures
        0 <= inflow(flows) <= 0x7fff_ffff_8000_0000_0000_0000,
        0 <= outflow(flows) <= 0x7fff_ffff_8000_0000_0000_0000,
{
    lemma_flow_bounds(flows);
    assert(flows.len() * 0x8000_0000_0000_0000 <= 0xffff_ffff * 0x8000_0000_0000_0000)
        by (nonlinear_arith)
        requires
            flows.len() <= 0xffff_ffff,
    ;
}

/// The index is a percentage: it lies between zero and one hundred.
pub proof fn lemma_flow_index_is_percentage(flows: Seq<i64>)
    ensures
        0 <= flow_index(flows) <= HUNDRED,
{
    lemma_flow_bounds(flows);
    let pos = inflow(flows);
    let total = inflow(flows) + outflow(flows);
    if total != 0 {
        assert(0 * total <= pos * HUNDRED <= HUNDRED * total) by (nonlinear_arith)
            requires
                0 <= pos <= total,
                HUNDRED == 100_000_000,
        ;
        lemma_round_div_bounds(pos * HUNDRED, total, 0, HUNDRED as int);
    }
}

/// The first observation of a stream reads exactly fifty.
pub proof fn lemma_first_reading_is_neutral(typical_price: int, volume: int)
    ensures
        flow_index(seq![signed_flow(None, typical_price, volume) as i64]) == FIFTY,
{
    let flows = seq![0i64];
    assert(flows.drop_last() =~= Seq::<i64>::empty());
    reveal_with_fuel(inflow, 2);
    reveal_with_fuel(outflow, 2);
}

/// What a money flow index remembers.
pub struct FlowState {
    /// The signed flows of the window, oldest first.
    pub flows: Seq<i64>,
    /// The typical price of the previous observation.
    pub previous: Option<i64>,
}

/// Money flow index over a window of `N` observations.
///
/// The window holds each period's flow with the sign of its direction;
/// the totals of both directions are kept up to date as flows enter
/// and leave.
#[derive(Debug, Clone)]
pub struct MoneyFlowIndex<const N: usize> {
    window: CircularWindow<N>,
    previous_typical_price: i64,
    is_new: bool,
    total_positive_money_flow: i128,
    total_negative_money_flow: i128,
}

impl<const N: usize> View for MoneyFlowIndex<N> {
    type V = FlowState;

    closed spec fn view(&self) -> FlowState {
        FlowState {
            flows: self.window@,
            previous: if self.is_new {
                None
            } else {
                Some(self.previous_typical_price)
            },
        }
    }
}

impl<const N: usize> MoneyFlowIndex<N> {
    /// The window is well formed and each running total is the total of
    /// its direction over the window.
    pub closed spec fn wf(&self) -> bool {
        &&& self.window.wf()
        &&& N <= MAX_PERIOD
        &&& self.window.placeholder() == 0
        &&& self.total_positive_money_flow == inflow(self.window@)
        &&& self.total_negative_money_flow == outflow(self.window@)
        &&& self.is_new ==> self.previous_typical_price == 0 && self.window@.len() == 0
    }

    /// An index that has seen nothing yet. The window may have at most
    /// `MAX_PERIOD` slots, so that the percentage of the greatest total
    /// it can hold is still within the arithmetic.
    pub fn new() -> (mfi: Self)
        requires
            1 <= N <= MAX_PERIOD,
        ensures
            mfi.wf(),
            mfi@ == (FlowState { flows: Seq::<i64>::empty(), previous: None }),
    {
        MoneyFlowIndex {
            window: CircularWindow::new(0),
            previous_typical_price: 0,
            is_new: true,
            total_positive_money_flow: 0,
            total_negative_money_flow: 0,
        }
    }

    /// The window size.
    pub fn period(&self) -> (n: usize)
        ensures
            n == N,
    {
        N
    }

    /// Takes `bar` and returns the index over the window: the first
    /// observation of a stream counts as no flow and reads fifty.
    pub fn next(&mut self, bar: &Bar) -> (out: i64)
        requires
            old(self).wf(),
        ensures
            final(self).wf(),
            final(self)@.flows == slide(
                old(self)@.flows,
                signed_flow(old(self)@.previous, typical_price_spec(*bar), bar.volume as int) as i64,
                N as nat,
            ),
            final(self)@.previous == Some(typical_price_spec(*bar) as i64),
            out == flow_index(final(self)@.flows),
            0 <= out <= HUNDRED,
            old(self)@.previous is None ==> out == FIFTY,
    {
        let tp: i64 = bar.typical_price();
        let flow: i64 = if self.is_new {
            0
        } else if tp == self.previous_typical_price {
            0
        } else {
            proof {
                assert(-0x4000_0000_0000_0000_0000_0000_0000_0000 <= tp * bar.volume
                    <= 0x4000_0000_0000_0000_0000_0000_0000_0000) by (nonlinear_arith)
                    requires
                        -0x8000_0000_0000_0000 <= tp <= 0x8000_0000_0000_0000,
                        -0x8000_0000_0000_0000 <= bar.volume <= 0x8000_0000_0000_0000,
                ;
            }
            let product: i128 = (tp as i128) * (bar.volume as i128);
            let size: u128 = if product < 0 {
                (-product) as u128
            } else {
                product as u128
            };
            let raw_money_flow: i64 = saturate_unsigned(div_round_unsigned(size, SCALE as u128));
            proof {
                lemma_round_div_bounds(size as int, SCALE as int, 0, size as int);
            }
            if tp > self.previous_typical_price {
                raw_money_flow
            } else {
                -raw_money_flow
            }
        };
        self.is_new = false;
        self.previous_typical_price = tp;

        let ghost before = self.window@;
        proof {
            self.window.lemma_layout();
        }
        let popped: i64 = self.window.push(flow);
        let ghost after = self.window@;
        proof {
            if before.len() < N {
                lemma_flow_push(before, flow);
            } else {
                lemma_flow_drop_first(before);
                lemma_flow_push(before.drop_first(), flow);
            }
            lemma_flow_fits(before);
            lemma_flow_fits(after);
        }
        if popped > 0 {
            self.total_positive_money_flow = self.total_positive_money_flow - popped as i128;
        } else if popped < 0 {
            self.total_negative_money_flow = self.total_negative_money_flow + popped as i128;
        }
        if flow > 0 {
            self.total_positive_money_flow = self.total_positive_money_flow + flow as i128;
        } else if flow < 0 {
            self.total_negative_money_flow = self.total_negative_money_flow - flow as i128;
        }
        proof {
            lemma_flow_index_is_percentage(after);
            if old(self)@.previous is None {
                assert(after =~= seq![0i64]);
                lemma_first_reading_is_neutral(0, 0);
            }
        }
        let total: i128 = self.total_positive_money_flow + self.total_negative_money_flow;
        if total == 0 {
            FIFTY
        } else {
            div_round(self.total_positive_money_flow * (HUNDRED as i128), total) as i64
        }
    }

    /// Forgets every observation: the index is as `new` made it.
    pub fn reset(&mut self)
        requires
            old(self).wf(),
        ensures
            final(self).wf(),
            final(self)@ == (FlowState { flows: Seq::<i64>::empty(), previous: None }),
    {
        self.window.reset();
        self.previous_typical_price = 0;
        self.is_new = true;
        self.total_positive_money_flow = 0;
        self.total_negative_money_flow = 0;
    }

    /// The label `MFI(N)`.
    pub fn label(&self) -> (s: String)
        ensures
            s@ == label_text("MFI"@, seq![decimal(N as nat)]),
    {
        period_label("MFI", N)
    }
}

impl Default for MoneyFlowIndex<14> {
    /// An index over fourteen observations.
    fn default() -> (mfi: Self)
        ensures
            mfi.wf(),
            mfi@ == (FlowState { flows: Seq::<i64>::empty(), previous: None }),
    {
        MoneyFlowIndex::new()
    }
}

} // verus!
