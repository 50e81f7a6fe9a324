use vstd::prelude::*;

use crate::block::Block;
use crate::input::Input;
use crate::level::{is_drive, is_signal, COMPRESSION_HEADROOM_MDB, LEVEL_LIMIT, MAX_STAGES};
use crate::sweep::{sweep_args_ok, sweep_inputs, sweep_len, sweep_point};
use crate::node::SignalNode;

verus! {

/// Signal level after the first `n` stages of `blocks`, driven at `pin`.
pub open spec fn chain_power(pin: int, blocks: Seq<Block>, n: nat) -> int
    decreases n,
{
    if n == 0 {
        pin
    } else {
        blocks[n - 1].spec_output_power(chain_power(pin, blocks, (n - 1) as nat))
    }
}

/// Sum of the actual (possibly compressed) gains of the first `n` stages of
/// `blocks`, driven at `pin`.
pub open spec fn chain_gain_sum(pin: int, blocks: Seq<Block>, n: nat) -> int
    decreases n,
{
    if n == 0 {
        0
    } else {
        chain_gain_sum(pin, blocks, (n - 1) as nat) + blocks[n - 1].spec_power_gain(
            chain_power(pin, blocks, (n - 1) as nat),
        )
    }
}

/// Every block of `blocks` is well formed.
pub open spec fn all_wf(blocks: Seq<Block>) -> bool {
    forall|i: int| 0 <= i < blocks.len() ==> (#[trigger] blocks[i]).wf()
}

/// A chain that the cascade drivers accept: a well-formed input and at most
/// `MAX_STAGES` well-formed blocks.
pub open spec fn chain_ok(input: Input, blocks: Seq<Block>) -> bool {
    &&& input.wf()
    &&& blocks.len() <= MAX_STAGES
    &&& all_wf(blocks)
}

/// `node` is the output of stage `n` (counting from one) of `input` driven
/// through `blocks`.
pub open spec fn is_stage_node(node: SignalNode, input: Input, blocks: Seq<Block>, n: nat) -> bool {
    &&& 1 <= n <= blocks.len()
    &&& node.name@ == blocks[n - 1].name@ + " Output"@
    &&& node.signal_frequency_hz == input.frequency_hz
    &&& node.signal_bandwidth_hz == input.bandwidth_hz
    &&& node.signal_power_mdbm == chain_power(input.power_mdbm as int, blocks, n)
    &&& node.cumulative_gain_mdb == chain_gain_sum(input.power_mdbm as int, blocks, n)
    &&& node.output_p1db_mdbm == blocks[n - 1].output_p1db_mdbm
}

/// `node` is what a chain without stages yields: `SignalNode::default()`.
pub open spec fn is_empty_chain_node(node: SignalNode) -> bool {
    &&& node.name@ == "default"@
    &&& node.signal_frequency_hz == 0
    &&& node.signal_bandwidth_hz == 0
    &&& node.signal_power_mdbm == 0
    &&& node.cumulative_gain_mdb == 0
    &&& node.output_p1db_mdbm.is_none()
}

/// The most a level can move through one stage.
pub open spec fn stage_span() -> int {
    LEVEL_LIMIT + COMPRESSION_HEADROOM_MDB
}

proof fn lemma_chain_power_bound(pin: int, blocks: Seq<Block>, n: nat)
    requires
        is_drive(pin),
        all_wf(blocks),
        n <= blocks.len(),
    ensures
        -(n + 2) * stage_span() <= chain_power(pin, blocks, n) <= (n + 2) * stage_span(),
    decreases n,
{
    if n > 0 {
        let m = (n - 1) as nat;
        lemma_chain_power_bound(pin, blocks, m);
        assert(blocks[m as int].wf());
        assert((n + 2) * stage_span() == (n + 1) * stage_span() + stage_span()) by (nonlinear_arith);
        assert(n * stage_span() >= 0) by (nonlinear_arith)
            requires n >= 0;
    }
}

/// Every level and cumulative gain along an accepted chain lies in the signal range.
proof fn lemma_chain_in_range(pin: int, blocks: Seq<Block>, n: nat)
    requires
        is_drive(pin),
        all_wf(blocks),
        blocks.len() <= MAX_STAGES,
        n <= blocks.len(),
    ensures
        is_signal(chain_power(pin, blocks, n)),
        is_signal(chain_gain_sum(pin, blocks, n)),
{
    lemma_chain_power_bound(pin, blocks, n);
    lemma_gain_sum_telescopes(pin, blocks, n);
    assert((n + 2) * stage_span() <= (MAX_STAGES + 2) * stage_span()) by (nonlinear_arith)
        requires n <= MAX_STAGES;
}

/// The cumulative gain of a chain is its output level less its input level:
/// the actual stage gains telescope.
pub proof fn lemma_gain_sum_telescopes(pin: int, blocks: Seq<Block>, n: nat)
    ensures
        chain_gain_sum(pin, blocks, n) == chain_power(pin, blocks, n) - pin,
    decreases n,
{
    if n > 0 {
        lemma_gain_sum_telescopes(pin, blocks, (n - 1) as nat);
    }
}

/// Sum of the nominal gains of the first `n` stages of `blocks`.
pub open spec fn nominal_gain_sum(blocks: Seq<Block>, n: nat) -> int
    decreases n,
{
    if n == 0 {
        0
    } else {
        nominal_gain_sum(blocks, (n - 1) as nat) + blocks[n - 1].gain_mdb
    }
}

/// Through stages without a compression point the cumulative gain is the sum
/// of the nominal gains.
pub proof fn lemma_uncompressed_gain_is_nominal(pin: int, blocks: Seq<Block>, n: nat)
    requires
        n <= blocks.len(),
        forall|i: int| 0 <= i < n ==> (#[trigger] blocks[i]).output_p1db_mdbm.is_none(),
    ensures
        chain_gain_sum(pin, blocks, n) == nominal_gain_sum(blocks, n),
    decreases n,
{
    if n > 0 {
        lemma_uncompressed_gain_is_nominal(pin, blocks, (n - 1) as nat);
        assert(blocks[n - 1].output_p1db_mdbm.is_none());
    }
}

proof fn lemma_chain_prefix(pin: int, blocks: Seq<Block>, n: nat, k: nat)
    requires
        k <= n <= blocks.len(),
    ensures
        chain_power(pin, blocks.take(n as int), k) == chain_power(pin, blocks, k),
        chain_gain_sum(pin, blocks.take(n as int), k) == chain_gain_sum(pin, blocks, k),
    decreases k,
{
    if k > 0 {
        lemma_chain_prefix(pin, blocks, n, (k - 1) as nat);
        assert(blocks.take(n as int)[k - 1] == blocks[k - 1]);
    }
}

/// Stage `n` of a chain is the last stage of the same chain cut after `n`
/// blocks: the nodes agree in every field.
pub proof fn lemma_prefix_consistency(
    input: Input,
    blocks: Seq<Block>,
    n: nat,
    whole: SignalNode,
    prefix: SignalNode,
)
    requires
        1 <= n <= blocks.len(),
        is_stage_node(whole, input, blocks, n),
        is_stage_node(prefix, input, blocks.take(n as int), n),
    ensures
        whole.name@ == prefix.name@,
        whole.signal_frequency_hz == prefix.signal_frequency_hz,
        whole.signal_bandwidth_hz == prefix.signal_bandwidth_hz,
        whole.signal_power_mdbm == prefix.signal_power_mdbm,
        whole.cumulative_gain_mdb == prefix.cumulative_gain_mdb,
        whole.output_p1db_mdbm == prefix.output_p1db_mdbm,
{
    lemma_chain_prefix(input.power_mdbm as int, blocks, n, n);
    assert(blocks.take(n as int)[n - 1] == blocks[n - 1]);
}

/// The node after the last stage of `input` driven through `blocks`;
/// `SignalNode::default()` when there are no blocks.
pub fn cascade_vector_return_output(input: Input, blocks: Vec<Block>) -> (r: SignalNode)
    requires
        chain_ok(input, blocks@),
    ensures
        blocks@.len() == 0 ==> is_empty_chain_node(r),
        blocks@.len() > 0 ==> is_stage_node(r, input, blocks@, blocks@.len()),
{
    let mut node = SignalNode::default();
    let mut i: usize = 0;
    while i < blocks.len()
        invariant
            chain_ok(input, blocks@),
            i <= blocks@.len(),
            i == 0 ==> is_empty_chain_node(node),
            i > 0 ==> is_stage_node(node, input, blocks@, i as nat),
        decreases blocks@.len() - i,
    {
        proof {
            lemma_chain_in_range(input.power_mdbm as int, blocks@, i as nat);
            assert(blocks@[i as int].wf());
            if i > 0 {
                assert(blocks@[i - 1].wf());
            }
        }
        if i == 0 {
            node = input.cascade_block(&blocks[i]);
        } else {
            node = node.cascade_block(&blocks[i]);
        }
        i = i + 1;
    }
    node
}

/// The node after every stage of `input` driven through `blocks`, in order.
pub fn cascade_vector_return_vector(input: Input, blocks: Vec<Block>) -> (r: Vec<SignalNode>)
    requires
        chain_ok(input, blocks@),
    ensures
        r@.len() == blocks@.len(),
        forall|k: int| 0 <= k < r@.len() ==> is_stage_node(#[trigger] r@[k], input, blocks@, (k + 1) as nat),
{
    let mut nodes: Vec<SignalNode> = Vec::new();
    let mut node = SignalNode::default();
    let mut i: usize = 0;
    while i < blocks.len()
        invariant
            chain_ok(input, blocks@),
            i <= blocks@.len(),
            nodes@.len() == i,
            i > 0 ==> is_stage_node(node, input, blocks@, i as nat),
            forall|k: int| 0 <= k < i ==> is_stage_node(#[trigger] nodes@[k], input, blocks@, (k + 1) as nat),
        decreases blocks@.len() - i,
    {
        proof {
            lemma_chain_in_range(input.power_mdbm as int, blocks@, i as nat);
            assert(blocks@[i as int].wf());
            if i > 0 {
                assert(blocks@[i - 1].wf());
            }
        }
        if i == 0 {
            node = input.cascade_block(&blocks[i]);
        } else {
            node = node.cascade_block(&blocks[i]);
        }
        nodes.push(node.clone());
        i = i + 1;
    }
    nodes
}

/// Output level of `blocks` driven at `pin`, stage after stage.
pub fn chain_output_power(blocks: &Vec<Block>, pin: i64) -> (r: i64)
    requires
        blocks@.len() <= MAX_STAGES,
        all_wf(blocks@),
        is_drive(pin as int),
    ensures
        r == chain_power(pin as int, blocks@, blocks@.len()),
{
    let mut level = pin;
    let mut i: usize = 0;
    while i < blocks.len()
        invariant
            blocks@.len() <= MAX_STAGES,
            all_wf(blocks@),
            is_drive(pin as int),
            i <= blocks@.len(),
            level == chain_power(pin as int, blocks@, i as nat),
        decreases blocks@.len() - i,
    {
        proof {
            lemma_chain_in_range(pin as int, blocks@, i as nat);
            assert(blocks@[i as int].wf());
        }
        level = blocks[i].output_power(level);
        i = i + 1;
    }
    level
}

/// Chain AM-AM sweep: `(input, chain output)` for each level of the sweep
/// from `start` to `stop` in steps of `step`, following the signal alone.
pub fn cascade_am_am_sweep(blocks: &Vec<Block>, start: i64, stop: i64, step: i64) -> (r: Vec<(i64, i64)>)
    requires
        blocks@.len() <= MAX_STAGES,
        all_wf(blocks@),
        sweep_args_ok(start as int, stop as int, step as int),
    ensures
        r@.len() == sweep_len(start as int, stop as int, step as int),
        forall|k: int|
            0 <= k < r@.len() ==> (#[trigger] r@[k]).0 == sweep_point(start as int, step as int, k)
                && r@[k].1 == chain_power(sweep_point(start as int, step as int, k), blocks@, blocks@.len()),
{
    let inputs = sweep_inputs(start, stop, step);
    let mut curve: Vec<(i64, i64)> = Vec::new();
    let mut i: usize = 0;
    while i < inputs.len()
        invariant
            blocks@.len() <= MAX_STAGES,
            all_wf(blocks@),
            inputs@.len() == sweep_len(start as int, stop as int, step as int),
            forall|k: int| 0 <= k < inputs@.len() ==> inputs@[k] == sweep_point(start as int, step as int, k),
            forall|k: int| 0 <= k < inputs@.len() ==> is_drive(#[trigger] inputs@[k] as int),
            i <= inputs@.len(),
            curve@.len() == i,
            forall|k: int|
                0 <= k < i ==> (#[trigger] curve@[k]).0 == sweep_point(start as int, step as int, k)
                    && curve@[k].1 == chain_power(sweep_point(start as int, step as int, k), blocks@, blocks@.len()),
        decreases inputs@.len() - i,
    {
        let pin = inputs[i];
        curve.push((pin, chain_output_power(blocks, pin)));
        i = i + 1;
    }
    curve
}

/// Chain gain-compression sweep: `(input, chain output less input)` for each
/// level of the sweep from `start` to `stop` in steps of `step`.
pub fn cascade_gain_compression_sweep(blocks: &Vec<Block>, start: i64, stop: i64, step: i64) -> (r: Vec<(i64, i64)>)
    requires
        blocks@.len() <= MAX_STAGES,
        all_wf(blocks@),
        sweep_args_ok(start as int, stop as int, step as int),
    ensures
        r@.len() == sweep_len(start as int, stop as int, step as int),
        forall|k: int|
            0 <= k < r@.len() ==> (#[trigger] r@[k]).0 == sweep_point(start as int, step as int, k)
                && r@[k].1 == chain_power(sweep_point(start as int, step as int, k), blocks@, blocks@.len())
                - sweep_point(start as int, step as int, k),
{
    let inputs = sweep_inputs(start, stop, step);
    let mut curve: Vec<(i64, i64)> = Vec::new();
    let mut i: usize = 0;
    while i < inputs.len()
        invariant
            blocks@.len() <= MAX_STAGES,
            all_wf(blocks@),
            inputs@.len() == sweep_len(start as int, stop as int, step as int),
            forall|k: int| 0 <= k < inputs@.len() ==> inputs@[k] == sweep_point(start as int, step as int, k),
            forall|k: int| 0 <= k < inputs@.len() ==> is_drive(#[trigger] inputs@[k] as int),
            i <= inputs@.len(),
            curve@.len() == i,
            forall|k: int|
                0 <= k < i ==> (#[trigger] curve@[k]).0 == sweep_point(start as int, step as int, k)
                    && curve@[k].1 == chain_power(sweep_point(start as int, step as int, k), blocks@, blocks@.len())
                    - sweep_point(start as int, step as int, k),
        decreases inputs@.len() - i,
    {
        let pin = inputs[i];
        proof {
            lemma_chain_in_range(pin as int, blocks@, blocks@.len());
        }
        let pout = chain_output_power(blocks, pin);
        curve.push((pin, pout - pin));
        i = i + 1;
    }
    curve
}

} // verus!
