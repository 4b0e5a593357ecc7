//! The arithmetic of batched production.
//!
//! A machine is not stepped tick by tick. Whenever it is touched it is brought up
//! to date by one computation: the ticks that passed are banked, the number of
//! whole cycles that the banked time and the inputs allow is taken at once, and
//! what is left of the banked time is kept, unless an input has run short.
//!
//! This module states that computation over plain numbers and proves what it
//! promises: nothing is lost or made beyond the recipe's ratio, bringing a
//! machine up to date twice changes nothing, and one jump over many ticks ends
//! exactly where stopping at ticks in between would.

use vstd::prelude::*;

verus! {

/// The numbers of a recipe: how many ticks one cycle lasts, and what one cycle
/// takes from each input and gives to each output.
pub struct RecipeTable {
    /// Ticks per cycle. With 0, only the inputs bound the number of cycles.
    pub time: nat,
    /// The amount that one cycle takes from each input, in order.
    pub inputs: Seq<nat>,
    /// The amount that one cycle gives to each output, in order.
    pub outputs: Seq<nat>,
}

impl RecipeTable {
    /// A table can be run if every input takes something and the number of cycles
    /// is bounded, by the time or by an input.
    pub open spec fn valid(self) -> bool {
        &&& forall|i: int| 0 <= i < self.inputs.len() ==> self.inputs[i] > 0
        &&& (self.time > 0 || self.inputs.len() > 0)
    }
}

/// What a machine holds: the amount in each buffer, the tick at which it was
/// last brought up to date, and the ticks banked towards the next cycle.
pub struct MachineState {
    /// The amount in each input buffer.
    pub inputs: Seq<nat>,
    /// The amount in each output buffer.
    pub outputs: Seq<nat>,
    /// The tick at which the machine was last brought up to date.
    pub tick: nat,
    /// The ticks banked towards the next cycle.
    pub carried: nat,
}

impl MachineState {
    /// The state has one buffer for each input and each output of the table.
    pub open spec fn shaped(self, table: RecipeTable) -> bool {
        &&& self.inputs.len() == table.inputs.len()
        &&& self.outputs.len() == table.outputs.len()
    }

    /// The state of a machine built at `tick`: nothing in it, nothing banked.
    pub open spec fn fresh(table: RecipeTable, tick: nat) -> MachineState {
        MachineState {
            inputs: Seq::new(table.inputs.len(), |i: int| 0nat),
            outputs: Seq::new(table.outputs.len(), |j: int| 0nat),
            tick,
            carried: 0,
        }
    }

    /// The state with other contents in its input buffers.
    pub open spec fn with_inputs(self, inputs: Seq<nat>) -> MachineState {
        MachineState { inputs, ..self }
    }

    /// The state with other contents in its output buffers.
    pub open spec fn with_outputs(self, outputs: Seq<nat>) -> MachineState {
        MachineState { outputs, ..self }
    }
}

/// The smaller of a limit, if there is one, and `q`.
pub open spec fn least(limit: Option<nat>, q: nat) -> nat {
    match limit {
        Some(m) => if q < m {
            q
        } else {
            m
        },
        None => q,
    }
}

/// The number of cycles that the first `k` inputs allow: the least of
/// `have[i] / needed[i]`. Without inputs there is no limit.
pub open spec fn input_limit(have: Seq<nat>, needed: Seq<nat>, k: nat) -> Option<nat>
    decreases k,
{
    if k == 0 {
        None
    } else {
        Some(least(input_limit(have, needed, (k - 1) as nat), have[k - 1] / needed[k - 1]))
    }
}

/// The number of cycles that the banked time allows. A cycle time of 0 sets no limit.
pub open spec fn time_limit(time: nat, banked: nat) -> Option<nat> {
    if time > 0 {
        Some(banked / time)
    } else {
        None
    }
}

/// The number of cycles that a machine completes, given what its inputs hold and
/// the time it has banked: the least of what the time and each input allow.
pub open spec fn cycles(table: RecipeTable, have: Seq<nat>, banked: nat) -> nat {
    match input_limit(have, table.inputs, table.inputs.len()) {
        Some(m) => least(time_limit(table.time, banked), m),
        None => match time_limit(table.time, banked) {
            Some(q) => q,
            None => 0,
        },
    }
}

/// `n` cycles can be run: the banked time covers them and so does every input.
pub open spec fn affordable(table: RecipeTable, have: Seq<nat>, banked: nat, n: nat) -> bool {
    &&& table.time > 0 ==> n * table.time <= banked
    &&& forall|i: int| 0 <= i < table.inputs.len() ==> n * table.inputs[i] <= #[trigger] have[i]
}

/// Some input holds less than one cycle takes.
pub open spec fn starved(table: RecipeTable, have: Seq<nat>) -> bool {
    exists|i: int| 0 <= i < table.inputs.len() && #[trigger] have[i] < table.inputs[i]
}

/// The time that a machine has banked once the ticks up to `now` are counted.
pub open spec fn banked(state: MachineState, now: nat) -> nat {
    (state.carried + now - state.tick) as nat
}

/// The number of cycles that a machine completes when it is brought up to date
/// at tick `now`.
pub open spec fn sync_cycles(table: RecipeTable, state: MachineState, now: nat) -> nat {
    cycles(table, state.inputs, banked(state, now))
}

/// What is left in the buffers `have` after `n` cycles took `each` from them.
pub open spec fn drained(have: Seq<nat>, each: Seq<nat>, n: nat) -> Seq<nat> {
    Seq::new(have.len(), |i: int| (have[i] - n * each[i]) as nat)
}

/// What is in the buffers `have` after `n` cycles put `each` into them.
pub open spec fn filled(have: Seq<nat>, each: Seq<nat>, n: nat) -> Seq<nat> {
    Seq::new(have.len(), |j: int| have[j] + n * each[j])
}

/// The state of a machine after it is brought up to date at tick `now`.
///
/// The ticks since the last time are banked; the cycles that the banked time and
/// the inputs allow are run at once; their time is taken from the bank. If an
/// input is then short of one cycle's amount, what is left in the bank is
/// forfeited.
pub open spec fn sync(table: RecipeTable, state: MachineState, now: nat) -> MachineState {
    let n = sync_cycles(table, state, now);
    let inputs = drained(state.inputs, table.inputs, n);
    MachineState {
        inputs,
        outputs: filled(state.outputs, table.outputs, n),
        tick: now,
        carried: if starved(table, inputs) {
            0
        } else {
            (banked(state, now) - n * table.time) as nat
        },
    }
}

/// A quotient times its divisor is the greatest multiple that fits.
proof fn lemma_quotient(a: nat, d: nat)
    requires
        d > 0,
    ensures
        (a / d) * d <= a < (a / d + 1) * d,
{
    assert((a / d) * d <= a < (a / d + 1) * d) by (nonlinear_arith)
        requires
            d > 0,
    ;
}

/// Fewer times an amount is no more of it.
proof fn lemma_scale(n: nat, m: nat, d: nat)
    requires
        n <= m,
    ensures
        n * d <= m * d,
{
    assert(n * d <= m * d) by (nonlinear_arith)
        requires
            n <= m,
    ;
}

/// Times add up, and take away, as numbers do.
proof fn lemma_spread(a: int, b: int, d: int)
    ensures
        (a + b) * d == a * d + b * d,
        (a - b) * d == a * d - b * d,
{
    assert((a + b) * d == a * d + b * d) by (nonlinear_arith);
    assert((a - b) * d == a * d - b * d) by (nonlinear_arith);
}

/// The limit that the inputs set is met by every input, and reached by one.
proof fn lemma_input_limit(have: Seq<nat>, needed: Seq<nat>, k: nat)
    requires
        k <= needed.len(),
        k <= have.len(),
        forall|i: int| 0 <= i < k ==> needed[i] > 0,
    ensures
        k == 0 ==> input_limit(have, needed, k) is None,
        k > 0 ==> input_limit(have, needed, k) is Some,
        k > 0 ==> forall|i: int|
            0 <= i < k ==> input_limit(have, needed, k)->0 * needed[i] <= #[trigger] have[i],
        k > 0 ==> exists|i: int|
            0 <= i < k && #[trigger] have[i] < (input_limit(have, needed, k)->0 + 1) * needed[i],
    decreases k,
{
    if k > 0 {
        let before = (k - 1) as nat;
        let last = k - 1;
        let q = have[last] / needed[last];
        lemma_input_limit(have, needed, before);
        lemma_quotient(have[last], needed[last]);
        let m = input_limit(have, needed, k)->0;
        assert(m == least(input_limit(have, needed, before), q));
        if before == 0 {
            assert(m == q);
            assert(have[last] < (m + 1) * needed[last]);
        } else {
            let earlier = input_limit(have, needed, before)->0;
            assert forall|i: int| 0 <= i < k implies m * needed[i] <= #[trigger] have[i] by {
                if i < before {
                    lemma_scale(m, earlier, needed[i]);
                } else {
                    lemma_scale(m, q, needed[i]);
                }
            }
            if q < earlier {
                assert(have[last] < (m + 1) * needed[last]);
            } else {
                let w = choose|i: int|
                    0 <= i < before && #[trigger] have[i] < (earlier + 1) * needed[i];
                assert(have[w] < (m + 1) * needed[w]);
            }
        }
    }
}

/// The cycles that a machine completes can be run.
pub proof fn lemma_cycles_affordable(table: RecipeTable, have: Seq<nat>, banked: nat)
    requires
        table.valid(),
        have.len() == table.inputs.len(),
    ensures
        affordable(table, have, banked, cycles(table, have, banked)),
{
    let n = cycles(table, have, banked);
    let k = table.inputs.len();
    lemma_input_limit(have, table.inputs, k);
    if table.time > 0 {
        lemma_quotient(banked, table.time);
        lemma_scale(n, banked / table.time, table.time);
    }
    if k > 0 {
        let m = input_limit(have, table.inputs, k)->0;
        assert forall|i: int| 0 <= i < k implies n * table.inputs[i] <= #[trigger] have[i] by {
            lemma_scale(n, m, table.inputs[i]);
        }
    }
}

/// No more cycles can be run than a machine completes.
pub proof fn lemma_cycles_greatest(table: RecipeTable, have: Seq<nat>, banked: nat, n: nat)
    requires
        table.valid(),
        have.len() == table.inputs.len(),
        affordable(table, have, banked, n),
    ensures
        n <= cycles(table, have, banked),
{
    let c = cycles(table, have, banked);
    let k = table.inputs.len();
    lemma_input_limit(have, table.inputs, k);
    if n > c {
        if table.time > 0 && c == banked / table.time {
            lemma_quotient(banked, table.time);
            lemma_scale(c + 1, n, table.time);
        } else {
            let m = input_limit(have, table.inputs, k)->0;
            assert(c == m);
            let w = choose|i: int| 0 <= i < k && #[trigger] have[i] < (m + 1) * table.inputs[i];
            lemma_scale(c + 1, n, table.inputs[w]);
            assert(n * table.inputs[w] <= have[w]);
        }
    }
}

/// The number of cycles that a machine completes is the one number that can be
/// run while one more cannot.
pub proof fn lemma_cycles_unique(table: RecipeTable, have: Seq<nat>, banked: nat, n: nat)
    requires
        table.valid(),
        have.len() == table.inputs.len(),
        affordable(table, have, banked, n),
        !affordable(table, have, banked, n + 1),
    ensures
        cycles(table, have, banked) == n,
{
    let c = cycles(table, have, banked);
    lemma_cycles_affordable(table, have, banked);
    lemma_cycles_greatest(table, have, banked, n);
    if c > n {
        if table.time > 0 {
            lemma_scale(n + 1, c, table.time);
        }
        assert forall|i: int| 0 <= i < table.inputs.len() implies (n + 1) * table.inputs[i]
            <= #[trigger] have[i] by {
            lemma_scale(n + 1, c, table.inputs[i]);
        }
    }
}

/// One more cycle than a machine completes cannot be run.
pub proof fn lemma_cycles_exhaust(table: RecipeTable, have: Seq<nat>, banked: nat)
    requires
        table.valid(),
        have.len() == table.inputs.len(),
    ensures
        !affordable(table, have, banked, cycles(table, have, banked) + 1),
{
    let c = cycles(table, have, banked);
    if affordable(table, have, banked, c + 1) {
        lemma_cycles_greatest(table, have, banked, c + 1);
    }
}

/// Bringing a machine up to date takes from every input exactly the completed
/// cycles times that input's amount per cycle, never more than the input holds,
/// and gives to every output exactly the completed cycles times that output's
/// amount per cycle. The time of the cycles comes out of the bank, and nothing
/// else does unless the bank is forfeited.
pub proof fn lemma_sync_conserves(table: RecipeTable, state: MachineState, now: nat)
    requires
        table.valid(),
        state.shaped(table),
        state.tick <= now,
    ensures
        sync(table, state, now).shaped(table),
        sync(table, state, now).tick == now,
        forall|i: int|
            0 <= i < table.inputs.len() ==> #[trigger] sync(table, state, now).inputs[i]
                + sync_cycles(table, state, now) * table.inputs[i] == state.inputs[i],
        forall|j: int|
            0 <= j < table.outputs.len() ==> #[trigger] sync(table, state, now).outputs[j]
                == state.outputs[j] + sync_cycles(table, state, now) * table.outputs[j],
        sync_cycles(table, state, now) * table.time <= banked(state, now),
        sync(table, state, now).carried == 0 || sync(table, state, now).carried + sync_cycles(
            table,
            state,
            now,
        ) * table.time == banked(state, now),
{
    lemma_cycles_affordable(table, state.inputs, banked(state, now));
    if table.time == 0 {
        assert(sync_cycles(table, state, now) * table.time == 0) by (nonlinear_arith)
            requires
                table.time == 0,
        ;
    }
}

/// If a machine is short of an input once its cycles are run, nothing stays in
/// the bank. In particular, a machine that is found short of an input completes
/// no cycle and keeps none of the progress it had banked.
pub proof fn lemma_forfeiture(table: RecipeTable, state: MachineState, now: nat)
    requires
        table.valid(),
        state.shaped(table),
        state.tick <= now,
    ensures
        starved(table, sync(table, state, now).inputs) ==> sync(table, state, now).carried == 0,
        starved(table, state.inputs) ==> sync_cycles(table, state, now) == 0 && sync(
            table,
            state,
            now,
        ).inputs == state.inputs && sync(table, state, now).outputs == state.outputs && sync(
            table,
            state,
            now,
        ).carried == 0,
{
    if starved(table, state.inputs) {
        lemma_starved_idles(table, state.inputs, banked(state, now));
        lemma_rest(table, state);
    }
}

/// A machine that is short of an input completes no cycle.
proof fn lemma_starved_idles(table: RecipeTable, have: Seq<nat>, banked: nat)
    requires
        table.valid(),
        have.len() == table.inputs.len(),
        starved(table, have),
    ensures
        cycles(table, have, banked) == 0,
{
    let w = choose|i: int| 0 <= i < table.inputs.len() && #[trigger] have[i] < table.inputs[i];
    assert(0 * table.time == 0);
    assert forall|i: int| 0 <= i < table.inputs.len() implies 0 * table.inputs[i]
        <= #[trigger] have[i] by {
        assert(0 * table.inputs[i] == 0);
    }
    assert(1 * table.inputs[w] == table.inputs[w]);
    lemma_cycles_unique(table, have, banked, 0);
}

/// Running no cycle leaves the buffers as they are.
proof fn lemma_rest(table: RecipeTable, state: MachineState)
    requires
        state.shaped(table),
    ensures
        drained(state.inputs, table.inputs, 0) == state.inputs,
        filled(state.outputs, table.outputs, 0) == state.outputs,
{
    assert forall|i: int| 0 <= i < state.inputs.len() implies drained(
        state.inputs,
        table.inputs,
        0,
    )[i] == state.inputs[i] by {
        assert(0 * table.inputs[i] == 0);
    }
    assert forall|j: int| 0 <= j < state.outputs.len() implies filled(
        state.outputs,
        table.outputs,
        0,
    )[j] == state.outputs[j] by {
        assert(0 * table.outputs[j] == 0);
    }
    assert(drained(state.inputs, table.inputs, 0) =~= state.inputs);
    assert(filled(state.outputs, table.outputs, 0) =~= state.outputs);
}

/// Bringing a machine up to date at tick `t1` and then at a later tick `t2`
/// leaves it exactly as bringing it up to date at `t2` alone does, and completes
/// as many cycles in all.
pub proof fn lemma_sync_composes(table: RecipeTable, state: MachineState, t1: nat, t2: nat)
    requires
        table.valid(),
        state.shaped(table),
        state.tick <= t1 <= t2,
    ensures
        sync(table, sync(table, state, t1), t2) == sync(table, state, t2),
        sync_cycles(table, state, t1) + sync_cycles(table, sync(table, state, t1), t2)
            == sync_cycles(table, state, t2),
{
    let have = state.inputs;
    let b1 = banked(state, t1);
    let b2 = banked(state, t2);
    let n1 = sync_cycles(table, state, t1);
    let s1 = sync(table, state, t1);
    let have1 = s1.inputs;
    let mid = banked(s1, t2);
    lemma_sync_conserves(table, state, t1);
    lemma_cycles_affordable(table, have, b1);
    lemma_cycles_affordable(table, have, b2);
    lemma_cycles_exhaust(table, have, b2);
    let total = sync_cycles(table, state, t2);
    // What can be run by `t1` can be run by `t2`.
    assert(affordable(table, have, b2, n1));
    lemma_cycles_greatest(table, have, b2, n1);
    let more = (total - n1) as nat;
    if starved(table, have1) {
        let w = choose|i: int| 0 <= i < table.inputs.len() && #[trigger] have1[i] < table.inputs[i];
        lemma_starved_idles(table, have1, mid);
        lemma_spread(n1 as int, 1, table.inputs[w] as int);
        assert((n1 + 1) * table.inputs[w] > have[w]);
        if total > n1 {
            lemma_scale(n1 + 1, total, table.inputs[w]);
        }
        assert(total == n1);
        lemma_rest(table, s1);
    } else {
        assert(mid == b2 - n1 * table.time);
        assert(affordable(table, have1, mid, more)) by {
            lemma_spread(total as int, n1 as int, table.time as int);
            assert forall|i: int| 0 <= i < table.inputs.len() implies more * table.inputs[i]
                <= #[trigger] have1[i] by {
                lemma_spread(total as int, n1 as int, table.inputs[i] as int);
                assert(total * table.inputs[i] <= have[i]);
            }
        }
        assert(!affordable(table, have1, mid, more + 1)) by {
            if table.time > 0 && (total + 1) * table.time > b2 {
                lemma_spread((total + 1) as int, n1 as int, table.time as int);
            } else {
                let w = choose|i: int|
                    0 <= i < table.inputs.len() && !((total + 1) * table.inputs[i]
                        <= #[trigger] have[i]);
                lemma_spread((total + 1) as int, n1 as int, table.inputs[w] as int);
                assert(!((more + 1) * table.inputs[w] <= have1[w]));
            }
        }
        lemma_cycles_unique(table, have1, mid, more);
    }
    let s2 = sync(table, s1, t2);
    let direct = sync(table, state, t2);
    assert(sync_cycles(table, s1, t2) == more);
    assert(s2.inputs =~= direct.inputs) by {
        assert forall|i: int| 0 <= i < table.inputs.len() implies s2.inputs[i]
            == direct.inputs[i] by {
            lemma_spread(n1 as int, more as int, table.inputs[i] as int);
            assert(total * table.inputs[i] <= have[i]);
        }
    }
    assert(s2.outputs =~= direct.outputs) by {
        assert forall|j: int| 0 <= j < table.outputs.len() implies s2.outputs[j]
            == direct.outputs[j] by {
            lemma_spread(n1 as int, more as int, table.outputs[j] as int);
        }
    }
    if !starved(table, direct.inputs) {
        assert(!starved(table, have1)) by {
            if starved(table, have1) {
                assert(direct.inputs =~= have1);
            }
        }
        lemma_spread(n1 as int, more as int, table.time as int);
    }
    assert(s2.carried == direct.carried);
}

/// Bringing a machine up to date twice at one tick completes no cycle the second
/// time and changes nothing.
pub proof fn lemma_sync_idempotent(table: RecipeTable, state: MachineState, now: nat)
    requires
        table.valid(),
        state.shaped(table),
        state.tick <= now,
    ensures
        sync_cycles(table, sync(table, state, now), now) == 0,
        sync(table, sync(table, state, now), now) == sync(table, state, now),
{
    lemma_sync_composes(table, state, now, now);
}

/// The state of a machine that is brought up to date at each of the `steps`
/// ticks that follow its last one, in turn.
pub open spec fn sync_each(table: RecipeTable, state: MachineState, steps: nat) -> MachineState
    decreases steps,
{
    if steps == 0 {
        state
    } else {
        sync(table, sync_each(table, state, (steps - 1) as nat), state.tick + steps)
    }
}

/// A machine that is brought up to date after every single tick ends exactly
/// where one that jumps over all of them at once does.
pub proof fn lemma_sync_each(table: RecipeTable, state: MachineState, steps: nat)
    requires
        table.valid(),
        state.shaped(table),
        steps > 0,
    ensures
        sync_each(table, state, steps) == sync(table, state, state.tick + steps),
    decreases steps,
{
    let before = (steps - 1) as nat;
    if steps > 1 {
        lemma_sync_each(table, state, before);
        lemma_sync_composes(table, state, state.tick + before, state.tick + steps);
    } else {
        assert(sync_each(table, state, before) == state);
    }
}

/// One access to a machine: the tick at which it is touched, and so brought up to
/// date, and what the caller leaves in its buffers afterwards.
pub struct Access {
    /// The tick of the access.
    pub tick: nat,
    /// The amount that the caller leaves in each input buffer.
    pub inputs: Seq<nat>,
    /// The amount that the caller leaves in each output buffer.
    pub outputs: Seq<nat>,
}

/// The state of a machine after a sequence of accesses.
pub open spec fn run(table: RecipeTable, state: MachineState, accesses: Seq<Access>) -> MachineState
    decreases accesses.len(),
{
    if accesses.len() == 0 {
        state
    } else {
        let access = accesses.last();
        sync(table, run(table, state, accesses.drop_last()), access.tick).with_inputs(
            access.inputs,
        ).with_outputs(access.outputs)
    }
}

/// The accesses come in the order of their ticks, none before the machine's own,
/// and each leaves as many buffers as the recipe has inputs and outputs.
pub open spec fn orderly(table: RecipeTable, state: MachineState, accesses: Seq<Access>) -> bool
    decreases accesses.len(),
{
    if accesses.len() == 0 {
        state.shaped(table)
    } else {
        let access = accesses.last();
        &&& orderly(table, state, accesses.drop_last())
        &&& run(table, state, accesses.drop_last()).tick <= access.tick
        &&& access.inputs.len() == table.inputs.len()
        &&& access.outputs.len() == table.outputs.len()
    }
}

/// The number of cycles that a machine completes over a sequence of accesses.
pub open spec fn run_cycles(table: RecipeTable, state: MachineState, accesses: Seq<Access>) -> nat
    decreases accesses.len(),
{
    if accesses.len() == 0 {
        0
    } else {
        run_cycles(table, state, accesses.drop_last()) + sync_cycles(
            table,
            run(table, state, accesses.drop_last()),
            accesses.last().tick,
        )
    }
}

/// What the machine itself takes out of the input buffer `i` over a sequence of
/// accesses: the sum, over the accesses, of what the buffer held before the
/// machine was brought up to date less what it held after.
pub open spec fn run_taken(
    table: RecipeTable,
    state: MachineState,
    accesses: Seq<Access>,
    i: int,
) -> int
    decreases accesses.len(),
{
    if accesses.len() == 0 {
        0
    } else {
        let before = run(table, state, accesses.drop_last());
        run_taken(table, state, accesses.drop_last(), i) + before.inputs[i] - sync(
            table,
            before,
            accesses.last().tick,
        ).inputs[i]
    }
}

/// What the machine itself puts into the output buffer `j` over a sequence of
/// accesses: the sum, over the accesses, of what the buffer held after the
/// machine was brought up to date less what it held before.
pub open spec fn run_given(
    table: RecipeTable,
    state: MachineState,
    accesses: Seq<Access>,
    j: int,
) -> int
    decreases accesses.len(),
{
    if accesses.len() == 0 {
        0
    } else {
        let before = run(table, state, accesses.drop_last());
        run_given(table, state, accesses.drop_last(), j) + sync(
            table,
            before,
            accesses.last().tick,
        ).outputs[j] - before.outputs[j]
    }
}

/// Whatever is put into a machine's buffers or taken out
/// of them between the times it is brought up to date, what the machine itself
/// takes from an input is in all the completed cycles times that input's amount
/// per cycle, and what it gives to an output is in all the completed cycles times
/// that output's amount per cycle.
pub proof fn lemma_run_conserves(table: RecipeTable, state: MachineState, accesses: Seq<Access>)
    requires
        table.valid(),
        orderly(table, state, accesses),
    ensures
        run(table, state, accesses).shaped(table),
        forall|i: int|
            0 <= i < table.inputs.len() ==> run_taken(table, state, accesses, i) == run_cycles(
                table,
                state,
                accesses,
            ) * #[trigger] table.inputs[i],
        forall|j: int|
            0 <= j < table.outputs.len() ==> run_given(table, state, accesses, j) == run_cycles(
                table,
                state,
                accesses,
            ) * #[trigger] table.outputs[j],
    decreases accesses.len(),
{
    if accesses.len() == 0 {
        assert forall|i: int| 0 <= i < table.inputs.len() implies 0 == 0 * #[trigger] table.inputs[i] by {
            assert(0 * table.inputs[i] == 0);
        }
        assert forall|j: int| 0 <= j < table.outputs.len() implies 0 == 0
            * #[trigger] table.outputs[j] by {
            assert(0 * table.outputs[j] == 0);
        }
    } else {
        let earlier = accesses.drop_last();
        let before = run(table, state, earlier);
        let now = accesses.last().tick;
        let so_far = run_cycles(table, state, earlier);
        let n = sync_cycles(table, before, now);
        lemma_run_conserves(table, state, earlier);
        lemma_sync_conserves(table, before, now);
        assert forall|i: int| 0 <= i < table.inputs.len() implies run_taken(
            table,
            state,
            accesses,
            i,
        ) == run_cycles(table, state, accesses) * #[trigger] table.inputs[i] by {
            assert(sync(table, before, now).inputs[i] + n * table.inputs[i] == before.inputs[i]);
            lemma_spread(so_far as int, n as int, table.inputs[i] as int);
        }
        assert forall|j: int| 0 <= j < table.outputs.len() implies run_given(
            table,
            state,
            accesses,
            j,
        ) == run_cycles(table, state, accesses) * #[trigger] table.outputs[j] by {
            assert(sync(table, before, now).outputs[j] == before.outputs[j] + n * table.outputs[j]);
            lemma_spread(so_far as int, n as int, table.outputs[j] as int);
        }
    }
}

} // verus!
