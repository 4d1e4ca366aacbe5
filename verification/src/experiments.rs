use vstd::prelude::*;
use crate::text::{append_decimal, decimal};

verus! {

/// How many seeds every experiment is run with.
pub const NUM_RUNS: u32 = 10;

// ---------------------------------------------------------------------------
// Experiment 1: one and many initial states, with and without predicate
// reasoning.
// ---------------------------------------------------------------------------

/// The two script lines that run experiment 1 once: an `echo` that labels the
/// run, and the solver call whose output goes to its own file.
pub open spec fn exp1_entry(
    name: Seq<char>,
    increments: Seq<char>,
    seed: nat,
    num_states: nat,
    kind: Seq<char>,
    answer: Seq<char>,
    reasoning: nat,
) -> Seq<char> {
    "echo \"exp1 "@ + name + " "@ + decimal(seed) + " "@ + answer + "\" \n"@
        + "./broccoli.exe --env "@ + name
        + " --depth 2 --num-iters 10000 --predicate-increment "@ + increments + " --NeurIPS "@
        + decimal(seed) + " "@ + decimal(num_states) + " --predicate-reasoning "@ + decimal(
        reasoning,
    ) + " > exp1_"@ + kind + "_"@ + name + "_"@ + decimal(seed) + "_"@ + answer + ".txt\n"@
}

/// Experiment 1 for one environment over the seeds `0..seeds`: each seed is
/// run with predicate reasoning ("yes") and then without it ("no").
pub open spec fn exp1_block(
    name: Seq<char>,
    increments: Seq<char>,
    num_states: nat,
    kind: Seq<char>,
    seeds: nat,
) -> Seq<char>
    decreases seeds,
{
    if seeds == 0 {
        Seq::empty()
    } else {
        let seed = (seeds - 1) as nat;
        exp1_block(name, increments, num_states, kind, seed) + exp1_entry(
            name,
            increments,
            seed,
            num_states,
            kind,
            "yes"@,
            1,
        ) + exp1_entry(name, increments, seed, num_states, kind, "no"@, 0)
    }
}

/// The whole script of experiment 1: cart pole, mountain car and pendulum,
/// first from a single initial state, then from a hundred.
pub open spec fn experiment1_text() -> Seq<char> {
    exp1_block("cp"@, "0.1 0.1 0.1 0.1"@, 1, "single"@, NUM_RUNS as nat) + exp1_block(
        "mc"@,
        "0.05 0.005"@,
        1,
        "single"@,
        NUM_RUNS as nat,
    ) + exp1_block("pen"@, "0.2 0.2"@, 1, "single"@, NUM_RUNS as nat) + exp1_block(
        "cp"@,
        "0.1 0.1 0.1 0.1"@,
        100,
        "multiple"@,
        NUM_RUNS as nat,
    ) + exp1_block("mc"@, "0.05 0.005"@, 100, "multiple"@, NUM_RUNS as nat) + exp1_block(
        "pen"@,
        "0.2 0.2"@,
        100,
        "multiple"@,
        NUM_RUNS as nat,
    )
}

fn push_exp1_entry(
    s: &mut String,
    name: &str,
    increments: &str,
    seed: u32,
    num_states: u32,
    kind: &str,
    answer: &str,
    reasoning: u32,
)
    ensures
        final(s)@ == old(s)@ + exp1_entry(
            name@,
            increments@,
            seed as nat,
            num_states as nat,
            kind@,
            answer@,
            reasoning as nat,
        ),
{
    let mut line = String::from_str("echo \"exp1 ");
    line.append(name);
    line.append(" ");
    append_decimal(&mut line, seed);
    line.append(" ");
    line.append(answer);
    line.append("\" \n");
    line.append("./broccoli.exe --env ");
    line.append(name);
    line.append(" --depth 2 --num-iters 10000 --predicate-increment ");
    line.append(increments);
    line.append(" --NeurIPS ");
    append_decimal(&mut line, seed);
    line.append(" ");
    append_decimal(&mut line, num_states);
    line.append(" --predicate-reasoning ");
    append_decimal(&mut line, reasoning);
    line.append(" > exp1_");
    line.append(kind);
    line.append("_");
    line.append(name);
    line.append("_");
    append_decimal(&mut line, seed);
    line.append("_");
    line.append(answer);
    line.append(".txt\n");
    s.append(line.as_str());
}

fn push_exp1_block(s: &mut String, name: &str, increments: &str, num_states: u32, kind: &str)
    ensures
        final(s)@ == old(s)@ + exp1_block(
            name@,
            increments@,
            num_states as nat,
            kind@,
            NUM_RUNS as nat,
        ),
{
    let mut seed: u32 = 0;
    while seed < NUM_RUNS
        invariant
            seed <= NUM_RUNS,
            s@ == old(s)@ + exp1_block(name@, increments@, num_states as nat, kind@, seed as nat),
        decreases NUM_RUNS - seed,
    {
        push_exp1_entry(s, name, increments, seed, num_states, kind, "yes", 1);
        push_exp1_entry(s, name, increments, seed, num_states, kind, "no", 0);
        seed = seed + 1;
        assert(s@ =~= old(s)@ + exp1_block(
            name@,
            increments@,
            num_states as nat,
            kind@,
            seed as nat,
        ));
    }
}

/// The shell script that reruns experiment 1.
pub fn experiment1_script() -> (script: String)
    ensures
        script@ == experiment1_text(),
{
    let mut s = String::new();
    push_exp1_block(&mut s, "cp", "0.1 0.1 0.1 0.1", 1, "single");
    push_exp1_block(&mut s, "mc", "0.05 0.005", 1, "single");
    push_exp1_block(&mut s, "pen", "0.2 0.2", 1, "single");
    push_exp1_block(&mut s, "cp", "0.1 0.1 0.1 0.1", 100, "multiple");
    push_exp1_block(&mut s, "mc", "0.05 0.005", 100, "multiple");
    push_exp1_block(&mut s, "pen", "0.2 0.2", 100, "multiple");
    assert(s@ =~= experiment1_text());
    s
}


// ---------------------------------------------------------------------------
// Scaling the number of predicates: four predicate granularities per
// environment, trees of depth 2 and 3.
// ---------------------------------------------------------------------------

/// The two script lines of one run of the predicate-scaling experiment.
#[verifier::opaque]
pub open spec fn pred_entry(
    heading: Seq<char>,
    depth: nat,
    name: Seq<char>,
    seed: nat,
    level: nat,
    increments: Seq<char>,
    num_states: nat,
    kind: Seq<char>,
) -> Seq<char> {
    "echo \""@ + heading + " depth "@ + decimal(depth) + " "@ + name + " "@ + decimal(seed) + " "@
        + decimal(level) + "\" \n"@ + "./broccoli.exe --env "@ + name + " --depth "@ + decimal(
        depth,
    ) + " --num-iters 10000 --predicate-increment "@ + increments + " --NeurIPS "@ + decimal(seed)
        + " "@ + decimal(num_states) + " > expPred_"@ + decimal(level) + "_"@ + kind + "_"@ + name
        + "_"@ + decimal(seed) + "_d="@ + decimal(depth) + ".txt\n"@
}

/// The four runs of one environment, from the coarsest predicate increments
/// (level 5) to the finest (level 20).
#[verifier::opaque]
pub open spec fn pred_env(
    heading: Seq<char>,
    depth: nat,
    seed: nat,
    num_states: nat,
    kind: Seq<char>,
    name: Seq<char>,
    inc5: Seq<char>,
    inc10: Seq<char>,
    inc15: Seq<char>,
    inc20: Seq<char>,
) -> Seq<char> {
    pred_entry(heading, depth, name, seed, 5, inc5, num_states, kind) + pred_entry(
        heading,
        depth,
        name,
        seed,
        10,
        inc10,
        num_states,
        kind,
    ) + pred_entry(heading, depth, name, seed, 15, inc15, num_states, kind) + pred_entry(
        heading,
        depth,
        name,
        seed,
        20,
        inc20,
        num_states,
        kind,
    )
}

/// All runs for one depth and one seed: mountain car, cart pole, pendulum.
#[verifier::opaque]
pub open spec fn pred_seed(
    heading: Seq<char>,
    depth: nat,
    seed: nat,
    num_states: nat,
    kind: Seq<char>,
) -> Seq<char> {
    pred_env(
        heading,
        depth,
        seed,
        num_states,
        kind,
        "mc"@,
        "0.36 0.028"@,
        "0.18 0.014"@,
        "0.12 0.01"@,
        "0.09 0.007"@,
    ) + pred_env(
        heading,
        depth,
        seed,
        num_states,
        kind,
        "cp"@,
        "0.96 0.4 0.16 0.4"@,
        "0.48 0.2 0.33 0.2"@,
        "0.32 0.13 0.08 0.13"@,
        "0.24 0.1 0.04 0.1"@,
    ) + pred_env(
        heading,
        depth,
        seed,
        num_states,
        kind,
        "pen"@,
        "0.4 3.2"@,
        "0.2 1.6"@,
        "0.13 1.0"@,
        "0.1 0.8"@,
    )
}

/// The runs for one depth over the seeds `0..seeds`.
pub open spec fn pred_block(
    heading: Seq<char>,
    depth: nat,
    num_states: nat,
    kind: Seq<char>,
    seeds: nat,
) -> Seq<char>
    decreases seeds,
{
    if seeds == 0 {
        Seq::empty()
    } else {
        pred_block(heading, depth, num_states, kind, (seeds - 1) as nat) + pred_seed(
            heading,
            depth,
            (seeds - 1) as nat,
            num_states,
            kind,
        )
    }
}

/// The runs for one depth: first from a single initial state, then from a
/// hundred.
pub open spec fn pred_depth(depth: nat) -> Seq<char> {
    pred_block("exp_pred"@, depth, 1, "single"@, NUM_RUNS as nat) + pred_block(
        "exp_pred multi"@,
        depth,
        100,
        "multiple"@,
        NUM_RUNS as nat,
    )
}

/// The whole script of the predicate-scaling experiment: depth 2, then 3.
pub open spec fn scale_predicates_text() -> Seq<char> {
    pred_depth(2) + pred_depth(3)
}

fn push_pred_entry(
    s: &mut String,
    heading: &str,
    depth: u32,
    name: &str,
    seed: u32,
    level: u32,
    increments: &str,
    num_states: u32,
    kind: &str,
)
    ensures
        final(s)@ == old(s)@ + pred_entry(
            heading@,
            depth as nat,
            name@,
            seed as nat,
            level as nat,
            increments@,
            num_states as nat,
            kind@,
        ),
{
    reveal(pred_entry);
    let mut line = String::from_str("echo \"");
    line.append(heading);
    line.append(" depth ");
    append_decimal(&mut line, depth);
    line.append(" ");
    line.append(name);
    line.append(" ");
    append_decimal(&mut line, seed);
    line.append(" ");
    append_decimal(&mut line, level);
    line.append("\" \n");
    line.append("./broccoli.exe --env ");
    line.append(name);
    line.append(" --depth ");
    append_decimal(&mut line, depth);
    line.append(" --num-iters 10000 --predicate-increment ");
    line.append(increments);
    line.append(" --NeurIPS ");
    append_decimal(&mut line, seed);
    line.append(" ");
    append_decimal(&mut line, num_states);
    line.append(" > expPred_");
    append_decimal(&mut line, level);
    line.append("_");
    line.append(kind);
    line.append("_");
    line.append(name);
    line.append("_");
    append_decimal(&mut line, seed);
    line.append("_d=");
    append_decimal(&mut line, depth);
    line.append(".txt\n");
    s.append(line.as_str());
}

fn push_pred_env(
    s: &mut String,
    heading: &str,
    depth: u32,
    seed: u32,
    num_states: u32,
    kind: &str,
    name: &str,
    inc5: &str,
    inc10: &str,
    inc15: &str,
    inc20: &str,
)
    ensures
        final(s)@ == old(s)@ + pred_env(
            heading@,
            depth as nat,
            seed as nat,
            num_states as nat,
            kind@,
            name@,
            inc5@,
            inc10@,
            inc15@,
            inc20@,
        ),
{
    reveal(pred_env);
    push_pred_entry(s, heading, depth, name, seed, 5, inc5, num_states, kind);
    push_pred_entry(s, heading, depth, name, seed, 10, inc10, num_states, kind);
    push_pred_entry(s, heading, depth, name, seed, 15, inc15, num_states, kind);
    push_pred_entry(s, heading, depth, name, seed, 20, inc20, num_states, kind);
    assert(s@ =~= old(s)@ + pred_env(
        heading@,
        depth as nat,
        seed as nat,
        num_states as nat,
        kind@,
        name@,
        inc5@,
        inc10@,
        inc15@,
        inc20@,
    ));
}

fn push_pred_seed(s: &mut String, heading: &str, depth: u32, seed: u32, num_states: u32, kind: &str)
    ensures
        final(s)@ == old(s)@ + pred_seed(heading@, depth as nat, seed as nat, num_states as nat, kind@),
{
    push_pred_env(
        s,
        heading,
        depth,
        seed,
        num_states,
        kind,
        "mc",
        "0.36 0.028",
        "0.18 0.014",
        "0.12 0.01",
        "0.09 0.007",
    );
    push_pred_env(
        s,
        heading,
        depth,
        seed,
        num_states,
        kind,
        "cp",
        "0.96 0.4 0.16 0.4",
        "0.48 0.2 0.33 0.2",
        "0.32 0.13 0.08 0.13",
        "0.24 0.1 0.04 0.1",
    );
    push_pred_env(
        s,
        heading,
        depth,
        seed,
        num_states,
        kind,
        "pen",
        "0.4 3.2",
        "0.2 1.6",
        "0.13 1.0",
        "0.1 0.8",
    );
    reveal(pred_seed);
    assert(s@ =~= old(s)@ + pred_seed(heading@, depth as nat, seed as nat, num_states as nat, kind@));
}

fn push_pred_block(s: &mut String, heading: &str, depth: u32, num_states: u32, kind: &str)
    ensures
        final(s)@ == old(s)@ + pred_block(
            heading@,
            depth as nat,
            num_states as nat,
            kind@,
            NUM_RUNS as nat,
        ),
{
    let mut seed: u32 = 0;
    while seed < NUM_RUNS
        invariant
            seed <= NUM_RUNS,
            s@ == old(s)@ + pred_block(heading@, depth as nat, num_states as nat, kind@, seed as nat),
        decreases NUM_RUNS - seed,
    {
        push_pred_seed(s, heading, depth, seed, num_states, kind);
        seed = seed + 1;
        assert(s@ =~= old(s)@ + pred_block(
            heading@,
            depth as nat,
            num_states as nat,
            kind@,
            seed as nat,
        ));
    }
}

/// The shell script that reruns the predicate-scaling experiment.
pub fn scale_predicates_script() -> (script: String)
    ensures
        script@ == scale_predicates_text(),
{
    let mut s = String::new();
    let mut depth: u32 = 2;
    while depth <= 3
        invariant
            2 <= depth <= 4,
            depth == 2 ==> s@ == Seq::<char>::empty(),
            depth == 3 ==> s@ == pred_depth(2),
            depth == 4 ==> s@ == pred_depth(2) + pred_depth(3),
        decreases 4 - depth,
    {
        let ghost before = s@;
        push_pred_block(&mut s, "exp_pred", depth, 1, "single");
        push_pred_block(&mut s, "exp_pred multi", depth, 100, "multiple");
        assert(s@ =~= before + pred_depth(depth as nat));
        depth = depth + 1;
    }
    s
}

// ---------------------------------------------------------------------------
// Scaling the number of predicate nodes: trees of depth 3 with 3 to 7 nodes.
// ---------------------------------------------------------------------------

/// The two script lines of one run of the node-scaling experiment.
#[verifier::opaque]
pub open spec fn nodes_entry(
    name: Seq<char>,
    num_nodes: nat,
    seed: nat,
    level: nat,
    increments: Seq<char>,
) -> Seq<char> {
    "echo \""@ + name + " "@ + decimal(num_nodes) + " "@ + name + " "@ + decimal(seed) + " "@
        + decimal(level) + "\" \n"@ + "./broccoli2.exe --env "@ + name
        + " --depth 3 --num-nodes "@ + decimal(num_nodes)
        + " --num-iters 10000 --predicate-increment "@ + increments + " --NeurIPS "@ + decimal(seed)
        + " 100 > expSize_"@ + decimal(level) + "_multiple_"@ + name + "_"@ + decimal(seed) + "_n="@
        + decimal(num_nodes) + ".txt\n"@
}

/// The three runs for one seed and one node count.
#[verifier::opaque]
pub open spec fn nodes_group(seed: nat, num_nodes: nat) -> Seq<char> {
    nodes_entry("mc"@, num_nodes, seed, 10, "0.18 0.014"@) + nodes_entry(
        "cp"@,
        num_nodes,
        seed,
        5,
        "0.96 0.4 0.16 0.4"@,
    ) + nodes_entry("pen"@, num_nodes, seed, 10, "0.2 1.6"@)
}

/// The runs of one seed for the node counts `3..3 + counts`.
pub open spec fn nodes_seed(seed: nat, counts: nat) -> Seq<char>
    decreases counts,
{
    if counts == 0 {
        Seq::empty()
    } else {
        nodes_seed(seed, (counts - 1) as nat) + nodes_group(seed, (3 + counts - 1) as nat)
    }
}

/// The runs of the seeds `0..seeds`, each over the node counts 3 to 7.
pub open spec fn nodes_block(seeds: nat) -> Seq<char>
    decreases seeds,
{
    if seeds == 0 {
        Seq::empty()
    } else {
        nodes_block((seeds - 1) as nat) + nodes_seed((seeds - 1) as nat, 5)
    }
}

/// The whole script of the node-scaling experiment.
pub open spec fn num_nodes_text() -> Seq<char> {
    nodes_block(NUM_RUNS as nat)
}

fn push_nodes_entry(s: &mut String, name: &str, num_nodes: u32, seed: u32, level: u32, increments: &str)
    ensures
        final(s)@ == old(s)@ + nodes_entry(
            name@,
            num_nodes as nat,
            seed as nat,
            level as nat,
            increments@,
        ),
{
    reveal(nodes_entry);
    let mut line = String::from_str("echo \"");
    line.append(name);
    line.append(" ");
    append_decimal(&mut line, num_nodes);
    line.append(" ");
    line.append(name);
    line.append(" ");
    append_decimal(&mut line, seed);
    line.append(" ");
    append_decimal(&mut line, level);
    line.append("\" \n");
    line.append("./broccoli2.exe --env ");
    line.append(name);
    line.append(" --depth 3 --num-nodes ");
    append_decimal(&mut line, num_nodes);
    line.append(" --num-iters 10000 --predicate-increment ");
    line.append(increments);
    line.append(" --NeurIPS ");
    append_decimal(&mut line, seed);
    line.append(" 100 > expSize_");
    append_decimal(&mut line, level);
    line.append("_multiple_");
    line.append(name);
    line.append("_");
    append_decimal(&mut line, seed);
    line.append("_n=");
    append_decimal(&mut line, num_nodes);
    line.append(".txt\n");
    s.append(line.as_str());
}

/// The shell script that reruns the node-scaling experiment.
pub fn num_nodes_script() -> (script: String)
    ensures
        script@ == num_nodes_text(),
{
    let mut s = String::new();
    let mut seed: u32 = 0;
    while seed < NUM_RUNS
        invariant
            seed <= NUM_RUNS,
            s@ == nodes_block(seed as nat),
        decreases NUM_RUNS - seed,
    {
        let ghost before = s@;
        let mut num_nodes: u32 = 3;
        while num_nodes <= 7
            invariant
                3 <= num_nodes <= 8,
                seed < NUM_RUNS,
                s@ == before + nodes_seed(seed as nat, (num_nodes - 3) as nat),
            decreases 8 - num_nodes,
        {
            push_nodes_entry(&mut s, "mc", num_nodes, seed, 10, "0.18 0.014");
            push_nodes_entry(&mut s, "cp", num_nodes, seed, 5, "0.96 0.4 0.16 0.4");
            push_nodes_entry(&mut s, "pen", num_nodes, seed, 10, "0.2 1.6");
            num_nodes = num_nodes + 1;
            reveal(nodes_group);
            assert(s@ =~= before + nodes_seed(seed as nat, (num_nodes - 3) as nat));
        }
        seed = seed + 1;
        assert(s@ =~= nodes_block(seed as nat));
    }
    s
}

} // verus!
