use vstd::prelude::*;

verus! {

/// The search for a decision tree: trees are enumerated, each is evaluated,
/// and the best one found is kept.
pub struct Broccoli {}

/// How many nodes of a tree are predicate nodes that no simulation reached,
/// looking at the first `n` nodes.
pub open spec fn unused_nodes_prefix(is_predicate: Seq<bool>, frequencies: Seq<u64>, n: int) -> nat
    decreases n,
{
    if n <= 0 {
        0
    } else {
        unused_nodes_prefix(is_predicate, frequencies, n - 1) + (if is_predicate[n - 1]
            && frequencies[n - 1] == 0 {
            1nat
        } else {
            0nat
        })
    }
}

/// How many nodes of a tree are predicate nodes that no simulation reached.
pub open spec fn unused_nodes(is_predicate: Seq<bool>, frequencies: Seq<u64>) -> nat {
    unused_nodes_prefix(is_predicate, frequencies, is_predicate.len() as int)
}

proof fn lemma_unused_nodes_prefix_bound(is_predicate: Seq<bool>, frequencies: Seq<u64>, n: int)
    requires
        0 <= n,
    ensures
        unused_nodes_prefix(is_predicate, frequencies, n) <= n,
    decreases n,
{
    if n > 0 {
        lemma_unused_nodes_prefix_bound(is_predicate, frequencies, n - 1);
    }
}

/// Counts the predicate nodes of a tree that no simulation reached, given for
/// each node whether it is a predicate node and how often it was visited.
pub fn count_unused_nodes(is_predicate: &Vec<bool>, frequencies: &Vec<u64>) -> (r: usize)
    requires
        is_predicate.len() <= frequencies.len(),
    ensures
        r == unused_nodes(is_predicate@, frequencies@),
        r == unused_node_indices(is_predicate@, frequencies@, is_predicate@.len() as int).len(),
{
    let n = is_predicate.len();
    let mut count: usize = 0;
    let mut i: usize = 0;
    while i < n
        invariant
            n == is_predicate.len(),
            n <= frequencies.len(),
            i <= n,
            count == unused_nodes_prefix(is_predicate@, frequencies@, i as int),
        decreases n - i,
    {
        proof {
            lemma_unused_nodes_prefix_bound(is_predicate@, frequencies@, i as int);
        }
        if is_predicate[i] && frequencies[i] == 0 {
            count = count + 1;
        }
        i = i + 1;
    }
    proof {
        lemma_unused_nodes_counts_indices(is_predicate@, frequencies@, n as int);
    }
    count
}

/// What the search loop learnt about the tree it just evaluated.
#[derive(Clone, Copy, Debug, PartialEq, Eq, Structural)]
pub struct TreeReport {
    /// The evaluator accepted the tree with a score that beats the best one.
    pub improved: bool,
    /// How many predicate nodes of the tree no simulation reached.
    pub num_unused_nodes: usize,
    /// The time limit has passed.
    pub time_limit_exceeded: bool,
}

/// What the search loop does next.
#[derive(Clone, Copy, Debug, PartialEq, Eq, Structural)]
pub struct SearchAction {
    /// Keep the tree as the best one and register its score with the
    /// evaluator.
    pub keep_as_best: bool,
    /// Let the enumerator prune with the thresholds the tree's simulations
    /// reached.
    pub apply_threshold_reasoning: bool,
    /// Stop the search.
    pub stop: bool,
}

/// The state of the search loop.
pub struct SearchProgress {
    use_predicate_reasoning: bool,
    trees_evaluated: u64,
    trees_with_unused_nodes: u64,
    found_tree: bool,
    stopped: bool,
}

/// The search loop's state, as contracts speak of it.
pub struct SearchState {
    pub use_predicate_reasoning: bool,
    pub trees_evaluated: nat,
    pub trees_with_unused_nodes: nat,
    pub found_tree: bool,
    pub stopped: bool,
}

impl View for SearchProgress {
    type V = SearchState;

    closed spec fn view(&self) -> SearchState {
        SearchState {
            use_predicate_reasoning: self.use_predicate_reasoning,
            trees_evaluated: self.trees_evaluated as nat,
            trees_with_unused_nodes: self.trees_with_unused_nodes as nat,
            found_tree: self.found_tree,
            stopped: self.stopped,
        }
    }
}

/// The search loop's state after the report `r` on one more tree.
pub open spec fn next_state(s: SearchState, r: TreeReport) -> SearchState {
    SearchState {
        use_predicate_reasoning: s.use_predicate_reasoning,
        trees_evaluated: s.trees_evaluated + 1,
        trees_with_unused_nodes: s.trees_with_unused_nodes + (if r.num_unused_nodes > 0 {
            1nat
        } else {
            0nat
        }),
        found_tree: s.found_tree || r.improved,
        stopped: r.time_limit_exceeded,
    }
}

/// What the search loop does after the report `r`.
pub open spec fn next_action(s: SearchState, r: TreeReport) -> SearchAction {
    SearchAction {
        keep_as_best: r.improved,
        apply_threshold_reasoning: s.use_predicate_reasoning,
        stop: r.time_limit_exceeded,
    }
}

impl Broccoli {
    /// Starts a search. The predicate increments are given per feature of the
    /// environment, so there must be as many of them as there are features.
    pub fn start_search(num_features: usize, num_increments: usize, use_predicate_reasoning: bool) -> (p: SearchProgress)
        requires
            num_features == num_increments,
        ensures
            p.wf(),
            p@ == (SearchState {
                use_predicate_reasoning,
                trees_evaluated: 0,
                trees_with_unused_nodes: 0,
                found_tree: false,
                stopped: false,
            }),
    {
        SearchProgress {
            use_predicate_reasoning,
            trees_evaluated: 0,
            trees_with_unused_nodes: 0,
            found_tree: false,
            stopped: false,
        }
    }
}

impl SearchProgress {
    /// The counts agree.
    pub closed spec fn wf(&self) -> bool {
        self.trees_with_unused_nodes <= self.trees_evaluated
    }

    /// Takes in the report on one more evaluated tree and says what to do.
    pub fn step(&mut self, report: TreeReport) -> (action: SearchAction)
        requires
            old(self).wf(),
            !old(self)@.stopped,
            old(self)@.trees_evaluated < u64::MAX,
        ensures
            final(self).wf(),
            final(self)@ == next_state(old(self)@, report),
            action == next_action(old(self)@, report),
            action.keep_as_best == report.improved,
            action.apply_threshold_reasoning == old(self)@.use_predicate_reasoning,
            action.stop == report.time_limit_exceeded,
            final(self)@.use_predicate_reasoning == old(self)@.use_predicate_reasoning,
            final(self)@.trees_evaluated == old(self)@.trees_evaluated + 1,
            final(self)@.trees_with_unused_nodes == old(self)@.trees_with_unused_nodes + (if report.num_unused_nodes > 0 {
                1int
            } else {
                0int
            }),
            final(self)@.found_tree == (old(self)@.found_tree || report.improved),
            final(self)@.stopped == report.time_limit_exceeded,
    {
        self.trees_evaluated = self.trees_evaluated + 1;
        if report.num_unused_nodes > 0 {
            self.trees_with_unused_nodes = self.trees_with_unused_nodes + 1;
        }
        if report.improved {
            self.found_tree = true;
        }
        self.stopped = report.time_limit_exceeded;
        SearchAction {
            keep_as_best: report.improved,
            apply_threshold_reasoning: self.use_predicate_reasoning,
            stop: report.time_limit_exceeded,
        }
    }

    /// How many evaluated trees had predicate nodes that no simulation
    /// reached.
    pub fn trees_with_unused_nodes(&self) -> (r: u64)
        ensures
            r == self@.trees_with_unused_nodes,
    {
        self.trees_with_unused_nodes
    }

    /// How many trees were evaluated.
    pub fn trees_evaluated(&self) -> (r: u64)
        ensures
            r == self@.trees_evaluated,
    {
        self.trees_evaluated
    }

    /// Whether a tree was found.
    pub fn found_tree(&self) -> (r: bool)
        ensures
            r == self@.found_tree,
    {
        self.found_tree
    }

    /// Whether the search has stopped.
    pub fn stopped(&self) -> (r: bool)
        ensures
            r == self@.stopped,
    {
        self.stopped
    }
}

/// No more trees have unused nodes than were evaluated.
pub proof fn lemma_unused_trees_bounded(p: &SearchProgress)
    requires
        p.wf(),
    ensures
        p@.trees_with_unused_nodes <= p@.trees_evaluated,
{
}

/// A tree has no more unused predicate nodes than it has nodes.
pub proof fn lemma_unused_nodes_bounded(is_predicate: Seq<bool>, frequencies: Seq<u64>)
    ensures
        unused_nodes(is_predicate, frequencies) <= is_predicate.len(),
{
    lemma_unused_nodes_prefix_bound(is_predicate, frequencies, is_predicate.len() as int);
}

/// The indices below `n` of predicate nodes that were never visited.
pub open spec fn unused_node_indices(is_predicate: Seq<bool>, frequencies: Seq<u64>, n: int) -> Set<int> {
    Set::new(|i: int| 0 <= i < n && is_predicate[i] && frequencies[i] == 0)
}

/// The number of unused nodes is the number of indices `i` at which the node
/// is a predicate node with frequency 0: a node with a nonzero frequency, or
/// a node that is not a predicate node, is never counted.
pub proof fn lemma_unused_nodes_counts_indices(is_predicate: Seq<bool>, frequencies: Seq<u64>, n: int)
    requires
        0 <= n,
    ensures
        unused_node_indices(is_predicate, frequencies, n).finite(),
        unused_nodes_prefix(is_predicate, frequencies, n) == unused_node_indices(
            is_predicate,
            frequencies,
            n,
        ).len(),
    decreases n,
{
    let cur = unused_node_indices(is_predicate, frequencies, n);
    if n == 0 {
        assert(cur =~= Set::<int>::empty());
    } else {
        lemma_unused_nodes_counts_indices(is_predicate, frequencies, n - 1);
        let prev = unused_node_indices(is_predicate, frequencies, n - 1);
        assert(!prev.contains(n - 1));
        if is_predicate[n - 1] && frequencies[n - 1] == 0 {
            assert(cur =~= prev.insert(n - 1));
        } else {
            assert(cur =~= prev);
        }
    }
}

/// Every tree that the evaluator accepts is kept as the best one, whatever
/// its unused nodes and whether the time limit has passed.
pub proof fn lemma_accepted_trees_are_kept(s: SearchState, r: TreeReport)
    ensures
        next_action(s, r).keep_as_best == r.improved,
        r.improved ==> next_state(s, r).found_tree,
{
}

/// Threshold reasoning is applied after every tree exactly when the search
/// was started with predicate reasoning, and the setting never changes.
pub proof fn lemma_reasoning_follows_setting(s: SearchState, r: TreeReport)
    ensures
        next_action(s, r).apply_threshold_reasoning == s.use_predicate_reasoning,
        next_state(s, r).use_predicate_reasoning == s.use_predicate_reasoning,
{
}

/// The search stops exactly when the time limit has passed, and every step
/// counts one more evaluated tree, and one more tree with unused nodes
/// exactly when the tree had some.
pub proof fn lemma_search_counts(s: SearchState, r: TreeReport)
    ensures
        next_action(s, r).stop == r.time_limit_exceeded,
        next_state(s, r).stopped == r.time_limit_exceeded,
        next_state(s, r).trees_evaluated == s.trees_evaluated + 1,
        r.num_unused_nodes == 0 ==> next_state(s, r).trees_with_unused_nodes
            == s.trees_with_unused_nodes,
        r.num_unused_nodes > 0 ==> next_state(s, r).trees_with_unused_nodes
            == s.trees_with_unused_nodes + 1,
{
}

} // verus!
