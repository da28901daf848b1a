//! Nodes of the fleet, and which of them a list of targets selects.
use vstd::prelude::*;
use vstd::string::*;
use crate::key::Key;
use crate::text::{has_prefix, starts_with, substring};
use crate::step::Goal;

verus! {

/// One host of the fleet.
#[derive(Debug)]
pub struct Node {
    pub name: String,
    pub host: String,
    pub user: String,
    pub tags: Vec<String>,
    pub keys: Vec<Key>,
}

/// A target named on the command line: a node by name, or a tag.
#[derive(Debug)]
pub enum ApplyTarget {
    Node(String),
    Tag(String),
}

/// The command line's subcommands.
#[derive(Debug)]
pub enum Commands {
    /// Deploy `goal` to the nodes that `on` selects (all when it is empty).
    Apply { goal: Goal, on: Vec<ApplyTarget> },
    /// Print the fleet's structure.
    Inspect { online: bool, json: bool },
    /// Show a past deployment's log.
    Log { host: String, index: i32 },
}

/// What a target argument denotes: a leading `@` marks a tag.
pub open spec fn target_of(arg: Seq<char>) -> (bool, Seq<char>) {
    if has_prefix(arg, seq!['@']) {
        (true, arg.subrange(1, arg.len() as int))
    } else {
        (false, arg)
    }
}

/// Whether `t` is a tag target, and the name or tag it holds.
pub open spec fn target_view(t: ApplyTarget) -> (bool, Seq<char>) {
    match t {
        ApplyTarget::Node(n) => (false, n@),
        ApplyTarget::Tag(g) => (true, g@),
    }
}

impl ApplyTarget {
    /// Reads a target argument: `@web` is the tag `web`, `db1` the node `db1`.
    pub fn from_arg(value: &str) -> (r: ApplyTarget)
        ensures
            target_view(r) == target_of(value@),
    {
        proof {
            reveal_strlit("@");
            assert("@"@ =~= seq!['@']);
        }
        if starts_with(value, "@") {
            ApplyTarget::Tag(substring(value, 1, value.unicode_len()))
        } else {
            ApplyTarget::Node(String::from_str(value))
        }
    }
}

/// Whether the targets `on` select node `n`: all nodes when `on` is empty,
/// else those named, and those that carry a tag named.
pub open spec fn selects(on: Seq<ApplyTarget>, n: Node) -> bool {
    on.len() == 0
    || (exists|j: int| 0 <= j < on.len() && #[trigger] target_view(on[j]) == (false, n.name@))
    || (exists|j: int, k: int| 0 <= j < on.len() && 0 <= k < n.tags@.len()
        && #[trigger] target_view(on[j]) == (true, #[trigger] n.tags@[k]@))
}

/// The indices, in fleet order, of the first `n` nodes that `on` selects.
pub open spec fn selected_nodes(on: Seq<ApplyTarget>, nodes: Seq<Node>, n: int) -> Seq<usize>
    decreases n,
{
    if n <= 0 {
        seq![]
    } else if selects(on, nodes[n - 1]) {
        selected_nodes(on, nodes, n - 1).push((n - 1) as usize)
    } else {
        selected_nodes(on, nodes, n - 1)
    }
}

fn names_node(on: &Vec<ApplyTarget>, name: &String) -> (r: bool)
    ensures
        r == exists|j: int| 0 <= j < on@.len() && #[trigger] target_view(on@[j]) == (false, name@),
{
    let mut j: usize = 0;
    while j < on.len()
        invariant
            j <= on@.len(),
            forall|i: int| 0 <= i < j ==> #[trigger] target_view(on@[i]) != (false, name@),
        decreases on@.len() - j,
    {
        match &on[j] {
            ApplyTarget::Node(n) => {
                if n.eq(name) {
                    assert(target_view(on@[j as int]) == (false, name@));
                    return true;
                }
            },
            ApplyTarget::Tag(_) => {},
        }
        j = j + 1;
    }
    false
}

fn names_tag(on: &Vec<ApplyTarget>, tag: &String) -> (r: bool)
    ensures
        r == exists|j: int| 0 <= j < on@.len() && #[trigger] target_view(on@[j]) == (true, tag@),
{
    let mut j: usize = 0;
    while j < on.len()
        invariant
            j <= on@.len(),
            forall|i: int| 0 <= i < j ==> #[trigger] target_view(on@[i]) != (true, tag@),
        decreases on@.len() - j,
    {
        match &on[j] {
            ApplyTarget::Tag(t) => {
                if t.eq(tag) {
                    assert(target_view(on@[j as int]) == (true, tag@));
                    return true;
                }
            },
            ApplyTarget::Node(_) => {},
        }
        j = j + 1;
    }
    false
}

/// Whether the targets `on` select `node`.
pub fn is_selected(on: &Vec<ApplyTarget>, node: &Node) -> (r: bool)
    ensures
        r == selects(on@, *node),
{
    if on.len() == 0 || names_node(on, &node.name) {
        return true;
    }
    let mut k: usize = 0;
    while k < node.tags.len()
        invariant
            k <= node.tags@.len(),
            on@.len() > 0,
            forall|j: int, i: int| 0 <= j < on@.len() && 0 <= i < k
                ==> #[trigger] target_view(on@[j]) != (true, #[trigger] node.tags@[i]@),
        decreases node.tags@.len() - k,
    {
        if names_tag(on, &node.tags[k]) {
            return true;
        }
        k = k + 1;
    }
    false
}

/// Resolves the targets `on` against the fleet: the indices, in fleet order,
/// of the nodes named or carrying a tag named, or of all nodes when `on` is
/// empty.
pub fn select_nodes(nodes: &Vec<Node>, on: &Vec<ApplyTarget>) -> (r: Vec<usize>)
    ensures
        r@ == selected_nodes(on@, nodes@, nodes@.len() as int),
{
    let mut r: Vec<usize> = Vec::new();
    let mut i: usize = 0;
    while i < nodes.len()
        invariant
            i <= nodes@.len(),
            r@ == selected_nodes(on@, nodes@, i as int),
        decreases nodes@.len() - i,
    {
        if is_selected(on, &nodes[i]) {
            r.push(i);
        }
        i = i + 1;
    }
    r
}

/// Selection is a set union: each node is selected at most once, whether it
/// matches by name, by tag, or both, and the indices come in fleet order.
pub proof fn lemma_selection_has_no_duplicates(on: Seq<ApplyTarget>, nodes: Seq<Node>, n: int)
    requires
        0 <= n <= nodes.len(),
        nodes.len() <= usize::MAX,
    ensures
        forall|i: int, j: int| 0 <= i < j < selected_nodes(on, nodes, n).len()
            ==> #[trigger] selected_nodes(on, nodes, n)[i] < #[trigger] selected_nodes(on, nodes, n)[j],
        forall|i: int| 0 <= i < selected_nodes(on, nodes, n).len()
            ==> #[trigger] selected_nodes(on, nodes, n)[i] < n,
        selected_nodes(on, nodes, n).no_duplicates(),
    decreases n,
{
    if n > 0 {
        lemma_selection_has_no_duplicates(on, nodes, n - 1);
        let prev = selected_nodes(on, nodes, n - 1);
        let cur = selected_nodes(on, nodes, n);
        assert forall|i: int| 0 <= i < cur.len() implies #[trigger] cur[i] < n by {
            if i < prev.len() {
                assert(cur[i] == prev[i]);
            }
        }
        assert forall|i: int, j: int| 0 <= i < j < cur.len() implies #[trigger] cur[i] < #[trigger] cur[j] by {
            if j < prev.len() {
                assert(cur[i] == prev[i] && cur[j] == prev[j]);
            } else {
                assert(cur[i] == prev[i]);
            }
        }
    }
    let cur = selected_nodes(on, nodes, n);
    assert forall|i: int, j: int| 0 <= i < cur.len() && 0 <= j < cur.len() && i != j implies cur[i] != cur[j] by {
        if i < j {
            assert(cur[i] < cur[j]);
        } else {
            assert(cur[j] < cur[i]);
        }
    }
}

} // verus!
