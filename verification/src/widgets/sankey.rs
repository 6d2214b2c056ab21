//! `Sankey`: a flow diagram of layered node columns joined by
//! weighted links.
//!
//! Nodes are declared in column order; weighted links join two named
//! nodes. Layering puts each node in a column: its pinned column when
//! it has one, else one column right of its rightmost source (column 0
//! without sources); nodes on or fed from a cycle stay at column 0.
//! Links carry weights of any type; summing them into a node's
//! throughput is left to the caller. Hovering a ribbon parks its index for
//! [`Sankey::take_hovered`].

use vstd::prelude::*;

use crate::access::{AccessNode, Role};
use crate::event::{same_text, EventResponse};
use crate::text::{decimal, owned, push_decimal, push_str};

verus! {

/// `c` with its alpha channel replaced by `a`.
pub fn dim(c: [u8; 4], a: u8) -> (r: [u8; 4])
    ensures
        r@ == seq![c@[0], c@[1], c@[2], a],
{
    let r = [c[0], c[1], c[2], a];
    assert(r@ =~= seq![c@[0], c@[1], c@[2], a]);
    r
}

/// A link between two node indices.
#[derive(Clone, Copy, Debug, PartialEq, Eq, Structural)]
pub struct SankeyLink {
    pub from: usize,
    pub to: usize,
}

/// What a diagram knows of one node.
pub struct SankeyNodeView {
    pub name: Seq<char>,
    /// Pinned column, if any.
    pub column: Option<usize>,
    /// Column found by the last layering.
    pub col: usize,
}

/// The state of a diagram whose links carry weights of type `W`.
pub struct SankeyView<W> {
    pub label: Seq<char>,
    pub nodes: Seq<SankeyNodeView>,
    pub links: Seq<SankeyLink>,
    /// The weight of each link.
    pub weights: Seq<W>,
    pub hovered: Option<usize>,
    pub pending: Option<usize>,
}

impl<W> SankeyView<W> {
    /// Every link joins two distinct existing nodes and has a weight.
    pub open spec fn wf(self) -> bool {
        &&& self.weights.len() == self.links.len()
        &&& forall|k: int|
            0 <= k < self.links.len() ==> {
                let l = #[trigger] self.links[k];
                &&& l.from < self.nodes.len()
                &&& l.to < self.nodes.len()
                &&& l.from != l.to
            }
    }
}

#[derive(Debug)]
struct Node {
    name: String,
    column: Option<usize>,
    col: usize,
}

impl View for Node {
    type V = SankeyNodeView;

    closed spec fn view(&self) -> SankeyNodeView {
        SankeyNodeView { name: self.name@, column: self.column, col: self.col }
    }
}

/// A weighted flow diagram; its links carry weights of type `W`.
#[derive(Debug)]
pub struct Sankey<W> {
    /// Accessibility label.
    pub label: String,
    nodes: Vec<Node>,
    links: Vec<SankeyLink>,
    weights: Vec<W>,
    hovered: Option<usize>,
    pending: Option<usize>,
}

impl<W> View for Sankey<W> {
    type V = SankeyView<W>;

    closed spec fn view(&self) -> SankeyView<W> {
        SankeyView {
            label: self.label@,
            nodes: self.nodes@.map_values(|n: Node| n@),
            links: self.links@,
            weights: self.weights@,
            hovered: self.hovered,
            pending: self.pending,
        }
    }
}

/// `i` is the first node named `name`.
pub open spec fn first_named(nodes: Seq<SankeyNodeView>, name: Seq<char>, i: int) -> bool {
    &&& 0 <= i < nodes.len()
    &&& nodes[i].name == name
    &&& forall|j: int| 0 <= j < i ==> (#[trigger] nodes[j]).name != name
}

/// The index of the first node named `name`, if any.
pub open spec fn find_node(nodes: Seq<SankeyNodeView>, name: Seq<char>) -> Option<int> {
    if exists|i: int| first_named(nodes, name, i) {
        Some(choose|i: int| first_named(nodes, name, i))
    } else {
        None
    }
}

/// The link asked for from `from` to `to`, as node indices: made when
/// both names are known and distinct and the weight is positive.
pub open spec fn link_made(
    nodes: Seq<SankeyNodeView>,
    from: Seq<char>,
    to: Seq<char>,
    positive: bool,
) -> Option<SankeyLink> {
    match (find_node(nodes, from), find_node(nodes, to)) {
        (Some(f), Some(t)) => if f != t && positive {
            Some(SankeyLink { from: f as usize, to: t as usize })
        } else {
            None
        },
        _ => None,
    }
}

/// A node's column as read back: its pin, else its layered column.
pub open spec fn column_of_node(n: SankeyNodeView) -> usize {
    match n.column {
        Some(c) => c,
        None => n.col,
    }
}

/// One more column than `c`, held at the top of the range.
pub open spec fn next_col(c: usize) -> usize {
    if c < usize::MAX {
        (c + 1) as usize
    } else {
        c
    }
}

/// The columns of a diagram's nodes.
pub open spec fn cols_of(nodes: Seq<SankeyNodeView>) -> Seq<usize> {
    nodes.map_values(|n: SankeyNodeView| n.col)
}

/// The pins of a diagram's nodes.
pub open spec fn pins_of(nodes: Seq<SankeyNodeView>) -> Seq<Option<usize>> {
    nodes.map_values(|n: SankeyNodeView| n.column)
}

/// Node `v` is settled within `k` rounds: it is pinned, or every link
/// into it comes from a node settled within `k - 1` rounds. Nodes on a
/// cycle of unpinned nodes, and nodes fed from one, never settle.
pub open spec fn settled_within(
    pins: Seq<Option<usize>>,
    links: Seq<SankeyLink>,
    k: nat,
    v: int,
) -> bool
    decreases k,
{
    if pins[v] is Some {
        true
    } else if k == 0 {
        false
    } else {
        forall|j: int|
            0 <= j < links.len() && (#[trigger] links[j]).to == v ==> settled_within(
                pins,
                links,
                (k - 1) as nat,
                links[j].from as int,
            )
    }
}

/// Node `v` settles: within as many rounds as there are nodes.
pub open spec fn settles(pins: Seq<Option<usize>>, links: Seq<SankeyLink>, v: int) -> bool {
    settled_within(pins, links, pins.len(), v)
}

/// One column right of the rightmost source of `v` among the first `m`
/// links, 0 when none of them leads into `v`.
pub open spec fn right_of_sources(
    cols: Seq<usize>,
    links: Seq<SankeyLink>,
    m: nat,
    v: int,
) -> usize
    decreases m,
{
    if m == 0 {
        0
    } else {
        let rest = right_of_sources(cols, links, (m - 1) as nat, v);
        let l = links[m - 1];
        if l.to == v && next_col(cols[l.from as int]) > rest {
            next_col(cols[l.from as int])
        } else {
            rest
        }
    }
}

/// The layering rule: a pinned node sits at its pin; an unpinned node
/// that settles sits one column right of its rightmost source (column
/// 0 without sources); an unpinned node on or behind a cycle sits at 0.
pub open spec fn layering_holds(
    pins: Seq<Option<usize>>,
    links: Seq<SankeyLink>,
    cols: Seq<usize>,
) -> bool {
    &&& cols.len() == pins.len()
    &&& forall|v: int|
        0 <= v < pins.len() ==> match #[trigger] pins[v] {
            Some(p) => cols[v] == p,
            None => if settles(pins, links, v) {
                cols[v] == right_of_sources(cols, links, links.len(), v)
            } else {
                cols[v] == 0
            },
        }
}

proof fn lemma_settled_mono(pins: Seq<Option<usize>>, links: Seq<SankeyLink>, k: nat, v: int)
    requires
        settled_within(pins, links, k, v),
    ensures
        settled_within(pins, links, k + 1, v),
    decreases k,
{
    if pins[v] is None {
        assert forall|j: int|
            0 <= j < links.len() && (#[trigger] links[j]).to == v implies settled_within(
                pins,
                links,
                k,
                links[j].from as int,
            ) by {
            lemma_settled_mono(pins, links, (k - 1) as nat, links[j].from as int);
        }
    }
}

proof fn lemma_settled_mono_to(
    pins: Seq<Option<usize>>,
    links: Seq<SankeyLink>,
    k1: nat,
    k2: nat,
    v: int,
)
    requires
        k1 <= k2,
        settled_within(pins, links, k1, v),
    ensures
        settled_within(pins, links, k2, v),
    decreases k2 - k1,
{
    if k1 < k2 {
        lemma_settled_mono(pins, links, k1, v);
        lemma_settled_mono_to(pins, links, k1 + 1, k2, v);
    }
}

/// `right_of_sources` only reads the columns of the sources of `v`.
proof fn lemma_sources_frame(
    c1: Seq<usize>,
    c2: Seq<usize>,
    links: Seq<SankeyLink>,
    m: nat,
    v: int,
)
    requires
        m <= links.len(),
        forall|j: int|
            0 <= j < m && (#[trigger] links[j]).to == v ==> c1[links[j].from as int]
                == c2[links[j].from as int],
    ensures
        right_of_sources(c1, links, m, v) == right_of_sources(c2, links, m, v),
    decreases m,
{
    if m > 0 {
        lemma_sources_frame(c1, c2, links, (m - 1) as nat, v);
        let l = links[m - 1];
        if l.to == v {
            assert(c1[l.from as int] == c2[l.from as int]);
        }
    }
}

/// The layering depends on the pins and links alone: two column
/// assignments that both follow the layering rule are equal. In
/// particular laying out a diagram a second time changes nothing.
pub proof fn lemma_layering_unique(
    pins: Seq<Option<usize>>,
    links: Seq<SankeyLink>,
    c1: Seq<usize>,
    c2: Seq<usize>,
)
    requires
        forall|j: int|
            0 <= j < links.len() ==> (#[trigger] links[j]).from < pins.len() && links[j].to
                < pins.len(),
        layering_holds(pins, links, c1),
        layering_holds(pins, links, c2),
    ensures
        c1 == c2,
{
    assert forall|v: int| 0 <= v < pins.len() implies c1[v] == c2[v] by {
        let _ = pins[v];
        if pins[v] is None && settles(pins, links, v) {
            lemma_unique_at(pins, links, c1, c2, pins.len(), v);
        }
    }
    assert(c1 =~= c2);
}

proof fn lemma_unique_at(
    pins: Seq<Option<usize>>,
    links: Seq<SankeyLink>,
    c1: Seq<usize>,
    c2: Seq<usize>,
    k: nat,
    v: int,
)
    requires
        forall|j: int|
            0 <= j < links.len() ==> (#[trigger] links[j]).from < pins.len() && links[j].to
                < pins.len(),
        layering_holds(pins, links, c1),
        layering_holds(pins, links, c2),
        0 <= v < pins.len(),
        k <= pins.len(),
        settled_within(pins, links, k, v),
    ensures
        c1[v] == c2[v],
    decreases k,
{
    let _ = pins[v];
    if pins[v] is None {
        lemma_settled_mono_to(pins, links, k, pins.len(), v);
        assert forall|j: int|
            0 <= j < links.len() && (#[trigger] links[j]).to == v implies c1[links[j].from as int]
                == c2[links[j].from as int] by {
            lemma_unique_at(pins, links, c1, c2, (k - 1) as nat, links[j].from as int);
        }
        lemma_sources_frame(c1, c2, links, links.len(), v);
    }
}

/// Unpinned nodes on a cycle never settle, so they stay at column 0.
/// The cycle is given by its nodes `cycle[0], cycle[1], ...` and, for
/// each `i`, the index `hops[i]` of a link from `cycle[i]` to the next
/// node round the cycle.
pub proof fn lemma_cycle_stays_at_zero(
    pins: Seq<Option<usize>>,
    links: Seq<SankeyLink>,
    cycle: Seq<int>,
    hops: Seq<int>,
    k: nat,
    i: int,
)
    requires
        cycle.len() > 0,
        hops.len() == cycle.len(),
        forall|t: int|
            0 <= t < cycle.len() ==> pins[#[trigger] cycle[t]] is None && 0 <= hops[t] < links.len()
                && links[hops[t]].from == cycle[t] && links[hops[t]].to == cycle[(t + 1)
                % (cycle.len() as int)],
        0 <= i < cycle.len(),
    ensures
        !settled_within(pins, links, k, cycle[i]),
    decreases k,
{
    let len = cycle.len() as int;
    let prev = if i == 0 {
        len - 1
    } else {
        i - 1
    };
    if i == 0 {
        assert((prev + 1) % len == i) by (nonlinear_arith)
            requires
                prev + 1 == len,
                len > 0,
                i == 0,
        ;
    } else {
        assert((prev + 1) % len == i) by (nonlinear_arith)
            requires
                prev + 1 == i,
                0 < i < len,
        ;
    }
    let _ = cycle[prev];
    let _ = cycle[i];
    if k > 0 {
        lemma_cycle_stays_at_zero(pins, links, cycle, hops, (k - 1) as nat, prev);
        let j = hops[prev];
        assert(links[j].to == cycle[i]);
    }
}

impl<W: Copy> Sankey<W> {
    /// An empty diagram labelled "Sankey".
    pub fn new() -> (s: Sankey<W>)
        ensures
            s@ == (SankeyView {
                label: "Sankey"@,
                nodes: Seq::empty(),
                links: Seq::empty(),
                weights: Seq::<W>::empty(),
                hovered: None,
                pending: None,
            }),
            s@.wf(),
    {
        let s = Sankey {
            label: owned("Sankey"),
            nodes: Vec::new(),
            links: Vec::new(),
            weights: Vec::new(),
            hovered: None,
            pending: None,
        };
        assert(s@.nodes =~= Seq::empty());
        s
    }

    /// Adds a node that layering places.
    pub fn node(self, name: &str) -> (s: Sankey<W>)
        requires
            self@.wf(),
        ensures
            s@ == (SankeyView {
                nodes: self@.nodes.push(SankeyNodeView { name: name@, column: None, col: 0 }),
                ..self@
            }),
            s@.wf(),
    {
        self.node_at(name, None)
    }

    /// Adds a node pinned to `column` (or placed by layering when `None`).
    pub fn node_at(self, name: &str, column: Option<usize>) -> (s: Sankey<W>)
        requires
            self@.wf(),
        ensures
            s@ == (SankeyView {
                nodes: self@.nodes.push(SankeyNodeView { name: name@, column, col: 0 }),
                ..self@
            }),
            s@.wf(),
    {
        let mut s = self;
        s.nodes.push(Node { name: owned(name), column, col: 0 });
        proof {
            assert(s@.nodes =~= self@.nodes.push(SankeyNodeView { name: name@, column, col: 0 }));
        }
        s
    }

    /// The index of the first node named `name`.
    fn find(&self, name: &str) -> (r: Option<usize>)
        ensures
            r matches Some(i) ==> find_node(self@.nodes, name@) == Some(i as int),
            r is None ==> find_node(self@.nodes, name@) is None,
    {
        let mut i: usize = 0;
        while i < self.nodes.len()
            invariant
                i <= self.nodes@.len(),
                self@.nodes.len() == self.nodes@.len(),
                forall|j: int| 0 <= j < i ==> (#[trigger] self@.nodes[j]).name != name@,
            decreases self.nodes@.len() - i,
        {
            if same_text(self.nodes[i].name.as_str(), name) {
                proof {
                    assert(first_named(self@.nodes, name@, i as int));
                    let c = choose|k: int| first_named(self@.nodes, name@, k);
                    if c < i {
                        assert(self@.nodes[c].name != name@);
                    }
                    if i < c {
                        assert(self@.nodes[i as int].name != name@);
                    }
                }
                return Some(i);
            }
            i = i + 1;
        }
        proof {
            if exists|k: int| first_named(self@.nodes, name@, k) {
                let c = choose|k: int| first_named(self@.nodes, name@, k);
                assert(self@.nodes[c].name != name@);
            }
        }
        None
    }

    /// Adds a link weighing `value` from the node named `from` to the
    /// node named `to`; `positive` says whether the weight is above
    /// zero. Unknown names, a link from a node to itself and a weight
    /// that is not positive leave the diagram unchanged.
    pub fn link(self, from: &str, to: &str, value: W, positive: bool) -> (s: Sankey<W>)
        requires
            self@.wf(),
        ensures
            link_made(self@.nodes, from@, to@, positive) matches Some(l) ==> s@ == (SankeyView {
                links: self@.links.push(l),
                weights: self@.weights.push(value),
                ..self@
            }),
            link_made(self@.nodes, from@, to@, positive) is None ==> s@ == self@,
            s@.wf(),
    {
        let f = self.find(from);
        let t = self.find(to);
        match (f, t) {
            (Some(f), Some(t)) => {
                if f == t || !positive {
                    return self;
                }
                let mut s = self;
                s.links.push(SankeyLink { from: f, to: t });
                s.weights.push(value);
                s
            },
            _ => self,
        }
    }

    /// Sets the accessibility label.
    pub fn label(self, label: &str) -> (s: Sankey<W>)
        ensures
            s@ == (SankeyView { label: label@, ..self@ }),
    {
        let mut s = self;
        s.label = owned(label);
        s
    }

    /// Number of nodes.
    pub fn node_count(&self) -> (r: usize)
        ensures
            r == self@.nodes.len(),
    {
        self.nodes.len()
    }

    /// Number of links.
    pub fn link_count(&self) -> (r: usize)
        ensures
            r == self@.links.len(),
    {
        self.links.len()
    }

    /// The link at `index` and its weight.
    pub fn link_at(&self, index: usize) -> (r: Option<(SankeyLink, W)>)
        requires
            self@.wf(),
        ensures
            index < self@.links.len() ==> r == Some(
                (self@.links[index as int], self@.weights[index as int]),
            ),
            index >= self@.links.len() ==> r is None,
    {
        if index < self.links.len() {
            Some((self.links[index], self.weights[index]))
        } else {
            None
        }
    }

    /// The name of node `index`; empty past the last node.
    pub fn node_name(&self, index: usize) -> (r: &str)
        ensures
            index < self@.nodes.len() ==> r@ == self@.nodes[index as int].name,
            index >= self@.nodes.len() ==> r@ == ""@,
    {
        if index < self.nodes.len() {
            self.nodes[index].name.as_str()
        } else {
            ""
        }
    }

    /// The column of node `index`: its pin, else the column the last
    /// layering found (0 before any); 0 past the last node.
    pub fn column_of(&self, index: usize) -> (r: usize)
        ensures
            index < self@.nodes.len() ==> r == column_of_node(self@.nodes[index as int]),
            index >= self@.nodes.len() ==> r == 0,
    {
        if index < self.nodes.len() {
            match self.nodes[index].column {
                Some(c) => c,
                None => self.nodes[index].col,
            }
        } else {
            0
        }
    }

    /// Places every node in a column: a pinned node at its pin, an
    /// unpinned node one column right of its rightmost source (column 0
    /// without sources), and an unpinned node on or behind a cycle at 0.
    /// The result depends on the pins and links alone, so laying out
    /// again changes nothing.
    pub fn layer_columns(&mut self)
        requires
            old(self)@.wf(),
        ensures
            final(self)@.label == old(self)@.label,
            final(self)@.links == old(self)@.links,
            final(self)@.weights == old(self)@.weights,
            final(self)@.hovered == old(self)@.hovered,
            final(self)@.pending == old(self)@.pending,
            final(self)@.nodes.len() == old(self)@.nodes.len(),
            forall|i: int|
                0 <= i < old(self)@.nodes.len() ==> (#[trigger] final(self)@.nodes[i]).name == old(
                    self,
                )@.nodes[i].name && final(self)@.nodes[i].column == old(self)@.nodes[i].column,
            layering_holds(pins_of(old(self)@.nodes), old(self)@.links, cols_of(final(self)@.nodes)),
            final(self)@.wf(),
    {
        let ghost v0 = self@;
        let ghost nodes0 = self@.nodes;
        let n = self.nodes.len();
        let mut pins: Vec<Option<usize>> = Vec::new();
        let mut cols: Vec<usize> = Vec::new();
        let mut done: Vec<bool> = Vec::new();
        let mut i: usize = 0;
        while i < n
            invariant
                n == self.nodes@.len(),
                nodes0 == self@.nodes,
                i <= n,
                pins@ =~= pins_of(nodes0).take(i as int),
                cols@.len() == i,
                done@.len() == i,
                forall|v: int|
                    0 <= v < i ==> (#[trigger] done@[v]) == (pins@[v] is Some) && cols@[v] == match pins@[v] {
                        Some(p) => p,
                        None => 0usize,
                    },
            decreases n - i,
        {
            let p = self.nodes[i].column;
            pins.push(p);
            match p {
                Some(c) => {
                    cols.push(c);
                    done.push(true);
                },
                None => {
                    cols.push(0);
                    done.push(false);
                },
            }
            i = i + 1;
        }
        assert(pins@ =~= pins_of(nodes0));
        let ghost links = self@.links;
        assert forall|v: int| 0 <= v < n implies (#[trigger] done@[v]) == settled_within(
            pins@,
            links,
            0,
            v,
        ) by {}
        assert forall|v: int|
            0 <= v < n implies match #[trigger] pins@[v] {
                Some(p) => cols@[v] == p,
                None => if done@[v] {
                    cols@[v] == right_of_sources(cols@, links, links.len(), v)
                } else {
                    cols@[v] == 0
                },
            } by {
            assert(done@[v] == (pins@[v] is Some));
        }
        // Round k settles the nodes whose sources all settled by round k - 1.
        let mut k: usize = 0;
        while k < n
            invariant
                n == self.nodes@.len(),
                nodes0 == self@.nodes,
                links == self@.links,
                self@.wf(),
                k <= n,
                pins@ == pins_of(nodes0),
                pins@.len() == n,
                cols@.len() == n,
                done@.len() == n,
                forall|v: int|
                    0 <= v < n ==> (#[trigger] done@[v]) == settled_within(pins@, links, k as nat, v),
                forall|v: int|
                    0 <= v < n ==> match #[trigger] pins@[v] {
                        Some(p) => cols@[v] == p,
                        None => if done@[v] {
                            cols@[v] == right_of_sources(cols@, links, links.len(), v)
                        } else {
                            cols@[v] == 0
                        },
                    },
            decreases n - k,
        {
            let mut next_done: Vec<bool> = Vec::new();
            let mut next_cols: Vec<usize> = Vec::new();
            let mut v: usize = 0;
            while v < n
                invariant
                    n == self.nodes@.len(),
                    links == self@.links,
                    self@.wf(),
                    k < n,
                    pins@.len() == n,
                    cols@.len() == n,
                    done@.len() == n,
                    v <= n,
                    next_done@.len() == v,
                    next_cols@.len() == v,
                    forall|u: int|
                        0 <= u < n ==> (#[trigger] done@[u]) == settled_within(pins@, links, k as nat, u),
                    forall|u: int|
                        0 <= u < v ==> (#[trigger] next_done@[u]) == settled_within(
                            pins@,
                            links,
                            (k + 1) as nat,
                            u,
                        ),
                    forall|u: int|
                        0 <= u < v ==> (#[trigger] next_cols@[u]) == if done@[u] || pins@[u] is Some
                            || !next_done@[u] {
                            cols@[u]
                        } else {
                            right_of_sources(cols@, links, links.len(), u)
                        },
                decreases n - v,
            {
                if done[v] {
                    proof {
                        lemma_settled_mono(pins@, links, k as nat, v as int);
                    }
                    next_done.push(true);
                    next_cols.push(cols[v]);
                } else {
                    // All sources settled last round?
                    let mut ok = true;
                    let mut c: usize = 0;
                    let mut j: usize = 0;
                    while j < self.links.len()
                        invariant
                            links == self@.links,
                            self@.wf(),
                            n == self.nodes@.len(),
                            done@.len() == n,
                            cols@.len() == n,
                            v < n,
                            j <= links.len(),
                            c == right_of_sources(cols@, links, j as nat, v as int),
                            ok == forall|t: int|
                                0 <= t < j && (#[trigger] links[t]).to == v ==> done@[links[t].from as int],
                        decreases links.len() - j,
                    {
                        let l = self.links[j];
                        proof {
                            assert(links[j as int] == l);
                        }
                        if l.to == v {
                            if !done[l.from] {
                                ok = false;
                            }
                            let nc = if cols[l.from] < usize::MAX {
                                cols[l.from] + 1
                            } else {
                                cols[l.from]
                            };
                            if nc > c {
                                c = nc;
                            }
                        }
                        proof {
                            if !(forall|t: int|
                                0 <= t < j + 1 && (#[trigger] links[t]).to == v ==> done@[links[t].from as int]) {
                                let t = choose|t: int|
                                    !(0 <= t < j + 1 && (#[trigger] links[t]).to == v ==> done@[links[t].from as int]);
                                if t < j {
                                    assert(!ok);
                                }
                            }
                        }
                        j = j + 1;
                    }
                    proof {
                        if pins@[v as int] is None {
                            if ok {
                                assert forall|t: int|
                                    0 <= t < links.len() && (#[trigger] links[t]).to == v implies settled_within(
                                        pins@,
                                        links,
                                        k as nat,
                                        links[t].from as int,
                                    ) by {
                                    assert(done@[links[t].from as int]);
                                }
                            } else {
                                let t = choose|t: int|
                                    !(0 <= t < links.len() && (#[trigger] links[t]).to == v ==> done@[links[t].from as int]);
                                assert(!settled_within(pins@, links, k as nat, links[t].from as int));
                            }
                        }
                    }
                    next_done.push(ok);
                    if ok {
                        next_cols.push(c);
                    } else {
                        next_cols.push(cols[v]);
                    }
                }
                v = v + 1;
            }
            proof {
                // Columns change only at newly settled nodes, whose sources
                // all settled earlier and kept their columns.
                let oc = cols@;
                let nc = next_cols@;
                assert forall|u: int|
                    0 <= u < n implies match #[trigger] pins@[u] {
                        Some(p) => nc[u] == p,
                        None => if next_done@[u] {
                            nc[u] == right_of_sources(nc, links, links.len(), u)
                        } else {
                            nc[u] == 0
                        },
                    } by {
                    assert(done@[u] == settled_within(pins@, links, k as nat, u));
                    assert(next_done@[u] == settled_within(pins@, links, (k + 1) as nat, u));
                    assert(next_cols@[u] == if done@[u] || pins@[u] is Some || !next_done@[u] {
                        cols@[u]
                    } else {
                        right_of_sources(cols@, links, links.len(), u)
                    });
                    if pins@[u] is None {
                        if done@[u] {
                            lemma_settled_mono(pins@, links, k as nat, u);
                        }
                        if next_done@[u] {
                            assert forall|j: int|
                                0 <= j < links.len() && (#[trigger] links[j]).to == u implies oc[links[j].from as int]
                                    == nc[links[j].from as int] by {
                                let w = links[j].from as int;
                                assert(w < n);
                                assert(settled_within(pins@, links, k as nat, w));
                                assert(done@[w]);
                                assert(next_cols@[w] == if done@[w] || pins@[w] is Some
                                    || !next_done@[w] {
                                    cols@[w]
                                } else {
                                    right_of_sources(cols@, links, links.len(), w)
                                });
                            }
                            lemma_sources_frame(oc, nc, links, links.len(), u);
                        }
                    }
                }
            }
            cols = next_cols;
            done = next_done;
            k = k + 1;
        }
        // Write the columns back.
        let ghost target = cols@;
        let mut i: usize = 0;
        while i < n
            invariant
                n == self.nodes@.len(),
                n == nodes0.len(),
                i <= n,
                target == cols@,
                cols@.len() == n,
                forall|u: int|
                    0 <= u < i ==> (#[trigger] self@.nodes[u]) == (SankeyNodeView {
                        col: target[u],
                        ..nodes0[u]
                    }),
                forall|u: int| i <= u < n ==> (#[trigger] self@.nodes[u]) == nodes0[u],
                self@.label == v0.label,
                self@.links == v0.links,
                self@.weights == v0.weights,
                self@.hovered == v0.hovered,
                self@.pending == v0.pending,
                v0.nodes == nodes0,
            decreases n - i,
        {
            let c = cols[i];
            let ghost before = self.nodes@;
            let ghost vb = self@.nodes;
            self.nodes[i].col = c;
            proof {
                assert(self.nodes@ == before.update(i as int, self.nodes@[i as int]));
                assert(vb[i as int] == nodes0[i as int]);
                assert(self@.nodes[i as int] == self.nodes@[i as int]@);
                assert forall|u: int| 0 <= u < n && u != i implies self@.nodes[u] == vb[u] by {
                    assert(self@.nodes[u] == self.nodes@[u]@);
                    assert(vb[u] == before[u]@);
                }
                assert forall|u: int| 0 <= u < i + 1 implies self@.nodes[u] == (SankeyNodeView {
                    col: target[u],
                    ..nodes0[u]
                }) by {
                    if u < i {
                        assert(vb[u] == (SankeyNodeView { col: target[u], ..nodes0[u] }));
                    }
                }
                assert forall|u: int| i + 1 <= u < n implies self@.nodes[u] == nodes0[u] by {
                    assert(vb[u] == nodes0[u]);
                }
            }
            i = i + 1;
        }
        assert(cols_of(self@.nodes) =~= target);
    }

    /// Drains the index of the link last hovered.
    pub fn take_hovered(&mut self) -> (r: Option<usize>)
        ensures
            r == old(self)@.pending,
            final(self)@ == (SankeyView { pending: None, ..old(self)@ }),
    {
        let r = self.pending;
        self.pending = None;
        r
    }

    /// The pointer moved; `hit` is the link under it (`None` outside
    /// the diagram or off every ribbon). A change of hovered link is
    /// parked for [`Sankey::take_hovered`] and repaints.
    pub fn pointer_moved(&mut self, hit: Option<usize>) -> (r: EventResponse)
        ensures
            hit != old(self)@.hovered ==> r == EventResponse::RequestRepaint && final(self)@
                == (SankeyView { hovered: hit, pending: hit, ..old(self)@ }),
            hit == old(self)@.hovered ==> r == EventResponse::Ignored && final(self)@ == old(
                self,
            )@,
    {
        if hit != self.hovered {
            self.hovered = hit;
            self.pending = hit;
            EventResponse::RequestRepaint
        } else {
            EventResponse::Ignored
        }
    }

    /// The pointer left: a hovered link is released and repaints.
    pub fn pointer_leave(&mut self) -> (r: EventResponse)
        ensures
            final(self)@ == (SankeyView { hovered: None, ..old(self)@ }),
            r == if old(self)@.hovered is Some {
                EventResponse::RequestRepaint
            } else {
                EventResponse::Ignored
            },
    {
        if self.hovered.is_some() {
            self.hovered = None;
            EventResponse::RequestRepaint
        } else {
            EventResponse::Ignored
        }
    }

    /// The accessibility node: an image labelled
    /// "label — N nodes, M links".
    pub fn accessibility(&self) -> (n: AccessNode)
        ensures
            n == (AccessNode { label: n.label, ..AccessNode::blank(Role::Image) }),
            n.label is Some,
            n.label.unwrap()@ == self@.label + " — "@ + decimal(self@.nodes.len()) + " nodes, "@
                + decimal(self@.links.len()) + " links"@,
    {
        let mut label = self.label.clone();
        push_str(&mut label, " — ");
        push_decimal(&mut label, self.nodes.len() as u128);
        push_str(&mut label, " nodes, ");
        push_decimal(&mut label, self.links.len() as u128);
        push_str(&mut label, " links");
        let mut node = AccessNode::new(Role::Image);
        node.label = Some(label);
        node
    }
}

impl<W: Copy> Default for Sankey<W> {
    fn default() -> (s: Sankey<W>)
        ensures
            s@ == (SankeyView {
                label: "Sankey"@,
                nodes: Seq::empty(),
                links: Seq::empty(),
                weights: Seq::<W>::empty(),
                hovered: None,
                pending: None,
            }),
    {
        Sankey::new()
    }
}

} // verus!
