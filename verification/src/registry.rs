use crate::graph::{random_id, ComputationGraph};
use crate::node::NodeView;
use crate::scalar::ComputationGraphMode;
use vstd::prelude::*;

verus! {

/// The kind of graph that a registry key names.
#[derive(Clone, Copy, Debug, PartialEq, Eq, Hash, Structural)]
pub enum ComputationGraphType {
    /// A graph that records for differentiation.
    Standard,
    /// A graph that records to be replayed.
    Lock,
}

impl ComputationGraphType {
    pub open spec fn spec_mode(self) -> ComputationGraphMode {
        match self {
            ComputationGraphType::Standard => ComputationGraphMode::Standard,
            ComputationGraphType::Lock => ComputationGraphMode::Lock,
        }
    }

    /// The mode of the graphs of this kind.
    pub fn mode(self) -> (r: ComputationGraphMode)
        ensures
            r == self.spec_mode(),
    {
        match self {
            ComputationGraphType::Standard => ComputationGraphMode::Standard,
            ComputationGraphType::Lock => ComputationGraphMode::Lock,
        }
    }
}

/// Whether the value `c` occurs in `ids`.
pub open spec fn occurs(ids: Seq<usize>, c: int) -> bool {
    exists|k: int| 0 <= k < ids.len() && #[trigger] ids[k] == c
}

/// The least value that does not occur in `ids`.
pub open spec fn least_absent(ids: Seq<usize>) -> int {
    choose|c: int| 0 <= c && !occurs(ids, c) && forall|d: int| 0 <= d < c ==> #[trigger] occurs(ids, d)
}

/// Among the values from `0` to the length of `ids`, one does not occur in
/// `ids`.
pub proof fn lemma_some_absent(ids: Seq<usize>)
    ensures
        exists|c: int| 0 <= c <= ids.len() && !#[trigger] occurs(ids, c),
    decreases ids.len(),
{
    let n = ids.len() as int;
    if n == 0 {
        assert(!occurs(ids, 0));
    } else if occurs(ids, n) {
        let k = choose|k: int| 0 <= k < ids.len() && #[trigger] ids[k] == n;
        let rest = ids.remove(k);
        lemma_some_absent(rest);
        let c = choose|c: int| 0 <= c <= rest.len() && !#[trigger] occurs(rest, c);
        if occurs(ids, c) {
            let j = choose|j: int| 0 <= j < ids.len() && #[trigger] ids[j] == c;
            if j < k {
                assert(rest[j] == ids[j]);
            } else if j > k {
                assert(rest[j - 1] == ids[j]);
            }
        }
        assert(!occurs(ids, c));
    } else {
        assert(!occurs(ids, n));
    }
}

/// Below an absent value there is a least one.
proof fn lemma_least_below(ids: Seq<usize>, bound: int)
    requires
        0 <= bound,
        !occurs(ids, bound),
    ensures
        0 <= least_absent(ids) <= bound,
        !occurs(ids, least_absent(ids)),
        forall|d: int| 0 <= d < least_absent(ids) ==> #[trigger] occurs(ids, d),
    decreases bound,
{
    if forall|d: int| 0 <= d < bound ==> #[trigger] occurs(ids, d) {
        let c = least_absent(ids);
        assert(0 <= c && !occurs(ids, c) && forall|d: int| 0 <= d < c ==> #[trigger] occurs(ids, d));
        if c > bound {
            assert(occurs(ids, bound));
        }
    } else {
        let d = choose|d: int| 0 <= d < bound && !#[trigger] occurs(ids, d);
        lemma_least_below(ids, d);
    }
}

/// The least absent value is absent, lies within the length of `ids`, and
/// every smaller value occurs.
pub proof fn lemma_least_absent(ids: Seq<usize>)
    ensures
        0 <= least_absent(ids) <= ids.len(),
        !occurs(ids, least_absent(ids)),
        forall|d: int| 0 <= d < least_absent(ids) ==> #[trigger] occurs(ids, d),
{
    lemma_some_absent(ids);
    let bound = choose|c: int| 0 <= c <= ids.len() && !#[trigger] occurs(ids, c);
    lemma_least_below(ids, bound);
}

/// The graphs of a program, each under a name and a slot number. A graph is
/// made when its key is first asked for.
pub struct GlobalComputationGraphs {
    slots: Vec<usize>,
    graphs: Vec<ComputationGraph>,
}

impl GlobalComputationGraphs {
    /// The keys in the order in which their graphs were made.
    pub closed spec fn keys(&self) -> Seq<(Seq<char>, usize)> {
        Seq::new(self.graphs@.len(), |i: int| (self.graphs@[i].spec_name(), self.slots@[i]))
    }

    /// The graph at position `i`.
    pub closed spec fn spec_graph(&self, i: int) -> ComputationGraph {
        self.graphs@[i]
    }

    /// Every graph is well formed and no key occurs twice.
    pub closed spec fn wf(&self) -> bool {
        &&& self.slots@.len() == self.graphs@.len()
        &&& forall|i: int| 0 <= i < self.graphs@.len() ==> (#[trigger] self.graphs@[i]).wf()
        &&& forall|i: int, j: int|
            0 <= i < j < self.graphs@.len() ==> (self.graphs@[i].spec_name(), self.slots@[i]) != (
                self.graphs@[j].spec_name(),
                self.slots@[j],
            )
    }

    /// The key that a name and a slot number stand for: no name is the empty
    /// name, no slot number is slot `0`.
    pub open spec fn spec_key(name: Option<&str>, idx: Option<usize>) -> (Seq<char>, usize) {
        (
            match name {
                Some(n) => n@,
                None => Seq::<char>::empty(),
            },
            match idx {
                Some(i) => i,
                None => 0,
            },
        )
    }

    /// The identities of the graphs, in the order of `keys`.
    pub open spec fn ids(&self) -> Seq<usize> {
        Seq::new(self.keys().len(), |i: int| self.spec_graph(i).spec_id())
    }

    pub fn new() -> (r: Self)
        ensures
            r.wf(),
            r.keys() == Seq::<(Seq<char>, usize)>::empty(),
    {
        let r = GlobalComputationGraphs { slots: Vec::new(), graphs: Vec::new() };
        assert(r.keys() =~= Seq::<(Seq<char>, usize)>::empty());
        r
    }

    /// The position of the graph under a key, if one was made.
    pub fn find(&self, name: Option<&str>, idx: Option<usize>) -> (r: Option<usize>)
        requires
            self.wf(),
        ensures
            match r {
                Some(i) => i < self.keys().len() && self.keys()[i as int] == Self::spec_key(
                    name,
                    idx,
                ),
                None => !self.keys().contains(Self::spec_key(name, idx)),
            },
    {
        let slot = match idx {
            Some(i) => i,
            None => 0,
        };
        let wanted = match name {
            Some(n) => n.to_owned(),
            None => String::new(),
        };
        let mut i: usize = 0;
        while i < self.graphs.len()
            invariant
                self.wf(),
                i <= self.graphs@.len(),
                (wanted@, slot) == Self::spec_key(name, idx),
                forall|j: int| 0 <= j < i ==> self.keys()[j] != Self::spec_key(name, idx),
            decreases self.graphs@.len() - i,
        {
            if self.slots[i] == slot && self.graphs[i].name_is(&wanted) {
                return Some(i);
            }
            i += 1;
        }
        None
    }

    /// Whether a graph carries the identity `id`.
    pub fn has_id(&self, id: usize) -> (r: bool)
        requires
            self.wf(),
        ensures
            r == occurs(self.ids(), id as int),
    {
        let mut i: usize = 0;
        while i < self.graphs.len()
            invariant
                i <= self.graphs@.len(),
                self.ids().len() == self.graphs@.len(),
                forall|j: int| 0 <= j < i ==> #[trigger] self.ids()[j] != id,
            decreases self.graphs@.len() - i,
        {
            if self.graphs[i].id() == id {
                assert(self.ids()[i as int] == id);
                return true;
            }
            i += 1;
        }
        false
    }

    /// An identity that no graph carries: `drawn`, or the least such value
    /// where a graph carries `drawn`.
    pub fn unused_id(&self, drawn: usize) -> (r: usize)
        requires
            self.wf(),
        ensures
            !occurs(self.ids(), r as int),
            r == if occurs(self.ids(), drawn as int) {
                least_absent(self.ids())
            } else {
                drawn as int
            },
    {
        if !self.has_id(drawn) {
            return drawn;
        }
        proof {
            lemma_least_absent(self.ids());
        }
        let mut candidate: usize = 0;
        while self.has_id(candidate)
            invariant
                self.wf(),
                candidate <= least_absent(self.ids()) <= self.ids().len(),
                self.ids().len() == self.graphs@.len(),
                !occurs(self.ids(), least_absent(self.ids())),
                forall|d: int|
                    0 <= d < least_absent(self.ids()) ==> #[trigger] occurs(self.ids(), d),
            decreases least_absent(self.ids()) - candidate,
        {
            let bound = self.graphs.len();
            candidate += 1;
        }
        proof {
            if candidate < least_absent(self.ids()) {
                assert(occurs(self.ids(), candidate as int));
            }
        }
        candidate
    }

    /// The position of the graph under a key. The first call for a key makes
    /// an empty graph of mode `Standard`, with a random identity or, where a
    /// graph of the registry carries the one drawn, with the least identity
    /// that none carries; later calls find it again.
    pub fn get(&mut self, name: Option<&str>, idx: Option<usize>) -> (r: usize)
        requires
            old(self).wf(),
        ensures
            final(self).wf(),
            r < final(self).keys().len(),
            final(self).keys()[r as int] == Self::spec_key(name, idx),
            old(self).keys().contains(Self::spec_key(name, idx)) ==> *final(self) == *old(self),
            !old(self).keys().contains(Self::spec_key(name, idx)) ==> {
                &&& final(self).keys() == old(self).keys().push(Self::spec_key(name, idx))
                &&& r == old(self).keys().len()
                &&& final(self).spec_graph(r as int)@ == Seq::<NodeView>::empty()
                &&& final(self).spec_graph(r as int).spec_mode() == ComputationGraphMode::Standard
                &&& !occurs(old(self).ids(), final(self).spec_graph(r as int).spec_id() as int)
                &&& final(self).ids() == old(self).ids().push(
                    final(self).spec_graph(r as int).spec_id(),
                )
                &&& forall|i: int|
                    0 <= i < old(self).keys().len() ==> final(self).spec_graph(i) == old(
                        self,
                    ).spec_graph(i)
            },
    {
        match self.find(name, idx) {
            Some(i) => i,
            None => {
                let slot = match idx {
                    Some(i) => i,
                    None => 0,
                };
                let id = self.unused_id(random_id());
                let graph = ComputationGraph::with_id(
                    id,
                    ComputationGraphType::Standard.mode(),
                    name,
                );
                self.slots.push(slot);
                self.graphs.push(graph);
                assert(self.ids() =~= old(self).ids().push(id));
                assert(self.keys() =~= old(self).keys().push(Self::spec_key(name, idx)));
                assert forall|i: int, j: int| 0 <= i < j < self.graphs@.len() implies (
                    self.graphs@[i].spec_name(),
                    self.slots@[i],
                ) != (self.graphs@[j].spec_name(), self.slots@[j]) by {
                    if j == self.graphs@.len() - 1 {
                        assert(old(self).keys()[i] == (self.graphs@[i].spec_name(), self.slots@[i]));
                    }
                }
                self.graphs.len() - 1
            },
        }
    }

    /// The graph at position `i`.
    pub fn graph(&self, i: usize) -> (r: &ComputationGraph)
        requires
            self.wf(),
            i < self.keys().len(),
        ensures
            *r == self.spec_graph(i as int),
            r.wf(),
    {
        &self.graphs[i]
    }
}

impl GlobalComputationGraphs {
    /// Write access to the graph at position `i`. The registry stays well
    /// formed as long as the graph does and keeps its name, which every
    /// operation of a graph sees to.
    pub fn graph_mut(&mut self, i: usize) -> (r: &mut ComputationGraph)
        requires
            old(self).wf(),
            i < old(self).keys().len(),
        ensures
            *r == old(self).spec_graph(i as int),
            r.wf(),
            final(self).spec_graph(i as int) == *final(r),
            forall|j: int|
                0 <= j < old(self).keys().len() && j != i ==> final(self).spec_graph(j) == old(
                    self,
                ).spec_graph(j),
            final(r).spec_name() == r.spec_name() ==> final(self).keys() == old(self).keys(),
            final(r).wf() && final(r).spec_name() == r.spec_name() ==> final(self).wf(),
    {
        let r = &mut self.graphs[i];
        r
    }
}

} // verus!
