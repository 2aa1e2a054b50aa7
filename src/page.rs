use vstd::prelude::*;

verus! {

/// One node of a parsed markup document, as the extraction logic reads it.
///
/// Text and comment nodes carry no `name`; element nodes carry their tag name,
/// the whitespace-separated tokens of their `class` attribute, and their `href`
/// attribute if present. `text` is the concatenated text of the node and all of
/// its descendants. `parent` is the index of the enclosing node, if any.
pub struct Node {
    pub name: Option<String>,
    pub classes: Vec<String>,
    pub href: Option<String>,
    pub text: String,
    pub parent: Option<usize>,
}

/// A parsed markup document: its nodes in document (pre-order) order.
pub struct Page {
    pub nodes: Vec<Node>,
}

/// A structural predicate on a single node.
pub enum Pred {
    /// An element whose tag name is the given text.
    Name(String),
    /// An element whose class list holds the given class.
    Class(String),
}

/// A structural query: a predicate, or a predicate on nodes that lie inside a
/// node satisfying another predicate.
pub enum Query {
    Is(Pred),
    /// `Within(outer, inner)`: nodes satisfying `inner` with a proper ancestor
    /// satisfying `outer`.
    Within(Pred, Pred),
}

/// What a predicate means: the text it compares against.
pub enum PredView {
    Name(Seq<char>),
    Class(Seq<char>),
}

pub enum QueryView {
    Is(PredView),
    Within(PredView, PredView),
}

impl View for Pred {
    type V = PredView;

    open spec fn view(&self) -> PredView {
        match self {
            Pred::Name(t) => PredView::Name(t@),
            Pred::Class(c) => PredView::Class(c@),
        }
    }
}

impl View for Query {
    type V = QueryView;

    open spec fn view(&self) -> QueryView {
        match self {
            Query::Is(p) => QueryView::Is(p@),
            Query::Within(o, i) => QueryView::Within(o@, i@),
        }
    }
}

impl Page {
    pub open spec fn len(&self) -> int {
        self.nodes@.len() as int
    }
}

pub open spec fn has_class(n: Node, c: Seq<char>) -> bool {
    exists|j: int| 0 <= j < n.classes@.len() && #[trigger] n.classes@[j]@ == c
}

pub open spec fn pred_holds(n: Node, p: PredView) -> bool {
    match p {
        PredView::Name(t) => match n.name {
            Some(x) => x@ == t,
            None => false,
        },
        PredView::Class(c) => has_class(n, c),
    }
}

/// Some proper ancestor of node `i` satisfies `p`.
pub open spec fn has_ancestor(page: Page, p: PredView, i: int) -> bool
    decreases i,
{
    if 0 <= i < page.len() {
        match page.nodes@[i].parent {
            Some(q) => if q < i {
                pred_holds(page.nodes@[q as int], p) || has_ancestor(page, p, q as int)
            } else {
                false
            },
            None => false,
        }
    } else {
        false
    }
}

pub open spec fn query_holds(page: Page, q: QueryView, i: int) -> bool {
    match q {
        QueryView::Is(p) => pred_holds(page.nodes@[i], p),
        QueryView::Within(outer, inner) => pred_holds(page.nodes@[i], inner) && has_ancestor(
            page,
            outer,
            i,
        ),
    }
}

/// The indices below `n` of nodes that satisfy `q`, in increasing order.
pub open spec fn found_upto(page: Page, q: QueryView, n: int) -> Seq<usize>
    decreases n,
{
    if n <= 0 {
        seq![]
    } else {
        found_upto(page, q, n - 1) + if query_holds(page, q, n - 1) {
            seq![(n - 1) as usize]
        } else {
            seq![]
        }
    }
}

/// The indices of all nodes that satisfy `q`, in document order.
pub open spec fn found(page: Page, q: QueryView) -> Seq<usize> {
    found_upto(page, q, page.len())
}

/// A query yields exactly the nodes that satisfy it, each once, in document
/// order.
pub proof fn lemma_found_exact(page: Page, q: QueryView, n: int)
    requires
        0 <= n <= page.len() <= usize::MAX,
    ensures
        forall|k: int|
            0 <= k < found_upto(page, q, n).len() ==> #[trigger] found_upto(page, q, n)[k] < n
                && query_holds(page, q, found_upto(page, q, n)[k] as int),
        forall|k1: int, k2: int|
            0 <= k1 < k2 < found_upto(page, q, n).len() ==> #[trigger] found_upto(page, q, n)[k1]
                < #[trigger] found_upto(page, q, n)[k2],
        forall|i: int|
            0 <= i < n && #[trigger] query_holds(page, q, i) ==> exists|k: int|
                0 <= k < found_upto(page, q, n).len() && found_upto(page, q, n)[k] == i,
    decreases n,
{
    if n > 0 {
        lemma_found_exact(page, q, n - 1);
        let a = found_upto(page, q, n - 1);
        let b: Seq<usize> = if query_holds(page, q, n - 1) {
            seq![(n - 1) as usize]
        } else {
            seq![]
        };
        let c = a + b;
        assert(found_upto(page, q, n) == c);
        assert forall|k: int| 0 <= k < c.len() implies c[k] < n && query_holds(
            page,
            q,
            c[k] as int,
        ) by {
            if k < a.len() {
                assert(c[k] == a[k]);
            } else {
                assert(c[k] == b[k - a.len()]);
            }
        }
        assert forall|k1: int, k2: int| 0 <= k1 < k2 < c.len() implies c[k1] < c[k2] by {
            if k2 < a.len() {
                assert(c[k1] == a[k1] && c[k2] == a[k2]);
            } else {
                assert(c[k1] == a[k1] && c[k2] == b[k2 - a.len()]);
            }
        }
        assert forall|i: int| 0 <= i < n && #[trigger] query_holds(page, q, i) implies exists|
            k: int,
        | 0 <= k < c.len() && c[k] == i by {
            if i < n - 1 {
                let k = choose|k: int| 0 <= k < a.len() && a[k] == i;
                assert(c[k] == a[k]);
            } else {
                assert(c[a.len() as int] == b[0]);
            }
        }
    }
}

/// The texts of the given nodes, in the given order.
pub open spec fn texts_of(page: Page, ix: Seq<usize>) -> Seq<Seq<char>> {
    ix.map_values(|i: usize| page.nodes@[i as int].text@)
}

pub fn class_listed(n: &Node, c: &String) -> (r: bool)
    ensures
        r == has_class(*n, c@),
{
    let mut j: usize = 0;
    while j < n.classes.len()
        invariant
            j <= n.classes@.len(),
            forall|k: int| 0 <= k < j ==> n.classes@[k]@ != c@,
        decreases n.classes@.len() - j,
    {
        if n.classes[j] == *c {
            return true;
        }
        j = j + 1;
    }
    false
}

pub fn node_is(n: &Node, p: &Pred) -> (r: bool)
    ensures
        r == pred_holds(*n, p@),
{
    match p {
        Pred::Name(t) => match &n.name {
            Some(x) => *x == *t,
            None => false,
        },
        Pred::Class(c) => class_listed(n, c),
    }
}

/// Walks the parent chain of node `i` looking for a node that satisfies `p`.
pub fn ancestor_is(page: &Page, p: &Pred, i: usize) -> (r: bool)
    requires
        i < page.len(),
    ensures
        r == has_ancestor(*page, p@, i as int),
{
    let mut cur: usize = i;
    loop
        invariant
            cur < page.len(),
            has_ancestor(*page, p@, i as int) == has_ancestor(*page, p@, cur as int),
        decreases cur,
    {
        match page.nodes[cur].parent {
            Some(q) => {
                if q >= cur {
                    return false;
                }
                if node_is(&page.nodes[q], p) {
                    return true;
                }
                cur = q;
            },
            None => {
                return false;
            },
        }
    }
}

/// Whether node `i` satisfies the query.
pub fn query_at(page: &Page, q: &Query, i: usize) -> (r: bool)
    requires
        i < page.len(),
    ensures
        r == query_holds(*page, q@, i as int),
{
    match q {
        Query::Is(p) => node_is(&page.nodes[i], p),
        Query::Within(outer, inner) => node_is(&page.nodes[i], inner) && ancestor_is(
            page,
            outer,
            i,
        ),
    }
}

/// All nodes that satisfy the query, in document order. Each call walks the
/// document afresh and leaves it unchanged.
pub fn find(page: &Page, q: &Query) -> (r: Vec<usize>)
    ensures
        r@ == found(*page, q@),
{
    let mut r: Vec<usize> = Vec::new();
    let mut i: usize = 0;
    while i < page.nodes.len()
        invariant
            i <= page.len(),
            r@ == found_upto(*page, q@, i as int),
        decreases page.len() - i,
    {
        if query_at(page, q, i) {
            r.push(i);
        }
        i = i + 1;
    }
    r
}

/// The texts of the given nodes, in the given order.
pub fn texts(page: &Page, ix: &Vec<usize>) -> (r: Vec<String>)
    requires
        forall|k: int| 0 <= k < ix@.len() ==> ix@[k] < page.len(),
    ensures
        r@.len() == ix@.len(),
        forall|k: int| 0 <= k < ix@.len() ==> #[trigger] r@[k]@ == page.nodes@[ix@[k] as int].text@,
{
    let mut r: Vec<String> = Vec::new();
    let mut k: usize = 0;
    while k < ix.len()
        invariant
            k <= ix@.len(),
            forall|m: int| 0 <= m < ix@.len() ==> ix@[m] < page.len(),
            r@.len() == k,
            forall|m: int| 0 <= m < k ==> #[trigger] r@[m]@ == page.nodes@[ix@[m] as int].text@,
        decreases ix@.len() - k,
    {
        r.push(page.nodes[ix[k]].text.clone());
        k = k + 1;
    }
    r
}

} // verus!
