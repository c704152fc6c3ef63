//! The scene graph: a tree of named nodes, each carrying the splat primitives
//! attached to it. Nodes are generic over the splat type.
use vstd::prelude::*;
use crate::text::{decimal_seq, owned, push_decimal, push_str, str_eq, string_from_chars};

verus! {

/// A node of the scene graph: a name, child nodes and attached splats.
#[derive(Debug)]
pub struct Node<S> {
    pub name: String,
    pub children: Vec<Box<Node<S>>>,
    pub splats: Vec<S>,
}

/// A scene graph: a named tree whose root node is called `root`.
#[derive(Debug)]
pub struct SceneGraph<S> {
    pub name: String,
    pub root: Node<S>,
}

impl<S> Node<S> {
    /// The nodes of the subtree rooted here, in pre-order: the node itself,
    /// then the subtrees of its children in order.
    pub open spec fn pre_order(self) -> Seq<Node<S>>
        decreases self,
    {
        seq![self] + forest_pre_order(self.children@)
    }
}

/// The pre-order nodes of a sequence of subtrees, one subtree after another.
pub open spec fn forest_pre_order<S>(cs: Seq<Box<Node<S>>>) -> Seq<Node<S>>
    decreases cs,
{
    if cs.len() == 0 {
        Seq::empty()
    } else {
        forest_pre_order(cs.drop_last()) + (*cs.last()).pre_order()
    }
}

/// The first node of `nodes` whose name is `target`, if any.
pub open spec fn first_named<S>(nodes: Seq<Node<S>>, target: Seq<char>) -> Option<Node<S>>
    decreases nodes.len(),
{
    if nodes.len() == 0 {
        None
    } else if nodes[0].name@ == target {
        Some(nodes[0])
    } else {
        first_named(nodes.drop_first(), target)
    }
}

/// Whether a found reference agrees with the spec's answer.
pub open spec fn found_is<S>(r: Option<&Node<S>>, expected: Option<Node<S>>) -> bool {
    match r {
        Some(n) => expected == Some(*n),
        None => expected is None,
    }
}

/// A lookup by name finds a node of the sequence that has that name, one
/// with no earlier node of that name, and finds nothing exactly when no node
/// has that name.
pub proof fn law_first_named_is_first_match<S>(nodes: Seq<Node<S>>, target: Seq<char>)
    ensures
        first_named(nodes, target) is None <==> (forall|i: int|
            0 <= i < nodes.len() ==> (#[trigger] nodes[i]).name@ != target),
        first_named(nodes, target) is Some ==> exists|i: int|
            0 <= i < nodes.len() && #[trigger] nodes[i] == first_named(nodes, target)->Some_0
                && nodes[i].name@ == target && forall|j: int| 0 <= j < i ==> (#[trigger] nodes[j]).name@
                != target,
    decreases nodes.len(),
{
    if nodes.len() > 0 {
        let rest = nodes.drop_first();
        law_first_named_is_first_match(rest, target);
        if nodes[0].name@ != target {
            assert forall|i: int| 1 <= i < nodes.len() implies nodes[i] == #[trigger] rest[i - 1] by {}
            if first_named(rest, target) is None {
                assert forall|i: int| 0 <= i < nodes.len() implies (#[trigger] nodes[i]).name@ != target by {
                    if i > 0 {
                        assert(nodes[i] == rest[i - 1]);
                    }
                }
            } else {
                let k = choose|k: int|
                    0 <= k < rest.len() && #[trigger] rest[k] == first_named(rest, target)->Some_0
                        && rest[k].name@ == target && forall|j: int| 0 <= j < k ==> (#[trigger] rest[j]).name@
                        != target;
                assert(nodes[k + 1] == rest[k]);
                assert forall|j: int| 0 <= j < k + 1 implies (#[trigger] nodes[j]).name@ != target by {
                    if j > 0 {
                        assert(nodes[j] == rest[j - 1]);
                    }
                }
                assert(nodes[0].name@ != target);
            }
        }
    }
}

/// The first match in `a + b` is the first match in `a`, or else in `b`.
proof fn lemma_first_named_concat<S>(a: Seq<Node<S>>, b: Seq<Node<S>>, t: Seq<char>)
    ensures
        first_named(a + b, t) == (if first_named(a, t) is Some {
            first_named(a, t)
        } else {
            first_named(b, t)
        }),
    decreases a.len(),
{
    if a.len() > 0 {
        assert((a + b).drop_first() =~= a.drop_first() + b);
        assert((a + b)[0] == a[0]);
        lemma_first_named_concat(a.drop_first(), b, t);
    } else {
        assert(a + b =~= b);
    }
}

/// The subtrees of the first `i + 1` children are those of the first `i`,
/// then that of child `i`.
proof fn lemma_forest_step<S>(cs: Seq<Box<Node<S>>>, i: int)
    requires
        0 <= i < cs.len(),
    ensures
        forest_pre_order(cs.subrange(0, i + 1)) == forest_pre_order(cs.subrange(0, i)) + (*cs[i]).pre_order(),
{
    assert(cs.subrange(0, i + 1).drop_last() =~= cs.subrange(0, i));
}

impl<S> Node<S> {
    /// A node named `name` with no children and no splats.
    pub fn new(name: &str) -> (r: Self)
        ensures
            r.name@ == name@,
            r.children@.len() == 0,
            r.splats@.len() == 0,
    {
        Node { name: owned(name), children: Vec::new(), splats: Vec::new() }
    }

    /// Appends `child` as the last child.
    pub fn add_child(&mut self, child: Node<S>)
        ensures
            final(self).name == old(self).name,
            final(self).splats == old(self).splats,
            final(self).children@ == old(self).children@.push(Box::new(child)),
    {
        self.children.push(Box::new(child));
    }

    /// Attaches a splat primitive after those already attached.
    pub fn attach_splat(&mut self, splat: S)
        ensures
            final(self).name == old(self).name,
            final(self).children == old(self).children,
            final(self).splats@ == old(self).splats@.push(splat),
    {
        self.splats.push(splat);
    }

    /// The first node of the subtree, in pre-order, named `target`.
    pub fn find_by_name(&self, target: &str) -> (r: Option<&Node<S>>)
        ensures
            found_is(r, first_named(self.pre_order(), target@)),
        decreases self,
    {
        proof {
            lemma_first_named_concat(seq![*self], forest_pre_order(self.children@), target@);
        }
        if str_eq(self.name.as_str(), target) {
            return Some(self);
        }
        assert(first_named(seq![*self], target@) is None) by {
            reveal_with_fuel(first_named, 2);
            assert(seq![*self].drop_first() =~= Seq::<Node<S>>::empty());
        }
        let mut i: usize = 0;
        while i < self.children.len()
            invariant
                i <= self.children.len(),
                first_named(forest_pre_order(self.children@.subrange(0, i as int)), target@) is None,
                first_named(self.pre_order(), target@) == first_named(
                    forest_pre_order(self.children@),
                    target@,
                ),
            decreases self.children.len() - i,
        {
            let child: &Node<S> = &self.children[i];
            proof {
                lemma_forest_step(self.children@, i as int);
                lemma_first_named_concat(
                    forest_pre_order(self.children@.subrange(0, i as int)),
                    child.pre_order(),
                    target@,
                );
                assert(decreases_to!(self => self.children));
                assert(decreases_to!(self.children => self.children@));
                assert(decreases_to!(self.children@ => self.children@[i as int]));
            }
            let found = child.find_by_name(target);
            if found.is_some() {
                proof {
                    let k = self.children.len() as int;
                    assert(first_named(forest_pre_order(self.children@.subrange(0, i + 1)), target@)
                        == first_named(child.pre_order(), target@));
                    lemma_forest_prefix_first(self.children@, i as int + 1, k, target@);
                    assert(first_named(forest_pre_order(self.children@), target@)
                        == first_named(child.pre_order(), target@));
                }
                return found;
            }
            i = i + 1;
        }
        assert(self.children@.subrange(0, self.children.len() as int) =~= self.children@);
        None
    }
}

/// A match in the subtrees of the first `i` children is the match in those
/// of all `k` children.
proof fn lemma_forest_prefix_first<S>(cs: Seq<Box<Node<S>>>, i: int, k: int, t: Seq<char>)
    requires
        0 <= i <= k == cs.len(),
        first_named(forest_pre_order(cs.subrange(0, i)), t) is Some,
    ensures
        first_named(forest_pre_order(cs), t) == first_named(forest_pre_order(cs.subrange(0, i)), t),
    decreases k - i,
{
    if i == k {
        assert(cs.subrange(0, k) =~= cs);
    } else {
        lemma_forest_step(cs, i);
        lemma_first_named_concat(forest_pre_order(cs.subrange(0, i)), (*cs[i]).pre_order(), t);
        lemma_forest_prefix_first(cs, i + 1, k, t);
    }
}

/// The nodes that a sequence of references points at.
pub open spec fn targets<S>(refs: Seq<&Node<S>>) -> Seq<Node<S>> {
    refs.map_values(|n: &Node<S>| *n)
}

impl<S> Node<S> {
    /// Appends the nodes of this subtree to `out`, in pre-order.
    fn collect_pre_order<'a>(&'a self, out: &mut Vec<&'a Node<S>>)
        ensures
            targets(final(out)@) == targets(old(out)@) + self.pre_order(),
        decreases self,
    {
        let ghost start = targets(out@);
        out.push(self);
        assert(targets(out@) =~= start + seq![*self]);
        let mut i: usize = 0;
        while i < self.children.len()
            invariant
                i <= self.children.len(),
                targets(out@) == start + seq![*self] + forest_pre_order(
                    self.children@.subrange(0, i as int),
                ),
            decreases self.children.len() - i,
        {
            let child: &Node<S> = &self.children[i];
            proof {
                lemma_forest_step(self.children@, i as int);
                assert(decreases_to!(self => self.children));
                assert(decreases_to!(self.children => self.children@));
                assert(decreases_to!(self.children@ => self.children@[i as int]));
            }
            child.collect_pre_order(out);
            i = i + 1;
        }
        assert(self.children@.subrange(0, self.children.len() as int) =~= self.children@);
        assert(targets(out@) =~= start + self.pre_order());
    }

    /// The nodes of the subtree, in pre-order.
    pub fn pre_order_nodes(&self) -> (r: Vec<&Node<S>>)
        ensures
            targets(r@) == self.pre_order(),
    {
        let mut out: Vec<&Node<S>> = Vec::new();
        assert(targets(out@) =~= Seq::<Node<S>>::empty());
        self.collect_pre_order(&mut out);
        assert(targets(out@) =~= self.pre_order());
        out
    }

    /// Calls `f` on each node of the subtree, in pre-order.
    pub fn traverse<F: FnMut(&Node<S>)>(&self, f: &mut F)
        requires
            forall|g: F, n: &Node<S>| call_requires(g, (n,)),
        ensures
            forall|k: int|
                0 <= k < self.pre_order().len() ==> call_ensures(*old(f), (&self.pre_order()[k],), ()),
    {
        let nodes = self.pre_order_nodes();
        let mut i: usize = 0;
        while i < nodes.len()
            invariant
                i <= nodes.len(),
                targets(nodes@) == self.pre_order(),
                *f == *old(f),
                forall|g: F, n: &Node<S>| call_requires(g, (n,)),
                forall|k: int| 0 <= k < i ==> call_ensures(*old(f), (&self.pre_order()[k],), ()),
            decreases nodes.len() - i,
        {
            f(nodes[i]);
            assert(*nodes@[i as int] == self.pre_order()[i as int]);
            i = i + 1;
        }
    }

    /// `Node("<name>", children=<count>, splats=<count>)`.
    pub fn to_display_string(&self) -> (r: String)
        ensures
            r@ == "Node(\""@ + self.name@ + "\", children="@ + decimal_seq(self.children@.len())
                + ", splats="@ + decimal_seq(self.splats@.len()) + ")"@,
    {
        let mut out: Vec<char> = Vec::new();
        push_str(&mut out, "Node(\"");
        push_str(&mut out, self.name.as_str());
        push_str(&mut out, "\", children=");
        push_decimal(&mut out, self.children.len() as u64);
        push_str(&mut out, ", splats=");
        push_decimal(&mut out, self.splats.len() as u64);
        push_str(&mut out, ")");
        string_from_chars(&out, 0, out.len())
    }
}

impl<S> SceneGraph<S> {
    /// A scene graph named `name` whose root is an empty node named `root`.
    pub fn new(name: &str) -> (r: Self)
        ensures
            r.name@ == name@,
            r.root.name@ == "root"@,
            r.root.children@.len() == 0,
            r.root.splats@.len() == 0,
    {
        SceneGraph { name: owned(name), root: Node::new("root") }
    }

    /// Appends `node` as the last child of the root.
    pub fn add_node_to_root(&mut self, node: Node<S>)
        ensures
            final(self).name == old(self).name,
            final(self).root.name == old(self).root.name,
            final(self).root.splats == old(self).root.splats,
            final(self).root.children@ == old(self).root.children@.push(Box::new(node)),
    {
        self.root.add_child(node);
    }

    /// Calls `f` on each node of the graph, in pre-order from the root.
    pub fn traverse<F: FnMut(&Node<S>)>(&self, f: F)
        requires
            forall|g: F, n: &Node<S>| call_requires(g, (n,)),
        ensures
            forall|k: int|
                0 <= k < self.root.pre_order().len() ==> call_ensures(
                    f,
                    (&self.root.pre_order()[k],),
                    (),
                ),
    {
        let mut f = f;
        self.root.traverse(&mut f);
    }

    /// The first node, in pre-order from the root, named `name`.
    pub fn find_node_by_name(&self, name: &str) -> (r: Option<&Node<S>>)
        ensures
            found_is(r, first_named(self.root.pre_order(), name@)),
    {
        self.root.find_by_name(name)
    }
}

/// The position of the first child whose subtree has a node named `t`; the
/// number of children when none has.
pub open spec fn child_with_match<S>(cs: Seq<Box<Node<S>>>, t: Seq<char>) -> int
    decreases cs.len(),
{
    if cs.len() == 0 {
        0
    } else if first_named((*cs[0]).pre_order(), t) is Some {
        0
    } else {
        1 + child_with_match(cs.drop_first(), t)
    }
}

/// `new` is the tree `old` in which the first node named `t`, in pre-order,
/// which was `was`, has become `now`; every other node is as it was.
pub open spec fn replaces_first_named<S>(
    old: Node<S>,
    new: Node<S>,
    t: Seq<char>,
    was: Node<S>,
    now: Node<S>,
) -> bool
    decreases old,
{
    if old.name@ == t {
        was == old && now == new
    } else {
        let i = child_with_match(old.children@, t);
        if 0 <= i < old.children@.len() {
            &&& new.name == old.name
            &&& new.splats == old.splats
            &&& new.children@.len() == old.children@.len()
            &&& forall|j: int|
                0 <= j < old.children@.len() && j != i ==> #[trigger] new.children@[j]
                    == old.children@[j]
            &&& replaces_first_named(*old.children@[i], *new.children@[i], t, was, now)
        } else {
            false
        }
    }
}

/// The subtrees of a sequence of children are the first child's subtree,
/// then those of the others.
proof fn lemma_forest_front<S>(cs: Seq<Box<Node<S>>>)
    requires
        cs.len() > 0,
    ensures
        forest_pre_order(cs) == (*cs[0]).pre_order() + forest_pre_order(cs.drop_first()),
    decreases cs.len(),
{
    if cs.len() == 1 {
        assert(cs.drop_first() =~= Seq::<Box<Node<S>>>::empty());
        assert(cs.drop_last() =~= Seq::<Box<Node<S>>>::empty());
        assert(forest_pre_order(cs.drop_last()) =~= Seq::<Node<S>>::empty());
        assert(cs.last() == cs[0]);
        assert(forest_pre_order(cs) =~= (*cs[0]).pre_order());
        assert((*cs[0]).pre_order() + Seq::<Node<S>>::empty() =~= (*cs[0]).pre_order());
    } else {
        lemma_forest_front(cs.drop_last());
        assert(cs.drop_last().drop_first() =~= cs.drop_first().drop_last());
        assert(cs.drop_first().last() == cs.last());
        assert(cs.drop_last()[0] == cs[0]);
        let a = (*cs[0]).pre_order();
        let b = forest_pre_order(cs.drop_first().drop_last());
        let c = (*cs.last()).pre_order();
        assert(a + b + c =~= a + (b + c));
    }
}

/// When no subtree of the first `i` children has a node named `t` and child
/// `i`'s subtree has one, child `i` is the first child with a match.
proof fn lemma_child_with_match<S>(cs: Seq<Box<Node<S>>>, t: Seq<char>, i: int)
    requires
        0 <= i < cs.len(),
        first_named(forest_pre_order(cs.subrange(0, i)), t) is None,
        first_named((*cs[i]).pre_order(), t) is Some,
    ensures
        child_with_match(cs, t) == i,
    decreases i,
{
    if i > 0 {
        let pre = cs.subrange(0, i);
        lemma_forest_front(pre);
        lemma_first_named_concat((*pre[0]).pre_order(), forest_pre_order(pre.drop_first()), t);
        assert(pre.drop_first() =~= cs.drop_first().subrange(0, i - 1));
        assert(cs.drop_first()[i - 1] == cs[i]);
        lemma_child_with_match(cs.drop_first(), t, i - 1);
    }
}

impl<S> Node<S> {
    /// The first node of the subtree, in pre-order, named `target`, for
    /// writing.
    pub fn find_by_name_mut(&mut self, target: &str) -> (r: Option<&mut Node<S>>)
        ensures
            match r {
                Some(n) => first_named(old(self).pre_order(), target@) == Some(*n)
                    && replaces_first_named(*old(self), *final(self), target@, *n, *final(n)),
                None => first_named(old(self).pre_order(), target@) is None && *final(self) == *old(
                    self,
                ),
            },
        decreases *old(self),
    {
        proof {
            lemma_first_named_concat(seq![*self], forest_pre_order(self.children@), target@);
        }
        if str_eq(self.name.as_str(), target) {
            return Some(self);
        }
        assert(first_named(seq![*self], target@) is None) by {
            reveal_with_fuel(first_named, 2);
            assert(seq![*self].drop_first() =~= Seq::<Node<S>>::empty());
        }
        let mut i: usize = 0;
        while i < self.children.len()
            invariant
                i <= self.children.len(),
                first_named(forest_pre_order(self.children@.subrange(0, i as int)), target@) is None,
            ensures
                i <= self.children.len(),
                first_named(forest_pre_order(self.children@.subrange(0, i as int)), target@) is None,
                i < self.children.len() ==> first_named((*self.children@[i as int]).pre_order(), target@) is Some,
            decreases self.children.len() - i,
        {
            proof {
                lemma_forest_step(self.children@, i as int);
                lemma_first_named_concat(
                    forest_pre_order(self.children@.subrange(0, i as int)),
                    (*self.children@[i as int]).pre_order(),
                    target@,
                );
            }
            if self.children[i].find_by_name(target).is_some() {
                break;
            }
            i = i + 1;
        }
        if i == self.children.len() {
            assert(self.children@.subrange(0, self.children.len() as int) =~= self.children@);
            return None;
        }
        proof {
            lemma_forest_step(self.children@, i as int);
            lemma_first_named_concat(
                forest_pre_order(self.children@.subrange(0, i as int)),
                (*self.children@[i as int]).pre_order(),
                target@,
            );
            lemma_forest_prefix_first(self.children@, i as int + 1, self.children.len() as int, target@);
            lemma_child_with_match(self.children@, target@, i as int);
            assert(decreases_to!(*self => self.children));
            assert(decreases_to!(self.children => self.children@));
            assert(decreases_to!(self.children@ => self.children@[i as int]));
        }
        self.children[i].find_by_name_mut(target)
    }
}

impl<S> SceneGraph<S> {
    /// The first node, in pre-order from the root, named `name`, for writing.
    pub fn find_node_by_name_mut(&mut self, name: &str) -> (r: Option<&mut Node<S>>)
        ensures
            match r {
                Some(n) => first_named(old(self).root.pre_order(), name@) == Some(*n)
                    && final(self).name == old(self).name && replaces_first_named(
                    old(self).root,
                    final(self).root,
                    name@,
                    *n,
                    *final(n),
                ),
                None => first_named(old(self).root.pre_order(), name@) is None && *final(self) == *old(
                    self,
                ),
            },
    {
        self.root.find_by_name_mut(name)
    }
}

} // verus!
