use vstd::prelude::*;

verus! {

/// One point in a conversation: the line spoken and the choices offered,
/// in the order that fixes their selection indices.
#[derive(Debug, PartialEq)]
pub struct DialogueNode {
    pub text: String,
    pub responses: Vec<ResponseNode>,
}

/// One selectable answer; a response without a nested node is terminal:
/// choosing it ends the conversation.
#[derive(Debug, PartialEq)]
pub struct ResponseNode {
    pub text: String,
    pub dialogue_node: Option<DialogueNode>,
}

/// Mathematical shape of a `DialogueNode`: the same tree over sequences.
pub struct NodeView {
    pub text: Seq<char>,
    pub responses: Seq<ResponseView>,
}

/// Mathematical shape of a `ResponseNode`.
pub struct ResponseView {
    pub text: Seq<char>,
    pub dialogue_node: Option<Box<NodeView>>,
}

/// The mathematical tree a node denotes.
pub open spec fn node_view(n: DialogueNode) -> NodeView
    decreases n,
{
    NodeView { text: n.text@, responses: responses_view(n.responses@) }
}

/// The views of a response sequence, elementwise and in order.
pub open spec fn responses_view(s: Seq<ResponseNode>) -> Seq<ResponseView>
    decreases s,
{
    if s.len() == 0 {
        Seq::empty()
    } else {
        seq![response_view(s[0])] + responses_view(s.drop_first())
    }
}

/// The mathematical shape a response denotes.
pub open spec fn response_view(r: ResponseNode) -> ResponseView
    decreases r,
{
    ResponseView {
        text: r.text@,
        dialogue_node: match r.dialogue_node {
            Some(n) => Some(Box::new(node_view(n))),
            None => None,
        },
    }
}

/// Appending one response to a sequence appends its view.
pub proof fn lemma_responses_view_push(s: Seq<ResponseNode>, x: ResponseNode)
    ensures
        responses_view(s.push(x)) =~= responses_view(s).push(response_view(x)),
    decreases s.len(),
{
    if s.len() == 0 {
        assert(s.push(x)[0] == x);
        assert(s.push(x).drop_first() =~= Seq::<ResponseNode>::empty());
        assert(responses_view(s.push(x))
            =~= seq![response_view(x)] + responses_view(Seq::<ResponseNode>::empty()));
        assert(responses_view(s.push(x)) =~= responses_view(s).push(response_view(x)));
    } else {
        lemma_responses_view_push(s.drop_first(), x);
        assert(s.push(x)[0] == s[0]);
        assert(s.push(x).drop_first() =~= s.drop_first().push(x));
        assert(responses_view(s.push(x))
            == seq![response_view(s[0])] + responses_view(s.drop_first().push(x)));
        assert(responses_view(s.push(x))
            == seq![response_view(s[0])] + responses_view(s.drop_first()).push(response_view(x)));
        assert(seq![response_view(s[0])] + responses_view(s.drop_first()).push(response_view(x))
            =~= (seq![response_view(s[0])] + responses_view(s.drop_first())).push(response_view(x)));
    }
}

/// The conversation's current position: exactly one root node, owned
/// wholesale; mutation replaces the root, never edits it in place.
#[derive(Debug, PartialEq)]
pub struct DialogueTree {
    pub root: DialogueNode,
}

impl DialogueTree {
    /// A fresh tree positioned at `root`.
    pub fn new(root: DialogueNode) -> (t: DialogueTree)
        ensures
            t.root == root,
    {
        DialogueTree { root }
    }
}

/// How many nodes the tree below `n` holds, `n` included.
pub open spec fn node_size(n: DialogueNode) -> nat
    decreases n,
{
    1 + responses_size(n.responses@)
}

/// How many nodes the response sequence owns in total.
pub open spec fn responses_size(s: Seq<ResponseNode>) -> nat
    decreases s,
{
    if s.len() == 0 {
        0
    } else {
        response_size(s[0]) + responses_size(s.drop_first())
    }
}

/// How many nodes the response owns: those of its nested node, if any.
pub open spec fn response_size(r: ResponseNode) -> nat
    decreases r,
{
    match r.dialogue_node {
        Some(n) => node_size(n),
        None => 0,
    }
}

proof fn lemma_responses_size_element(s: Seq<ResponseNode>, i: int)
    requires
        0 <= i < s.len(),
    ensures
        response_size(s[i]) <= responses_size(s),
    decreases i,
{
    if i > 0 {
        lemma_responses_size_element(s.drop_first(), i - 1);
        assert(s.drop_first()[i - 1] == s[i]);
    }
}

/// Descending into a response's node strictly shrinks the owned tree: the
/// node below any response is strictly smaller than the node offering it.
pub proof fn lemma_child_node_smaller(n: DialogueNode, i: int)
    requires
        0 <= i < n.responses@.len(),
        n.responses@[i].dialogue_node is Some,
    ensures
        node_size(n.responses@[i].dialogue_node.unwrap()) < node_size(n),
{
    lemma_responses_size_element(n.responses@, i);
}

/// One selection step: `to` is the node owned by one of `from`'s responses.
pub open spec fn descends_by_selection(from: DialogueNode, to: DialogueNode) -> bool {
    exists|i: int|
        0 <= i < from.responses@.len() && (#[trigger] from.responses@[i]).dialogue_node == Some(to)
}

proof fn lemma_chain_size_decreases(chain: Seq<DialogueNode>, j: int, k: int)
    requires
        forall|m: int|
            0 <= m < chain.len() - 1 ==> #[trigger] descends_by_selection(chain[m], chain[m + 1]),
        0 <= j < k < chain.len(),
    ensures
        node_size(chain[k]) < node_size(chain[j]),
    decreases k - j,
{
    if k > j + 1 {
        lemma_chain_size_decreases(chain, j, k - 1);
    }
    assert(descends_by_selection(chain[k - 1], chain[k - 1 + 1]));
    let i = choose|i: int|
        0 <= i < chain[k - 1].responses@.len() && (#[trigger] chain[k - 1].responses@[i]).dialogue_node
            == Some(chain[k]);
    lemma_child_node_smaller(chain[k - 1], i);
}

/// Traversal is strictly non-revisiting: along any sequence of selections,
/// each step strictly shrinks the owned tree, so no root — and with it no
/// response list, hence no selection index — is ever reachable twice within
/// one session.
pub proof fn lemma_traversal_never_revisits(chain: Seq<DialogueNode>)
    requires
        forall|m: int|
            0 <= m < chain.len() - 1 ==> #[trigger] descends_by_selection(chain[m], chain[m + 1]),
    ensures
        forall|j: int, k: int| 0 <= j < k < chain.len() ==> chain[j] != chain[k],
{
    assert forall|j: int, k: int| 0 <= j < k < chain.len() implies chain[j] != chain[k] by {
        lemma_chain_size_decreases(chain, j, k);
    }
}

impl View for DialogueNode {
    type V = NodeView;

    open spec fn view(&self) -> NodeView {
        node_view(*self)
    }
}

impl View for ResponseNode {
    type V = ResponseView;

    open spec fn view(&self) -> ResponseView {
        response_view(*self)
    }
}

} // verus!
