//! The grammar feedback: it collects the derivation trees of kept testcases
//! in a chunk store, for the grammar mutators to splice from.

use vstd::prelude::*;
use vstd::slice::slice_to_vec;
use crate::corpus::Testcase;
use crate::error::Error;
use crate::executors::ExitKind;
use crate::feedbacks::Feedback;
use crate::state::StdState;

verus! {

/// A grammar.
#[derive(Debug)]
pub struct Context {
    /// How many rules the grammar has.
    pub rule_count: usize,
}

/// A grammar as the generators hold it.
#[derive(Debug)]
pub struct NautilusContext {
    /// The grammar.
    pub ctx: Context,
}

/// What a derivation tree holds.
pub struct TreeView {
    /// The rule applied at each node.
    pub rules: Seq<usize>,
    /// The size of the subtree below each node.
    pub sizes: Seq<usize>,
    /// The parent of each node.
    pub paren: Seq<usize>,
}

/// A derivation tree of the grammar, in preorder.
#[derive(Debug)]
pub struct Tree {
    /// The rule applied at each node.
    pub rules: Vec<usize>,
    /// The size of the subtree below each node.
    pub sizes: Vec<usize>,
    /// The parent of each node.
    pub paren: Vec<usize>,
}

impl View for Tree {
    type V = TreeView;

    open spec fn view(&self) -> TreeView {
        TreeView { rules: self.rules@, sizes: self.sizes@, paren: self.paren@ }
    }
}

impl Tree {
    /// A copy of the tree.
    pub fn duplicate(&self) -> (copy: Tree)
        ensures
            copy@ == self@,
    {
        Tree {
            rules: slice_to_vec(self.rules.as_slice()),
            sizes: slice_to_vec(self.sizes.as_slice()),
            paren: slice_to_vec(self.paren.as_slice()),
        }
    }
}

/// An input that is a derivation tree.
#[derive(Debug)]
pub struct NautilusInput {
    /// The tree.
    pub tree: Tree,
}

/// The trees collected so far, oldest first.
#[derive(Debug)]
pub struct ChunkStore {
    /// The directory under which chunks are kept.
    pub work_dir: String,
    /// The collected trees.
    pub trees: Vec<Tree>,
}

impl ChunkStore {
    /// An empty store for `work_dir`.
    pub fn new(work_dir: String) -> (store: ChunkStore)
        ensures
            store.work_dir == work_dir,
            store.trees@.len() == 0,
    {
        ChunkStore { work_dir, trees: Vec::new() }
    }

    /// Adds `tree`, derived from the grammar `ctx`, after the trees that the
    /// store holds.
    pub fn add_tree(&mut self, tree: Tree, ctx: &Context)
        ensures
            final(self).work_dir == old(self).work_dir,
            final(self).trees@ == old(self).trees@.push(tree),
    {
        self.trees.push(tree);
    }
}

/// State metadata of the grammar feedback.
#[derive(Debug)]
pub struct NautilusChunksMetadata {
    /// The chunk store.
    pub cks: ChunkStore,
}

impl NautilusChunksMetadata {
    /// Metadata with an empty chunk store for `work_dir`.
    pub fn new(work_dir: String) -> (metadata: NautilusChunksMetadata)
        ensures
            metadata.cks.work_dir == work_dir,
            metadata.cks.trees@.len() == 0,
    {
        NautilusChunksMetadata { cks: ChunkStore::new(work_dir) }
    }
}

/// A feedback for grammar fuzzing.
pub struct NautilusFeedback<'a> {
    /// The grammar.
    pub ctx: &'a Context,
}

impl<'a> NautilusFeedback<'a> {
    /// The feedback for the grammar of `context`.
    pub fn new(context: &'a NautilusContext) -> (feedback: Self)
        ensures
            *feedback.ctx == context.ctx,
    {
        NautilusFeedback { ctx: &context.ctx }
    }

    /// The name of the feedback.
    pub fn name(&self) -> (name: &'static str)
        ensures
            name@ == "NautilusFeedback"@,
    {
        "NautilusFeedback"
    }

    /// The last verdict of the feedback, which is always `false`.
    pub fn last_result(&self) -> (r: Result<bool, Error>)
        ensures
            r == Ok::<bool, Error>(false),
    {
        Ok(false)
    }
}

/// `after` is `before` with a copy of `tree` added to the chunk store of its
/// metadata, and nothing else changed.
pub open spec fn tree_collected(
    before: StdState<NautilusInput>,
    tree: Tree,
    after: StdState<NautilusInput>,
) -> bool {
    &&& before.metadata.nautilus_chunks is Some
    &&& after.metadata.nautilus_chunks is Some
    &&& after.metadata.nautilus_chunks->0.cks.work_dir
        == before.metadata.nautilus_chunks->0.cks.work_dir
    &&& exists|copy: Tree|
        copy@ == tree@ && after.metadata.nautilus_chunks->0.cks.trees@
            == #[trigger] before.metadata.nautilus_chunks->0.cks.trees@.push(copy)
    &&& after.corpus == before.corpus
    &&& after.rand == before.rand
    &&& after.executions == before.executions
    &&& after.named_metadata == before.named_metadata
    &&& after.corpus_id == before.corpus_id
    &&& after.stage_idx == before.stage_idx
    &&& after.stop_requested == before.stop_requested
}

impl<'a, EM, OT> Feedback<EM, NautilusInput, OT, StdState<NautilusInput>> for NautilusFeedback<'a> {
    /// No run is interesting to this feedback, and judging changes nothing.
    open spec fn may_judge(
        pre: (Self, StdState<NautilusInput>, EM),
        input: NautilusInput,
        observers: OT,
        exit_kind: ExitKind,
        post: (Self, StdState<NautilusInput>, EM),
        r: Result<bool, Error>,
    ) -> bool {
        post == pre && r == Ok::<bool, Error>(false)
    }

    /// A copy of the testcase's tree joins the chunk store of the state.
    /// Where the testcase holds no input, or the state holds no chunk
    /// store, the call fails with `IllegalState` and changes nothing.
    open spec fn may_append(
        pre: (Self, StdState<NautilusInput>, EM, Testcase<NautilusInput>),
        observers: OT,
        post: (Self, StdState<NautilusInput>, EM, Testcase<NautilusInput>),
        r: Result<(), Error>,
    ) -> bool {
        &&& post.0 == pre.0
        &&& post.2 == pre.2
        &&& post.3 == pre.3
        &&& if pre.3.input is None || pre.1.metadata.nautilus_chunks is None {
            r == Err::<(), Error>(Error::IllegalState) && post.1 == pre.1
        } else {
            r is Ok && tree_collected(pre.1, pre.3.input->0.tree, post.1)
        }
    }

    fn is_interesting(
        &mut self,
        state: &mut StdState<NautilusInput>,
        manager: &mut EM,
        input: &NautilusInput,
        observers: &OT,
        exit_kind: &ExitKind,
    ) -> (r: Result<bool, Error>) {
        Ok(false)
    }

    fn append_metadata(
        &mut self,
        state: &mut StdState<NautilusInput>,
        manager: &mut EM,
        observers: &OT,
        testcase: &mut Testcase<NautilusInput>,
    ) -> (r: Result<(), Error>) {
        let tree = match &testcase.input {
            Some(input) => input.tree.duplicate(),
            None => {
                return Err(Error::illegal_state());
            },
        };
        let ghost before = *state;
        match &mut state.metadata.nautilus_chunks {
            Some(meta) => {
                meta.cks.add_tree(tree, self.ctx);
            },
            None => {
                return Err(Error::illegal_state());
            },
        }
        assert(state.metadata.nautilus_chunks->0.cks.trees@
            == before.metadata.nautilus_chunks->0.cks.trees@.push(tree));
        Ok(())
    }
}

} // verus!
