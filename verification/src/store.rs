//! The canvas state store: the template registry (kept sorted by name), the
//! live block-instance collection, the fresh-id counter, and the single
//! active drag token. Every mutation the UI layer needs goes through the
//! operations here.

use vstd::prelude::*;

use crate::model::{Block, BlockContentView, BlockView, ContentValueView, EnumBlockContentView, Position};
use crate::order::{
    lemma_lex_le_antisym, lemma_lex_le_refl, lemma_lex_le_total, lemma_lex_le_trans, lex_le,
    lex_lt, str_lex_le,
};

verus! {

/// A named template: a palette entry whose prototype block is copied, never
/// referenced, when an instance is stamped from it.
#[derive(Clone, PartialEq, Debug)]
pub struct BlockList {
    pub name: String,
    pub block: Block,
}

/// Ghost view of a template.
#[verifier::ext_equal]
pub struct BlockListView {
    pub name: Seq<char>,
    pub block: BlockView,
}

impl View for BlockList {
    type V = BlockListView;

    open spec fn view(&self) -> BlockListView {
        BlockListView { name: self.name@, block: self.block@ }
    }
}

/// The single piece of drag state: which instance is being dragged and where
/// inside its box it was grabbed.
#[derive(Clone, Copy, PartialEq, Eq, Structural, Debug)]
pub struct DragToken {
    pub id: u64,
    pub offset_x: i64,
    pub offset_y: i64,
}

/// Ghost view of the whole store.
#[verifier::ext_equal]
pub struct StoreView {
    pub templates: Seq<BlockListView>,
    pub blocks: Seq<BlockView>,
    pub next_id: u64,
    pub dragging: Option<DragToken>,
}

/// The registry holds strictly name-sorted entries, so names are unique.
pub open spec fn registry_sorted(ts: Seq<BlockListView>) -> bool {
    forall|i: int, j: int|
        0 <= i < j < ts.len() ==> lex_lt(#[trigger] ts[i].name, #[trigger] ts[j].name)
}

/// Some registry entry carries this name.
pub open spec fn registry_has(ts: Seq<BlockListView>, name: Seq<char>) -> bool {
    exists|i: int| 0 <= i < ts.len() && (#[trigger] ts[i].name) == name
}

/// The registry entry carrying this name.
pub open spec fn registry_at(ts: Seq<BlockListView>, name: Seq<char>) -> BlockListView {
    ts[choose|i: int| 0 <= i < ts.len() && (#[trigger] ts[i].name) == name]
}

impl StoreView {
    /// A template of this name is registered.
    pub open spec fn has_template(self, name: Seq<char>) -> bool {
        registry_has(self.templates, name)
    }

    /// The registered template of this name.
    pub open spec fn template_at(self, name: Seq<char>) -> BlockListView {
        registry_at(self.templates, name)
    }

    /// A live instance with this id exists.
    pub open spec fn has_block(self, id: u64) -> bool {
        exists|i: int| 0 <= i < self.blocks.len() && (#[trigger] self.blocks[i].id) == id
    }

    /// The live instance with this id.
    pub open spec fn block_at(self, id: u64) -> BlockView {
        self.blocks[choose|i: int|
            0 <= i < self.blocks.len() && (#[trigger] self.blocks[i].id) == id]
    }

    /// Well-formedness: the registry is strictly sorted by name, instance ids
    /// are unique, and every id is below the fresh-id counter, so a fresh id
    /// can never collide with a live one.
    pub open spec fn wf(self) -> bool {
        &&& registry_sorted(self.templates)
        &&& (forall|i: int, j: int|
            0 <= i < j < self.blocks.len() ==> (#[trigger] self.blocks[i].id) != (
            #[trigger] self.blocks[j].id))
        &&& (forall|i: int|
            0 <= i < self.blocks.len() ==> (#[trigger] self.blocks[i].id) < self.next_id)
    }
}

/// A sorted registry position determines the lookup: the entry at a matching
/// index is the entry every lookup of that name finds.
pub proof fn lemma_registry_entry(ts: Seq<BlockListView>, i: int)
    requires
        registry_sorted(ts),
        0 <= i < ts.len(),
    ensures
        registry_has(ts, ts[i].name),
        registry_at(ts, ts[i].name) == ts[i],
{
    let name = ts[i].name;
    assert(registry_has(ts, name));
    let j = choose|j: int| 0 <= j < ts.len() && (#[trigger] ts[j].name) == name;
    if i < j {
        assert(lex_lt(ts[i].name, ts[j].name));
    } else if j < i {
        assert(lex_lt(ts[j].name, ts[i].name));
    }
}

/// A unique instance position determines the lookup, as for the registry.
pub proof fn lemma_block_entry(v: StoreView, i: int)
    requires
        v.wf(),
        0 <= i < v.blocks.len(),
    ensures
        v.has_block(v.blocks[i].id),
        v.block_at(v.blocks[i].id) == v.blocks[i],
{
    let id = v.blocks[i].id;
    assert(v.has_block(id));
    let j = choose|j: int| 0 <= j < v.blocks.len() && (#[trigger] v.blocks[j].id) == id;
    if i < j {
        assert(v.blocks[i].id != v.blocks[j].id);
    } else if j < i {
        assert(v.blocks[j].id != v.blocks[i].id);
    }
}

/// What a draggable surface element stands for: a live instance on the
/// canvas, or a palette template entry.
#[derive(Clone, PartialEq, Debug)]
pub enum BlockData {
    Block(Block),
    BlockList(BlockList),
}

/// Ghost view of a draggable surface element.
#[verifier::ext_equal]
pub enum BlockDataView {
    Block(BlockView),
    BlockList(BlockListView),
}

impl View for BlockData {
    type V = BlockDataView;

    open spec fn view(&self) -> BlockDataView {
        match self {
            BlockData::Block(b) => BlockDataView::Block(b@),
            BlockData::BlockList(t) => BlockDataView::BlockList(t@),
        }
    }
}

/// The canvas state store.
pub struct AppState {
    block_list: Vec<BlockList>,
    blocks: Vec<Block>,
    next_id: u64,
    dragging: Option<DragToken>,
}

impl View for AppState {
    type V = StoreView;

    closed spec fn view(&self) -> StoreView {
        StoreView {
            templates: self.block_list@.map_values(|t: BlockList| t@),
            blocks: self.blocks@.map_values(|b: Block| b@),
            next_id: self.next_id,
            dragging: self.dragging,
        }
    }
}

impl Default for AppState {
    /// An empty store: no templates, no instances, no drag in progress.
    fn default() -> (r: AppState)
        ensures
            r@.templates == Seq::<BlockListView>::empty(),
            r@.blocks == Seq::<BlockView>::empty(),
            r@.next_id == 0,
            r@.dragging is None,
            r@.wf(),
    {
        let r = AppState {
            block_list: Vec::new(),
            blocks: Vec::new(),
            next_id: 0,
            dragging: Option::None,
        };
        proof {
            assert(r@.templates =~= Seq::<BlockListView>::empty());
            assert(r@.blocks =~= Seq::<BlockView>::empty());
        }
        r
    }
}

impl AppState {
    /// Well-formedness of the store's view; every operation preserves it.
    pub open spec fn wf(&self) -> bool {
        self@.wf()
    }

    /// The first registry index whose name is not below the given name, which
    /// is where an entry of that name stands or would be inserted.
    fn find_insert_index(&self, name: &String) -> (r: usize)
        ensures
            r <= self@.templates.len(),
            forall|k: int| 0 <= k < r ==> !lex_le(name@, (#[trigger] self@.templates[k]).name),
            r < self@.templates.len() ==> lex_le(name@, self@.templates[r as int].name),
    {
        let mut i: usize = 0;
        while i < self.block_list.len()
            invariant
                i <= self.block_list.len(),
                self@.templates.len() == self.block_list.len(),
                forall|k: int| 0 <= k < i ==> !lex_le(name@, (#[trigger] self@.templates[k]).name),
            decreases self.block_list.len() - i,
        {
            if str_lex_le(name.as_str(), self.block_list[i].name.as_str()) {
                return i;
            }
            i += 1;
        }
        i
    }

    /// Registers a template, keyed by its name: a new name is inserted at its
    /// sorted position, a present name is overwritten. No error path.
    pub fn add_block_list(&mut self, block: BlockList)
        requires
            old(self).wf(),
        ensures
            final(self).wf(),
            final(self)@.has_template(block@.name),
            final(self)@.template_at(block@.name) == block@,
            final(self)@.templates.len() == old(self)@.templates.len() + (if old(self)@.has_template(block@.name) {
                0int
            } else {
                1int
            }),
            forall|n: Seq<char>|
                n != block@.name ==> #[trigger] final(self)@.has_template(n) == old(self)@.has_template(n),
            forall|n: Seq<char>|
                n != block@.name && old(self)@.has_template(n) ==> #[trigger] final(self)@.template_at(n) == old(self)@.template_at(n),
            final(self)@.blocks == old(self)@.blocks,
            final(self)@.next_id == old(self)@.next_id,
            final(self)@.dragging == old(self)@.dragging,
    {
        let ghost pre = self@.templates;
        let ghost bv = block@;
        let ghost nm = block@.name;
        let idx = self.find_insert_index(&block.name);
        proof {
            // Everything strictly before the insertion point is strictly below
            // the new name.
            assert forall|k: int| 0 <= k < idx implies lex_lt(
                (#[trigger] pre[k]).name,
                nm,
            ) by {
                lemma_lex_le_total(nm, pre[k].name);
                lemma_lex_le_refl(nm);
            }
        }
        if idx < self.block_list.len() && self.block_list[idx].name == block.name {
            self.block_list[idx] = block;
            proof {
                let post = self@.templates;
                assert(post =~= pre.update(idx as int, bv));
                assert forall|i: int, j: int| 0 <= i < j < post.len() implies lex_lt(
                    (#[trigger] post[i]).name,
                    (#[trigger] post[j]).name,
                ) by {
                    assert(post[i].name == pre[i].name);
                    assert(post[j].name == pre[j].name);
                }
                lemma_registry_entry(post, idx as int);
                assert forall|n: Seq<char>| n != nm implies #[trigger] registry_has(post, n)
                    == registry_has(pre, n) by {
                    if registry_has(post, n) {
                        let j = choose|j: int|
                            0 <= j < post.len() && (#[trigger] post[j].name) == n;
                        assert(pre[j].name == n);
                    }
                    if registry_has(pre, n) {
                        let j = choose|j: int| 0 <= j < pre.len() && (#[trigger] pre[j].name) == n;
                        assert(post[j].name == n);
                    }
                }
                assert forall|n: Seq<char>| n != nm && registry_has(pre, n) implies
                    #[trigger] registry_at(post, n) == registry_at(pre, n) by {
                    let j = choose|j: int| 0 <= j < pre.len() && (#[trigger] pre[j].name) == n;
                    lemma_registry_entry(pre, j);
                    assert(post[j].name == n);
                    lemma_registry_entry(post, j);
                }
            }
        } else {
            proof {
                // The entry at the insertion point, if any, is strictly above
                // the new name.
                if idx < pre.len() {
                    assert(pre[idx as int].name != nm);
                }
            }
            self.block_list.insert(idx, block);
            proof {
                let post = self@.templates;
                assert(post =~= pre.insert(idx as int, bv));
                assert forall|k: int| idx <= k < pre.len() implies lex_lt(
                    nm,
                    (#[trigger] pre[k]).name,
                ) by {
                    if k > idx {
                        lemma_lex_le_trans(nm, pre[idx as int].name, pre[k].name);
                        if nm == pre[k].name {
                            lemma_lex_le_antisym(nm, pre[idx as int].name);
                        }
                    }
                }
                assert forall|i: int, j: int| 0 <= i < j < post.len() implies lex_lt(
                    (#[trigger] post[i]).name,
                    (#[trigger] post[j]).name,
                ) by {
                    if i == idx {
                        assert(post[j] == pre[j - 1]);
                    } else if j == idx {
                        assert(post[i] == pre[i]);
                    } else {
                        assert(post[i] == (if i < idx { pre[i] } else { pre[i - 1] }));
                        assert(post[j] == (if j < idx { pre[j] } else { pre[j - 1] }));
                    }
                }
                lemma_registry_entry(post, idx as int);
                assert forall|n: Seq<char>| n != nm implies #[trigger] registry_has(post, n)
                    == registry_has(pre, n) by {
                    if registry_has(post, n) {
                        let j = choose|j: int|
                            0 <= j < post.len() && (#[trigger] post[j].name) == n;
                        if j < idx {
                            assert(pre[j].name == n);
                        } else {
                            assert(pre[j - 1].name == n);
                        }
                    }
                    if registry_has(pre, n) {
                        let j = choose|j: int| 0 <= j < pre.len() && (#[trigger] pre[j].name) == n;
                        if j < idx {
                            assert(post[j].name == n);
                        } else {
                            assert(post[j + 1].name == n);
                        }
                    }
                }
                assert forall|n: Seq<char>| n != nm && registry_has(pre, n) implies
                    #[trigger] registry_at(post, n) == registry_at(pre, n) by {
                    let j = choose|j: int| 0 <= j < pre.len() && (#[trigger] pre[j].name) == n;
                    lemma_registry_entry(pre, j);
                    if j < idx {
                        assert(post[j].name == n);
                        lemma_registry_entry(post, j);
                    } else {
                        assert(post[j + 1].name == n);
                        lemma_registry_entry(post, j + 1);
                    }
                }
            }
        }
    }

    /// Unregisters the template of this name; an absent name is a no-op.
    pub fn remove_block_list(&mut self, name: &str)
        requires
            old(self).wf(),
        ensures
            final(self).wf(),
            !final(self)@.has_template(name@),
            forall|n: Seq<char>|
                n != name@ ==> #[trigger] final(self)@.has_template(n) == old(self)@.has_template(n),
            forall|n: Seq<char>|
                n != name@ && old(self)@.has_template(n) ==> #[trigger] final(self)@.template_at(n) == old(self)@.template_at(n),
            final(self)@.blocks == old(self)@.blocks,
            final(self)@.next_id == old(self)@.next_id,
            final(self)@.dragging == old(self)@.dragging,
    {
        let ghost pre = self@.templates;
        let owned = String::from_str(name);
        let mut i: usize = 0;
        while i < self.block_list.len()
            invariant
                i <= self.block_list.len(),
                self@.templates == pre,
                pre == old(self)@.templates,
                pre.len() == self.block_list.len(),
                registry_sorted(pre),
                self@.blocks == old(self)@.blocks,
                self@.next_id == old(self)@.next_id,
                self@.dragging == old(self)@.dragging,
                old(self).wf(),
                forall|k: int| 0 <= k < i ==> (#[trigger] pre[k]).name != name@,
                owned@ == name@,
            decreases self.block_list.len() - i,
        {
            if self.block_list[i].name == owned {
                self.block_list.remove(i);
                proof {
                    let post = self@.templates;
                    assert(post =~= pre.remove(i as int));
                    assert forall|p: int, q: int| 0 <= p < q < post.len() implies lex_lt(
                        (#[trigger] post[p]).name,
                        (#[trigger] post[q]).name,
                    ) by {
                        assert(post[p] == (if p < i { pre[p] } else { pre[p + 1] }));
                        assert(post[q] == (if q < i { pre[q] } else { pre[q + 1] }));
                    }
                    assert forall|n: Seq<char>| n != name@ implies #[trigger] registry_has(post, n)
                        == registry_has(pre, n) by {
                        if registry_has(post, n) {
                            let j = choose|j: int|
                                0 <= j < post.len() && (#[trigger] post[j].name) == n;
                            assert(post[j] == (if j < i { pre[j] } else { pre[j + 1] }));
                        }
                        if registry_has(pre, n) {
                            let j = choose|j: int|
                                0 <= j < pre.len() && (#[trigger] pre[j].name) == n;
                            if j < i {
                                assert(post[j].name == n);
                            } else {
                                assert(post[j - 1].name == n);
                            }
                        }
                    }
                    assert forall|n: Seq<char>| n != name@ && registry_has(pre, n) implies
                        #[trigger] registry_at(post, n) == registry_at(pre, n) by {
                        let j = choose|j: int| 0 <= j < pre.len() && (#[trigger] pre[j].name) == n;
                        lemma_registry_entry(pre, j);
                        if j < i {
                            assert(post[j].name == n);
                            lemma_registry_entry(post, j);
                        } else {
                            assert(post[j - 1].name == n);
                            lemma_registry_entry(post, j - 1);
                        }
                    }
                    // Only one entry can carry the name, so none is left.
                    assert forall|k: int| 0 <= k < post.len() implies (#[trigger] post[k]).name
                        != name@ by {
                        assert(post[k] == (if k < i { pre[k] } else { pre[k + 1] }));
                        if k >= i {
                            assert(lex_lt(pre[i as int].name, pre[k + 1].name));
                        }
                    }
                    if registry_has(post, name@) {
                        let j = choose|j: int|
                            0 <= j < post.len() && (#[trigger] post[j].name) == name@;
                    }
                }
                return ;
            }
            i += 1;
        }
        proof {
            // A surviving entry of the name would be a witness the full scan
            // already ruled out.
            if registry_has(pre, name@) {
                let j = choose|j: int| 0 <= j < pre.len() && (#[trigger] pre[j].name) == name@;
            }
        }
    }

    /// Drops every registered template.
    pub fn clear_block_list(&mut self)
        requires
            old(self).wf(),
        ensures
            final(self).wf(),
            final(self)@.templates == Seq::<BlockListView>::empty(),
            final(self)@.blocks == old(self)@.blocks,
            final(self)@.next_id == old(self)@.next_id,
            final(self)@.dragging == old(self)@.dragging,
    {
        self.block_list.clear();
        proof {
            assert(self@.templates =~= Seq::<BlockListView>::empty());
        }
    }

    /// Looks up a registered template by name.
    pub fn get_block_list(&self, name: &str) -> (r: Option<&BlockList>)
        requires
            self.wf(),
        ensures
            r is Some <==> self@.has_template(name@),
            match r {
                Option::Some(t) => t@ == self@.template_at(name@),
                Option::None => true,
            },
    {
        let owned = String::from_str(name);
        let mut i: usize = 0;
        while i < self.block_list.len()
            invariant
                self.wf(),
                i <= self.block_list.len(),
                self@.templates.len() == self.block_list.len(),
                forall|k: int| 0 <= k < i ==> (#[trigger] self@.templates[k]).name != name@,
                owned@ == name@,
            decreases self.block_list.len() - i,
        {
            if self.block_list[i].name == owned {
                proof {
                    lemma_registry_entry(self@.templates, i as int);
                }
                return Option::Some(&self.block_list[i]);
            }
            i += 1;
        }
        proof {
            // A registered entry of the name would be a witness the full scan
            // already ruled out.
            if self@.has_template(name@) {
                let j = choose|j: int|
                    0 <= j < self@.templates.len() && (#[trigger] self@.templates[j].name)
                        == name@;
            }
        }
        Option::None
    }

    /// The palette feed: every registered template, in name order.
    pub fn get_all_block_lists(&self) -> (r: Vec<&BlockList>)
        requires
            self.wf(),
        ensures
            r@.len() == self@.templates.len(),
            forall|i: int| 0 <= i < r@.len() ==> (#[trigger] r@[i])@ == self@.templates[i],
            forall|i: int, j: int|
                0 <= i < j < r@.len() ==> lex_lt((#[trigger] r@[i])@.name, (#[trigger] r@[j])@.name),
    {
        let mut r: Vec<&BlockList> = Vec::new();
        let mut i: usize = 0;
        while i < self.block_list.len()
            invariant
                i <= self.block_list.len(),
                self@.templates.len() == self.block_list.len(),
                r@.len() == i,
                forall|k: int| 0 <= k < i ==> (#[trigger] r@[k])@ == self@.templates[k],
            decreases self.block_list.len() - i,
        {
            r.push(&self.block_list[i]);
            i += 1;
        }
        r
    }
}

/// The block with its position overwritten and everything else unchanged.
pub open spec fn with_position(b: BlockView, x: i64, y: i64) -> BlockView {
    BlockView { position: (Position { x: x, y: y }), ..b }
}

/// The index of the first content entry carrying this field id, or -1 when
/// none does.
pub open spec fn field_index(cs: Seq<BlockContentView>, fid: Seq<char>) -> int
    decreases cs.len(),
{
    if cs.len() == 0 {
        -1
    } else if cs[0].id == fid {
        0
    } else {
        let r = field_index(cs.drop_first(), fid);
        if r < 0 {
            -1
        } else {
            r + 1
        }
    }
}

/// The block after an edit of the named field: when the first entry carrying
/// the field id is a value field, only its text value changes; a missing id
/// or a non-value field leaves the block untouched.
pub open spec fn with_field_value(b: BlockView, fid: Seq<char>, text: Seq<char>) -> BlockView {
    let j = field_index(b.content, fid);
    if j < 0 {
        b
    } else {
        match b.content[j].content {
            EnumBlockContentView::ContentValue(cv) => BlockView {
                content: b.content.update(
                    j,
                    BlockContentView {
                        id: b.content[j].id,
                        content: EnumBlockContentView::ContentValue(
                            ContentValueView {
                                title: cv.title,
                                value: text,
                                placeholder: cv.placeholder,
                            },
                        ),
                    },
                ),
                ..b
            },
            _ => b,
        }
    }
}

/// A fresh instance stamped from a prototype: same everything, but its own
/// id and the requested position.
pub open spec fn instantiated_view(proto: BlockView, id: u64, x: i64, y: i64) -> BlockView {
    BlockView { id: id, position: (Position { x: x, y: y }), ..proto }
}

/// What instantiating changes: on a known template the prototype is copied
/// onto the end of the instance collection under the fresh counter id, which
/// was not live before, and the counter advances; on an unknown template
/// nothing at all changes and absence is returned. The drag token is never
/// touched.
pub open spec fn add_block_post(
    pre: StoreView,
    post: StoreView,
    name: Seq<char>,
    x: i64,
    y: i64,
    r: Option<u64>,
) -> bool {
    &&& post.templates == pre.templates
    &&& post.dragging == pre.dragging
    &&& (r is Some <==> pre.has_template(name))
    &&& match r {
        Option::None => post == pre,
        Option::Some(id) => {
            &&& id == pre.next_id
            &&& post.next_id == pre.next_id + 1
            &&& !pre.has_block(id)
            &&& post.blocks == pre.blocks.push(
                instantiated_view(pre.template_at(name).block, id, x, y),
            )
        },
    }
}

/// What repositioning changes: an absent id is a no-op, a present one has
/// exactly its position overwritten in place.
pub open spec fn set_position_post(
    pre: StoreView,
    post: StoreView,
    id: u64,
    x: i64,
    y: i64,
) -> bool {
    &&& post.templates == pre.templates
    &&& post.dragging == pre.dragging
    &&& post.next_id == pre.next_id
    &&& (!pre.has_block(id) ==> post.blocks == pre.blocks)
    &&& (pre.has_block(id) ==> exists|i: int|
        {
            &&& 0 <= i < pre.blocks.len()
            &&& (#[trigger] pre.blocks[i]).id == id
            &&& post.blocks == pre.blocks.update(i, with_position(pre.blocks[i], x, y))
        })
}

/// What editing a field changes: an absent instance is a no-op, a present
/// one is replaced by its `with_field_value` image, which touches at most
/// the one targeted value field.
pub open spec fn set_field_post(
    pre: StoreView,
    post: StoreView,
    id: u64,
    fid: Seq<char>,
    text: Seq<char>,
) -> bool {
    &&& post.templates == pre.templates
    &&& post.dragging == pre.dragging
    &&& post.next_id == pre.next_id
    &&& (!pre.has_block(id) ==> post.blocks == pre.blocks)
    &&& (pre.has_block(id) ==> exists|i: int|
        {
            &&& 0 <= i < pre.blocks.len()
            &&& (#[trigger] pre.blocks[i]).id == id
            &&& post.blocks == pre.blocks.update(i, with_field_value(pre.blocks[i], fid, text))
        })
}

/// What removing changes: an absent id is a no-op, a present one leaves the
/// collection with exactly that instance taken out.
pub open spec fn remove_block_post(pre: StoreView, post: StoreView, id: u64) -> bool {
    &&& post.templates == pre.templates
    &&& post.dragging == pre.dragging
    &&& post.next_id == pre.next_id
    &&& !post.has_block(id)
    &&& (!pre.has_block(id) ==> post.blocks == pre.blocks)
    &&& (pre.has_block(id) ==> exists|i: int|
        {
            &&& 0 <= i < pre.blocks.len()
            &&& (#[trigger] pre.blocks[i]).id == id
            &&& post.blocks == pre.blocks.remove(i)
        })
}

/// What starting a drag changes: the token is overwritten unconditionally,
/// whatever was there before, and nothing else moves.
pub open spec fn begin_drag_post(
    pre: StoreView,
    post: StoreView,
    id: u64,
    ox: i64,
    oy: i64,
) -> bool {
    &&& post.templates == pre.templates
    &&& post.blocks == pre.blocks
    &&& post.next_id == pre.next_id
    &&& post.dragging == Option::Some(DragToken { id: id, offset_x: ox, offset_y: oy })
}

/// Keeps a block in the normal render pass while this token drags another.
pub open spec fn drag_filter(t: DragToken) -> spec_fn(BlockView) -> bool {
    |b: BlockView| b.id != t.id
}

/// The views of a sequence of borrowed blocks.
pub open spec fn views_of_refs(s: Seq<&Block>) -> Seq<BlockView> {
    s.map_values(|b: &Block| b@)
}

impl StoreView {
    /// The canvas feed: every instance except the one being dragged, which
    /// the overlay shows instead.
    pub open spec fn visible(self) -> Seq<BlockView> {
        match self.dragging {
            Option::Some(t) => self.blocks.filter(drag_filter(t)),
            Option::None => self.blocks,
        }
    }

    /// The overlay: the dragged instance, if it is still live.
    pub open spec fn overlay(self) -> Option<BlockView> {
        match self.dragging {
            Option::Some(t) => if self.has_block(t.id) {
                Option::Some(self.block_at(t.id))
            } else {
                Option::None
            },
            Option::None => Option::None,
        }
    }
}

impl AppState {
    /// The collection index of the instance with this id.
    fn find_block_index(&self, id: u64) -> (r: Option<usize>)
        ensures
            match r {
                Option::Some(i) => i < self@.blocks.len() && self@.blocks[i as int].id == id,
                Option::None => !self@.has_block(id),
            },
    {
        let mut i: usize = 0;
        while i < self.blocks.len()
            invariant
                i <= self.blocks.len(),
                self@.blocks.len() == self.blocks.len(),
                forall|k: int| 0 <= k < i ==> (#[trigger] self@.blocks[k].id) != id,
            decreases self.blocks.len() - i,
        {
            if self.blocks[i].id == id {
                return Option::Some(i);
            }
            i += 1;
        }
        proof {
            // A live instance of the id would be a witness the full scan
            // already ruled out.
            if self@.has_block(id) {
                let j = choose|j: int|
                    0 <= j < self@.blocks.len() && (#[trigger] self@.blocks[j].id) == id;
            }
        }
        Option::None
    }

    /// Instantiates the named template at a position: the prototype is
    /// deep-copied, given the fresh id, and inserted; an unknown name
    /// returns absence and changes nothing.
    pub fn add_block(&mut self, name: &str, x: i64, y: i64) -> (r: Option<u64>)
        requires
            old(self).wf(),
            old(self)@.next_id < u64::MAX,
        ensures
            final(self).wf(),
            add_block_post(old(self)@, final(self)@, name@, x, y, r),
    {
        let proto_opt = match self.get_block_list(name) {
            Option::Some(t) => Option::Some(t.block.duplicate()),
            Option::None => Option::None,
        };
        match proto_opt {
            Option::None => Option::None,
            Option::Some(mut nb) => {
                let id = self.next_id;
                self.next_id = id + 1;
                nb.id = id;
                nb.position = Position { x, y };
                self.blocks.push(nb);
                proof {
                    let pre = old(self)@;
                    let post = self@;
                    // A live instance under the fresh id would be a witness
                    // against the counter bound.
                    if pre.has_block(id) {
                        let j = choose|j: int|
                            0 <= j < pre.blocks.len() && (#[trigger] pre.blocks[j].id) == id;
                    }
                    assert(nb@ == instantiated_view(pre.template_at(name@).block, id, x, y));
                    assert(post.blocks =~= pre.blocks.push(
                        instantiated_view(pre.template_at(name@).block, id, x, y),
                    ));
                    assert forall|p: int, q: int|
                        0 <= p < q < post.blocks.len() implies (#[trigger] post.blocks[p].id) != (
                    #[trigger] post.blocks[q].id) by {
                        if q == post.blocks.len() - 1 {
                            assert(pre.blocks[p].id < pre.next_id);
                        }
                    }
                    assert forall|p: int|
                        0 <= p < post.blocks.len() implies (#[trigger] post.blocks[p].id)
                        < post.next_id by {
                        if p < post.blocks.len() - 1 {
                            assert(pre.blocks[p].id < pre.next_id);
                        }
                    }
                }
                Option::Some(id)
            },
        }
    }

    /// Overwrites an instance's position in place; an absent id is a no-op,
    /// which tolerates races with a concurrent removal.
    pub fn update_block_position(&mut self, id: u64, x: i64, y: i64)
        requires
            old(self).wf(),
        ensures
            final(self).wf(),
            set_position_post(old(self)@, final(self)@, id, x, y),
    {
        match self.find_block_index(id) {
            Option::Some(i) => {
                self.blocks[i].position = Position { x, y };
                proof {
                    let pre = old(self)@;
                    let post = self@;
                    assert(pre.has_block(id));
                    assert(post.blocks =~= pre.blocks.update(
                        i as int,
                        with_position(pre.blocks[i as int], x, y),
                    ));
                    assert forall|p: int, q: int|
                        0 <= p < q < post.blocks.len() implies (#[trigger] post.blocks[p].id) != (
                    #[trigger] post.blocks[q].id) by {
                        assert(pre.blocks[p].id != pre.blocks[q].id);
                    }
                    assert forall|p: int|
                        0 <= p < post.blocks.len() implies (#[trigger] post.blocks[p].id)
                        < post.next_id by {
                        assert(pre.blocks[p].id < pre.next_id);
                    }
                }
            },
            Option::None => {},
        }
    }

    /// Edits the text value of the named value field of the named instance.
    /// A missing instance, a missing field id, or a field of another kind is
    /// a silent no-op.
    pub fn update_block_content(&mut self, id: u64, content_id: &str, content_value: &str)
        requires
            old(self).wf(),
        ensures
            final(self).wf(),
            set_field_post(old(self)@, final(self)@, id, content_id@, content_value@),
    {
        let owned = String::from_str(content_id);
        match self.find_block_index(id) {
            Option::Some(i) => {
                let ghost pre = old(self)@;
                let ghost preb = pre.blocks[i as int];
                let mut j: usize = 0;
                let n = self.blocks[i].content.len();
                while j < n
                    invariant
                        old(self).wf(),
                        self@ == old(self)@,
                        pre == old(self)@,
                        preb == pre.blocks[i as int],
                        j <= n,
                        i < self@.blocks.len(),
                        self@.blocks[i as int].id == id,
                        n == self@.blocks[i as int].content.len(),
                        owned@ == content_id@,
                        forall|k: int|
                            0 <= k < j ==> (#[trigger] self@.blocks[i as int].content[k].id)
                                != content_id@,
                    decreases n - j,
                {
                    if self.blocks[i].content[j].id == owned {
                        proof {
                            lemma_field_index_at(preb.content, content_id@, j as int);
                        }
                        match &mut self.blocks[i].content[j].content {
                            crate::model::EnumBlockContent::ContentValue(cv) => {
                                cv.value = String::from_str(content_value);
                            },
                            _ => {},
                        }
                        proof {
                            let post = self@;
                            assert(0 <= (i as int) < pre.blocks.len() && pre.blocks[i as int].id
                                == id);
                            assert(pre.has_block(id));
                            let wfv = with_field_value(preb, content_id@, content_value@);
                            assert(post.blocks[i as int].content =~= wfv.content);
                            assert(post.blocks[i as int] =~= wfv);
                            assert(post.blocks =~= pre.blocks.update(i as int, wfv));
                            assert forall|p: int, q: int|
                                0 <= p < q < post.blocks.len() implies (
                            #[trigger] post.blocks[p].id) != (#[trigger] post.blocks[q].id) by {
                                assert(pre.blocks[p].id != pre.blocks[q].id);
                            }
                            assert forall|p: int|
                                0 <= p < post.blocks.len() implies (#[trigger] post.blocks[p].id)
                                < post.next_id by {
                                assert(pre.blocks[p].id < pre.next_id);
                            }
                        }
                        return ;
                    }
                    j += 1;
                }
                proof {
                    lemma_field_index_missing(preb.content, content_id@);
                    assert(pre.has_block(id));
                    assert(with_field_value(preb, content_id@, content_value@) == preb);
                    assert(self@.blocks =~= pre.blocks.update(
                        i as int,
                        with_field_value(preb, content_id@, content_value@),
                    ));
                }
            },
            Option::None => {},
        }
    }

    /// Removes the instance with this id; an absent id is a no-op.
    pub fn remove_block(&mut self, id: u64)
        requires
            old(self).wf(),
        ensures
            final(self).wf(),
            remove_block_post(old(self)@, final(self)@, id),
    {
        match self.find_block_index(id) {
            Option::Some(i) => {
                self.blocks.remove(i);
                proof {
                    let pre = old(self)@;
                    let post = self@;
                    assert(pre.has_block(id));
                    assert(post.blocks =~= pre.blocks.remove(i as int));
                    assert forall|p: int, q: int|
                        0 <= p < q < post.blocks.len() implies (#[trigger] post.blocks[p].id) != (
                    #[trigger] post.blocks[q].id) by {
                        assert(post.blocks[p] == (if p < i {
                            pre.blocks[p]
                        } else {
                            pre.blocks[p + 1]
                        }));
                        assert(post.blocks[q] == (if q < i {
                            pre.blocks[q]
                        } else {
                            pre.blocks[q + 1]
                        }));
                    }
                    assert forall|p: int|
                        0 <= p < post.blocks.len() implies (#[trigger] post.blocks[p].id)
                        < post.next_id by {
                        assert(post.blocks[p] == (if p < i {
                            pre.blocks[p]
                        } else {
                            pre.blocks[p + 1]
                        }));
                    }
                    if post.has_block(id) {
                        let j = choose|j: int|
                            0 <= j < post.blocks.len() && (#[trigger] post.blocks[j].id) == id;
                        assert(post.blocks[j] == (if j < i {
                            pre.blocks[j]
                        } else {
                            pre.blocks[j + 1]
                        }));
                    }
                }
            },
            Option::None => {},
        }
    }

    /// Removes every instance.
    pub fn clear_blocks(&mut self)
        requires
            old(self).wf(),
        ensures
            final(self).wf(),
            final(self)@.blocks == Seq::<BlockView>::empty(),
            final(self)@.templates == old(self)@.templates,
            final(self)@.next_id == old(self)@.next_id,
            final(self)@.dragging == old(self)@.dragging,
    {
        self.blocks.clear();
        proof {
            assert(self@.blocks =~= Seq::<BlockView>::empty());
        }
    }

    /// Looks up a live instance by id.
    pub fn get_block(&self, id: u64) -> (r: Option<&Block>)
        requires
            self.wf(),
        ensures
            r is Some <==> self@.has_block(id),
            match r {
                Option::Some(b) => b@ == self@.block_at(id),
                Option::None => true,
            },
    {
        match self.find_block_index(id) {
            Option::Some(i) => {
                proof {
                    lemma_block_entry(self@, i as int);
                }
                Option::Some(&self.blocks[i])
            },
            Option::None => Option::None,
        }
    }

    /// Every live instance, in collection order.
    pub fn get_all_blocks(&self) -> (r: Vec<&Block>)
        ensures
            r@.len() == self@.blocks.len(),
            forall|i: int| 0 <= i < r@.len() ==> (#[trigger] r@[i])@ == self@.blocks[i],
    {
        let mut r: Vec<&Block> = Vec::new();
        let mut i: usize = 0;
        while i < self.blocks.len()
            invariant
                i <= self.blocks.len(),
                self@.blocks.len() == self.blocks.len(),
                r@.len() == i,
                forall|k: int| 0 <= k < i ==> (#[trigger] r@[k])@ == self@.blocks[k],
            decreases self.blocks.len() - i,
        {
            r.push(&self.blocks[i]);
            i += 1;
        }
        r
    }

    /// Starts a drag of this instance with this grab offset, silently
    /// replacing any token already set: no two drags ever coexist.
    pub fn begin_drag(&mut self, id: u64, offset_x: i64, offset_y: i64)
        requires
            old(self).wf(),
        ensures
            final(self).wf(),
            begin_drag_post(old(self)@, final(self)@, id, offset_x, offset_y),
    {
        self.dragging = Option::Some(DragToken { id, offset_x, offset_y });
    }

    /// Clears the drag token unconditionally; the last written position of
    /// the dragged instance stays final.
    pub fn end_drag(&mut self)
        requires
            old(self).wf(),
        ensures
            final(self).wf(),
            final(self)@.dragging is None,
            final(self)@.templates == old(self)@.templates,
            final(self)@.blocks == old(self)@.blocks,
            final(self)@.next_id == old(self)@.next_id,
    {
        self.dragging = Option::None;
    }

    /// The current drag token, if a drag is in progress.
    pub fn dragging(&self) -> (r: Option<DragToken>)
        ensures
            r == self@.dragging,
    {
        self.dragging
    }

    /// The canvas feed: every instance except the dragged one, in collection
    /// order.
    pub fn visible_blocks(&self) -> (r: Vec<&Block>)
        ensures
            views_of_refs(r@) == self@.visible(),
    {
        let mut r: Vec<&Block> = Vec::new();
        match self.dragging {
            Option::None => {
                let mut i: usize = 0;
                while i < self.blocks.len()
                    invariant
                        self@.dragging is None,
                        i <= self.blocks.len(),
                        self@.blocks.len() == self.blocks.len(),
                        r@.len() == i,
                        forall|k: int| 0 <= k < i ==> (#[trigger] r@[k])@ == self@.blocks[k],
                    decreases self.blocks.len() - i,
                {
                    r.push(&self.blocks[i]);
                    i += 1;
                }
                proof {
                    assert(views_of_refs(r@) =~= self@.visible());
                }
            },
            Option::Some(t) => {
                let ghost bs = self@.blocks;
                let mut i: usize = 0;
                proof {
                    reveal(Seq::filter);
                    assert(bs.take(0) =~= Seq::<BlockView>::empty());
                }
                while i < self.blocks.len()
                    invariant
                        self@.dragging == Option::Some(t),
                        i <= self.blocks.len(),
                        bs == self@.blocks,
                        bs.len() == self.blocks.len(),
                        views_of_refs(r@) == bs.take(i as int).filter(drag_filter(t)),
                    decreases self.blocks.len() - i,
                {
                    proof {
                        reveal(Seq::filter);
                        assert(bs.take(i + 1).drop_last() =~= bs.take(i as int));
                        assert(bs.take(i + 1).last() == bs[i as int]);
                    }
                    if self.blocks[i].id != t.id {
                        r.push(&self.blocks[i]);
                        proof {
                            assert(views_of_refs(r@) =~= bs.take(i + 1).filter(drag_filter(t)));
                        }
                    } else {
                        proof {
                            assert(views_of_refs(r@) =~= bs.take(i + 1).filter(drag_filter(t)));
                        }
                    }
                    i += 1;
                }
                proof {
                    assert(bs.take(self.blocks.len() as int) =~= bs);
                }
            },
        }
        r
    }

    /// The overlay feed: the dragged instance rendered once, detached from
    /// the normal pass, while a drag is in progress and its id is live.
    pub fn overlay_block(&self) -> (r: Option<&Block>)
        requires
            self.wf(),
        ensures
            match r {
                Option::Some(b) => self@.overlay() == Option::Some(b@),
                Option::None => self@.overlay() is None,
            },
    {
        match self.dragging {
            Option::Some(t) => match self.find_block_index(t.id) {
                Option::Some(i) => {
                    proof {
                        lemma_block_entry(self@, i as int);
                    }
                    Option::Some(&self.blocks[i])
                },
                Option::None => Option::None,
            },
            Option::None => Option::None,
        }
    }
}

/// `field_index` is either absence or a position inside the list.
proof fn lemma_field_index_range(cs: Seq<BlockContentView>, fid: Seq<char>)
    ensures
        -1 <= field_index(cs, fid) < cs.len(),
    decreases cs.len(),
{
    if cs.len() > 0 && cs[0].id != fid {
        lemma_field_index_range(cs.drop_first(), fid);
    }
}

/// A position carrying the first match determines `field_index`.
proof fn lemma_field_index_at(cs: Seq<BlockContentView>, fid: Seq<char>, j: int)
    requires
        0 <= j < cs.len(),
        cs[j].id == fid,
        forall|k: int| 0 <= k < j ==> (#[trigger] cs[k]).id != fid,
    ensures
        field_index(cs, fid) == j,
    decreases j,
{
    if j > 0 {
        assert(cs[0].id != fid);
        assert(cs.drop_first()[j - 1] == cs[j]);
        assert forall|k: int| 0 <= k < j - 1 implies (#[trigger] cs.drop_first()[k]).id != fid by {
            assert(cs.drop_first()[k] == cs[k + 1]);
        }
        lemma_field_index_at(cs.drop_first(), fid, j - 1);
    }
}

/// With no match anywhere, `field_index` reports absence.
proof fn lemma_field_index_missing(cs: Seq<BlockContentView>, fid: Seq<char>)
    requires
        forall|k: int| 0 <= k < cs.len() ==> (#[trigger] cs[k]).id != fid,
    ensures
        field_index(cs, fid) == -1,
    decreases cs.len(),
{
    if cs.len() > 0 {
        assert forall|k: int|
            0 <= k < cs.drop_first().len() implies (#[trigger] cs.drop_first()[k]).id != fid by {
            assert(cs.drop_first()[k] == cs[k + 1]);
        }
        lemma_field_index_missing(cs.drop_first(), fid);
    }
}

/// Instantiating from a known template always hands out a distinct id: two
/// successful instantiations in sequence return different ids, because each
/// returns the fresh counter and the counter only grows.
pub proof fn lemma_instantiate_ids_distinct(
    s0: StoreView,
    s1: StoreView,
    s2: StoreView,
    n1: Seq<char>,
    x1: i64,
    y1: i64,
    n2: Seq<char>,
    x2: i64,
    y2: i64,
    id1: u64,
    id2: u64,
)
    requires
        add_block_post(s0, s1, n1, x1, y1, Option::Some(id1)),
        add_block_post(s1, s2, n2, x2, y2, Option::Some(id2)),
    ensures
        id1 != id2,
{
}

/// Starting a drag while one is active silently replaces the token: exactly
/// the newly dragged id is excluded from the normal render pass afterwards,
/// whatever token was set before.
pub proof fn lemma_drag_replacement(pre: StoreView, post: StoreView, id: u64, ox: i64, oy: i64)
    requires
        begin_drag_post(pre, post, id, ox, oy),
    ensures
        post.dragging == Option::Some(DragToken { id: id, offset_x: ox, offset_y: oy }),
        forall|j: int| 0 <= j < post.visible().len() ==> (#[trigger] post.visible()[j]).id != id,
        forall|k: int|
            0 <= k < post.blocks.len() && (#[trigger] post.blocks[k]).id != id
                ==> post.visible().contains(post.blocks[k]),
{
    let t = DragToken { id: id, offset_x: ox, offset_y: oy };
    assert forall|j: int|
        0 <= j < post.visible().len() implies (#[trigger] post.visible()[j]).id != id by {
        post.blocks.lemma_filter_pred(drag_filter(t), j);
    }
    assert forall|k: int|
        0 <= k < post.blocks.len() && (#[trigger] post.blocks[k]).id != id implies
        post.visible().contains(post.blocks[k]) by {
        post.blocks.lemma_filter_contains(drag_filter(t), k);
    }
}

/// Editing a value field touches only that field's value: every other
/// content entry, and the block's identity, position and size, are exactly
/// what they were.
pub proof fn lemma_edit_touches_only_target(b: BlockView, fid: Seq<char>, text: Seq<char>)
    ensures
        with_field_value(b, fid, text).id == b.id,
        with_field_value(b, fid, text).position == b.position,
        with_field_value(b, fid, text).size == b.size,
        with_field_value(b, fid, text).content.len() == b.content.len(),
        forall|k: int|
            0 <= k < b.content.len() && k != field_index(b.content, fid)
                ==> with_field_value(b, fid, text).content[k] == b.content[k],
        forall|k: int|
            0 <= k < b.content.len() ==> (#[trigger] with_field_value(
                b,
                fid,
                text,
            ).content[k]).id == b.content[k].id,
{
    lemma_field_index_range(b.content, fid);
}

} // verus!
