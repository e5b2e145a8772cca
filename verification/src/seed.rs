//! The startup palette: the two stock templates the editing surface offers,
//! registered into a store by the seeding step.

use vstd::prelude::*;

use crate::model::{
    Block, BlockContent, BlockContentView, BlockType, BlockView, Connection, ContentValue,
    ContentValueView, EnumBlockContent, EnumBlockContentView, Position, Size,
};
use crate::store::{AppState, BlockList, BlockListView};

verus! {

/// The first stock palette entry: a stackable Move block carrying one
/// editable value field.
pub open spec fn seed_entry_one() -> BlockListView {
    BlockListView {
        name: "block_1"@,
        block: BlockView {
            id: 0,
            block_type: BlockType::Move,
            title: "Move"@,
            output: "output"@,
            content: seq![
                BlockContentView {
                    id: "content1"@,
                    content: EnumBlockContentView::ContentValue(
                        ContentValueView {
                            title: "Input"@,
                            value: "input"@,
                            placeholder: Option::Some("Enter input"@),
                        },
                    ),
                },
            ],
            connection: Connection::Both,
            child_id: Option::None,
            parent_id: Option::None,
            position: Position { x: 0, y: 0 },
            size: Size { width: 150, height: 60 },
            z_index: 0,
        },
    }
}

/// The second stock palette entry: a stackable Move block with an empty
/// body, stacked one step above the first.
pub open spec fn seed_entry_two() -> BlockListView {
    BlockListView {
        name: "block_2"@,
        block: BlockView {
            id: 0,
            block_type: BlockType::Move,
            title: "Move"@,
            output: "output"@,
            content: Seq::<BlockContentView>::empty(),
            connection: Connection::Both,
            child_id: Option::None,
            parent_id: Option::None,
            position: Position { x: 0, y: 0 },
            size: Size { width: 150, height: 60 },
            z_index: 1,
        },
    }
}

/// Registers the two stock templates, leaving instances, the fresh-id
/// counter and the drag token alone. Every other registered name is kept.
pub fn seed_templates(state: &mut AppState)
    requires
        old(state).wf(),
    ensures
        final(state).wf(),
        final(state)@.has_template("block_1"@),
        final(state)@.has_template("block_2"@),
        final(state)@.template_at("block_1"@) == seed_entry_one(),
        final(state)@.template_at("block_2"@) == seed_entry_two(),
        forall|n: Seq<char>|
            n != "block_1"@ && n != "block_2"@ ==> #[trigger] final(state)@.has_template(n) == old(
                state,
            )@.has_template(n),
        final(state)@.blocks == old(state)@.blocks,
        final(state)@.next_id == old(state)@.next_id,
        final(state)@.dragging == old(state)@.dragging,
{
    proof {
        reveal_strlit("block_1");
        reveal_strlit("block_2");
        assert("block_1"@[6] != "block_2"@[6]);
        assert("block_1"@ != "block_2"@);
    }
    let mut content_one: Vec<BlockContent> = Vec::new();
    content_one.push(
        BlockContent {
            id: String::from_str("content1"),
            content: EnumBlockContent::ContentValue(
                ContentValue {
                    title: String::from_str("Input"),
                    value: String::from_str("input"),
                    placeholder: Option::Some(String::from_str("Enter input")),
                },
            ),
        },
    );
    let entry_one = BlockList {
        name: String::from_str("block_1"),
        block: Block {
            id: 0,
            block_type: BlockType::Move,
            title: String::from_str("Move"),
            output: String::from_str("output"),
            content: content_one,
            connection: Connection::Both,
            child_id: Option::None,
            parent_id: Option::None,
            position: Position { x: 0, y: 0 },
            size: Size { width: 150, height: 60 },
            z_index: 0,
        },
    };
    proof {
        assert(entry_one@ =~= seed_entry_one());
    }
    state.add_block_list(entry_one);
    let entry_two = BlockList {
        name: String::from_str("block_2"),
        block: Block {
            id: 0,
            block_type: BlockType::Move,
            title: String::from_str("Move"),
            output: String::from_str("output"),
            content: Vec::new(),
            connection: Connection::Both,
            child_id: Option::None,
            parent_id: Option::None,
            position: Position { x: 0, y: 0 },
            size: Size { width: 150, height: 60 },
            z_index: 1,
        },
    };
    proof {
        assert(entry_two@ =~= seed_entry_two());
    }
    state.add_block_list(entry_two);
}

} // verus!
