use blockboard::controller::{pointer_move, pointer_up, press_block, press_template};
use blockboard::model::{
    Block, BlockContent, BlockType, Connection, ContentSelector, ContentValue, EnumBlockContent,
    Options, Position, Size,
};
use blockboard::seed::seed_templates;
use blockboard::store::{AppState, BlockList};

fn value_field(id: &str, title: &str, value: &str) -> BlockContent {
    BlockContent {
        id: id.to_string(),
        content: EnumBlockContent::ContentValue(ContentValue {
            title: title.to_string(),
            value: value.to_string(),
            placeholder: None,
        }),
    }
}

fn template(name: &str, content: Vec<BlockContent>) -> BlockList {
    BlockList {
        name: name.to_string(),
        block: Block {
            id: 0,
            block_type: BlockType::Move,
            title: "Move".to_string(),
            output: String::new(),
            content,
            connection: Connection::Both,
            child_id: None,
            parent_id: None,
            position: Position { x: 0, y: 0 },
            size: Size { width: 150, height: 60 },
            z_index: 0,
        },
    }
}

#[test]
fn instantiate_yields_distinct_ids() {
    let mut state = AppState::default();
    state.add_block_list(template("t", Vec::new()));
    let mut ids = Vec::new();
    for k in 0..10 {
        let id = state.add_block("t", k, k).expect("known template");
        ids.push(id);
    }
    for a in 0..ids.len() {
        for b in 0..ids.len() {
            if a != b {
                assert_ne!(ids[a], ids[b]);
            }
        }
    }
    assert_eq!(state.get_all_blocks().len(), 10);
}

#[test]
fn unknown_template_returns_none_and_changes_nothing() {
    let mut state = AppState::default();
    state.add_block_list(template("t", Vec::new()));
    state.add_block("t", 1, 2).expect("known template");
    let before: Vec<Block> = state.get_all_blocks().into_iter().cloned().collect();
    let r = state.add_block("missing", 5, 5);
    assert!(r.is_none());
    let after: Vec<Block> = state.get_all_blocks().into_iter().cloned().collect();
    assert_eq!(before, after);
}

#[test]
fn instantiate_copies_prototype_and_positions_it() {
    let mut state = AppState::default();
    state.add_block_list(template("t", vec![value_field("f", "F", "seed")]));
    let id = state.add_block("t", 30, 40).expect("known template");
    let block = state.get_block(id).expect("instantiated");
    assert_eq!(block.id, id);
    assert_eq!(block.position, Position { x: 30, y: 40 });
    assert_eq!(block.size, Size { width: 150, height: 60 });
    assert_eq!(block.content.len(), 1);
    // The instance holds a copy: editing it leaves the template alone.
    state.update_block_content(id, "f", "changed");
    let proto = state.get_block_list("t").expect("registered");
    match &proto.block.content[0].content {
        EnumBlockContent::ContentValue(cv) => assert_eq!(cv.value, "seed"),
        _ => panic!("expected a value field"),
    }
}

#[test]
fn set_position_on_absent_id_is_noop() {
    let mut state = AppState::default();
    state.add_block_list(template("t", Vec::new()));
    let id = state.add_block("t", 1, 1).expect("known template");
    let before: Vec<Block> = state.get_all_blocks().into_iter().cloned().collect();
    state.update_block_position(id + 1000, 77, 77);
    let after: Vec<Block> = state.get_all_blocks().into_iter().cloned().collect();
    assert_eq!(before.len(), after.len());
    assert_eq!(before, after);
}

#[test]
fn second_drag_replaces_token() {
    let mut state = AppState::default();
    state.add_block_list(template("t", Vec::new()));
    let first = state.add_block("t", 0, 0).expect("known template");
    let second = state.add_block("t", 10, 10).expect("known template");
    press_block(&mut state, first, 1, 1);
    press_block(&mut state, second, 2, 2);
    let token = state.dragging().expect("a drag is active");
    assert_eq!(token.id, second);
    assert_eq!((token.offset_x, token.offset_y), (2, 2));
    // Only the latest id is excluded from the normal render pass.
    let visible = state.visible_blocks();
    assert_eq!(visible.len(), 1);
    assert_eq!(visible[0].id, first);
    let overlay = state.overlay_block().expect("dragged block is live");
    assert_eq!(overlay.id, second);
}

#[test]
fn end_to_end_drag_scenario() {
    let mut state = AppState::default();
    state.add_block_list(template("t1", Vec::new()));
    let id = state.add_block("t1", 10, 10).expect("known template");
    assert_eq!(state.get_block(id).unwrap().position, Position { x: 10, y: 10 });
    state.begin_drag(id, 5, 5);
    pointer_move(&mut state, 100, 100);
    assert_eq!(state.get_block(id).unwrap().position, Position { x: 95, y: 95 });
    pointer_up(&mut state);
    assert!(state.dragging().is_none());
    assert_eq!(state.get_block(id).unwrap().position, Position { x: 95, y: 95 });
}

#[test]
fn pointer_move_without_token_is_noop() {
    let mut state = AppState::default();
    state.add_block_list(template("t", Vec::new()));
    let id = state.add_block("t", 3, 4).expect("known template");
    pointer_move(&mut state, 500, 500);
    assert_eq!(state.get_block(id).unwrap().position, Position { x: 3, y: 4 });
}

#[test]
fn edit_updates_only_target_field() {
    let mut state = AppState::default();
    state.add_block_list(template(
        "t",
        vec![value_field("f1", "First", "one"), value_field("f2", "Second", "two")],
    ));
    let id = state.add_block("t", 7, 8).expect("known template");
    state.update_block_content(id, "f1", "edited");
    let block = state.get_block(id).expect("instantiated");
    match &block.content[0].content {
        EnumBlockContent::ContentValue(cv) => {
            assert_eq!(cv.value, "edited");
            assert_eq!(cv.title, "First");
        }
        _ => panic!("expected a value field"),
    }
    match &block.content[1].content {
        EnumBlockContent::ContentValue(cv) => assert_eq!(cv.value, "two"),
        _ => panic!("expected a value field"),
    }
    assert_eq!(block.position, Position { x: 7, y: 8 });
    assert_eq!(block.size, Size { width: 150, height: 60 });
}

#[test]
fn edit_selector_or_absent_field_is_noop() {
    let selector = BlockContent {
        id: "sel".to_string(),
        content: EnumBlockContent::ContentSelector(ContentSelector {
            title: "Choose".to_string(),
            value: "a".to_string(),
            options: vec![Options {
                id: "o1".to_string(),
                title: "A".to_string(),
                value: "a".to_string(),
            }],
            placeholder: None,
        }),
    };
    let mut state = AppState::default();
    state.add_block_list(template("t", vec![selector]));
    let id = state.add_block("t", 0, 0).expect("known template");
    let before: Vec<Block> = state.get_all_blocks().into_iter().cloned().collect();
    state.update_block_content(id, "sel", "b");
    state.update_block_content(id, "no-such-field", "b");
    state.update_block_content(id + 99, "sel", "b");
    let after: Vec<Block> = state.get_all_blocks().into_iter().cloned().collect();
    assert_eq!(before, after);
}

#[test]
fn remove_and_clear_are_idempotent() {
    let mut state = AppState::default();
    state.add_block_list(template("t", Vec::new()));
    let id = state.add_block("t", 0, 0).expect("known template");
    state.remove_block(id);
    assert!(state.get_block(id).is_none());
    state.remove_block(id);
    assert_eq!(state.get_all_blocks().len(), 0);
    state.add_block("t", 0, 0).expect("known template");
    state.clear_blocks();
    state.clear_blocks();
    assert_eq!(state.get_all_blocks().len(), 0);
    state.remove_block_list("t");
    state.remove_block_list("t");
    assert!(state.get_block_list("t").is_none());
    assert!(state.add_block("t", 0, 0).is_none());
    state.clear_block_list();
    assert_eq!(state.get_all_block_lists().len(), 0);
}

#[test]
fn removed_instance_id_is_not_reused() {
    let mut state = AppState::default();
    state.add_block_list(template("t", Vec::new()));
    let first = state.add_block("t", 0, 0).expect("known template");
    state.remove_block(first);
    let second = state.add_block("t", 0, 0).expect("known template");
    assert_ne!(first, second);
}

#[test]
fn palette_is_ordered_by_name() {
    let mut state = AppState::default();
    state.add_block_list(template("cherry", Vec::new()));
    state.add_block_list(template("apple", Vec::new()));
    state.add_block_list(template("banana", Vec::new()));
    let names: Vec<String> =
        state.get_all_block_lists().iter().map(|t| t.name.clone()).collect();
    assert_eq!(names, vec!["apple", "banana", "cherry"]);
    // Registering a present name overwrites instead of duplicating.
    let mut replacement = template("banana", Vec::new());
    replacement.block.z_index = 9;
    state.add_block_list(replacement);
    let names: Vec<String> =
        state.get_all_block_lists().iter().map(|t| t.name.clone()).collect();
    assert_eq!(names, vec!["apple", "banana", "cherry"]);
    assert_eq!(state.get_block_list("banana").unwrap().block.z_index, 9);
}

#[test]
fn press_template_stamps_and_grabs() {
    let mut state = AppState::default();
    state.add_block_list(template("t", Vec::new()));
    let id = press_template(&mut state, "t", 300, 40).expect("known template");
    let token = state.dragging().expect("drag started");
    assert_eq!(token.id, id);
    assert_eq!((token.offset_x, token.offset_y), (0, 0));
    // Page coordinates are corrected by the canvas origin.
    assert_eq!(state.get_block(id).unwrap().position, Position { x: 50, y: 40 });
}

#[test]
fn press_template_unknown_name_clears_token() {
    let mut state = AppState::default();
    state.add_block_list(template("t", Vec::new()));
    let id = state.add_block("t", 0, 0).expect("known template");
    press_block(&mut state, id, 1, 1);
    assert!(state.dragging().is_some());
    let r = press_template(&mut state, "missing", 300, 40);
    assert!(r.is_none());
    assert!(state.dragging().is_none());
    assert_eq!(state.get_all_blocks().len(), 1);
}

#[test]
fn overlay_is_empty_when_dragged_block_is_removed() {
    let mut state = AppState::default();
    state.add_block_list(template("t", Vec::new()));
    let id = state.add_block("t", 0, 0).expect("known template");
    press_block(&mut state, id, 0, 0);
    state.remove_block(id);
    assert!(state.overlay_block().is_none());
    // The stale token tolerates the race: a late move is a no-op.
    pointer_move(&mut state, 40, 40);
    assert_eq!(state.get_all_blocks().len(), 0);
}

#[test]
fn seeded_palette_holds_the_two_stock_templates() {
    let mut state = AppState::default();
    seed_templates(&mut state);
    let names: Vec<String> =
        state.get_all_block_lists().iter().map(|t| t.name.clone()).collect();
    assert_eq!(names, vec!["block_1", "block_2"]);
    let one = state.get_block_list("block_1").unwrap();
    assert_eq!(one.block.title, "Move");
    assert_eq!(one.block.block_type, BlockType::Move);
    assert_eq!(one.block.content.len(), 1);
    assert_eq!(one.block.content[0].id, "content1");
    match &one.block.content[0].content {
        EnumBlockContent::ContentValue(cv) => {
            assert_eq!(cv.title, "Input");
            assert_eq!(cv.value, "input");
            assert_eq!(cv.placeholder.as_deref(), Some("Enter input"));
        }
        _ => panic!("expected a value field"),
    }
    let two = state.get_block_list("block_2").unwrap();
    assert!(two.block.content.is_empty());
    assert_eq!(two.block.z_index, 1);
}

#[test]
fn block_new_fills_defaults() {
    let b = Block::new(42, BlockType::Flag, "Start".to_string(), Position { x: 3, y: 4 });
    assert_eq!(b.id, 42);
    assert_eq!(b.block_type, BlockType::Flag);
    assert_eq!(b.title, "Start");
    assert_eq!(b.output, "");
    assert!(b.content.is_empty());
    assert_eq!(b.connection, Connection::Unlinked);
    assert_eq!(b.child_id, None);
    assert_eq!(b.parent_id, None);
    assert_eq!(b.position, Position { x: 3, y: 4 });
    assert_eq!(b.size, Size { width: 150, height: 60 });
    assert_eq!(b.z_index, 0);
}
