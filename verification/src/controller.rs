//! The drag interaction controller: a state machine over Idle (no drag
//! token) and Dragging (one token). Pointer-downs start a drag — on a
//! palette template by stamping a fresh instance first — pointer moves
//! reposition the dragged instance, and any pointer-up ends the drag.

use vstd::prelude::*;

use crate::store::{
    add_block_post, begin_drag_post, instantiated_view, set_position_post, AppState, DragToken,
    StoreView,
};

verus! {

/// Horizontal offset of the canvas origin from the page origin: the palette
/// column standing to the left of the canvas. Template-originated drags
/// correct page coordinates by it.
pub const CANVAS_ORIGIN_X: i64 = 250;

/// The pointer position stays in machine range once the active token's grab
/// offset is subtracted.
pub open spec fn move_in_range(d: Option<DragToken>, page_x: i64, page_y: i64) -> bool {
    match d {
        Option::Some(t) => {
            &&& i64::MIN <= page_x - t.offset_x <= i64::MAX
            &&& i64::MIN <= page_y - t.offset_y <= i64::MAX
        },
        Option::None => true,
    }
}

/// A canvas-root pointer move. While a token is set, the dragged instance's
/// position becomes the pointer position minus the grab offset, applied
/// immediately and unconditionally — there is no movement threshold. With no
/// token set, nothing happens.
pub fn pointer_move(state: &mut AppState, page_x: i64, page_y: i64)
    requires
        old(state).wf(),
        move_in_range(old(state)@.dragging, page_x, page_y),
    ensures
        final(state).wf(),
        match old(state)@.dragging {
            Option::Some(t) => set_position_post(
                old(state)@,
                final(state)@,
                t.id,
                (page_x - t.offset_x) as i64,
                (page_y - t.offset_y) as i64,
            ),
            Option::None => final(state)@ == old(state)@,
        },
{
    match state.dragging() {
        Option::Some(t) => {
            let block_x = page_x - t.offset_x;
            let block_y = page_y - t.offset_y;
            state.update_block_position(t.id, block_x, block_y);
        },
        Option::None => {},
    }
}

/// A canvas-root pointer up: the token is cleared unconditionally and the
/// dragged instance's last written position becomes final — a drag cannot be
/// aborted back to where it started.
pub fn pointer_up(state: &mut AppState)
    requires
        old(state).wf(),
    ensures
        final(state).wf(),
        final(state)@.dragging is None,
        final(state)@.templates == old(state)@.templates,
        final(state)@.blocks == old(state)@.blocks,
        final(state)@.next_id == old(state)@.next_id,
{
    state.end_drag();
}

/// A pointer-down on a live instance: the pointer's position relative to the
/// instance's own box becomes the grab offset, and the instance collection
/// is untouched. Any earlier token is silently replaced.
pub fn press_block(state: &mut AppState, id: u64, offset_x: i64, offset_y: i64)
    requires
        old(state).wf(),
    ensures
        final(state).wf(),
        begin_drag_post(old(state)@, final(state)@, id, offset_x, offset_y),
{
    state.begin_drag(id, offset_x, offset_y);
}

/// What a pointer-down on a palette template changes: on a known name a
/// fresh instance is stamped at the origin-corrected pointer position and
/// grabbed at its top-left; on an unknown name nothing is stamped and any
/// active token is cleared.
pub open spec fn press_template_post(
    pre: StoreView,
    post: StoreView,
    name: Seq<char>,
    page_x: i64,
    page_y: i64,
    r: Option<u64>,
) -> bool {
    &&& post.templates == pre.templates
    &&& (r is Some <==> pre.has_template(name))
    &&& match r {
        Option::Some(id) => {
            &&& id == pre.next_id
            &&& post.next_id == pre.next_id + 1
            &&& !pre.has_block(id)
            &&& post.blocks == pre.blocks.push(
                instantiated_view(
                    pre.template_at(name).block,
                    id,
                    (page_x - CANVAS_ORIGIN_X) as i64,
                    page_y,
                ),
            )
            &&& post.dragging == Option::Some(DragToken { id: id, offset_x: 0, offset_y: 0 })
        },
        Option::None => {
            &&& post.blocks == pre.blocks
            &&& post.next_id == pre.next_id
            &&& post.dragging is None
        },
    }
}

/// A pointer-down on a palette template entry.
pub fn press_template(state: &mut AppState, name: &str, page_x: i64, page_y: i64) -> (r: Option<
    u64,
>)
    requires
        old(state).wf(),
        old(state)@.next_id < u64::MAX,
        page_x >= i64::MIN + CANVAS_ORIGIN_X,
    ensures
        final(state).wf(),
        press_template_post(old(state)@, final(state)@, name@, page_x, page_y, r),
{
    let r = state.add_block(name, page_x - CANVAS_ORIGIN_X, page_y);
    match r {
        Option::Some(id) => state.begin_drag(id, 0, 0),
        Option::None => state.end_drag(),
    }
    r
}

} // verus!
