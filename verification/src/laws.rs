//! What holds of painting and of the backend's command handling, for every
//! input.

use vstd::prelude::*;
use crate::backend::BackendState;
use vstd::seq_lib::{
    lemma_seq_concat_contains_all_elements, lemma_seq_contains_after_push,
    lemma_seq_empty_contains_nothing,
};
use crate::canvas::{Fault, faults, faults_upto, painted_pixel, rect_faults, row_faults};
use crate::command::{Command, Draw, rects_of};
use crate::rect::{Rect, covers, in_rect, pixel_index};

verus! {

/// Whether every command of `commands` draws a rectangle.
pub open spec fn all_draw(commands: Seq<Command>) -> bool {
    forall|position: int| 0 <= position < commands.len() ==> (#[trigger] commands[position]) is Rect
}

/// The draw that a drawing command queues.
pub open spec fn draw_of(command: Command) -> Draw
    recommends
        command is Rect,
{
    Draw { rect: command->Rect_0, trace: command->Rect_1 }
}

/// The draws that a sequence of drawing commands queues, in order.
pub open spec fn draws_of(commands: Seq<Command>) -> Seq<Draw> {
    Seq::new(commands.len(), |position: int| draw_of(commands[position]))
}

/// Last write wins: where the rectangle at `position` has a pixel at `index`
/// and no later rectangle has one, the painted color is that rectangle's.
pub proof fn lemma_last_write_wins(rects: Seq<Rect>, width: int, index: int, position: int)
    requires
        0 <= position < rects.len(),
        covers(rects[position], width, index),
        forall|later: int| position < later < rects.len() ==> !covers(rects[later], width, index),
    ensures
        painted_pixel(rects, width, index) == rects[position].color,
    decreases rects.len(),
{
    if position < rects.len() - 1 {
        lemma_last_write_wins(rects.drop_last(), width, index, position);
    }
}

/// Where no rectangle has a pixel at `index`, the background value stays.
pub proof fn lemma_untouched_is_background(rects: Seq<Rect>, width: int, index: int)
    requires
        forall|position: int| 0 <= position < rects.len() ==> !covers(rects[position], width, index),
    ensures
        painted_pixel(rects, width, index) == 0,
    decreases rects.len(),
{
    if rects.len() > 0 {
        lemma_untouched_is_background(rects.drop_last(), width, index);
    }
}

/// Drawing commands are queued in the order in which they are applied,
/// behind what was pending before.
pub proof fn lemma_draws_queue_in_order(state: BackendState, commands: Seq<Command>)
    requires
        all_draw(commands),
    ensures
        state.after_all(commands) == (BackendState {
            pending: state.pending + draws_of(commands),
            ..state
        }),
    decreases commands.len(),
{
    if commands.len() == 0 {
        assert(state.pending + draws_of(commands) == state.pending);
    } else {
        let front = commands.drop_last();
        lemma_draws_queue_in_order(state, front);
        assert(commands.last() is Rect);
        assert((state.pending + draws_of(front)).push(draw_of(commands.last())) == state.pending
            + draws_of(commands));
    }
}

/// Order preservation: after a run of drawing commands on a backend with
/// nothing pending, a render shows at each position of the buffer the color
/// of the last of those commands with a pixel there.
pub proof fn lemma_render_shows_last_draw(
    state: BackendState,
    commands: Seq<Command>,
    index: int,
    position: int,
)
    requires
        state.pending.len() == 0,
        all_draw(commands),
        0 <= index < state.width * state.height,
        0 <= position < commands.len(),
        covers(commands[position]->Rect_0, state.width as int, index),
        forall|later: int|
            position < later < commands.len() ==> !covers(
                (#[trigger] commands[later])->Rect_0,
                state.width as int,
                index,
            ),
    ensures
        state.after_all(commands).pixels()[index] == (commands[position]->Rect_0).color,
{
    lemma_draws_queue_in_order(state, commands);
    assert(state.pending + draws_of(commands) == draws_of(commands));
    let rects = rects_of(draws_of(commands));
    assert forall|later: int| position < later < rects.len() implies !covers(
        rects[later],
        state.width as int,
        index,
    ) by {
        assert(rects[later] == commands[later]->Rect_0);
    }
    lemma_last_write_wins(rects, state.width as int, index, position);
}

/// After a run of drawing commands on a backend with nothing pending, a
/// render shows the background value wherever none of them has a pixel.
pub proof fn lemma_render_keeps_background(state: BackendState, commands: Seq<Command>, index: int)
    requires
        state.pending.len() == 0,
        all_draw(commands),
        0 <= index < state.width * state.height,
        forall|position: int|
            0 <= position < commands.len() ==> !covers(
                (#[trigger] commands[position])->Rect_0,
                state.width as int,
                index,
            ),
    ensures
        state.after_all(commands).pixels()[index] == 0,
{
    lemma_draws_queue_in_order(state, commands);
    assert(state.pending + draws_of(commands) == draws_of(commands));
    let rects = rects_of(draws_of(commands));
    assert forall|position: int| 0 <= position < rects.len() implies !covers(
        rects[position],
        state.width as int,
        index,
    ) by {
        assert(rects[position] == commands[position]->Rect_0);
    }
    lemma_untouched_is_background(rects, state.width as int, index);
}

/// Render is destructive: whatever was pending, the render that follows a
/// render request, with no draw in between, is all background.
pub proof fn lemma_render_after_render_is_blank(state: BackendState, request: Command, index: int)
    requires
        request is Render,
        0 <= index < state.width * state.height,
    ensures
        state.after(request).pending.len() == 0,
        state.after(request).pixels().len() == state.width * state.height,
        state.after(request).pixels()[index] == 0,
{
    assert(rects_of(Seq::<Draw>::empty()).len() == 0);
}

/// A rectangle whose columns all lie on the canvas covers exactly the
/// positions of the pixels inside it: those in its rows and columns.
pub proof fn lemma_covers_is_containment(rect: Rect, width: int, column: int, row: int)
    requires
        rect.x + rect.width <= width,
        0 <= column < width,
    ensures
        covers(rect, width, row * width + column) <==> (rect.x <= column < rect.x + rect.width
            && rect.y <= row < rect.y + rect.height),
{
    let index = row * width + column;
    if rect.x <= column < rect.x + rect.width && rect.y <= row < rect.y + rect.height {
        assert(in_rect(rect, column - rect.x, row - rect.y));
        assert(pixel_index(rect, width, column - rect.x, row - rect.y) == index);
    }
    if covers(rect, width, index) {
        let (x_offset, y_offset) = choose|x_offset: int, y_offset: int|
            in_rect(rect, x_offset, y_offset) && #[trigger] pixel_index(
                rect,
                width,
                x_offset,
                y_offset,
            ) == index;
        lemma_same_position(width, rect.y + y_offset, rect.x + x_offset, row, column);
    }
}

/// A position in a row-major buffer determines its row and its column.
pub proof fn lemma_same_position(width: int, row: int, column: int, other_row: int, other_column: int)
    requires
        0 <= column < width,
        0 <= other_column < width,
        row * width + column == other_row * width + other_column,
    ensures
        row == other_row,
        column == other_column,
{
    assert(row == other_row) by (nonlinear_arith)
        requires
            0 <= column < width,
            0 <= other_column < width,
            row * width + column == other_row * width + other_column,
    {
        if row > other_row {
            assert((row - other_row) * width >= width);
        }
        if row < other_row {
            assert((other_row - row) * width >= width);
        }
    }
}

/// A rectangle with no pixel at `index` does not show there: the painted
/// color is what it would be had the rectangle never been drawn. So a
/// rectangle that misses the canvas, wholly or in part, spoils nothing of
/// what the others paint.
pub proof fn lemma_unseen_rect_changes_nothing(
    rects: Seq<Rect>,
    width: int,
    index: int,
    position: int,
)
    requires
        0 <= position < rects.len(),
        !covers(rects[position], width, index),
    ensures
        painted_pixel(rects.remove(position), width, index) == painted_pixel(rects, width, index),
    decreases rects.len(),
{
    if position == rects.len() - 1 {
        assert(rects.remove(position) == rects.drop_last());
    } else {
        lemma_unseen_rect_changes_nothing(rects.drop_last(), width, index, position);
        assert(rects.remove(position).drop_last() == rects.drop_last().remove(position));
        assert(rects.remove(position).last() == rects.last());
    }
}

/// Whether `fault` names a pixel of a rectangle of `rects` whose position,
/// in rows of `width` entries, is `len` or more.
pub open spec fn beyond_buffer(rects: Seq<Rect>, width: int, len: int, fault: Fault) -> bool {
    fault.source < rects.len() && in_rect(
        rects[fault.source as int],
        fault.x_offset as int,
        fault.y_offset as int,
    ) && pixel_index(
        rects[fault.source as int],
        width,
        fault.x_offset as int,
        fault.y_offset as int,
    ) >= len
}

/// Whether `fault` names a write that painting `rects` onto a canvas of
/// `width` by `height` pixels skips: a pixel of a rectangle of the list whose
/// position lies beyond the buffer.
pub open spec fn skipped_write(rects: Seq<Rect>, width: int, height: int, fault: Fault) -> bool {
    beyond_buffer(rects, width, width * height, fault)
}

/// The faults of the beginning of a row are the pixels of that beginning
/// whose position lies beyond the buffer.
proof fn lemma_row_faults_members(
    source: usize,
    rect: Rect,
    width: int,
    len: int,
    y_offset: u32,
    x_upto: nat,
    fault: Fault,
)
    requires
        x_upto <= rect.width,
    ensures
        row_faults(source, rect, width, len, y_offset, x_upto).contains(fault) <==> (fault.source
            == source && fault.y_offset == y_offset && fault.x_offset < x_upto && pixel_index(
            rect,
            width,
            fault.x_offset as int,
            y_offset as int,
        ) >= len),
    decreases x_upto,
{
    if x_upto == 0 {
        lemma_seq_empty_contains_nothing(fault);
    } else {
        let before = row_faults(source, rect, width, len, y_offset, (x_upto - 1) as nat);
        lemma_row_faults_members(source, rect, width, len, y_offset, (x_upto - 1) as nat, fault);
        let next = Fault { source, x_offset: (x_upto - 1) as u32, y_offset };
        lemma_seq_contains_after_push(before, next, fault);
    }
}

/// The faults of the first rows of a rectangle are the pixels of those rows
/// whose position lies beyond the buffer.
proof fn lemma_rect_faults_members(
    source: usize,
    rect: Rect,
    width: int,
    len: int,
    y_upto: nat,
    fault: Fault,
)
    requires
        y_upto <= rect.height,
    ensures
        rect_faults(source, rect, width, len, y_upto).contains(fault) <==> (fault.source == source
            && fault.y_offset < y_upto && fault.x_offset < rect.width && pixel_index(
            rect,
            width,
            fault.x_offset as int,
            fault.y_offset as int,
        ) >= len),
    decreases y_upto,
{
    if y_upto == 0 {
        lemma_seq_empty_contains_nothing(fault);
    } else {
        let before = rect_faults(source, rect, width, len, (y_upto - 1) as nat);
        let row = row_faults(source, rect, width, len, (y_upto - 1) as u32, rect.width as nat);
        lemma_rect_faults_members(source, rect, width, len, (y_upto - 1) as nat, fault);
        lemma_row_faults_members(
            source,
            rect,
            width,
            len,
            (y_upto - 1) as u32,
            rect.width as nat,
            fault,
        );
        lemma_seq_concat_contains_all_elements(before, row, fault);
    }
}

/// The faults of the first rectangles of a list are the skipped writes of
/// those rectangles.
proof fn lemma_faults_upto_members(
    rects: Seq<Rect>,
    width: int,
    len: int,
    upto: nat,
    fault: Fault,
)
    requires
        upto <= rects.len() <= usize::MAX,
    ensures
        faults_upto(rects, width, len, upto).contains(fault) <==> (fault.source < upto
            && beyond_buffer(rects, width, len, fault)),
    decreases upto,
{
    if upto == 0 {
        lemma_seq_empty_contains_nothing(fault);
    } else {
        let before = faults_upto(rects, width, len, (upto - 1) as nat);
        let rect = rects[upto - 1];
        let last = rect_faults((upto - 1) as usize, rect, width, len, rect.height as nat);
        lemma_faults_upto_members(rects, width, len, (upto - 1) as nat, fault);
        lemma_rect_faults_members(
            (upto - 1) as usize,
            rect,
            width,
            len,
            rect.height as nat,
            fault,
        );
        lemma_seq_concat_contains_all_elements(before, last, fault);
    }
}

/// The faults of a render are exactly its skipped writes: each names a
/// rectangle of the list and a pixel of it whose position lies beyond the
/// buffer, each such pixel is named, and so no fault is reported exactly
/// when every pixel of every rectangle has its place in the buffer.
pub proof fn lemma_faults_are_the_skipped_writes(rects: Seq<Rect>, width: int, height: int)
    requires
        rects.len() <= usize::MAX,
    ensures
        forall|fault: Fault| #[trigger]
            faults(rects, width, height).contains(fault) <==> skipped_write(
                rects,
                width,
                height,
                fault,
            ),
        faults(rects, width, height).len() == 0 <==> (forall|fault: Fault|
            !skipped_write(rects, width, height, fault)),
{
    let reported = faults(rects, width, height);
    assert forall|fault: Fault| #[trigger]
        reported.contains(fault) <==> skipped_write(rects, width, height, fault) by {
        lemma_faults_upto_members(rects, width, width * height, rects.len(), fault);
    }
    if reported.len() > 0 {
        assert(reported.contains(reported[0]));
    }
    if exists|fault: Fault| skipped_write(rects, width, height, fault) {
        let fault = choose|fault: Fault| skipped_write(rects, width, height, fault);
        assert(reported.contains(fault));
    }
}

} // verus!
