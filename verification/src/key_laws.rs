use vstd::prelude::*;

use crate::input::{first_pressed, requested_output_of, seek_key_of, KeyInput, SeekKey};
use crate::previewer::PreviewerModel;

verus! {

/// The number row is read in keyboard order: when key `i` is pressed and
/// no key before it, `i` is the output asked for.
pub proof fn lemma_first_pressed_is_first(keys: Seq<bool>, from: int, i: int)
    requires
        0 <= from <= i < keys.len(),
        keys[i],
        forall|j: int| from <= j < i ==> !keys[j],
    ensures
        first_pressed(keys, from) == i,
    decreases i - from,
{
    if from < i {
        lemma_first_pressed_is_first(keys, from + 1, i);
    }
}

/// With no number-row key pressed no output is asked for.
pub proof fn lemma_none_pressed(keys: Seq<bool>, from: int)
    requires
        0 <= from,
        forall|j: int| from <= j < keys.len() ==> !keys[j],
    ensures
        first_pressed(keys, from) == -1,
    decreases keys.len() - from,
{
    if from < keys.len() {
        lemma_none_pressed(keys, from + 1);
    }
}

/// The seek keys, by the keys pressed: `ArrowLeft`/`H` before
/// `ArrowRight`/`L` before `ArrowUp`/`K` before `ArrowDown`/`J`.
pub proof fn lemma_seek_keys(input: KeyInput)
    ensures
        input.arrow_left || input.h ==> seek_key_of(input) == SeekKey::PreviousFrame,
        !input.arrow_left && !input.h && (input.arrow_right || input.l) ==> seek_key_of(input)
            == SeekKey::NextFrame,
        !input.arrow_left && !input.h && !input.arrow_right && !input.l && (input.arrow_up
            || input.k) ==> seek_key_of(input) == SeekKey::BackOneSecond,
        !input.arrow_left && !input.h && !input.arrow_right && !input.l && !input.arrow_up
            && !input.k && (input.arrow_down || input.j) ==> seek_key_of(input)
            == SeekKey::ForwardOneSecond,
        !input.arrow_left && !input.h && !input.arrow_right && !input.l && !input.arrow_up
            && !input.k && !input.arrow_down && !input.j ==> seek_key_of(input) == SeekKey::NoSeek,
{
}

/// What the seek keys do to the current frame `c` of an output with `n`
/// frames (last frame `n - 1`) and framerate `r`, with no modifier held:
/// left/H steps one frame back, right/L one forward, up/K one second back,
/// down/J one second forward, each kept within `0..n`; the frame left
/// behind becomes the output's last frame, the output stays, and a render
/// is asked for exactly when the frame moved.
pub proof fn lemma_seek_moves_frame<F, R>(m: PreviewerModel<F, R>, input: KeyInput)
    requires
        m.wf(),
        m.can_seek(input),
        input.no_modifiers,
    ensures
        ({
            let cur = m.state.cur_output;
            let c = m.state.cur_frame_no as int;
            let n = m.outputs[cur].node_info.num_frames as int;
            let r = m.outputs[cur].node_info.framerate as int;
            let (m2, render) = m.seek_stepped(input);
            let f = m2.state.cur_frame_no as int;
            &&& (input.arrow_left || input.h) ==> f == (if c == 0 {
                0
            } else if c - 1 > n - 1 {
                n - 1
            } else {
                c - 1
            })
            &&& (!input.arrow_left && !input.h && (input.arrow_right || input.l)) ==> f == (if c
                < n - 1 {
                c + 1
            } else {
                n - 1
            })
            &&& (!input.arrow_left && !input.h && !input.arrow_right && !input.l && (input.arrow_up
                || input.k)) ==> f == (if c < r {
                0
            } else if c - r > n - 1 {
                n - 1
            } else {
                c - r
            })
            &&& (!input.arrow_left && !input.h && !input.arrow_right && !input.l && !input.arrow_up
                && !input.k && (input.arrow_down || input.j)) ==> f == (if c + r > n - 1 {
                n - 1
            } else {
                c + r
            })
            &&& (!input.arrow_left && !input.h && !input.arrow_right && !input.l && !input.arrow_up
                && !input.k && !input.arrow_down && !input.j) ==> f == (if c > n - 1 {
                n - 1
            } else {
                c
            })
            &&& 0 <= f < n
            &&& render == (f != c)
            &&& m2.state.cur_output == cur
            &&& m2.outputs.dom() == m.outputs.dom()
            &&& m2.outputs[cur].last_frame_no == c
            &&& m2.outputs[cur].node_info == m.outputs[cur].node_info
            &&& forall|k: i32| #[trigger] m.outputs.contains_key(k) && k != cur ==> m2.outputs[k]
                == m.outputs[k]
        }),
{
    lemma_seek_keys(input);
    let (m2, render) = m.seek_stepped(input);
    assert(m2.outputs.dom() =~= m.outputs.dom());
}

/// With a modifier held the seek keys change nothing and ask for nothing.
pub proof fn lemma_seek_needs_no_modifier<F, R>(m: PreviewerModel<F, R>, input: KeyInput)
    requires
        !input.no_modifiers,
    ensures
        m.seek_stepped(input).0 == m,
        !m.seek_stepped(input).1,
{
}

/// The number row with no modifier held: when key `i` (index `i` of the
/// row: `1`, ..., `9`, `0`) is the first pressed and output `i` exists,
/// output `i` becomes current, and a render is asked for exactly when it
/// was last shown at another frame than the output left; when output `i`
/// does not exist, or no key of the row is pressed, nothing changes.
pub proof fn lemma_number_row_selects_output<F, R>(m: PreviewerModel<F, R>, input: KeyInput, i: int)
    requires
        m.wf(),
        input.no_modifiers,
        0 <= i < 10,
        input.number_row@[i],
        forall|j: int| 0 <= j < i ==> !input.number_row@[j],
    ensures
        m.outputs.contains_key(i as i32) ==> {
            let (m2, render) = m.output_stepped(input);
            &&& m2.state.cur_output == i
            &&& m2.state.cur_frame_no == m.state.cur_frame_no
            &&& m2.outputs == m.outputs
            &&& render == (m.outputs[m.state.cur_output].last_frame_no != m.outputs[i as i32].last_frame_no)
        },
        !m.outputs.contains_key(i as i32) ==> m.output_stepped(input) == (m, false),
{
    assert(input.number_row@.len() == 10);
    lemma_first_pressed_is_first(input.number_row@, 0, i);
    assert(requested_output_of(input) == i);
}

/// With no key of the number row pressed, or a modifier held, the output
/// does not change and no render is asked for.
pub proof fn lemma_number_row_idle<F, R>(m: PreviewerModel<F, R>, input: KeyInput)
    requires
        !input.no_modifiers || forall|j: int| 0 <= j < 10 ==> !input.number_row@[j],
    ensures
        m.output_stepped(input) == (m, false),
{
    if input.no_modifiers {
        assert(input.number_row@.len() == 10);
        lemma_none_pressed(input.number_row@, 0);
    }
}

/// A frame's key presses, seek then output switch: the output picked on
/// the number row becomes current, and a render is wanted when the seek
/// moved the frame or when the picked output was last shown at another
/// frame than the one the current output is left at.
pub proof fn lemma_keys_ask_for_render<F, R>(m: PreviewerModel<F, R>, input: KeyInput, i: int)
    requires
        m.wf(),
        m.can_seek(input),
        input.no_modifiers,
        0 <= i < 10,
        input.number_row@[i],
        forall|j: int| 0 <= j < i ==> !input.number_row@[j],
        m.outputs.contains_key(i as i32),
    ensures
        ({
            let m2 = m.keys_handled(input);
            let cur = m.state.cur_output;
            let c = m.state.cur_frame_no;
            let picked_last = if i as i32 == cur { c } else { m.outputs[i as i32].last_frame_no };
            &&& m2.state.cur_output == i
            &&& c != picked_last ==> m2.rerender
            &&& m2.state.cur_frame_no != c ==> m2.rerender
            &&& !m2.rerender ==> m2.state.cur_frame_no == c && c == picked_last
        }),
{
    let (m1, seek_render) = m.seek_stepped(input);
    lemma_seek_moves_frame(m, input);
    lemma_number_row_selects_output(m1, input, i);
}

/// Keys that neither seek nor pick an output, with the frame inside the
/// output, change nothing and want no render.
pub proof fn lemma_idle_keys_want_nothing<F, R>(m: PreviewerModel<F, R>, input: KeyInput)
    requires
        m.wf(),
        m.can_seek(input),
        input.no_modifiers,
        !input.arrow_left && !input.h && !input.arrow_right && !input.l && !input.arrow_up
            && !input.k && !input.arrow_down && !input.j,
        forall|j: int| 0 <= j < 10 ==> !input.number_row@[j],
        m.state.cur_frame_no < m.outputs[m.state.cur_output].node_info.num_frames,
    ensures
        !m.keys_handled(input).rerender,
        m.keys_handled(input).state == m.state,
{
    let (m1, seek_render) = m.seek_stepped(input);
    lemma_seek_moves_frame(m, input);
    lemma_number_row_idle(m1, input);
}

/// Q or Escape closes the previewer in every frame, drawn or not; the
/// reload key and the keys count only in a frame whose drawn frame takes
/// input.
pub proof fn lemma_frame_end_keys<F, R>(
    m: PreviewerModel<F, R>,
    key: i32,
    drawn: bool,
    keys: KeyInput,
    view_changed: bool,
    reload_slot: R,
    slot: F,
)
    ensures
        ({
            let (m2, end) = m.frame_ended(key, drawn, keys, view_changed, reload_slot, slot);
            &&& end.quit == (keys.q || keys.escape)
            &&& end.input_taken == (drawn && !m.rerender && m.replace_frame_promise is None)
            &&& end.reload == (end.input_taken && keys.r)
            &&& end.reload ==> m2.reload_data == Some(reload_slot)
            &&& !end.input_taken ==> m2 == m && end.render is None
        }),
{
}

/// Which frame is drawn for output `key`: none while a reload is in flight
/// or when `key` is not an output; none when the output was last shown at
/// another frame than the output rendered last (its new frame is still to
/// be rendered); otherwise the output's own frame.
pub proof fn lemma_frame_to_show_cases<F, R>(m: PreviewerModel<F, R>, key: i32)
    ensures
        m.reload_data is Some ==> m.frame_to_show(key) is None,
        !m.outputs.contains_key(key) ==> m.frame_to_show(key) is None,
        m.outputs.contains_key(key) && m.outputs[key].last_frame_no
            != m.outputs[m.last_output_key].last_frame_no ==> m.frame_to_show(key) is None,
        m.reload_data is None && m.outputs.contains_key(key) && m.outputs[key].last_frame_no
            == m.outputs[m.last_output_key].last_frame_no ==> m.frame_to_show(key)
            == m.outputs[key].frame_promise,
{
}

/// Switching to an output last shown at another frame hides the frame
/// until the new render is installed.
pub proof fn lemma_switch_waits_for_render<F, R>(m: PreviewerModel<F, R>, input: KeyInput, i: int)
    requires
        m.wf(),
        input.no_modifiers,
        0 <= i < 10,
        input.number_row@[i],
        forall|j: int| 0 <= j < i ==> !input.number_row@[j],
        m.outputs.contains_key(i as i32),
        m.outputs[i as i32].last_frame_no != m.outputs[m.last_output_key].last_frame_no,
    ensures
        m.output_stepped(input).0.frame_to_show(i as i32) is None,
{
    lemma_number_row_selects_output(m, input, i);
}

} // verus!
