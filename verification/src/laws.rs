use vstd::prelude::*;

use crate::input::{seek_result, KeyInput, SeekKey};
use crate::outputs::{fallback_output, is_least_key, least_key};
use crate::previewer::{FrameEvents, NodeInfo, PreviewerModel, RenderRequest};

verus! {

/// After a reload finishes, the outputs are those of the script, the
/// current output is one of them, its frame is the frame the reload
/// rendered and is the one drawn, and the current frame number lies within
/// that output.
pub proof fn lemma_reload_shows_loaded_frame<F, R>(m: PreviewerModel<F, R>, infos: Map<i32, NodeInfo>, frame: F)
    requires
        infos.dom().finite(),
        m.can_finish_reload(infos),
    ensures
        ({
            let m2 = m.reload_finished(infos, frame);
            &&& m2.wf()
            &&& m2.outputs.dom() == infos.dom()
            &&& infos.contains_key(m2.state.cur_output)
            &&& infos.contains_key(m.state.cur_output) ==> m2.state.cur_output == m.state.cur_output
            &&& m2.current_frame() == Some(frame)
            &&& m2.frame_to_show(m2.state.cur_output) == Some(frame)
            &&& m2.state.cur_frame_no < infos[m2.state.cur_output].num_frames
            &&& m2.reload_data is None
            &&& !m.initialized && m.state.scale_to_window ==> m2.rerender
        }),
{
    lemma_fallback_is_key(infos.dom(), m.state.cur_output);
    let m2 = m.reload_finished(infos, frame);
    assert(m2.outputs.dom() =~= infos.dom());
}

/// The output picked when the wanted one is missing is a key of the set.
pub proof fn lemma_fallback_is_key(keys: Set<i32>, cur: i32)
    requires
        keys.finite(),
        !keys.is_empty(),
    ensures
        keys.contains(fallback_output(keys, cur)),
{
    if !keys.contains(cur) {
        lemma_least_exists(keys);
    }
}

/// A finite set of keys that is not empty has a smallest key.
pub proof fn lemma_least_exists(keys: Set<i32>)
    requires
        keys.finite(),
        !keys.is_empty(),
    ensures
        is_least_key(keys, least_key(keys)),
    decreases keys.len(),
{
    let x = keys.choose();
    let rest = keys.remove(x);
    if rest.is_empty() {
        assert forall|j: i32| #[trigger] keys.contains(j) implies x <= j by {
            assert(!rest.contains(j) ==> j == x);
        }
        assert(is_least_key(keys, x));
    } else {
        lemma_least_exists(rest);
        let y = least_key(rest);
        let w = if x < y { x } else { y };
        assert forall|j: i32| #[trigger] keys.contains(j) implies w <= j by {
            if j != x {
                assert(rest.contains(j));
            }
        }
        assert(is_least_key(keys, w));
    }
}

/// A render that finished for the output being shown is the frame drawn for
/// it, as soon as no reload is in flight.
pub proof fn lemma_finished_render_is_shown<F, R>(m: PreviewerModel<F, R>, key: i32)
    requires
        m.wf(),
        m.outputs.contains_key(key),
        m.replace_frame_promise is Some,
        m.reload_data is None,
    ensures
        ({
            let m2 = m.frame_replaced(true, key);
            &&& m2.wf()
            &&& m2.frame_to_show(key) == m.replace_frame_promise
            &&& m2.replace_frame_promise is None
            &&& m2.outputs.dom() == m.outputs.dom()
        }),
{
    let m2 = m.frame_replaced(true, key);
    assert(m2.outputs.dom() =~= m.outputs.dom());
}

/// At most one render job is in flight: a render starts only when none is
/// in flight, and a started render clears the wish for one.
pub proof fn lemma_one_render_job_at_a_time<F, R>(m: PreviewerModel<F, R>)
    ensures
        m.rerender_checked().1 is Some ==> m.replace_frame_promise is None,
        m.rerender_checked().1 is Some ==> !m.rerender_checked().0.rerender
            && !m.rerender_checked().0.reprocess,
        m.replace_frame_promise is Some ==> m.rerender_checked().1 is None,
{
}

/// After the view changes, the next render decision, with no job in
/// flight, starts a reprocess of the current output's frame and leaves
/// the current output no longer marked.
pub proof fn lemma_view_change_reprocesses_current<F, R>(m: PreviewerModel<F, R>)
    requires
        m.wf(),
        m.outputs.contains_key(m.state.cur_output),
        m.replace_frame_promise is None,
    ensures
        ({
            let (m2, req) = m.view_changed(true).rerender_checked();
            &&& req == Some(RenderRequest { reprocess: true, output: m.state.cur_output, frame_no: m.state.cur_frame_no })
            &&& !m2.outputs[m.state.cur_output].force_reprocess
            &&& forall|k: i32| #[trigger] m.outputs.contains_key(k) && k != m.state.cur_output
                ==> m2.outputs[k].force_reprocess
        }),
{
}

/// Every step but a reload keeps the outputs and their nodes, and keeps the
/// previewer well formed.
pub proof fn lemma_steps_keep_outputs<F, R>(m: PreviewerModel<F, R>, input: KeyInput, ready: bool, key: i32, changed: bool)
    requires
        m.wf(),
        m.can_seek(input),
        ready && m.replace_frame_promise is Some ==> m.outputs.contains_key(key),
        changed ==> !m.outputs.is_empty(),
    ensures
        m.keys_handled(input).wf(),
        m.keys_handled(input).outputs.dom() == m.outputs.dom(),
        forall|k: i32| #[trigger] m.outputs.contains_key(k) ==>
            m.keys_handled(input).outputs[k].node_info == m.outputs[k].node_info,
        m.frame_replaced(ready, key).wf(),
        m.frame_replaced(ready, key).outputs.dom() == m.outputs.dom(),
        m.rerender_checked().0.wf(),
        m.rerender_checked().0.outputs.dom() == m.outputs.dom(),
        m.view_changed(changed).wf(),
        m.view_changed(changed).outputs.dom() == m.outputs.dom(),
{
    assert(m.keys_handled(input).outputs.dom() =~= m.outputs.dom());
    assert(m.frame_replaced(ready, key).outputs.dom() =~= m.outputs.dom());
    assert(m.rerender_checked().0.outputs.dom() =~= m.outputs.dom());
    assert(m.view_changed(changed).outputs.dom() =~= m.outputs.dom());
}

/// A seek with no modifier held leaves the current frame within the
/// current output.
pub proof fn lemma_seek_stays_in_output<F, R>(m: PreviewerModel<F, R>, input: KeyInput)
    requires
        m.wf(),
        m.can_seek(input),
        input.no_modifiers,
    ensures
        ({
            let m2 = m.seek_stepped(input).0;
            m2.state.cur_frame_no < m2.outputs[m2.state.cur_output].node_info.num_frames
        }),
{
}

/// A key press that asks for a render leads, with no job in flight, to a
/// render of the frame and output that the keys moved to.
pub proof fn lemma_keys_lead_to_render<F, R>(m: PreviewerModel<F, R>, input: KeyInput)
    requires
        m.wf(),
        m.can_seek(input),
        m.replace_frame_promise is None,
        m.keys_handled(input).rerender,
    ensures
        ({
            let m2 = m.keys_handled(input);
            let req = m2.rerender_checked().1;
            &&& req is Some
            &&& req.unwrap().output == m2.state.cur_output
            &&& req.unwrap().frame_no == m2.state.cur_frame_no
        }),
{
}

/// With a modifier key held, key presses move nothing; they only clear
/// the wish for a render.
pub proof fn lemma_modifiers_block_keys<F, R>(m: PreviewerModel<F, R>, input: KeyInput)
    requires
        !input.no_modifiers,
    ensures
        m.keys_handled(input) == (PreviewerModel { rerender: false, ..m }),
{
}

/// One frame back, then one frame forward, returns to the frame started
/// from; so does one frame forward, then one back.
pub proof fn lemma_step_back_then_forward(frame: u32, num_frames: u32, framerate: u32)
    requires
        frame < num_frames,
    ensures
        frame > 0 ==> ({
            let back = seek_result(SeekKey::PreviousFrame, frame, num_frames, framerate);
            seek_result(SeekKey::NextFrame, back as u32, num_frames, framerate) == frame
        }),
        frame + 1 < num_frames ==> ({
            let fwd = seek_result(SeekKey::NextFrame, frame, num_frames, framerate);
            seek_result(SeekKey::PreviousFrame, fwd as u32, num_frames, framerate) == frame
        }),
{
}

/// The first half of a UI frame keeps the previewer well formed and keeps
/// the outputs unless a reload finished.
pub proof fn lemma_begin_frame_keeps_wf<F, R>(
    m: PreviewerModel<F, R>,
    key: i32,
    reloaded: Option<(Map<i32, NodeInfo>, F)>,
    replace_ready: bool,
    resized: bool,
    slot: F,
)
    requires
        m.wf(),
        m.can_begin_frame(key, reloaded, replace_ready),
        reloaded matches Some(e) ==> e.0.dom().finite(),
    ensures
        m.frame_begun(key, reloaded, replace_ready, resized, slot).0.wf(),
        reloaded is None ==> m.frame_begun(key, reloaded, replace_ready, resized, slot).0.outputs.dom() == m.outputs.dom(),
{
    let m1 = m.reload_taken(reloaded);
    match reloaded {
        Some(e) => {
            lemma_reload_shows_loaded_frame(m, e.0, e.1);
        },
        None => {},
    }
    assert(m1.wf());
    let (m2a, req) = m1.rerender_checked();
    assert(m2a.outputs.dom() =~= m1.outputs.dom());
    assert(m2a.wf());
    let (m2, req2) = m1.render_slot_used(slot);
    assert(m2.wf());
    assert(m2.outputs.dom() == m1.outputs.dom());
    let m3 = m2.frame_replaced(replace_ready, key);
    assert(m3.outputs.dom() =~= m2.outputs.dom());
    assert(m3.wf());
    let m4 = if resized { m3.all_marked_for_reprocess() } else { m3 };
    assert(m4.outputs.dom() =~= m3.outputs.dom());
}

/// The second half of a UI frame keeps the previewer well formed and its
/// outputs.
pub proof fn lemma_end_frame_keeps_wf<F, R>(
    m: PreviewerModel<F, R>,
    key: i32,
    drawn: bool,
    keys: KeyInput,
    view_changed: bool,
    reload_slot: R,
    slot: F,
)
    requires
        m.wf(),
        m.can_end_frame(key, drawn, keys),
    ensures
        m.frame_ended(key, drawn, keys, view_changed, reload_slot, slot).0.wf(),
        m.frame_ended(key, drawn, keys, view_changed, reload_slot, slot).0.outputs.dom() == m.outputs.dom(),
{
    if drawn && m.accepts_input() {
        assert(m.outputs.contains_key(key));
        let k = m.keys_handled(keys);
        assert(k.outputs.dom() =~= m.outputs.dom());
        lemma_steps_keep_outputs(m, keys, false, key, false);
        let m1 = k.view_changed(view_changed);
        assert(m1.outputs.dom() =~= k.outputs.dom());
        let m2 = if keys.r { m1.reload_started(reload_slot) } else { m1 };
        assert(m2.wf());
        let (m3a, req) = m2.rerender_checked();
        assert(m3a.outputs.dom() =~= m2.outputs.dom());
        let (m3, req2) = m2.render_slot_used(slot);
        assert(m3.wf());
    }
}

/// Every UI frame keeps the previewer well formed: before outputs load no
/// render is wanted or in flight, and after they load the current output
/// and the output rendered last are among them.
pub proof fn lemma_frame_keeps_wf<F, R>(m: PreviewerModel<F, R>, key: i32, ev: FrameEvents<F, R>)
    requires
        m.wf(),
        m.can_run_frame(key, ev),
        ev.reloaded matches Some(e) ==> e.0.dom().finite(),
    ensures
        m.ui_frame(key, ev).0.wf(),
{
    lemma_begin_frame_keeps_wf(m, key, ev.reloaded, ev.replace_ready, ev.resized, ev.first_render_slot);
    let m1 = m.frame_begun(key, ev.reloaded, ev.replace_ready, ev.resized, ev.first_render_slot).0;
    lemma_end_frame_keeps_wf(m1, key, ev.drawn, ev.keys, ev.view_changed, ev.reload_slot, ev.second_render_slot);
}

/// While a reload is in flight no frame is drawn and no key or mouse input
/// is taken: the current output and frame stay as they are.
pub proof fn lemma_no_input_while_reloading<F, R>(m: PreviewerModel<F, R>, key: i32, ev: FrameEvents<F, R>)
    requires
        m.wf(),
        m.can_run_frame(key, ev),
        m.reload_data is Some,
        ev.reloaded is None,
    ensures
        ({
            let (m2, start, end) = m.ui_frame(key, ev);
            &&& !start.frame_shown
            &&& !end.input_taken
            &&& !end.reload
            &&& end.render is None
            &&& m2.state == m.state
            &&& m2.reload_data == m.reload_data
        }),
{
}

/// Before outputs are loaded a UI frame starts nothing and takes no input:
/// no render is wanted, started or in flight, and no frame is drawn.
pub proof fn lemma_nothing_before_load<F, R>(m: PreviewerModel<F, R>, key: i32, ev: FrameEvents<F, R>)
    requires
        m.wf(),
        m.can_run_frame(key, ev),
        m.outputs.is_empty(),
        ev.reloaded is None,
    ensures
        ({
            let (m2, start, end) = m.ui_frame(key, ev);
            &&& start.render is None
            &&& !start.frame_shown
            &&& !end.input_taken
            &&& end.render is None
            &&& m2.outputs.is_empty()
            &&& !m2.rerender
            &&& m2.replace_frame_promise is None
            &&& m2.state == m.state
        }),
{
    let m1 = m.frame_begun(key, ev.reloaded, ev.replace_ready, ev.resized, ev.first_render_slot).0;
    assert(m1.outputs.dom() =~= m.outputs.dom());
}

/// A UI frame starts at most one render, and input is taken only when a
/// frame was drawn.
pub proof fn lemma_one_render_per_frame<F, R>(m: PreviewerModel<F, R>, key: i32, ev: FrameEvents<F, R>)
    requires
        m.wf(),
        m.can_run_frame(key, ev),
    ensures
        ({
            let (m2, start, end) = m.ui_frame(key, ev);
            &&& !(start.render is Some && end.render is Some)
            &&& end.input_taken ==> ev.drawn && start.frame_shown
        }),
{
}

} // verus!
