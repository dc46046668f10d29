use vstd::prelude::*;

use crate::filter::{resize_filter_of, PreviewFilterType, ResizeFilterType};
use crate::laws::{lemma_least_exists, lemma_reload_shows_loaded_frame};
use crate::outputs::fallback_output;
use crate::previewer::{NodeInfo, PreviewerModel, RenderRequest};

verus! {

/// Before anything is loaded nothing is loaded, wanted or in flight.
pub proof fn lemma_initial_is_idle<F, R>()
    ensures
        ({
            let m = PreviewerModel::<F, R>::initial();
            &&& m.wf()
            &&& m.outputs.is_empty()
            &&& m.reload_data is None
            &&& m.replace_frame_promise is None
            &&& !m.rerender
            &&& !m.reprocess
            &&& !m.initialized
            &&& m.current_frame() is None
        }),
{
}

/// A finished reload: the output wanted stays current when the script has
/// it, else the output with the smallest key becomes current; the frame
/// number is kept, or moved to the last frame of that output when it lies
/// past it; every output starts fresh (no frame, not marked, last frame 0)
/// with its node, except that the current one shows the reloaded frame;
/// the first reload of a window-scaled view wants a render, and nothing
/// else of the wish for a render or of the job in flight changes.
pub proof fn lemma_reload_details<F, R>(m: PreviewerModel<F, R>, infos: Map<i32, NodeInfo>, frame: F)
    requires
        infos.dom().finite(),
        m.can_finish_reload(infos),
    ensures
        ({
            let m2 = m.reload_finished(infos, frame);
            let c = m2.state.cur_output;
            let n = infos[c].num_frames;
            &&& !infos.contains_key(m.state.cur_output) ==> forall|k: i32| #[trigger] infos.contains_key(k) ==> c <= k
            &&& m2.state.cur_frame_no == (if m.state.cur_frame_no >= n { n - 1 } else { m.state.cur_frame_no as int })
            &&& forall|k: i32| #[trigger] infos.contains_key(k) ==> {
                &&& m2.outputs[k].node_info == infos[k]
                &&& !m2.outputs[k].force_reprocess
                &&& m2.outputs[k].last_frame_no == 0
                &&& k != c ==> m2.outputs[k].frame_promise is None
            }
            &&& m2.outputs[c].frame_promise == Some(frame)
            &&& m2.last_output_key == c
            &&& m2.initialized
            &&& m2.rerender == (m.rerender || (!m.initialized && m.state.scale_to_window))
            &&& m2.reprocess == m.reprocess
            &&& m2.replace_frame_promise == m.replace_frame_promise
            &&& m2.state.scale_to_window == m.state.scale_to_window
            &&& m2.state.scale_filter == m.state.scale_filter
        }),
{
    lemma_reload_shows_loaded_frame(m, infos, frame);
    if !infos.contains_key(m.state.cur_output) {
        lemma_least_exists(infos.dom());
    }
}

/// A render job that is not finished changes nothing; a finished one
/// becomes the frame of output `key`, which becomes the output rendered
/// last, and leaves every other output and the frame state as they were.
pub proof fn lemma_replace_details<F, R>(m: PreviewerModel<F, R>, ready: bool, key: i32)
    requires
        m.wf(),
        ready && m.replace_frame_promise is Some ==> m.outputs.contains_key(key),
    ensures
        !ready || m.replace_frame_promise is None ==> m.frame_replaced(ready, key) == m,
        ready && m.replace_frame_promise is Some ==> {
            let m2 = m.frame_replaced(ready, key);
            &&& m2.outputs[key].frame_promise == m.replace_frame_promise
            &&& m2.outputs[key].last_frame_no == m.outputs[key].last_frame_no
            &&& m2.outputs[key].node_info == m.outputs[key].node_info
            &&& m2.replace_frame_promise is None
            &&& m2.last_output_key == key
            &&& m2.state == m.state
            &&& m2.outputs.dom() == m.outputs.dom()
            &&& forall|k: i32| #[trigger] m.outputs.contains_key(k) && k != key ==> m2.outputs[k] == m.outputs[k]
        },
{
    if ready && m.replace_frame_promise is Some {
        let m2 = m.frame_replaced(ready, key);
        assert(m2.outputs.dom() =~= m.outputs.dom());
    }
}

/// Marking for reprocess marks every output and changes nothing else of
/// them; a view change does that and wants a render, no change does nothing.
pub proof fn lemma_marking_details<F, R>(m: PreviewerModel<F, R>)
    ensures
        ({
            let m2 = m.all_marked_for_reprocess();
            &&& m2.outputs.dom() == m.outputs.dom()
            &&& forall|k: i32| #[trigger] m.outputs.contains_key(k) ==> {
                &&& m2.outputs[k].force_reprocess
                &&& m2.outputs[k].frame_promise == m.outputs[k].frame_promise
                &&& m2.outputs[k].last_frame_no == m.outputs[k].last_frame_no
                &&& m2.outputs[k].node_info == m.outputs[k].node_info
            }
            &&& m2.rerender == m.rerender
            &&& m2.state == m.state
        }),
        m.view_changed(false) == m,
        m.view_changed(true).rerender,
        m.view_changed(true).outputs == m.all_marked_for_reprocess().outputs,
{
    assert(m.all_marked_for_reprocess().outputs.dom() =~= m.outputs.dom());
}

/// The render decision: a render starts exactly when one is wanted (asked
/// for, or the current output is marked) and no job is in flight; it
/// renders the current output at the current frame, reprocessing the shown
/// frame exactly when a reprocess was pending or the current output was
/// marked; the mark of the current output is cleared; when it does not
/// start, the wish for it is kept.
pub proof fn lemma_rerender_details<F, R>(m: PreviewerModel<F, R>)
    requires
        m.wf(),
    ensures
        ({
            let cur = m.state.cur_output;
            let marked = m.outputs.contains_key(cur) && m.outputs[cur].force_reprocess;
            let wanted = m.rerender || marked;
            let (m2, req) = m.rerender_checked();
            &&& (req is Some) == (wanted && m.replace_frame_promise is None)
            &&& req is Some ==> req == Some(RenderRequest {
                reprocess: m.reprocess || marked,
                output: cur,
                frame_no: m.state.cur_frame_no,
            })
            &&& req is Some ==> !m2.rerender && !m2.reprocess
            &&& req is None ==> m2.rerender == wanted && m2.reprocess == (m.reprocess || marked)
            &&& m.outputs.contains_key(cur) ==> !m2.outputs[cur].force_reprocess
            &&& forall|k: i32| #[trigger] m.outputs.contains_key(k) && k != cur ==> m2.outputs[k] == m.outputs[k]
            &&& m2.state == m.state
            &&& m2.replace_frame_promise == m.replace_frame_promise
            &&& m2.last_output_key == m.last_output_key
        }),
{
}

/// The frame handle of the current output.
pub proof fn lemma_current_frame<F, R>(m: PreviewerModel<F, R>)
    ensures
        m.outputs.contains_key(m.state.cur_output) ==> m.current_frame()
            == m.outputs[m.state.cur_output].frame_promise,
        !m.outputs.contains_key(m.state.cur_output) ==> m.current_frame() is None,
{
}

/// The first half of a UI frame with no reload and no finished render: on
/// a resize every output ends up marked for reprocessing; a render starts
/// exactly as the render decision says; what is drawn is decided for the
/// output the frame began with.
pub proof fn lemma_begin_frame_details<F, R>(m: PreviewerModel<F, R>, key: i32, resized: bool, slot: F)
    requires
        m.wf(),
    ensures
        ({
            let (m2, start) = m.frame_begun(key, None, false, resized, slot);
            &&& start.render == m.rerender_checked().1
            &&& start.render is Some ==> m2.replace_frame_promise == Some(slot)
            &&& start.render is None ==> m2.replace_frame_promise == m.replace_frame_promise
            &&& resized ==> forall|k: i32| #[trigger] m.outputs.contains_key(k) ==> m2.outputs[k].force_reprocess
            &&& start.frame_shown == (m2.frame_to_show(key) is Some)
            &&& m2.state == m.state
            &&& m2.outputs.dom() == m.outputs.dom()
        }),
{
    lemma_rerender_details(m);
    lemma_marking_details(m.rerender_checked().0);
    let (m2, start) = m.frame_begun(key, None, false, resized, slot);
    assert(m.rerender_checked().0.outputs.dom() =~= m.outputs.dom());
    assert(m2.outputs.dom() =~= m.outputs.dom());
}

/// The resizer filter for each preview filter: `Point` is `Box`, every
/// other keeps its name, and no two preview filters share one.
pub proof fn lemma_resize_filters(f: PreviewFilterType, g: PreviewFilterType)
    ensures
        resize_filter_of(PreviewFilterType::Point) == ResizeFilterType::Box,
        resize_filter_of(PreviewFilterType::Bilinear) == ResizeFilterType::Bilinear,
        resize_filter_of(PreviewFilterType::Hamming) == ResizeFilterType::Hamming,
        resize_filter_of(PreviewFilterType::CatmullRom) == ResizeFilterType::CatmullRom,
        resize_filter_of(PreviewFilterType::Mitchell) == ResizeFilterType::Mitchell,
        resize_filter_of(PreviewFilterType::Lanczos3) == ResizeFilterType::Lanczos3,
        resize_filter_of(f) == resize_filter_of(g) ==> f == g,
{
}

/// The output picked when the wanted one is missing has no smaller key
/// beside it.
pub proof fn lemma_fallback_is_smallest(keys: Set<i32>, cur: i32)
    requires
        keys.finite(),
        !keys.is_empty(),
        !keys.contains(cur),
    ensures
        keys.contains(fallback_output(keys, cur)),
        forall|k: i32| #[trigger] keys.contains(k) ==> fallback_output(keys, cur) <= k,
{
    lemma_least_exists(keys);
}

} // verus!
