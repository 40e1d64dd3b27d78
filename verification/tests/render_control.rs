use fractalwonder_ui::render_control::{
    choose_render_path, is_final_row_set, row_set_outcome, row_set_start, RenderGeneration, RenderPath,
    RowSetOutcome, RowSetStart, trigger_fired, begin_render, tile_done, tile_loop_step, TileLoopStep,
    row_set_progress, full_frame_tile_results,
};
use fractalwonder_ui::render_progress::{RenderPhase, RenderProgress};

#[test]
fn render_path_choice() {
    assert_eq!(choose_render_path(0, 10, true, true, 16), RenderPath::Skip);
    assert_eq!(choose_render_path(10, 0, true, true, 16), RenderPath::Skip);
    assert_eq!(choose_render_path(10, 10, true, true, 16), RenderPath::ProgressiveGpu);
    assert_eq!(choose_render_path(10, 10, false, true, 16), RenderPath::Cpu);
    assert_eq!(choose_render_path(10, 10, true, false, 16), RenderPath::Cpu);
    assert_eq!(choose_render_path(10, 10, true, true, 0), RenderPath::Cpu);
}

#[test]
fn generations_cancel_older_work() {
    let mut g = RenderGeneration::new();
    let first = g.start();
    assert_eq!(first, 1);
    assert!(g.is_current(first));
    g.cancel();
    assert!(!g.is_current(first));
    let second = g.start();
    assert_eq!(second, 3);
    let mut wrap = RenderGeneration { current: u32::MAX };
    assert_eq!(wrap.start(), 0);
}

#[test]
fn row_set_start_decisions() {
    assert_eq!(row_set_start(2, 1, false, true), RowSetStart::Stale);
    assert_eq!(row_set_start(1, 1, true, true), RowSetStart::GpuBusy);
    assert_eq!(row_set_start(1, 1, false, false), RowSetStart::RendererMissing);
    assert_eq!(row_set_start(1, 1, false, true), RowSetStart::Dispatch);
}

#[test]
fn row_sets_run_in_order_and_finish() {
    let count = 16;
    let mut index = 0;
    let mut visited = vec![];
    loop {
        visited.push(index);
        match row_set_outcome(7, 7, true, index, count) {
            RowSetOutcome::Next(n) => index = n,
            RowSetOutcome::Finish => break,
            other => panic!("unexpected {:?}", other),
        }
    }
    assert_eq!(visited, (0..16).collect::<Vec<u32>>());
    assert!(is_final_row_set(15, 16));
    assert!(!is_final_row_set(14, 16));
    assert_eq!(row_set_outcome(8, 7, true, 3, 16), RowSetOutcome::Discard);
    assert_eq!(row_set_outcome(7, 7, false, 3, 16), RowSetOutcome::Failed);
}

#[test]
fn trigger_fires_only_on_change_after_first_observation() {
    assert!(!trigger_fired(None, 0));
    assert!(!trigger_fired(Some(3), 3));
    assert!(trigger_fired(Some(3), 4));
    assert!(trigger_fired(Some(u32::MAX), 0));
}

#[test]
fn empty_canvas_render_cancels_nothing() {
    let mut g = RenderGeneration::new();
    assert_eq!(begin_render(&mut g, 0, 10), None);
    assert_eq!(g.current, 0);
    assert_eq!(begin_render(&mut g, 10, 10), Some(1));
    assert_eq!(g.current, 1);
}

#[test]
fn tile_loop_runs_to_completion() {
    let mut g = RenderGeneration::new();
    let id = begin_render(&mut g, 4, 4).unwrap();
    let mut p = RenderProgress::new(2);
    assert_eq!(tile_loop_step(&g, id, 0, 2, &mut p), TileLoopStep::ComputeTile(0));
    tile_done(&mut p, 0);
    assert_eq!(tile_loop_step(&g, id, 1, 2, &mut p), TileLoopStep::ComputeTile(1));
    tile_done(&mut p, 1);
    assert_eq!(p.completed_steps, 2);
    assert_eq!(tile_loop_step(&g, id, 2, 2, &mut p), TileLoopStep::Complete);
    assert_eq!(p.phase, RenderPhase::Complete);
}

#[test]
fn cancelled_render_is_abandoned_without_completing() {
    let mut g = RenderGeneration::new();
    let id = begin_render(&mut g, 4, 4).unwrap();
    let mut p = RenderProgress::new(3);
    assert_eq!(tile_loop_step(&g, id, 0, 3, &mut p), TileLoopStep::ComputeTile(0));
    tile_done(&mut p, 0);
    g.cancel();
    let before = p;
    assert_eq!(tile_loop_step(&g, id, 1, 3, &mut p), TileLoopStep::Abandon);
    assert_eq!(p, before);
    assert_ne!(p.phase, RenderPhase::Complete);
}

#[test]
fn cancel_after_last_tile_still_abandons() {
    let mut g = RenderGeneration::new();
    let id = begin_render(&mut g, 4, 4).unwrap();
    let mut p = RenderProgress::new(1);
    assert_eq!(tile_loop_step(&g, id, 0, 1, &mut p), TileLoopStep::ComputeTile(0));
    tile_done(&mut p, 0);
    begin_render(&mut g, 4, 4);
    let before = p;
    assert_eq!(tile_loop_step(&g, id, 1, 1, &mut p), TileLoopStep::Abandon);
    assert_eq!(p, before);
}

#[test]
fn row_set_progress_completes_on_last_row_set() {
    let mut p = RenderProgress::new(3);
    row_set_progress(&mut p, 0, 3);
    assert_eq!((p.completed_steps, p.phase), (1, RenderPhase::Rendering));
    row_set_progress(&mut p, 1, 3);
    assert_eq!((p.completed_steps, p.phase), (2, RenderPhase::Rendering));
    row_set_progress(&mut p, 2, 3);
    assert_eq!((p.completed_steps, p.phase), (3, RenderPhase::Complete));
    assert_eq!(p.total_steps, 3);
}

#[test]
fn finished_frame_is_cached_as_one_tile() {
    let r = full_frame_tile_results(vec![1u8, 2, 3, 4, 5, 6], 3, 2);
    assert_eq!(r.len(), 1);
    assert_eq!((r[0].tile.x, r[0].tile.y, r[0].tile.width, r[0].tile.height), (0, 0, 3, 2));
    assert_eq!(r[0].data, vec![1, 2, 3, 4, 5, 6]);
}
