use clearframe::config::{render_pass_config, Color, LoadOp, RenderPassConfig, StoreOp};
use clearframe::render::simulate_pass;

fn green() -> Color {
    Color { r: 0, g: 255, b: 0, a: 255 }
}

#[test]
fn one_by_one_target_reads_back_opaque_green() {
    let cfg = render_pass_config();
    let target = vec![Color { r: 17, g: 3, b: 200, a: 9 }];
    let out = simulate_pass(&cfg, &target);
    assert_eq!(out.len(), 1);
    assert_eq!(out[0], green());
}

#[test]
fn whole_target_is_filled_with_the_clear_color() {
    let cfg = render_pass_config();
    let target = vec![
        Color { r: 1, g: 2, b: 3, a: 4 },
        Color { r: 255, g: 255, b: 255, a: 255 },
        Color { r: 0, g: 0, b: 0, a: 0 },
        Color { r: 0, g: 255, b: 0, a: 255 },
    ];
    let out = simulate_pass(&cfg, &target);
    assert_eq!(out.len(), 4);
    for px in out {
        assert_eq!(px, green());
    }
}

#[test]
fn two_frames_on_independent_targets_do_not_interact() {
    let cfg = render_pass_config();
    let first_target = vec![Color { r: 9, g: 9, b: 9, a: 9 }];
    let second_target = vec![Color { r: 100, g: 50, b: 25, a: 12 }];
    let first = simulate_pass(&cfg, &first_target);
    let second = simulate_pass(&cfg, &second_target);
    assert_eq!(first, vec![green()]);
    assert_eq!(second, vec![green()]);
    // The second frame alone gives the same result as after the first.
    let second_alone = simulate_pass(&cfg, &second_target);
    assert_eq!(second_alone, second);
}

#[test]
fn a_loading_pass_keeps_the_prior_contents() {
    let cfg = RenderPassConfig {
        load: LoadOp::Load,
        store: StoreOp::Store,
        color_attachment_count: 1,
        has_depth_stencil: false,
        has_resolve_target: false,
        binds_pipeline: true,
        draw_count: 0,
    };
    let target = vec![Color { r: 5, g: 6, b: 7, a: 8 }, Color { r: 1, g: 1, b: 1, a: 1 }];
    let out = simulate_pass(&cfg, &target);
    assert_eq!(out, target);
}
