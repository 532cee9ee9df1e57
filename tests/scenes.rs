use blur_scenes::blurring::{BlurringScene, DEFAULT_BLUR_RADIUS, MAX_BLUR_RADIUS};
use blur_scenes::command::{Command, Program, Scope, Surface};
use blur_scenes::kawase::{KawaseScene, DEFAULT_KAWASE_ITERATIONS, MAX_KAWASE_ITERATIONS};
use blur_scenes::key::Key;
use blur_scenes::round_quads::RoundQuadsScene;
use blur_scenes::scenes::{SceneKind, Scenes};
use blur_scenes::target::{kawase_chain, RenderTarget};

fn rt(width: i32, height: i32) -> RenderTarget {
    RenderTarget { width, height }
}

fn targets_of(s: &Scenes) -> Vec<RenderTarget> {
    match s {
        Scenes::RoundQuads(_) => Vec::new(),
        Scenes::Blurring(b) => b.render_targets().clone(),
        Scenes::Kawase(k) => k.render_targets().clone(),
    }
}

fn markers(cmds: &[Command]) -> (usize, usize) {
    let pushes = cmds.iter().filter(|c| matches!(c, Command::PushDebugGroup(_))).count();
    let pops = cmds.iter().filter(|c| matches!(c, Command::PopDebugGroup)).count();
    (pushes, pops)
}

fn assert_nested(cmds: &[Command]) {
    let mut depth: i64 = 0;
    for c in cmds {
        match c {
            Command::PushDebugGroup(_) => depth += 1,
            Command::PopDebugGroup => depth -= 1,
            _ => {}
        }
        assert!(depth >= 0);
    }
    assert_eq!(depth, 0);
}

#[test]
fn starts_with_kawase_chain() {
    let s = Scenes::new(800, 600);
    assert_eq!(s.kind(), SceneKind::Kawase);
    assert_eq!(
        targets_of(&s),
        vec![rt(800, 600), rt(400, 300), rt(200, 150), rt(100, 75), rt(50, 37)]
    );
}

#[test]
fn chain_halves_down_to_one_pixel() {
    assert_eq!(kawase_chain(5, 3, 3), vec![rt(5, 3), rt(2, 1), rt(1, 1), rt(1, 1)]);
    assert_eq!(kawase_chain(0, 1, 1), vec![rt(0, 1), rt(1, 1)]);
    assert_eq!(kawase_chain(640, 480, 0), vec![rt(640, 480)]);
}

#[test]
fn function_keys_select_scenes() {
    let mut s = Scenes::new(800, 600);
    s.switch_scene(800, 600, Key::F1);
    assert_eq!(s.kind(), SceneKind::RoundQuads);
    assert!(targets_of(&s).is_empty());
    s.switch_scene(800, 600, Key::F2);
    assert_eq!(s.kind(), SceneKind::Blurring);
    assert_eq!(targets_of(&s), vec![rt(800, 600), rt(800, 600)]);
    s.switch_scene(1024, 768, Key::F3);
    assert_eq!(s.kind(), SceneKind::Kawase);
    assert_eq!(targets_of(&s).len(), DEFAULT_KAWASE_ITERATIONS + 1);
    assert_eq!(targets_of(&s)[0], rt(1024, 768));
}

#[test]
fn other_keys_do_not_switch() {
    let mut s = Scenes::new(800, 600);
    s.switch_scene(800, 600, Key::ArrowUp);
    s.switch_scene(800, 600, Key::Other);
    assert_eq!(s.kind(), SceneKind::Kawase);
    assert_eq!(targets_of(&s).len(), DEFAULT_KAWASE_ITERATIONS + 1);
}

#[test]
fn switching_again_gives_a_fresh_instance() {
    let mut s = Scenes::new(800, 600);
    s.on_key(Key::ArrowUp);
    s.on_key(Key::ArrowUp);
    assert_eq!(targets_of(&s).len(), DEFAULT_KAWASE_ITERATIONS + 3);
    s.switch_scene(800, 600, Key::F3);
    assert_eq!(s.kind(), SceneKind::Kawase);
    assert_eq!(targets_of(&s), targets_of(&Scenes::new(800, 600)));
    match &s {
        Scenes::Kawase(k) => assert_eq!(k.iteration_count(), DEFAULT_KAWASE_ITERATIONS),
        _ => panic!("expected the Kawase scene"),
    }
}

#[test]
fn resize_reallocates_targets() {
    let mut s = Scenes::new(800, 600);
    s.resize(1920, 1080);
    assert_eq!(
        targets_of(&s),
        vec![rt(1920, 1080), rt(960, 540), rt(480, 270), rt(240, 135), rt(120, 67)]
    );
    s.switch_scene(1920, 1080, Key::F2);
    s.resize(300, 200);
    assert_eq!(targets_of(&s), vec![rt(300, 200), rt(300, 200)]);
    s.switch_scene(300, 200, Key::F1);
    s.resize(10, 20);
    match &s {
        Scenes::RoundQuads(q) => assert_eq!(q.size(), (10, 20)),
        _ => panic!("expected the round quads scene"),
    }
}

#[test]
fn resize_to_same_size_is_idempotent() {
    let mut s = Scenes::new(640, 480);
    let before = targets_of(&s);
    s.resize(640, 480);
    s.resize(640, 480);
    assert_eq!(targets_of(&s), before);
}

#[test]
fn round_quads_ignores_keys() {
    let mut s = Scenes::new(800, 600);
    s.switch_scene(800, 600, Key::F1);
    let frame = s.draw(true);
    for key in [Key::ArrowUp, Key::ArrowDown, Key::Other, Key::F2] {
        s.on_key(key);
        assert_eq!(s.kind(), SceneKind::RoundQuads);
        assert_eq!(s.draw(true), frame);
    }
}

#[test]
fn kawase_keys_change_chain_length() {
    let mut k = KawaseScene::new(800, 600);
    k.on_key(Key::ArrowUp);
    assert_eq!(k.iteration_count(), DEFAULT_KAWASE_ITERATIONS + 1);
    assert_eq!(k.render_targets().len(), DEFAULT_KAWASE_ITERATIONS + 2);
    for _ in 0..20 {
        k.on_key(Key::ArrowUp);
    }
    assert_eq!(k.iteration_count(), MAX_KAWASE_ITERATIONS);
    assert_eq!(k.render_targets().len(), MAX_KAWASE_ITERATIONS + 1);
    for _ in 0..20 {
        k.on_key(Key::ArrowDown);
    }
    assert_eq!(k.iteration_count(), 1);
    assert_eq!(k.render_targets().clone(), vec![rt(800, 600), rt(400, 300)]);
    k.on_key(Key::Other);
    assert_eq!(k.iteration_count(), 1);
}

#[test]
fn kawase_draw_uses_new_chain_after_key() {
    let mut s = Scenes::new(800, 600);
    s.on_key(Key::ArrowUp);
    let frame = s.draw(false);
    let n = DEFAULT_KAWASE_ITERATIONS + 1;
    let downs = frame.iter().filter(|c| **c == Command::UseProgram(Program::KawaseDown)).count();
    let ups = frame.iter().filter(|c| **c == Command::UseProgram(Program::KawaseUp)).count();
    assert_eq!(downs, n);
    assert_eq!(ups, n);
    assert!(frame.contains(&Command::BindSurface(Surface::Target(n))));
    assert!(!frame.contains(&Command::BindSurface(Surface::Target(n + 1))));
}

#[test]
fn blurring_radius_keys() {
    let mut b = BlurringScene::new(100, 100);
    assert_eq!(b.blur_radius(), DEFAULT_BLUR_RADIUS);
    b.on_key(Key::ArrowDown);
    assert_eq!(b.blur_radius(), DEFAULT_BLUR_RADIUS - 1);
    for _ in 0..40 {
        b.on_key(Key::ArrowUp);
    }
    assert_eq!(b.blur_radius(), MAX_BLUR_RADIUS);
    for _ in 0..40 {
        b.on_key(Key::ArrowDown);
    }
    assert_eq!(b.blur_radius(), 1);
    b.on_key(Key::F1);
    assert_eq!(b.blur_radius(), 1);
}

#[test]
fn debug_disabled_emits_no_markers() {
    let mut s = Scenes::new(800, 600);
    for key in [Key::F1, Key::F2, Key::F3] {
        s.switch_scene(800, 600, key);
        assert_eq!(markers(&s.draw(false)), (0, 0));
    }
}

#[test]
fn debug_enabled_scopes_are_nested() {
    let mut s = Scenes::new(800, 600);
    for key in [Key::F1, Key::F2, Key::F3] {
        s.switch_scene(800, 600, key);
        let frame = s.draw(true);
        let (pushes, pops) = markers(&frame);
        assert!(pushes > 0);
        assert_eq!(pushes, pops);
        assert_nested(&frame);
    }
}

#[test]
fn debug_markers_only_add_scopes() {
    let mut s = Scenes::new(800, 600);
    for key in [Key::F1, Key::F2, Key::F3] {
        s.switch_scene(800, 600, key);
        let stripped: Vec<Command> = s
            .draw(true)
            .into_iter()
            .filter(|c| !matches!(c, Command::PushDebugGroup(_) | Command::PopDebugGroup))
            .collect();
        assert_eq!(stripped, s.draw(false));
    }
}

#[test]
fn round_quads_frame_is_exact() {
    let q = RoundQuadsScene::new(320, 240);
    let s = Scenes::RoundQuads(q);
    assert_eq!(
        s.draw(true),
        vec![
            Command::PushDebugGroup(Scope::RoundQuads),
            Command::BindSurface(Surface::Window),
            Command::Viewport(320, 240),
            Command::UseProgram(Program::Quads),
            Command::DrawQuads,
            Command::PopDebugGroup,
        ]
    );
}

#[test]
fn blurring_frame_is_exact() {
    let s = Scenes::Blurring(BlurringScene::new(64, 32));
    let r = Command::SetBlurRadius(DEFAULT_BLUR_RADIUS);
    assert_eq!(
        s.draw(false),
        vec![
            Command::BindSurface(Surface::Target(0)),
            Command::Viewport(64, 32),
            Command::UseProgram(Program::Quads),
            Command::DrawQuads,
            Command::BindSurface(Surface::Target(1)),
            Command::Viewport(64, 32),
            Command::UseProgram(Program::BlurHorizontal),
            Command::BindTexture(0),
            r,
            Command::DrawFullscreen,
            Command::BindSurface(Surface::Window),
            Command::Viewport(64, 32),
            Command::UseProgram(Program::BlurVertical),
            Command::BindTexture(1),
            r,
            Command::DrawFullscreen,
        ]
    );
}

#[test]
fn kawase_frame_orders_passes() {
    let mut k = KawaseScene::new(64, 32);
    k.on_key(Key::ArrowDown);
    k.on_key(Key::ArrowDown);
    k.on_key(Key::ArrowDown);
    assert_eq!(k.iteration_count(), 1);
    let s = Scenes::Kawase(k);
    assert_eq!(
        s.draw(false),
        vec![
            Command::BindSurface(Surface::Target(0)),
            Command::Viewport(64, 32),
            Command::UseProgram(Program::Quads),
            Command::DrawQuads,
            Command::BindSurface(Surface::Target(1)),
            Command::Viewport(32, 16),
            Command::UseProgram(Program::KawaseDown),
            Command::BindTexture(0),
            Command::SetTexelSize(64, 32),
            Command::DrawFullscreen,
            Command::BindSurface(Surface::Target(0)),
            Command::Viewport(64, 32),
            Command::UseProgram(Program::KawaseUp),
            Command::BindTexture(1),
            Command::SetTexelSize(32, 16),
            Command::DrawFullscreen,
            Command::BindSurface(Surface::Window),
            Command::Viewport(64, 32),
            Command::UseProgram(Program::Blit),
            Command::BindTexture(0),
            Command::SetTexelSize(64, 32),
            Command::DrawFullscreen,
        ]
    );
}

#[test]
fn scope_labels() {
    assert_eq!(Scope::Kawase.label(), "kawase");
    assert_eq!(Scope::KawaseDown.label(), "kawase downsample");
    assert_eq!(Scope::Present.label(), "present");
}
