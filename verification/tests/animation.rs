use lebron::animation::MAX_FRAME_COUNT;
use lebron::Animation;
use lebron::DrawCommand;
use lebron::FrameArea;
use lebron::HEIGHT;
use lebron::WIDTH;

fn frame_at(index: i32) -> FrameArea {
    FrameArea { x: 0, y: index * 240, width: 240, height: 240 }
}

#[test]
fn display_is_240_by_240() {
    assert_eq!(WIDTH, 240);
    assert_eq!(HEIGHT, 240);
}

#[test]
fn new_player_shows_first_frame() {
    let anim = Animation::new("atlas", 9);
    assert_eq!(anim.draw(), DrawCommand::Frame { atlas: &"atlas", area: frame_at(0) });
}

#[test]
fn tick_completes_on_last_frame_only() {
    for frame_count in [1u32, 2, 3, 5, 9, 16, 27] {
        let mut anim = Animation::new((), frame_count);
        for n in 1..=frame_count {
            let completed = anim.tick();
            assert_eq!(completed, n == frame_count, "tick {} of {}", n, frame_count);
            let expected = if n == frame_count { 0 } else { n as i32 };
            assert_eq!(anim.draw(), DrawCommand::Frame { atlas: &(), area: frame_at(expected) });
        }
    }
}

#[test]
fn tick_cycles_again_after_completion() {
    let mut anim = Animation::new(7u8, 3);
    let results: Vec<bool> = (0..7).map(|_| anim.tick()).collect();
    assert_eq!(results, vec![false, false, true, false, false, true, false]);
    assert_eq!(anim.draw(), DrawCommand::Frame { atlas: &7u8, area: frame_at(1) });
}

#[test]
fn single_frame_player_completes_every_tick() {
    let mut anim = Animation::new((), 1);
    for _ in 0..4 {
        assert!(anim.tick());
        assert_eq!(anim.draw(), DrawCommand::Frame { atlas: &(), area: frame_at(0) });
    }
}

#[test]
fn draw_offsets_by_frame_height() {
    let mut anim = Animation::new("startup", 27);
    for _ in 0..26 {
        anim.tick();
    }
    assert_eq!(
        anim.draw(),
        DrawCommand::Frame {
            atlas: &"startup",
            area: FrameArea { x: 0, y: 6240, width: 240, height: 240 },
        }
    );
}

#[test]
fn draw_does_not_move_the_player() {
    let mut anim = Animation::new((), 4);
    anim.tick();
    let first = anim.draw();
    let second = anim.draw();
    assert_eq!(first, second);
    assert_eq!(first, DrawCommand::Frame { atlas: &(), area: frame_at(1) });
}

#[test]
fn longest_atlas_is_addressable() {
    assert_eq!(MAX_FRAME_COUNT, 8_947_848);
    assert!((MAX_FRAME_COUNT as u64) * (HEIGHT as u64) <= i32::MAX as u64);
    assert!((MAX_FRAME_COUNT as u64 + 1) * (HEIGHT as u64) > i32::MAX as u64);
    let mut anim = Animation::new((), MAX_FRAME_COUNT);
    anim.tick();
    assert_eq!(anim.draw(), DrawCommand::Frame { atlas: &(), area: frame_at(1) });
}
