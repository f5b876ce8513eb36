use mint2d::geometry::{Point, Size, ONE, HALF};
use mint2d::graphics::{
    Command, Graphics, StackError, Vertex, BUFFER_SIZE, index_count, quad_indices,
};
use mint2d::state::{Color, Color8, Rotation, State, quantize_channel};

fn pt(x: i32, y: i32) -> Point {
    Point { x, y }
}

#[test]
fn pop_on_base_state_underflows() {
    let mut g = Graphics::new();
    assert_eq!(g.depth(), 1);
    assert_eq!(g.pop(), Err(StackError::StackUnderflow));
    assert_eq!(g.depth(), 1);
}

#[test]
fn push_pop_sequence_keeps_base() {
    let mut g = Graphics::new();
    g.push();
    g.push();
    assert_eq!(g.depth(), 3);
    assert_eq!(g.pop(), Ok(()));
    assert_eq!(g.pop(), Ok(()));
    assert_eq!(g.pop(), Err(StackError::StackUnderflow));
    assert_eq!(g.depth(), 1);
}

#[test]
fn push_pop_restores_state() {
    let mut g = Graphics::new();
    g.color(Color::new(ONE / 2, ONE / 4, ONE, ONE));
    g.translate(pt(3 * ONE, -2 * ONE));
    g.scale(Size { width: 2 * ONE, height: ONE / 2 });
    let before = g.current();
    g.push();
    g.tint(Color::new(0, 0, 0, 0));
    g.rotate(Rotation::new(0, ONE));
    g.identity();
    g.translate(pt(ONE, ONE));
    assert_ne!(g.current(), before);
    assert_eq!(g.pop(), Ok(()));
    assert_eq!(g.current(), before);
}

#[test]
fn identity_translate_maps_origin() {
    let mut g = Graphics::new();
    g.identity();
    g.translate(pt(5 * ONE, -7 * ONE));
    assert_eq!(g.transform(pt(0, 0)), pt(5 * ONE, -7 * ONE));
}

#[test]
fn identity_scale_maps_unit() {
    let mut g = Graphics::new();
    g.identity();
    g.scale(Size { width: 2 * ONE, height: 3 * ONE });
    assert_eq!(g.transform(pt(ONE, ONE)), pt(2 * ONE, 3 * ONE));
}

#[test]
fn identity_rotate_quarter_turn() {
    let mut g = Graphics::new();
    g.identity();
    // cos 90 = 0, sin 90 = 1
    g.rotate(Rotation::new(0, ONE));
    assert_eq!(g.transform(pt(ONE, 0)), pt(0, ONE));
    assert_eq!(g.transform(pt(0, ONE)), pt(-ONE, 0));
}

#[test]
fn translate_is_in_current_frame() {
    let mut s = State::new();
    s.scale(Size { width: 2 * ONE, height: 2 * ONE });
    s.translate(pt(ONE, 0));
    assert_eq!(s.transform(pt(0, 0)), pt(2 * ONE, 0));
    assert_eq!(s.transform(pt(ONE, ONE)), pt(4 * ONE, 2 * ONE));
}

#[test]
fn scale_rounds_fractions_down() {
    let mut s = State::new();
    s.scale(Size { width: ONE / 2, height: ONE / 2 });
    assert_eq!(s.transform(pt(3, -3)), pt(1, -2));
}

#[test]
fn transform_saturates() {
    let mut s = State::new();
    s.scale(Size { width: i32::MAX, height: i32::MAX });
    assert_eq!(s.transform(pt(i32::MAX, i32::MIN)), pt(i32::MAX, i32::MIN));
}

#[test]
fn white_tint_is_neutral() {
    let mut g = Graphics::new();
    let c = Color::new(12345, -7, 3 * ONE, ONE / 3);
    g.color(c);
    g.tint(Color::new(ONE, ONE, ONE, ONE));
    assert_eq!(g.current().get_color(), c);
}

#[test]
fn tint_multiplies_channels() {
    let mut s = State::new();
    s.color(Color::new(ONE, ONE / 2, ONE, ONE));
    s.tint(Color::new(ONE / 2, ONE / 2, 0, ONE));
    assert_eq!(s.get_color(), Color::new(ONE / 2, ONE / 4, 0, ONE));
}

#[test]
fn quantize_endpoints_and_half() {
    assert_eq!(quantize_channel(ONE), 255);
    assert_eq!(quantize_channel(0), 0);
    assert_eq!(quantize_channel(HALF), 128);
    assert_eq!(quantize_channel(-ONE), 0);
    assert_eq!(quantize_channel(2 * ONE), 255);
}

#[test]
fn quantize_is_monotonic_on_samples() {
    let mut last = 0u8;
    let mut c = -1000;
    while c <= ONE + 1000 {
        let q = quantize_channel(c);
        assert!(q >= last);
        last = q;
        c += 97;
    }
    assert_eq!(last, 255);
}

#[test]
fn batch_flushes_exactly_at_capacity() {
    let mut g = Graphics::new();
    for k in 0..(BUFFER_SIZE - 1) {
        g.vertex(pt(k as i32 * ONE, 0), pt(0, 0));
    }
    assert_eq!(g.pending(), BUFFER_SIZE - 1);
    assert!(g.take_commands().is_empty());
    let mut expected = Vec::new();
    for k in 0..BUFFER_SIZE {
        g.vertex(pt(k as i32 * ONE, 0), pt(0, ONE));
        expected.push(Vertex {
            point: pt(k as i32 * ONE, 0),
            texcoord: pt(0, ONE),
            color: Color8 { red: 255, green: 255, blue: 255, alpha: 255 },
        });
    }
    // the first three were issued together with the first new one
    let cmds = g.take_commands();
    assert_eq!(cmds.len(), 1);
    assert_eq!(g.pending(), BUFFER_SIZE - 1);
    let mut g2 = Graphics::new();
    for v in &expected {
        g2.vertex(v.point, v.texcoord);
    }
    assert_eq!(g2.pending(), 0);
    assert_eq!(g2.take_commands(), vec![Command::Draw(expected)]);
}

#[test]
fn vertex_uses_current_transform_and_color() {
    let mut g = Graphics::new();
    g.translate(pt(10 * ONE, 20 * ONE));
    g.color(Color::new(ONE, 0, HALF, ONE));
    g.vertex(pt(ONE, ONE), pt(HALF, HALF));
    g.flush();
    assert_eq!(
        g.take_commands(),
        vec![Command::Draw(vec![Vertex {
            point: pt(11 * ONE, 21 * ONE),
            texcoord: pt(HALF, HALF),
            color: Color8 { red: 255, green: 0, blue: 128, alpha: 255 },
        }])]
    );
}

#[test]
fn flush_of_empty_batch_issues_nothing() {
    let mut g = Graphics::new();
    g.flush();
    assert!(g.take_commands().is_empty());
}

#[test]
fn clear_comes_after_queued_vertex() {
    let mut g = Graphics::new();
    let red = Color::new(ONE, 0, 0, ONE);
    g.color(red);
    g.vertex(pt(0, 0), pt(0, 0));
    g.clear();
    let cmds = g.take_commands();
    assert_eq!(cmds.len(), 2);
    assert!(matches!(&cmds[0], Command::Draw(v) if v.len() == 1));
    assert_eq!(cmds[1], Command::Clear(red));
    assert_eq!(g.pending(), 0);
}

#[test]
fn clear_without_vertices_only_clears() {
    let mut g = Graphics::new();
    g.clear();
    assert_eq!(g.take_commands(), vec![Command::Clear(Color::new(ONE, ONE, ONE, ONE))]);
}

#[test]
fn index_count_follows_complete_quads() {
    assert_eq!(index_count(0), 0);
    assert_eq!(index_count(3), 0);
    assert_eq!(index_count(4), 6);
    assert_eq!(index_count(9), 12);
}

#[test]
fn quad_indices_pattern() {
    assert_eq!(quad_indices(1), vec![0u8, 1, 2, 2, 1, 3]);
    assert_eq!(quad_indices(2), vec![0u8, 1, 2, 2, 1, 3, 4, 5, 6, 6, 5, 7]);
    assert!(quad_indices(0).is_empty());
    assert_eq!(quad_indices(64).len(), 384);
    assert_eq!(quad_indices(64)[383], 255);
}
