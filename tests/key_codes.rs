use glutin::event::VirtualKeyCode;
use minigw::ESCAPE_KEY;

#[test]
fn escape_code_matches_the_windowing_layer() {
    assert_eq!(VirtualKeyCode::Escape as usize, ESCAPE_KEY);
}
