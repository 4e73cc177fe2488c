use boopboard::animation::ChaseState;
use boopboard::animation::frame;
use boopboard::animation::off_color_exec;
use boopboard::animation::on_color_exec;
use boopboard::LED_SPACING;
use boopboard::N_LED;

#[test]
fn frame_at_cursor_zero_lights_only_index_zero() {
    let f = frame(0);
    assert_eq!(f.len(), N_LED);
    let on = on_color_exec();
    let off = off_color_exec();
    for i in 0..N_LED {
        if i == 0 {
            assert_eq!(f[i], on);
        } else {
            assert_eq!(f[i], off);
        }
    }
}

#[test]
fn frame_at_cursor_five_lights_only_index_five() {
    let f = frame(5);
    let lit: Vec<usize> = (0..N_LED).filter(|&i| f[i] == on_color_exec()).collect();
    assert_eq!(lit, vec![5]);
}

#[test]
fn every_frame_has_exactly_one_lit_position() {
    for k in 0..LED_SPACING {
        let f = frame(k);
        let lit: Vec<usize> = (0..N_LED).filter(|&i| f[i] == on_color_exec()).collect();
        assert_eq!(lit, vec![k], "cursor {} lit the wrong positions", k);
    }
}

#[test]
fn lit_color_is_red_unlit_is_off() {
    let on = on_color_exec();
    assert_eq!((on.red, on.green, on.blue), (255, 0, 0));
    let off = off_color_exec();
    assert_eq!((off.red, off.green, off.blue), (0, 0, 0));
}

#[test]
fn sweep_runs_forward_then_backward_then_repeats() {
    let mut state = ChaseState::new();
    let mut cursors: Vec<usize> = Vec::new();
    for _ in 0..(2 * LED_SPACING) {
        cursors.push(state.cursor());
        state.advance();
    }
    let expected: Vec<usize> = (0..LED_SPACING).chain((0..LED_SPACING).rev()).collect();
    assert_eq!(cursors, expected);
    // One full cycle of 2 * LED_SPACING frames has passed: the sweep repeats.
    assert_eq!(state.cursor(), 0);
    state.advance();
    assert_eq!(state.cursor(), 1);
}

#[test]
fn current_frame_follows_the_cursor() {
    let mut state = ChaseState::new();
    for _ in 0..5 {
        state.advance();
    }
    assert_eq!(state.cursor(), 5);
    let f = state.current_frame();
    assert_eq!(f, frame(5));
}
