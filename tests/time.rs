use render_gl::time::GameTime;

#[test]
fn ticks_carry_the_remainder() {
    let mut t = GameTime::new(10_000_000, 100, 5_000);
    assert_eq!(t.tick_length_counter, 1_000);
    assert_eq!(t.update_ticks(7_500), 2);
    assert_eq!(t.partial_tick_counter, 500);
    assert_eq!(t.update_ticks(8_100), 1);
    assert_eq!(t.partial_tick_counter, 100);
    assert_eq!(t.update_ticks(8_100), 0);
    assert_eq!(t.previous_timer, 8_100);
}
