use img2audio::buffer::AudioBuffer;
use img2audio::signal::{transcode, PixelGrid, Polarity};
use img2audio::transport::{Action, PlayState, Transport, DEFAULT_SPEED, MAX_SPEED, MIN_SPEED};

const BLACK: [u8; 4] = [0, 0, 0, 255];
const WHITE: [u8; 4] = [255, 255, 255, 255];

fn px(t: &Transport) -> f64 {
    let p = t.position();
    p.num as f64 / p.den as f64
}

fn loaded(len: usize, rate: u32, width: u32) -> Transport {
    let mut t = Transport::new(width);
    t.load(AudioBuffer::build(vec![0; len], 1, rate).unwrap());
    t
}

#[test]
fn image_to_playhead_end_to_end() {
    let g = PixelGrid::new(4, 1, vec![BLACK, WHITE, BLACK, WHITE]).unwrap();
    let signal = transcode(&g, Polarity::Unipolar);
    assert_eq!(signal, vec![0, 765, 0, 765]);
    let b = AudioBuffer::build(signal, 1, 4).unwrap();
    let d = b.total_duration();
    assert_eq!(d.num as f64 / d.den as f64, 1.0);
    let pps = b.px_per_sec(100);
    assert_eq!(pps.num as f64 / pps.den as f64, 100.0);

    let mut t = Transport::new(100);
    assert_eq!(t.load(b), Action::Stop);
    assert_eq!(t.toggle(true), Action::Queue);
    assert_eq!(t.state(), PlayState::Playing);
    assert_eq!(t.speed(), DEFAULT_SPEED);
    assert_eq!(t.tick(500_000), Action::Nothing);
    assert!((px(&t) - 50.0).abs() < 1e-9);
    assert_eq!(t.tick(500_000), Action::Stop);
    assert_eq!(t.state(), PlayState::Idle);
    assert_eq!(px(&t), 0.0);
}

#[test]
fn playhead_never_moves_back_nor_past_the_edge() {
    let mut t = loaded(44100, 44100, 600);
    t.toggle(true);
    let mut last = 0.0;
    let steps: [u64; 6] = [0, 16_667, 100_000, 0, 250_000, 33_333];
    for dt in steps {
        t.tick(dt);
        assert_eq!(t.state(), PlayState::Playing);
        let now = px(&t);
        assert!(now >= last);
        assert!(now <= 600.0);
        last = now;
    }
    assert_eq!(t.tick(10_000_000), Action::Stop);
    assert_eq!(t.state(), PlayState::Idle);
    assert_eq!(px(&t), 0.0);
}

#[test]
fn idle_transport_does_not_move() {
    let mut t = loaded(10, 10, 100);
    assert_eq!(t.tick(300_000), Action::Nothing);
    assert_eq!(t.state(), PlayState::Idle);
    assert_eq!(px(&t), 0.0);
}

#[test]
fn stopping_twice_stays_idle_at_zero() {
    let mut t = loaded(10, 10, 100);
    t.toggle(true);
    t.tick(200_000);
    assert!(px(&t) > 0.0);
    assert_eq!(t.stop(), Action::Stop);
    assert_eq!((t.state(), px(&t)), (PlayState::Idle, 0.0));
    assert_eq!(t.stop(), Action::Stop);
    assert_eq!((t.state(), px(&t)), (PlayState::Idle, 0.0));
}

#[test]
fn toggle_stops_and_restarts_from_the_beginning() {
    let mut t = loaded(10, 10, 100);
    t.toggle(true);
    t.tick(300_000);
    assert_eq!(t.toggle(false), Action::Stop);
    assert_eq!((t.state(), px(&t)), (PlayState::Idle, 0.0));
    assert_eq!(t.toggle(false), Action::Restart);
    assert_eq!((t.state(), px(&t)), (PlayState::Playing, 0.0));
}

#[test]
fn toggle_without_buffer_does_nothing() {
    let mut t = Transport::new(100);
    assert!(t.buffer().is_none());
    assert_eq!(t.toggle(true), Action::Nothing);
    assert_eq!(t.state(), PlayState::Idle);
    assert_eq!(t.tick(1_000_000), Action::Nothing);
    assert_eq!(px(&t), 0.0);
}

#[test]
fn speed_scales_the_playhead() {
    let mut t = loaded(4, 4, 100);
    assert_eq!(t.set_speed(8), Action::SetSpeed(8));
    t.toggle(true);
    t.tick(250_000);
    assert!((px(&t) - 50.0).abs() < 1e-9);
    assert_eq!(t.tick(250_000), Action::Stop);
}

#[test]
fn speed_stays_in_range() {
    let mut t = Transport::new(100);
    assert_eq!(t.set_speed(0), Action::Nothing);
    assert_eq!(t.set_speed(MAX_SPEED + 1), Action::Nothing);
    assert_eq!(t.speed(), DEFAULT_SPEED);
    assert_eq!(t.speed_up(), Action::SetSpeed(5));
    assert_eq!(t.set_speed(MAX_SPEED), Action::SetSpeed(MAX_SPEED));
    assert_eq!(t.speed_up(), Action::Nothing);
    assert_eq!(t.speed(), MAX_SPEED);
    assert_eq!(t.set_speed(MIN_SPEED), Action::SetSpeed(MIN_SPEED));
    assert_eq!(t.speed_down(), Action::Nothing);
    assert_eq!(t.speed(), MIN_SPEED);
    assert_eq!(t.speed_up(), Action::SetSpeed(2));
    assert_eq!(t.speed_down(), Action::SetSpeed(1));
}

#[test]
fn loading_stops_playback() {
    let mut t = loaded(10, 10, 100);
    t.toggle(true);
    t.tick(500_000);
    let next = AudioBuffer::build(vec![1, 2, 3, 4], 2, 8).unwrap();
    assert_eq!(t.load(next), Action::Stop);
    assert_eq!((t.state(), px(&t)), (PlayState::Idle, 0.0));
    assert_eq!(t.buffer().unwrap().samples(), &[1, 2, 3, 4]);
    assert_eq!(t.width(), 100);
}
