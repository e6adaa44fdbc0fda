use embassy_time::MockDriver;
use midival_renaissance_lib::configuration::{Keyboard, NotePriority};
use midival_renaissance_lib::note::{Note, U7};
use midival_renaissance_lib::portamento::{time_to_duration, Portamento};
use midival_renaissance_lib::time::{Duration, Instant};
use midival_renaissance_lib::voltage::Voltage;

fn note(note: wmidi::Note) -> Note {
    Note::from_u8_lossy(u8::from(note))
}

fn keyboard() -> Keyboard<NotePriority> {
    Keyboard::new(
        NotePriority::Low,
        note(wmidi::Note::F3),
        note(wmidi::Note::C6),
        Voltage::from_volts(1),
    )
}

fn time_driver() -> &'static MockDriver {
    let driver = MockDriver::get();
    driver.reset();
    driver
}

#[test]
fn new_destination() {
    let driver = time_driver();
    let portamento_in_progress = Portamento::from_parts(
        Voltage::from_millivolts(750), // this is a D4
        note(wmidi::Note::D5),
        Instant::now(),
        Duration::from_millis(2500),
        keyboard(),
    );

    driver.advance(embassy_time::Duration::from_millis(500));

    assert_eq!(
        Portamento::from_parts(
            Voltage::from_millivolts(950), // somewhere between E4 and F4
            note(wmidi::Note::C4),
            Instant::now(),
            Duration::from_millis(2500),
            keyboard(),
        ),
        portamento_in_progress.new_destination(note(wmidi::Note::C4)),
        "Expected left but got right"
    );
}

#[test]
fn glide_up() {
    let driver = time_driver();
    let portamento = Portamento::from_parts(
        Voltage::from_millivolts(750), // this is a D4
        note(wmidi::Note::D5),
        Instant::now(),
        Duration::from_millis(1000),
        keyboard(),
    );

    driver.advance(embassy_time::Duration::from_millis(500));

    assert_eq!(
        Voltage::from_millivolts(1250),
        portamento.glide(),
        "Expected glide up the keyboard to increase the voltage linearly"
    );
}

#[test]
fn glide_down() {
    let driver = time_driver();
    let portamento = Portamento::from_parts(
        Voltage::from_millivolts(1750), // this is a D5
        note(wmidi::Note::D4),
        Instant::now(),
        Duration::from_millis(1000),
        keyboard(),
    );

    driver.advance(embassy_time::Duration::from_millis(500));

    assert_eq!(
        Voltage::from_millivolts(1250),
        portamento.glide(),
        "Expected glide down the keyboard to decrease the voltage linearly"
    );
}

#[test]
fn glide_disabled() {
    let driver = time_driver();
    let portamento = Portamento::from_parts(
        Voltage::from_millivolts(750), // this is a D4
        note(wmidi::Note::D5),
        Instant::now(),
        Duration::from_millis(0),
        keyboard(),
    );

    driver.advance(embassy_time::Duration::from_millis(0));

    assert_eq!(
        Voltage::from_millivolts(1750),
        portamento.glide(),
        "Expected instant note changed when portamento disabled"
    );
}

#[test]
fn glide_late() {
    let driver = time_driver();
    let portamento = Portamento::from_parts(
        Voltage::from_millivolts(750), // this is a D4
        note(wmidi::Note::D5),
        Instant::now(),
        Duration::from_millis(1000),
        keyboard(),
    );

    driver.advance(embassy_time::Duration::from_millis(1111));

    assert_eq!(
        Voltage::from_millivolts(1750),
        portamento.glide(),
        "Expected glide not to overshoot the destination note"
    );
}

#[test]
fn set_duration() {
    let mut portamento = Portamento::from_parts(
        Voltage::from_volts(0),
        note(wmidi::Note::C4),
        Instant::from_micros(0),
        Duration::from_millis(0),
        keyboard(),
    );

    portamento.set_duration(U7::from_u8_lossy(127));
    assert_eq!(
        Duration::from_secs(5),
        portamento.duration(),
        "Expected maximum control value for Portamento Time to yield max glide time"
    );

    portamento.set_duration(U7::from_u8_lossy(0));
    assert_eq!(
        Duration::from_secs(0),
        portamento.duration(),
        "Expected minimum control value for Portamento Time to yield instant note changes"
    );

    portamento.set_duration(U7::from_u8_lossy(64));
    assert_eq!(
        Duration::from_micros(2_519_685),
        portamento.duration(),
        "Duration should scale with Portamento Time control value; expected left got right"
    );
}

fn rising() -> Portamento<NotePriority> {
    Portamento::from_parts(
        Voltage::from_millivolts(750),
        note(wmidi::Note::D5),
        Instant::from_millis(2_000),
        Duration::from_millis(1000),
        keyboard(),
    )
}

#[test]
fn glide_is_a_straight_line() {
    let glide = rising();
    assert_eq!(
        glide.glide_at(Instant::from_millis(2_000)),
        Voltage::from_millivolts(750)
    );
    assert_eq!(
        glide.glide_at(Instant::from_millis(2_250)),
        Voltage::from_millivolts(1000)
    );
    assert_eq!(
        glide.glide_at(Instant::from_millis(2_500)),
        Voltage::from_millivolts(1250)
    );
    assert_eq!(
        glide.glide_at(Instant::from_micros(2_999_999)),
        Voltage::from_microvolts(1_749_999)
    );
    assert_eq!(
        glide.glide_at(Instant::from_micros(2_333_333)),
        Voltage::from_microvolts(1_083_333)
    );
}

#[test]
fn glide_never_overshoots() {
    let glide = rising();
    for now in [3_000, 3_001, 3_111, 60_000, 4_000_000_000] {
        assert_eq!(
            glide.glide_at(Instant::from_millis(now)),
            Voltage::from_millivolts(1750)
        );
    }
    assert_eq!(
        glide.glide_at(Instant::from_micros(u64::MAX)),
        Voltage::from_millivolts(1750)
    );
}

#[test]
fn glide_rests_at_its_origin_before_it_starts() {
    let glide = rising();
    assert_eq!(
        glide.glide_at(Instant::from_millis(1_000)),
        Voltage::from_millivolts(750)
    );
    assert_eq!(
        glide.glide_at(Instant::from_micros(0)),
        Voltage::from_millivolts(750)
    );
}

#[test]
fn a_glide_of_no_length_is_at_its_destination_at_once() {
    let glide = Portamento::from_parts(
        Voltage::from_millivolts(750),
        note(wmidi::Note::D5),
        Instant::from_millis(10),
        Duration::from_micros(0),
        keyboard(),
    );
    assert_eq!(
        glide.glide_at(Instant::from_millis(10)),
        Voltage::from_millivolts(1750)
    );
    assert_eq!(
        glide.glide_at(Instant::from_millis(5)),
        Voltage::from_millivolts(1750)
    );
}

#[test]
fn retarget_starts_where_the_glide_is() {
    let now = Instant::from_millis(2_400);
    let sampled = rising().glide_at(now);
    assert_eq!(sampled, Voltage::from_millivolts(1150));
    let turned = rising().retarget(note(wmidi::Note::C4), now);
    assert_eq!(
        turned,
        Portamento::from_parts(
            Voltage::from_millivolts(1150),
            note(wmidi::Note::C4),
            now,
            Duration::from_millis(1000),
            keyboard(),
        )
    );
    assert_eq!(turned.glide_at(now), sampled);
    assert_eq!(turned.destination(), note(wmidi::Note::C4));
    assert_eq!(turned.duration(), Duration::from_millis(1000));
    // C4 lies seven half steps above F3: 583 333 microvolts
    assert_eq!(
        turned.glide_at(Instant::from_millis(2_900)),
        Voltage::from_microvolts(866_667)
    );
    assert_eq!(
        turned.glide_at(Instant::from_millis(3_400)),
        Voltage::from_microvolts(583_333)
    );
}

#[test]
fn redirect_turns_the_glide_in_place() {
    let now = Instant::from_millis(2_400);
    let mut glide = rising();
    glide.redirect(note(wmidi::Note::C4), now);
    assert_eq!(glide, rising().retarget(note(wmidi::Note::C4), now));
}

#[test]
fn new_glides_from_the_voltage_of_a_note() {
    let now = Instant::from_millis(7);
    let glide = Portamento::new_at(
        note(wmidi::Note::D4),
        note(wmidi::Note::D5),
        U7::from_u8_lossy(127),
        keyboard(),
        now,
    );
    assert_eq!(
        glide,
        Portamento::from_parts(
            Voltage::from_millivolts(750),
            note(wmidi::Note::D5),
            now,
            Duration::from_secs(5),
            keyboard(),
        )
    );
}

#[test]
fn new_starts_at_the_present() {
    let driver = time_driver();
    driver.advance(embassy_time::Duration::from_millis(40));
    let glide = Portamento::new(
        note(wmidi::Note::D4),
        note(wmidi::Note::D5),
        U7::from_u8_lossy(0),
        keyboard(),
    );
    assert_eq!(
        glide,
        Portamento::from_parts(
            Voltage::from_millivolts(750),
            note(wmidi::Note::D5),
            Instant::from_millis(40),
            Duration::from_micros(0),
            keyboard(),
        )
    );
}

#[test]
fn the_clock_follows_the_time_driver() {
    let driver = time_driver();
    let before = Instant::now();
    driver.advance(embassy_time::Duration::from_micros(1_234));
    let after = Instant::now();
    assert_eq!(after.saturating_duration_since(before), Duration::from_micros(1_234));
    assert!(after.is_after(before));
}

#[test]
fn is_done_after_the_end() {
    let glide = rising();
    assert!(!glide.is_done_at(Instant::from_millis(2_999)));
    assert!(!glide.is_done_at(Instant::from_millis(3_000)));
    assert!(glide.is_done_at(Instant::from_micros(3_000_001)));
    assert!(!glide.is_done_at(Instant::from_millis(1)));
    let driver = time_driver();
    assert!(!glide.is_done());
    driver.advance(embassy_time::Duration::from_millis(3_001));
    assert!(glide.is_done());
}

#[test]
fn portamento_time_scales_the_longest_glide() {
    assert_eq!(time_to_duration(U7::from_u8_lossy(0)), Duration::from_micros(0));
    assert_eq!(time_to_duration(U7::from_u8_lossy(1)), Duration::from_micros(39_370));
    assert_eq!(
        time_to_duration(U7::from_u8_lossy(64)),
        Duration::from_micros(2_519_685)
    );
    assert_eq!(time_to_duration(U7::from_u8_lossy(127)), Duration::from_secs(5));
}

#[test]
fn a_copy_of_a_glide_glides_alike() {
    let glide = rising();
    let copy = glide.clone();
    assert_eq!(copy, glide);
}

#[test]
fn a_glide_that_ends_beyond_the_clock_is_never_done() {
    let driver = time_driver();
    let glide = Portamento::from_parts(
        Voltage::from_millivolts(750),
        note(wmidi::Note::D5),
        Instant::from_micros(u64::MAX - 10),
        Duration::from_micros(10),
        keyboard(),
    );
    assert!(!glide.is_done());
    driver.advance(embassy_time::Duration::from_secs(3_600));
    assert!(!glide.is_done());
    assert!(!glide.is_done_at(Instant::from_micros(u64::MAX)));
}
