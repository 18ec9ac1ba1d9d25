use led_matrix::command::{
    command_from_message, command_topic, config_topic, device_topic_of, is_command_topic,
    subscription_filter,
};
use led_matrix::engine::SceneEngine;
use led_matrix::mailbox::Mailbox;
use led_matrix::scene::{DrawOp, Label, Rgb, Scene, SceneId, MATRIX_HEIGHT, MATRIX_WIDTH};

fn fill(red: u8, green: u8, blue: u8) -> Vec<DrawOp> {
    vec![DrawOp::Fill { colour: Rgb { red, green, blue } }]
}

const SET_TOPIC: &str = "homeassistant/select/sams_led_matrix/set";

#[test]
fn unknown_commands_select_blank() {
    for command in ["bogus", "", "Blank", "ONAIR", "colour cycle", "onair "] {
        let mut engine = SceneEngine::new();
        engine.apply_command("onair");
        engine.apply_command(command);
        assert_eq!(engine.active(), SceneId::Blank);
        assert_eq!(engine.scene, Scene::Blank);
    }
}

#[test]
fn known_commands_select_their_scene() {
    assert_eq!(SceneId::from_command("blank"), SceneId::Blank);
    assert_eq!(SceneId::from_command("colourcycle"), SceneId::ColourCycle);
    assert_eq!(SceneId::from_command("onair"), SceneId::OnAir);
    for id in SceneId::all() {
        assert_eq!(SceneId::from_command(id.name()), id);
    }
}

#[test]
fn repeated_command_keeps_counter() {
    let mut engine = SceneEngine::new();
    engine.render(Some("colourcycle"));
    engine.render(None);
    engine.render(None);
    assert_eq!(engine.scene, Scene::ColourCycle { step: 3 });
    let frame = engine.render(Some("colourcycle"));
    assert_eq!(frame, fill(0, 0, 3));
    assert_eq!(engine.scene, Scene::ColourCycle { step: 4 });
}

#[test]
fn reentering_colour_cycle_resets_counter() {
    let mut engine = SceneEngine::new();
    engine.render(Some("colourcycle"));
    engine.render(None);
    engine.render(Some("onair"));
    assert_eq!(engine.active(), SceneId::OnAir);
    let frame = engine.render(Some("colourcycle"));
    assert_eq!(frame, fill(0, 0, 0));
    assert_eq!(engine.scene, Scene::ColourCycle { step: 1 });
}

#[test]
fn colour_cycle_channels_follow_counter() {
    let mut scene = Scene::ColourCycle { step: 0x12_3456 };
    assert_eq!(scene.next_frame(), fill(0x12, 0x34, 0x56));
    assert_eq!(scene, Scene::ColourCycle { step: 0x12_3457 });
    assert_eq!(Rgb::from_step(0xAB_CDEF), Rgb { red: 0xAB, green: 0xCD, blue: 0xEF });
    assert_eq!(Rgb::from_step(0x00_0100), Rgb { red: 0, green: 1, blue: 0 });
}

#[test]
fn colour_cycle_wraps_after_full_range() {
    let mut scene = Scene::ColourCycle { step: 0xFF_FFFF };
    assert_eq!(scene.next_frame(), fill(0xFF, 0xFF, 0xFF));
    assert_eq!(scene, Scene::ColourCycle { step: 0 });
    assert_eq!(scene.next_frame(), fill(0, 0, 0));
    assert_eq!(scene.next_frame(), fill(0, 0, 1));
}

#[test]
fn colour_cycle_repeats_after_two_to_the_24_frames() {
    let mut scene = Scene::enter(SceneId::ColourCycle);
    let first = scene.next_frame();
    for _ in 1..0x100_0000u32 {
        scene.next_frame();
    }
    assert_eq!(scene, Scene::ColourCycle { step: 0 });
    assert_eq!(scene.next_frame(), first);
}

#[test]
fn blank_is_black_on_every_call() {
    let mut scene = Scene::enter(SceneId::Blank);
    for _ in 0..1000 {
        assert_eq!(scene.next_frame(), fill(0, 0, 0));
    }
    assert_eq!(scene, Scene::Blank);
}

#[test]
fn on_air_frames_are_identical() {
    let mut scene = Scene::enter(SceneId::OnAir);
    let first = scene.next_frame();
    let red = Rgb { red: 255, green: 0, blue: 0 };
    assert_eq!(
        first,
        vec![
            DrawOp::Fill { colour: Rgb { red: 0, green: 0, blue: 0 } },
            DrawOp::RectOutline {
                x: 0,
                y: 0,
                width: MATRIX_WIDTH,
                height: MATRIX_HEIGHT,
                stroke: 1,
                colour: red,
            },
            DrawOp::Text { x: 3, y: 10, label: Label::On, colour: red },
            DrawOp::Text { x: 15, y: 10, label: Label::Air, colour: red },
        ]
    );
    for _ in 0..100 {
        assert_eq!(scene.next_frame(), first);
    }
    assert_eq!(Label::On.text(), "ON");
    assert_eq!(Label::Air.text(), "AIR");
}

#[test]
fn colourcycle_message_end_to_end() {
    let mut mailbox = Mailbox::new();
    let mut engine = SceneEngine::new();
    assert_eq!(engine.active(), SceneId::Blank);
    if let Some(c) = command_from_message(SET_TOPIC, b"colourcycle".to_vec()) {
        mailbox.post(c);
    }
    let pending = mailbox.take();
    assert_eq!(pending.as_deref(), Some("colourcycle"));
    let frame = engine.render(pending.as_deref());
    assert_eq!(engine.active(), SceneId::ColourCycle);
    assert_eq!(frame, fill(0, 0, 0));
    let pending = mailbox.take();
    assert_eq!(pending, None);
    let frame = engine.render(pending.as_deref());
    assert_eq!(frame, fill(0, 0, 1));
}

#[test]
fn onair_then_bogus_end_to_end() {
    let mut engine = SceneEngine::new();
    let mut seen = vec![engine.active()];
    for payload in ["onair", "bogus"] {
        let command = command_from_message(SET_TOPIC, payload.as_bytes().to_vec());
        engine.render(command.as_deref());
        seen.push(engine.active());
    }
    assert_eq!(seen, vec![SceneId::Blank, SceneId::OnAir, SceneId::Blank]);
}

#[test]
fn malformed_payload_is_dropped() {
    let mut engine = SceneEngine::new();
    engine.render(Some("colourcycle"));
    engine.render(None);
    let command = command_from_message(SET_TOPIC, vec![0x6f, 0xff, 0xfe, 0x6e]);
    assert_eq!(command, None);
    let frame = engine.render(command.as_deref());
    assert_eq!(engine.active(), SceneId::ColourCycle);
    assert_eq!(frame, fill(0, 0, 2));
    assert_eq!(command_from_message(SET_TOPIC, vec![0xC0, 0x80]), None);
    assert_eq!(command_from_message(SET_TOPIC, vec![0xED, 0xA0, 0x80]), None);
}

#[test]
fn payload_is_decoded_as_utf8() {
    assert_eq!(
        command_from_message(SET_TOPIC, "caf\u{e9}".as_bytes().to_vec()),
        Some(String::from("caf\u{e9}"))
    );
    assert_eq!(command_from_message(SET_TOPIC, vec![]), Some(String::new()));
}

#[test]
fn only_set_sub_path_carries_commands() {
    assert!(is_command_topic(SET_TOPIC));
    assert!(is_command_topic("homeassistant/select/sams_led_matrix/SET"));
    assert!(is_command_topic("homeassistant/select/sams_led_matrix/sEt"));
    assert!(is_command_topic("set"));
    assert!(!is_command_topic("homeassistant/select/sams_led_matrix/config"));
    assert!(!is_command_topic("homeassistant/select/sams_led_matrix/reset"));
    assert!(!is_command_topic("homeassistant/select/sams_led_matrix/set/x"));
    assert!(!is_command_topic("homeassistant/select/sams_led_matrix"));
    assert!(!is_command_topic("et"));
    assert_eq!(
        command_from_message("homeassistant/select/sams_led_matrix/config", b"onair".to_vec()),
        None
    );
}

#[test]
fn mailbox_keeps_newest_command() {
    let mut mailbox = Mailbox::new();
    assert_eq!(mailbox.take(), None);
    mailbox.post(String::from("onair"));
    mailbox.post(String::from("blank"));
    assert_eq!(mailbox.take(), Some(String::from("blank")));
    assert_eq!(mailbox.take(), None);
}

#[test]
fn device_topics() {
    let id = "sams_led_matrix";
    assert_eq!(device_topic_of(id), "homeassistant/select/sams_led_matrix");
    assert_eq!(command_topic(id), "homeassistant/select/sams_led_matrix/set");
    assert_eq!(config_topic(id), "homeassistant/select/sams_led_matrix/config");
    assert_eq!(subscription_filter(id), "homeassistant/select/sams_led_matrix/#");
}
