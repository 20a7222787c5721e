//! The configuration surface and the topic it determines.

use exmebus_gateway::appargs::{subscription_topic, Args, Mode};

#[test]
fn json_mode_appends_the_json_suffix() {
    let t = subscription_topic(Mode::JSON, "incoming/machine/", "HD453");
    assert_eq!(t, "incoming/machine/HD453/json");
}

#[test]
fn redi_mode_appends_only_the_machine() {
    let t = subscription_topic(Mode::Redi, "incoming/machine/", "HD453");
    assert_eq!(t, "incoming/machine/HD453");
}

#[test]
fn args_carry_the_plain_configuration() {
    let args = Args {
        topic: "incoming/machine/".to_string(),
        exmebus_port: 124,
        mqtt_port: 1883,
        host: "tcp://localhost".to_string(),
        machine_id: "HD453".to_string(),
        mode: Mode::JSON,
        debug: 1,
    };
    let topic = subscription_topic(args.mode, &args.topic, &args.machine_id);
    assert_eq!(topic, "incoming/machine/HD453/json");
}
