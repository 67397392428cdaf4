use ros_bridge::ParamValue;
use ros_bridge::ProcessOutcome;
use ros_bridge::RosError;
use ros_bridge::classify_outcome;
use ros_bridge::clamp_to_i16;
use ros_bridge::publish_float32_multi_array;
use ros_bridge::publish_int16;
use ros_bridge::publish_int32;
use ros_bridge::set_ros_parameter;
use ros_bridge::trim_str;

fn owned(args: &[&str]) -> Vec<String> {
    args.iter().map(|a| a.to_string()).collect()
}

#[test]
fn set_parameter_builds_exact_args() {
    let args = set_ros_parameter(
        String::from("my_node"),
        String::from("speed_limit"),
        &ParamValue::Int(5),
    )
    .unwrap();
    assert_eq!(args, owned(&["param", "set", "my_node", "speed_limit", "5"]));
}

#[test]
fn set_parameter_trims_identifiers_and_value() {
    let args = set_ros_parameter(
        String::from("  my_node "),
        String::from("\tname\n"),
        &ParamValue::Text(String::from("  spaced  ")),
    )
    .unwrap();
    assert_eq!(args, owned(&["param", "set", "my_node", "name", "spaced"]));
}

#[test]
fn set_parameter_serializes_structured_value() {
    let value = ParamValue::Object(vec![
        (String::from("x"), ParamValue::Int(1)),
        (
            String::from("y"),
            ParamValue::List(vec![ParamValue::Int(2), ParamValue::Int(3)]),
        ),
    ]);
    let args = set_ros_parameter(String::from("n"), String::from("p"), &value).unwrap();
    assert_eq!(args[4], "{x: 1, y: [2, 3]}");
}

#[test]
fn set_parameter_rejects_blank_node() {
    let r = set_ros_parameter(String::from("   "), String::from("p"), &ParamValue::Null);
    match r {
        Err(RosError::Validation(m)) => {
            assert_eq!(m, "node_name and param_name are required");
        }
        _ => panic!("expected a validation error"),
    }
}

#[test]
fn set_parameter_rejects_blank_param() {
    let r = set_ros_parameter(String::from("n"), String::new(), &ParamValue::Null);
    assert!(matches!(r, Err(RosError::Validation(_))));
}

#[test]
fn float_array_renders_whole_valued_floats_without_fraction() {
    let rendered: Vec<String> = vec![1.5f32, -2.0f32]
        .into_iter()
        .map(|v| format!("{v}"))
        .collect();
    let args = publish_float32_multi_array(String::from("speed"), rendered).unwrap();
    assert_eq!(
        args,
        owned(&[
            "topic",
            "pub",
            "--once",
            "speed",
            "std_msgs/msg/Float32MultiArray",
            "{data: [1.5, -2]}",
        ])
    );
}

#[test]
fn float_array_empty_payload() {
    let args = publish_float32_multi_array(String::from("speed"), vec![]).unwrap();
    assert_eq!(args[5], "{data: []}");
}

#[test]
fn float_array_rejects_blank_topic() {
    let r = publish_float32_multi_array(String::from(" \t"), vec![]);
    match r {
        Err(RosError::Validation(m)) => assert_eq!(m, "topic_name is required"),
        _ => panic!("expected a validation error"),
    }
}

#[test]
fn int32_builds_exact_args() {
    let args = publish_int32(String::from("count"), -40000).unwrap();
    assert_eq!(
        args,
        owned(&[
            "topic",
            "pub",
            "--once",
            "count",
            "std_msgs/msg/Int32",
            "{data: -40000}",
        ])
    );
}

#[test]
fn int32_rejects_blank_topic() {
    assert!(matches!(
        publish_int32(String::new(), 1),
        Err(RosError::Validation(_))
    ));
}

#[test]
fn int16_clamps_above_range() {
    let args = publish_int16(String::from("steer"), 40000).unwrap();
    assert_eq!(args[4], "std_msgs/msg/Int16");
    assert_eq!(args[5], "{data: 32767}");
}

#[test]
fn int16_clamps_below_range() {
    let args = publish_int16(String::from("steer"), -40000).unwrap();
    assert_eq!(args[5], "{data: -32768}");
}

#[test]
fn int16_keeps_in_range_value() {
    let args = publish_int16(String::from("steer"), 100).unwrap();
    assert_eq!(args[5], "{data: 100}");
}

#[test]
fn clamp_bounds() {
    assert_eq!(clamp_to_i16(40000), 32767);
    assert_eq!(clamp_to_i16(-40000), -32768);
    assert_eq!(clamp_to_i16(100), 100);
    assert_eq!(clamp_to_i16(32767), 32767);
    assert_eq!(clamp_to_i16(-32768), -32768);
}

#[test]
fn int16_rejects_blank_topic() {
    assert!(matches!(
        publish_int16(String::from("\n"), 1),
        Err(RosError::Validation(_))
    ));
}

#[test]
fn success_exit_is_ok_regardless_of_output() {
    let outcome = ProcessOutcome::Exited {
        success: true,
        stdout: String::from("noise"),
        stderr: String::from("warning"),
    };
    assert!(classify_outcome(outcome).is_ok());
}

#[test]
fn failure_reports_trimmed_stderr() {
    let outcome = ProcessOutcome::Exited {
        success: false,
        stdout: String::from("ignored"),
        stderr: String::from("bad node\n"),
    };
    match classify_outcome(outcome) {
        Err(RosError::Process(m)) => assert_eq!(m, "bad node"),
        _ => panic!("expected a process error"),
    }
}

#[test]
fn failure_falls_back_to_stdout() {
    let outcome = ProcessOutcome::Exited {
        success: false,
        stdout: String::from("  details here  "),
        stderr: String::from("   "),
    };
    match classify_outcome(outcome) {
        Err(RosError::Process(m)) => assert_eq!(m, "details here"),
        _ => panic!("expected a process error"),
    }
}

#[test]
fn failure_without_output_uses_fixed_message() {
    let outcome = ProcessOutcome::Exited {
        success: false,
        stdout: String::new(),
        stderr: String::new(),
    };
    match classify_outcome(outcome) {
        Err(RosError::Process(m)) => assert_eq!(m, "ros2 command failed without output"),
        _ => panic!("expected a process error"),
    }
}

#[test]
fn spawn_failure_keeps_system_message() {
    let outcome = ProcessOutcome::SpawnFailed(String::from("No such file or directory"));
    match classify_outcome(outcome) {
        Err(RosError::Spawn(m)) => {
            assert!(!m.is_empty());
            assert_eq!(m, "No such file or directory");
        }
        _ => panic!("expected a spawn error"),
    }
}

#[test]
fn error_message_flattens_each_variant() {
    assert_eq!(
        RosError::Validation(String::from("v")).message(),
        "v"
    );
    assert_eq!(RosError::Spawn(String::from("s")).message(), "s");
    assert_eq!(RosError::Process(String::from("p")).message(), "p");
}

#[test]
fn trim_removes_unicode_whitespace() {
    assert_eq!(trim_str("  a b  "), "a b");
    assert_eq!(trim_str("\u{3000}x\u{2028}"), "x");
    assert_eq!(trim_str("\t\r\n"), "");
    assert_eq!(trim_str(""), "");
    assert_eq!(trim_str("solid"), "solid");
}
