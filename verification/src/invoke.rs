//! Building `ros2` argument vectors from requests, and mapping process
//! outcomes back to a uniform result.
//!
//! The library never spawns a process itself: a caller takes the argument
//! vector a builder returns, runs the external tool, and hands the outcome
//! back to [`classify_outcome`]. A builder returns an error exactly when a
//! required identifier is blank, so no argument vector exists for an
//! invalid request and nothing can be spawned for one.

use vstd::prelude::*;
use vstd::string::*;
use crate::text::{trim_seq, trim_str, dec_int, i64_to_dec};
use crate::value::{ParamValue, ser, value_to_cli_string};

verus! {

/// Why a request failed: rejected before any process was spawned, the
/// external tool could not be started, or it ran and reported failure.
#[derive(Debug)]
pub enum RosError {
    Validation(String),
    Spawn(String),
    Process(String),
}

/// The descriptive text a failure carries.
pub open spec fn error_text(e: RosError) -> Seq<char> {
    match e {
        RosError::Validation(m) => m@,
        RosError::Spawn(m) => m@,
        RosError::Process(m) => m@,
    }
}

impl RosError {
    /// Flattens the failure to its descriptive text.
    pub fn message(self) -> (m: String)
        ensures
            m@ == error_text(self),
    {
        match self {
            RosError::Validation(m) => m,
            RosError::Spawn(m) => m,
            RosError::Process(m) => m,
        }
    }
}

/// What became of one invocation of the external tool: it could not be
/// started at all, or it ran to completion with an exit status and
/// captured output.
pub enum ProcessOutcome {
    SpawnFailed(String),
    Exited { success: bool, stdout: String, stderr: String },
}

/// The failure text for a run that exited unsuccessfully: trimmed standard
/// error if non-empty, else trimmed standard output if non-empty, else a
/// fixed fallback.
pub open spec fn failure_text(stdout: Seq<char>, stderr: Seq<char>) -> Seq<char> {
    if trim_seq(stderr).len() > 0 {
        trim_seq(stderr)
    } else if trim_seq(stdout).len() > 0 {
        trim_seq(stdout)
    } else {
        "ros2 command failed without output"@
    }
}

/// Maps a process outcome to the caller's result: success exactly when the
/// tool exited successfully, regardless of output.
pub fn classify_outcome(outcome: ProcessOutcome) -> (r: Result<(), RosError>)
    ensures
        r is Ok <==> (outcome matches ProcessOutcome::Exited { success: true, .. }),
        (outcome matches ProcessOutcome::SpawnFailed(msg) ==> r matches Err(
            RosError::Spawn(m),
        ) && m@ == msg@),
        (outcome matches ProcessOutcome::Exited { success: false, stdout, stderr } ==> r matches Err(
            RosError::Process(m),
        ) && m@ == failure_text(stdout@, stderr@)),
{
    match outcome {
        ProcessOutcome::SpawnFailed(msg) => Err(RosError::Spawn(msg)),
        ProcessOutcome::Exited { success, stdout, stderr } => {
            if success {
                Ok(())
            } else {
                let stderr_trimmed = trim_str(stderr.as_str());
                if !stderr_trimmed.is_empty() {
                    Err(RosError::Process(String::from_str(stderr_trimmed)))
                } else {
                    let stdout_trimmed = trim_str(stdout.as_str());
                    if !stdout_trimmed.is_empty() {
                        Err(RosError::Process(String::from_str(stdout_trimmed)))
                    } else {
                        Err(RosError::Process(String::from_str("ros2 command failed without output")))
                    }
                }
            }
        },
    }
}

/// The argument vector of a parameter-set request.
pub open spec fn set_param_args(node: Seq<char>, param: Seq<char>, value: ParamValue) -> Seq<
    Seq<char>,
> {
    seq!["param"@, "set"@, trim_seq(node), trim_seq(param), trim_seq(ser(value))]
}

/// Whether an argument vector matches a sequence of expected renderings,
/// element for element.
pub open spec fn args_match(args: Seq<String>, expected: Seq<Seq<char>>) -> bool {
    args.len() == expected.len() && forall|i: int|
        0 <= i < args.len() ==> #[trigger] args[i]@ == expected[i]
}

/// Builds the argument vector `param set <node> <param> <value>` for a
/// parameter-set request; rejects blank node or parameter names before
/// anything could be spawned.
pub fn set_ros_parameter(node_name: String, param_name: String, value: &ParamValue) -> (r: Result<
    Vec<String>,
    RosError,
>)
    ensures
        r is Err <==> (trim_seq(node_name@).len() == 0 || trim_seq(param_name@).len() == 0),
        r matches Err(e) ==> e matches RosError::Validation(m) && m@
            == "node_name and param_name are required"@,
        r matches Ok(args) ==> args_match(args@, set_param_args(node_name@, param_name@, *value)),
{
    let node_trimmed = trim_str(node_name.as_str());
    let param_trimmed = trim_str(param_name.as_str());
    if node_trimmed.is_empty() || param_trimmed.is_empty() {
        return Err(
            RosError::Validation(String::from_str("node_name and param_name are required")),
        );
    }
    let value_str = value_to_cli_string(value);
    let value_trimmed = trim_str(value_str.as_str());
    let mut args: Vec<String> = Vec::new();
    args.push(String::from_str("param"));
    args.push(String::from_str("set"));
    args.push(String::from_str(node_trimmed));
    args.push(String::from_str(param_trimmed));
    args.push(String::from_str(value_trimmed));
    Ok(args)
}

/// The renderings `items[i..]`, joined with `, `.
pub open spec fn joined_from(items: Seq<Seq<char>>, i: int) -> Seq<char>
    decreases items.len() - i,
{
    if i < 0 || i >= items.len() {
        Seq::<char>::empty()
    } else if i == items.len() - 1 {
        items[i]
    } else {
        items[i] + ", "@ + joined_from(items, i + 1)
    }
}

fn join_comma(items: &Vec<String>, i: usize) -> (s: String)
    ensures
        s@ == joined_from(items.deep_view(), i as int),
    decreases items.len() - i,
{
    if i >= items.len() {
        String::new()
    } else {
        let mut out = items[i].clone();
        if i + 1 < items.len() {
            out.append(", ");
            let rest = join_comma(items, i + 1);
            out.append(rest.as_str());
        }
        out
    }
}

/// The argument vector of a publish request on `topic` with message type
/// `msg_type` and message body `body`.
pub open spec fn publish_args(topic: Seq<char>, msg_type: Seq<char>, body: Seq<char>) -> Seq<
    Seq<char>,
> {
    seq!["topic"@, "pub"@, "--once"@, trim_seq(topic), msg_type, body]
}

/// Builds the argument vector
/// `topic pub --once <channel> std_msgs/msg/Float32MultiArray {data: [<joined>]}`
/// for a float-array publish request. Each element of `data` is one
/// already-rendered number; the body joins them with `, ` in order.
pub fn publish_float32_multi_array(topic_name: String, data: Vec<String>) -> (r: Result<
    Vec<String>,
    RosError,
>)
    ensures
        r is Err <==> trim_seq(topic_name@).len() == 0,
        r matches Err(e) ==> e matches RosError::Validation(m) && m@ == "topic_name is required"@,
        r matches Ok(args) ==> args_match(
            args@,
            publish_args(
                topic_name@,
                "std_msgs/msg/Float32MultiArray"@,
                "{data: ["@ + joined_from(data.deep_view(), 0) + "]}"@,
            ),
        ),
{
    let topic_trimmed = trim_str(topic_name.as_str());
    if topic_trimmed.is_empty() {
        return Err(RosError::Validation(String::from_str("topic_name is required")));
    }
    let mut body = String::from_str("{data: [");
    let joined = join_comma(&data, 0);
    body.append(joined.as_str());
    body.append("]}");
    let mut args: Vec<String> = Vec::new();
    args.push(String::from_str("topic"));
    args.push(String::from_str("pub"));
    args.push(String::from_str("--once"));
    args.push(String::from_str(topic_trimmed));
    args.push(String::from_str("std_msgs/msg/Float32MultiArray"));
    args.push(body);
    Ok(args)
}

/// Builds the argument vector
/// `topic pub --once <channel> std_msgs/msg/Int32 {data: <value>}` for a
/// 32-bit-integer publish request; the value is rendered in decimal,
/// unmodified.
pub fn publish_int32(topic_name: String, value: i32) -> (r: Result<Vec<String>, RosError>)
    ensures
        r is Err <==> trim_seq(topic_name@).len() == 0,
        r matches Err(e) ==> e matches RosError::Validation(m) && m@ == "topic_name is required"@,
        r matches Ok(args) ==> args_match(
            args@,
            publish_args(
                topic_name@,
                "std_msgs/msg/Int32"@,
                "{data: "@ + dec_int(value as int) + "}"@,
            ),
        ),
{
    let topic_trimmed = trim_str(topic_name.as_str());
    if topic_trimmed.is_empty() {
        return Err(RosError::Validation(String::from_str("topic_name is required")));
    }
    let mut body = String::from_str("{data: ");
    let rendered = i64_to_dec(value as i64);
    body.append(rendered.as_str());
    body.append("}");
    let mut args: Vec<String> = Vec::new();
    args.push(String::from_str("topic"));
    args.push(String::from_str("pub"));
    args.push(String::from_str("--once"));
    args.push(String::from_str(topic_trimmed));
    args.push(String::from_str("std_msgs/msg/Int32"));
    args.push(body);
    Ok(args)
}

/// `v` clamped into the inclusive range of a signed 16-bit integer.
pub open spec fn clamp_i16(v: int) -> int {
    if v < -32768 {
        -32768
    } else if v > 32767 {
        32767
    } else {
        v
    }
}

/// Clamps a 32-bit integer into the signed 16-bit range.
pub fn clamp_to_i16(value: i32) -> (r: i32)
    ensures
        r as int == clamp_i16(value as int),
{
    if value < -32768 {
        -32768
    } else if value > 32767 {
        32767
    } else {
        value
    }
}

/// Builds the argument vector
/// `topic pub --once <channel> std_msgs/msg/Int16 {data: <clamped>}` for a
/// 16-bit-clamped publish request; the value is clamped into the signed
/// 16-bit range before rendering.
pub fn publish_int16(topic_name: String, value: i32) -> (r: Result<Vec<String>, RosError>)
    ensures
        r is Err <==> trim_seq(topic_name@).len() == 0,
        r matches Err(e) ==> e matches RosError::Validation(m) && m@ == "topic_name is required"@,
        r matches Ok(args) ==> args_match(
            args@,
            publish_args(
                topic_name@,
                "std_msgs/msg/Int16"@,
                "{data: "@ + dec_int(clamp_i16(value as int)) + "}"@,
            ),
        ),
{
    let topic_trimmed = trim_str(topic_name.as_str());
    if topic_trimmed.is_empty() {
        return Err(RosError::Validation(String::from_str("topic_name is required")));
    }
    let clamped = clamp_to_i16(value);
    let mut body = String::from_str("{data: ");
    let rendered = i64_to_dec(clamped as i64);
    body.append(rendered.as_str());
    body.append("}");
    let mut args: Vec<String> = Vec::new();
    args.push(String::from_str("topic"));
    args.push(String::from_str("pub"));
    args.push(String::from_str("--once"));
    args.push(String::from_str(topic_trimmed));
    args.push(String::from_str("std_msgs/msg/Int16"));
    args.push(body);
    Ok(args)
}

} // verus!
