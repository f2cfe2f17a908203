use vstd::prelude::*;

use crate::error::ConfigError;
use crate::method::{
    InputMethod, OutputMethod, input_accepted, input_outcome, output_accepted, output_outcome,
};

verus! {

/// The harness configuration as it arrives on the command line: every field
/// as text, before the two method fields are parsed.
#[derive(Clone, Debug, PartialEq, Eq)]
pub struct RawOpt {
    pub input_method: String,
    pub sample_input: Option<String>,
    pub target_path: Option<String>,
    pub generate_config_file: bool,
    pub output_method: Option<String>,
    pub setup_command: Option<String>,
    pub restart_command: Option<String>,
    pub health_check_command: Option<String>,
    pub pre_exit_command: Option<String>,
    pub success_check_command: Option<String>,
    pub pre_payload_command: Option<String>,
    pub post_payload_command: Option<String>,
}

/// The harness configuration, built once at start and read-only after.
#[derive(Clone, Debug, PartialEq, Eq)]
pub struct Opt {
    /// By what means the target is fuzzed.
    pub input_method: InputMethod,
    /// Valid sample input which the fuzzer mutates.
    pub sample_input: Option<String>,
    /// Where the target lives, if it is on this system.
    pub target_path: Option<String>,
    /// Whether to write a boilerplate configuration file instead of fuzzing.
    pub generate_config_file: bool,
    /// Where responses go; `None` discards them.
    pub output_method: Option<OutputMethod>,
    /// Run once before any fuzzing.
    pub setup_command: Option<String>,
    /// Run when the health check fails; without it the harness stops.
    pub restart_command: Option<String>,
    /// Exit code 0 means the target is healthy, any other means it is not.
    pub health_check_command: Option<String>,
    /// Run as the harness prepares to exit.
    pub pre_exit_command: Option<String>,
    /// Exit code 0 means the goal is not reached yet, any other means it is.
    pub success_check_command: Option<String>,
    /// Run before each payload is sent.
    pub pre_payload_command: Option<String>,
    /// Run after each payload is sent.
    pub post_payload_command: Option<String>,
}

/// Every field of `raw` that is text either way is carried into `o` unchanged.
pub open spec fn keeps_plain_fields(raw: RawOpt, o: Opt) -> bool {
    &&& o.sample_input == raw.sample_input
    &&& o.target_path == raw.target_path
    &&& o.generate_config_file == raw.generate_config_file
    &&& o.setup_command == raw.setup_command
    &&& o.restart_command == raw.restart_command
    &&& o.health_check_command == raw.health_check_command
    &&& o.pre_exit_command == raw.pre_exit_command
    &&& o.success_check_command == raw.success_check_command
    &&& o.pre_payload_command == raw.pre_payload_command
    &&& o.post_payload_command == raw.post_payload_command
}

/// `raw` is accepted: its input method parses, and so does its output method
/// if it has one.
pub open spec fn raw_accepted(raw: RawOpt) -> bool {
    &&& input_accepted(raw.input_method@)
    &&& (raw.output_method matches Some(t) ==> output_accepted(t@))
}

impl Opt {
    /// Builds the configuration from its text. The input method is parsed
    /// first; the first failure aborts the whole construction with its error.
    /// Paths and commands are carried as they are, checked by nobody here.
    pub fn from_raw(raw: RawOpt) -> (r: Result<Opt, ConfigError>)
        ensures
            r is Ok <==> raw_accepted(raw),
            r matches Ok(o) ==> {
                &&& input_outcome(raw.input_method@, Ok(o.input_method))
                &&& match raw.output_method {
                    None => o.output_method is None,
                    Some(t) => o.output_method matches Some(m) && output_outcome(t@, Ok(m)),
                }
                &&& keeps_plain_fields(raw, o)
            },
            r matches Err(e) ==> if input_accepted(raw.input_method@) {
                raw.output_method matches Some(t) && output_outcome(t@, Err(e))
            } else {
                input_outcome(raw.input_method@, Err(e))
            },
    {
        let input_method = match InputMethod::parse(raw.input_method.as_str()) {
            Ok(m) => m,
            Err(e) => return Err(e),
        };
        let output_method = match &raw.output_method {
            None => None,
            Some(t) => match OutputMethod::parse(t.as_str()) {
                Ok(m) => Some(m),
                Err(e) => return Err(e),
            },
        };
        Ok(Opt {
            input_method,
            sample_input: raw.sample_input,
            target_path: raw.target_path,
            generate_config_file: raw.generate_config_file,
            output_method,
            setup_command: raw.setup_command,
            restart_command: raw.restart_command,
            health_check_command: raw.health_check_command,
            pre_exit_command: raw.pre_exit_command,
            success_check_command: raw.success_check_command,
            pre_payload_command: raw.pre_payload_command,
            post_payload_command: raw.post_payload_command,
        })
    }
}

} // verus!
