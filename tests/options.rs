use bulldozer::{ConfigError, InputMethod, Opt, OutputMethod, RawOpt};

fn raw(input: &str, output: Option<&str>) -> RawOpt {
    RawOpt {
        input_method: input.to_string(),
        sample_input: None,
        target_path: None,
        generate_config_file: false,
        output_method: output.map(|s| s.to_string()),
        setup_command: None,
        restart_command: None,
        health_check_command: None,
        pre_exit_command: None,
        success_check_command: None,
        pre_payload_command: None,
        post_payload_command: None,
    }
}

#[test]
fn paths_in_and_out() {
    let o = Opt::from_raw(raw("path=/tmp/seed.bin", Some("path=/tmp/out.log"))).unwrap();
    assert_eq!(o.input_method, InputMethod::Path("/tmp/seed.bin".to_string()));
    assert_eq!(o.output_method, Some(OutputMethod::Path("/tmp/out.log".to_string())));
    assert_eq!(o.sample_input, None);
    assert_eq!(o.target_path, None);
    assert!(!o.generate_config_file);
    assert_eq!(o.setup_command, None);
    assert_eq!(o.restart_command, None);
    assert_eq!(o.health_check_command, None);
    assert_eq!(o.pre_exit_command, None);
    assert_eq!(o.success_check_command, None);
    assert_eq!(o.pre_payload_command, None);
    assert_eq!(o.post_payload_command, None);
}

#[test]
fn url_input_without_output() {
    let o = Opt::from_raw(raw("url=https://example.com/fuzz?x=1", None)).unwrap();
    assert_eq!(o.input_method, InputMethod::Url("https://example.com/fuzz?x=1".to_string()));
    assert_eq!(o.output_method, None);
}

#[test]
fn plain_fields_are_carried() {
    let mut r = raw("stdin", Some("stdin"));
    r.sample_input = Some("seed.bin".to_string());
    r.target_path = Some("/usr/bin/target".to_string());
    r.generate_config_file = true;
    r.setup_command = Some("make".to_string());
    r.restart_command = Some("systemctl restart t".to_string());
    r.health_check_command = Some("curl -f localhost".to_string());
    r.pre_exit_command = Some("echo bye".to_string());
    r.success_check_command = Some("test -e crash".to_string());
    r.pre_payload_command = Some("echo pre".to_string());
    r.post_payload_command = Some("echo post".to_string());
    let o = Opt::from_raw(r.clone()).unwrap();
    assert_eq!(o.input_method, InputMethod::Stdin);
    assert_eq!(o.output_method, Some(OutputMethod::Stdout));
    assert_eq!(o.sample_input, r.sample_input);
    assert_eq!(o.target_path, r.target_path);
    assert!(o.generate_config_file);
    assert_eq!(o.setup_command, r.setup_command);
    assert_eq!(o.restart_command, r.restart_command);
    assert_eq!(o.health_check_command, r.health_check_command);
    assert_eq!(o.pre_exit_command, r.pre_exit_command);
    assert_eq!(o.success_check_command, r.success_check_command);
    assert_eq!(o.pre_payload_command, r.pre_payload_command);
    assert_eq!(o.post_payload_command, r.post_payload_command);
}

#[test]
fn bad_input_method_aborts() {
    assert_eq!(
        Opt::from_raw(raw("stdout", Some("stdin"))),
        Err(ConfigError::UnsupportedInputMethod)
    );
}

#[test]
fn input_error_comes_before_output_error() {
    assert_eq!(
        Opt::from_raw(raw("url=::", Some("stdout"))),
        Err(ConfigError::MalformedUrl)
    );
}

#[test]
fn bad_output_method_aborts() {
    assert_eq!(
        Opt::from_raw(raw("stdin", Some("stdout"))),
        Err(ConfigError::UnsupportedOutputMethod)
    );
}
