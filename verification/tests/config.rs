use servicers::proc_config::{
    create_default, load, ProcessConfig, ProcessConfigState, NGINX_CWD, NGINX_PATH, NGINX_STOP_ARGS,
    PHP_CWD, PHP_PATH,
};

fn config(program: &str, state: ProcessConfigState) -> ProcessConfig {
    ProcessConfig {
        program: program.to_string(),
        args: vec!["-x".to_string()],
        cwd: "/tmp".to_string(),
        state,
        pid: 0,
    }
}

#[test]
fn test_load() {
    let units = load(Vec::new());
    println!("{:?}", units);
    assert_eq!(units.len(), 2);
}

#[test]
fn new_config_is_enabled() {
    let made = ProcessConfig::_new("prog".to_string(), vec!["a".to_string()], "dir".to_string());
    assert_eq!(made.program, "prog");
    assert_eq!(made.args, vec!["a".to_string()]);
    assert_eq!(made.cwd, "dir");
    assert_eq!(made.state, ProcessConfigState::Enabled);
    assert_eq!(made.pid, 0);
    assert!(made.is_valid());
}

#[test]
fn config_is_valid_with_program_and_enabled() {
    assert!(config("prog", ProcessConfigState::Enabled).is_valid());
}

#[test]
fn config_without_program_is_not_valid() {
    assert!(!config("", ProcessConfigState::Enabled).is_valid());
}

#[test]
fn disabled_config_is_not_valid() {
    assert!(!config("prog", ProcessConfigState::Disabled).is_valid());
    assert!(!config("", ProcessConfigState::Disabled).is_valid());
}

#[test]
fn load_appends_the_builtin_units() {
    let units = load(Vec::new());
    assert_eq!(units.len(), 2);
    assert_eq!(units[0].program, "C:/nginx/nginx.exe");
    assert!(units[0].args.is_empty());
    assert_eq!(units[0].cwd, "C:/nginx");
    assert_eq!(units[0].state, ProcessConfigState::Enabled);
    assert_eq!(units[0].pid, 0);
    assert_eq!(units[1].program, "C:/php/8.1.8/php-cgi.exe");
    assert_eq!(units[1].args, vec!["-b".to_string(), "localhost:9123".to_string()]);
    assert_eq!(units[1].cwd, "C:/nginx/html");
    assert_eq!(units[1].state, ProcessConfigState::Enabled);
    assert_eq!(units[1].pid, 0);
}

#[test]
fn load_keeps_the_stored_units_first_and_in_order() {
    let stored = vec![
        config("one", ProcessConfigState::Enabled),
        config("two", ProcessConfigState::Disabled),
    ];
    let units = load(stored);
    assert_eq!(units.len(), 4);
    assert_eq!(units[0].program, "one");
    assert_eq!(units[0].state, ProcessConfigState::Enabled);
    assert_eq!(units[1].program, "two");
    assert_eq!(units[1].state, ProcessConfigState::Disabled);
    assert_eq!(units[1].args, vec!["-x".to_string()]);
    assert_eq!(units[2].program, NGINX_PATH);
    assert_eq!(units[2].cwd, NGINX_CWD);
    assert_eq!(units[3].program, PHP_PATH);
    assert_eq!(units[3].cwd, PHP_CWD);
}

#[test]
fn default_list_is_one_blank_enabled_record() {
    let units = create_default();
    assert_eq!(units.len(), 1);
    assert_eq!(units[0].program, "");
    assert!(units[0].args.is_empty());
    assert_eq!(units[0].cwd, "");
    assert_eq!(units[0].state, ProcessConfigState::Enabled);
    assert_eq!(units[0].pid, 0);
    assert!(!units[0].is_valid());
}

#[test]
fn front_end_stop_arguments() {
    assert_eq!(NGINX_STOP_ARGS, ["-s", "stop"]);
}
