use std::path::PathBuf;

use futures_lite::future::block_on;
use pm::{Command, Environment, Factory};

#[test]
fn command_line_holds_program_then_arguments() {
    let process = Command::new("sleep").arg("20").arg("a b").into_process();
    assert_eq!(format!("{:?}", process), "\"sleep\" \"20\" \"a b\"");
}

#[test]
fn whatever_can_be_printed_can_be_an_argument() {
    let command = Command::new(&String::from("sleep")).arg(&20).arg(&'c').env("N", &7u8);
    assert_eq!(command, Command::new("sleep").arg("20").arg("c").env("N", "7"));
}

#[test]
fn inherited_variables_are_kept() {
    for command in [Command::new("x"), Command::new("x").env("A", "1")] {
        assert!(!format!("{:?}", command.into_process()).contains("env -"));
    }
}

#[test]
fn commands_print_their_variables_as_a_map() {
    let command = Command::new("x").arg("1").env("B", "2").env("A", "say \"a\"").workdir("/usr");
    assert_eq!(
        format!("{:?}", command),
        "Command { cmd: \"x\", args: [\"1\"], \
         env: Some({\"A\": \"say \\\"a\\\"\", \"B\": \"2\"}), workdir: Some(\"/usr\") }"
    );
    assert_eq!(
        format!("{:?}", Command::new("x")),
        "Command { cmd: \"x\", args: [], env: None, workdir: None }"
    );
    let env = Environment::new().insert("A".to_string(), "1".to_string());
    assert_eq!(format!("{:?}", env), "{\"A\": \"1\"}");
    assert_eq!(format!("{:#?}", env), "{\n    \"A\": \"1\",\n}");
    assert_eq!(format!("{:?}", Environment::new()), "{}");
}

#[test]
fn program_alone() {
    let process = Command::new("true").into_process();
    assert_eq!(format!("{:?}", process), "\"true\"");
}

#[test]
fn variables_are_handed_over_in_ascending_order() {
    let process = Command::new("x").env("B", "2").env("AB", "3").env("A", "1").into_process();
    assert_eq!(format!("{:?}", process), "A=\"1\" AB=\"3\" B=\"2\" \"x\"");
}

#[test]
fn last_value_of_a_variable_counts() {
    let twice = Command::new("x").env("A", "1").env("A", "2");
    assert_eq!(twice, Command::new("x").env("A", "2"));
    assert_eq!(format!("{:?}", twice.into_process()), "A=\"2\" \"x\"");
}

#[test]
fn order_of_setting_variables_makes_no_difference() {
    let one = Command::new("x").env("A", "1").env("B", "2").env("C", "3");
    let other = Command::new("x").env("C", "3").env("A", "1").env("B", "2");
    assert_eq!(one, other);
}

#[test]
fn order_of_arguments_makes_a_difference() {
    assert_ne!(Command::new("x").arg("a").arg("b"), Command::new("x").arg("b").arg("a"));
}

#[test]
fn setting_no_variable_differs_from_setting_one() {
    assert_ne!(Command::new("x"), Command::new("x").env("A", ""));
}

#[test]
fn environment_is_sorted_by_bytes() {
    let env = Environment::new()
        .insert("b".to_string(), "1".to_string())
        .insert("\u{e9}".to_string(), "2".to_string())
        .insert("B".to_string(), "3".to_string())
        .insert("".to_string(), "4".to_string())
        .insert("ba".to_string(), "5".to_string())
        .insert("b".to_string(), "6".to_string());
    let names: Vec<(String, String)> = env.clone().into_pairs();
    let names: Vec<(&str, &str)> = names.iter().map(|p| (p.0.as_str(), p.1.as_str())).collect();
    assert_eq!(names, vec![("", "4"), ("B", "3"), ("b", "6"), ("ba", "5"), ("\u{e9}", "2")]);
    assert_eq!(env, env.clone());
}

#[test]
fn working_directory_is_handed_over() {
    let dir = PathBuf::from("/usr");
    let by_path = Command::new("x").workdir(dir.clone());
    let by_text = Command::new("x").workdir("/usr");
    assert_eq!(by_path, by_text);
    assert_ne!(by_path, Command::new("x"));
    assert_eq!(format!("{:?}", by_path.into_process()), "cd \"/usr\" && \"x\"");
}

#[test]
fn last_working_directory_counts() {
    assert_eq!(Command::new("x").workdir("/a").workdir("/b"), Command::new("x").workdir("/b"));
}

#[test]
fn clone_is_the_same_command() {
    let command = Command::new("x").arg("1").env("A", "1").env("B", "2").workdir("/usr");
    assert_eq!(command.clone(), command);
}

#[test]
fn plain_process_connects_no_stream() {
    let text = format!("{:#?}", Command::new("x").into_process());
    assert!(text.contains("stdin: false"));
    assert!(text.contains("stdout: false"));
    assert!(text.contains("stderr: false"));
}

#[test]
fn piped_process_connects_all_streams() {
    let text = format!("{:#?}", Command::new("x").into_piped_process());
    assert!(text.contains("stdin: true"));
    assert!(text.contains("stdout: true"));
    assert!(text.contains("stderr: true"));
}

#[test]
fn piped_process_reads_nothing_and_prints_through_pipes() {
    let command = Command::new("/bin/sh")
        .arg("-c")
        .arg("cat; pwd; echo $GREETING; echo oops >&2")
        .env("GREETING", "hello")
        .workdir("/usr");
    let mut process = command.into_piped_process();
    let output = block_on(async { process.spawn().unwrap().output().await }).unwrap();
    assert!(output.status.success());
    assert_eq!(output.stdout, b"/usr\nhello\n".to_vec());
    assert_eq!(output.stderr, b"oops\n".to_vec());
}

#[test]
fn closures_are_factories() {
    let factory = || Command::new("sleep").arg("1");
    assert_eq!(Factory::call(&factory), Command::new("sleep").arg("1"));
}
