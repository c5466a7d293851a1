use llmq::config::Api;
use llmq::key::{command_key, next_key_step, resolve_key, CommandOutput, KeyReply, KeyStep};

fn with_key(key: &str) -> Api {
    Api {
        key: key.to_string(),
        ..Api::default()
    }
}

fn with_command(command: &str) -> Api {
    Api {
        key_command: command.to_string(),
        ..Api::default()
    }
}

fn output(code: i32, stdout: &[u8], stderr: &[u8]) -> KeyReply {
    KeyReply::Command(Ok(CommandOutput {
        success: code == 0,
        code: Some(code),
        stdout: stdout.to_vec(),
        stderr: stderr.to_vec(),
    }))
}

fn resolved(step: KeyStep) -> Result<String, String> {
    match step {
        KeyStep::Resolved(r) => r,
        other => panic!("{:?}", other),
    }
}

fn words(api: &Api) -> Vec<String> {
    match resolve_key(api, KeyReply::Nothing) {
        KeyStep::Run(exe, mut args) => {
            args.insert(0, exe);
            args
        }
        other => panic!("{:?}", other),
    }
}

#[test]
fn key_forms() {
    let literal = with_key("  sk-abc  ");
    assert_eq!(resolved(resolve_key(&literal, KeyReply::Nothing)).unwrap(), "sk-abc");

    let env = with_key("$LLMQ_TEST_KEY");
    match resolve_key(&env, KeyReply::Nothing) {
        KeyStep::ReadVariable(name) => assert_eq!(name, "LLMQ_TEST_KEY"),
        other => panic!("{:?}", other),
    }
    let value = KeyReply::Variable(Some("from-env".to_string()));
    assert_eq!(resolved(resolve_key(&env, value)).unwrap(), "from-env");

    let cmd = with_command("printf sk-from-cmd");
    assert_eq!(words(&cmd), vec!["printf", "sk-from-cmd"]);
    let printed = output(0, b"sk-from-cmd", b"");
    assert_eq!(resolved(resolve_key(&cmd, printed)).unwrap(), "sk-from-cmd");
}

#[test]
fn failing_key_command_is_an_error_not_an_empty_key() {
    let cmd = with_command("false");
    assert_eq!(words(&cmd), vec!["false"]);
    assert!(resolved(resolve_key(&cmd, output(1, b"", b""))).is_err());
}

#[test]
fn what_a_failing_command_is_reported_as() {
    let cmd = with_command("pass show openai");
    assert_eq!(
        resolved(resolve_key(&cmd, output(2, b"sk", b" no such key\n"))).unwrap_err(),
        "pass exited 2: no such key"
    );
    let killed = KeyReply::Command(Ok(CommandOutput {
        success: false,
        code: None,
        stdout: Vec::new(),
        stderr: Vec::new(),
    }));
    assert_eq!(resolved(resolve_key(&cmd, killed)).unwrap_err(), "pass exited -1: ");
    let absent = KeyReply::Command(Err("not found".to_string()));
    assert_eq!(resolved(resolve_key(&cmd, absent)).unwrap_err(), "pass: not found");
    assert_eq!(
        command_key("pass", false, Some(-7), "", "").unwrap_err(),
        "pass exited -7: "
    );
}

#[test]
fn a_command_is_split_as_a_shell_does() {
    assert_eq!(
        words(&with_command("  sh -c 'echo \"a b\"' x\\ y # comment")),
        vec!["sh", "-c", "echo \"a b\"", "x y"]
    );
    assert_eq!(
        resolved(resolve_key(&with_command("pass 'show"), KeyReply::Nothing)).unwrap_err(),
        "key_command is not valid shell: pass 'show"
    );
    assert_eq!(
        resolved(resolve_key(&with_command("   "), KeyReply::Nothing)).unwrap_err(),
        "key_command is empty"
    );
}

#[test]
fn what_a_command_prints_is_decoded_and_trimmed() {
    let cmd = with_command("pass");
    assert_eq!(
        resolved(resolve_key(&cmd, output(0, " sk-é\n".as_bytes(), b"ignored"))).unwrap(),
        "sk-é"
    );
    assert_eq!(
        resolved(resolve_key(&cmd, output(0, b"sk\xff-1\n", b""))).unwrap(),
        "sk\u{fffd}-1"
    );
    assert_eq!(
        resolved(resolve_key(&cmd, output(3, b"", b"\xe9"))).unwrap_err(),
        "pass exited 3: \u{fffd}"
    );
}

#[test]
fn a_variable_that_is_not_set_is_an_empty_key() {
    let env = with_key(" $X ");
    match resolve_key(&env, KeyReply::Nothing) {
        KeyStep::ReadVariable(name) => assert_eq!(name, "X"),
        other => panic!("{:?}", other),
    }
    assert_eq!(resolved(resolve_key(&env, KeyReply::Variable(None))).unwrap(), "");
    let spaced = KeyReply::Variable(Some(" v ".to_string()));
    assert_eq!(resolved(resolve_key(&env, spaced)).unwrap(), " v ");
    assert_eq!(resolved(resolve_key(&with_key(""), KeyReply::Nothing)).unwrap(), "");
}

#[test]
fn a_command_comes_before_a_key() {
    let both = Api {
        key: "literal".to_string(),
        ..with_command("c")
    };
    assert_eq!(words(&both), vec!["c"]);
    assert_eq!(resolved(resolve_key(&both, output(0, b"k", b""))).unwrap(), "k");
}

#[test]
fn the_words_of_a_command_may_be_given() {
    let api = with_command("ignored");
    let given = Some(vec!["a".to_string(), "b c".to_string()]);
    match next_key_step(&api, given, KeyReply::Nothing) {
        KeyStep::Run(exe, args) => {
            assert_eq!(exe, "a");
            assert_eq!(args, vec!["b c"]);
        }
        other => panic!("{:?}", other),
    }
    assert!(resolved(next_key_step(&api, None, KeyReply::Nothing)).is_err());
}
