use kafka_shell::{dispatch, parse_command, run_script, step, Command, ShellState};

#[test]
fn keywords_route_to_their_commands() {
    assert_eq!(parse_command("lb"), Command::ListBrokers);
    assert_eq!(parse_command("lt"), Command::ListTopics);
    assert_eq!(parse_command("ct"), Command::CreateTopic);
    assert_eq!(parse_command("exit"), Command::Exit);
    assert_eq!(parse_command("help"), Command::Help);
    assert_eq!(parse_command("?"), Command::Help);
}

#[test]
fn unknown_words_select_help() {
    for w in ["", "?", "LB", "l", "lbx", "list", "Exit", "exit!", "c t"] {
        assert_eq!(parse_command(w), Command::Help, "word {:?}", w);
    }
}

#[test]
fn dispatch_trims_the_answer() {
    assert_eq!(dispatch("  lt \n"), Command::ListTopics);
    assert_eq!(dispatch("\texit"), Command::Exit);
    assert_eq!(dispatch("   "), Command::Help);
    assert_eq!(dispatch("l t"), Command::Help);
}

#[test]
fn only_exit_ends_the_loop() {
    for c in [Command::ListBrokers, Command::ListTopics, Command::CreateTopic, Command::Help] {
        assert_eq!(step(ShellState::AwaitingCommand, c), (ShellState::AwaitingCommand, Some(c)));
    }
    assert_eq!(
        step(ShellState::AwaitingCommand, Command::Exit),
        (ShellState::Terminated, Some(Command::Exit))
    );
    assert_eq!(step(ShellState::Terminated, Command::ListBrokers), (ShellState::Terminated, None));
}

#[test]
fn script_stops_after_exit() {
    let answers: Vec<String> =
        ["lb", "bogus", " ct ", "exit", "lt", "exit"].iter().map(|s| s.to_string()).collect();
    assert_eq!(
        run_script(&answers),
        vec![Command::ListBrokers, Command::Help, Command::CreateTopic, Command::Exit]
    );
}

#[test]
fn script_without_exit_runs_every_answer() {
    let answers: Vec<String> = ["?", "", "lt"].iter().map(|s| s.to_string()).collect();
    assert_eq!(run_script(&answers), vec![Command::Help, Command::Help, Command::ListTopics]);
    assert_eq!(run_script(&Vec::new()), Vec::<Command>::new());
}
