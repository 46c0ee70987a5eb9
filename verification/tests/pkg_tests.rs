use pkg::cli::{parse_args, unknown_command_line, usage_line, CliRequest};
use pkg::plan::{error_line, run_package, Operation, Step};
use pkg::script::{load_script, InstallSteps, PackageScript, ScriptError};
use pkg::text::{
    hex_to_rgb, install_success_line, phase_banner, script_path, scripts_dir_path, u8_to_dec,
    uninstall_success_line,
};

fn line(text: &str) -> Step {
    Step::Line { text: text.to_string() }
}

fn run(command: &str) -> Step {
    Step::Run { command: command.to_string() }
}

const RULE: &str = "\u{2501}\u{2501}\u{2501}\u{2501}\u{2501}\u{2501}\u{2501}\u{2501}\u{2501}\u{2501}\u{2501}\u{2501}\u{2501}\u{2501}\u{2501}\u{2501}\u{2501}\u{2501}\u{2501}\u{2501}\u{2501}\u{2501}\u{2501}\u{2501}\u{2501}";

fn cloning_banner() -> String {
    format!("\u{1b}[38;2;241;80;47m {}\u{1b}[0m", RULE)
}

fn building_banner() -> String {
    format!("\u{1b}[38;2;195;232;141m building{}\u{1b}[0m", RULE)
}

#[test]
fn hex_to_rgb_decodes_phase_colours() {
    assert_eq!(hex_to_rgb("F1502F"), (241, 80, 47));
    assert_eq!(hex_to_rgb("C3E88D"), (195, 232, 141));
    assert_eq!(hex_to_rgb("000000"), (0, 0, 0));
    assert_eq!(hex_to_rgb("ffffff"), (255, 255, 255));
}

#[test]
fn decimal_rendering() {
    assert_eq!(u8_to_dec(0), "0");
    assert_eq!(u8_to_dec(7), "7");
    assert_eq!(u8_to_dec(47), "47");
    assert_eq!(u8_to_dec(255), "255");
}

#[test]
fn banner_lines_match_colour_codes() {
    assert_eq!(phase_banner(" ", "F1502F"), cloning_banner());
    assert_eq!(phase_banner(" building", "C3E88D"), building_banner());
}

#[test]
fn status_lines() {
    assert_eq!(install_success_line("foo"), "Installed foo successfully!");
    assert_eq!(uninstall_success_line("foo"), "Uninstalled foo successfully!");
}

#[test]
fn paths_are_built_verbatim() {
    assert_eq!(scripts_dir_path("/home/u"), "/home/u/.config/pkg/scripts");
    assert_eq!(
        script_path("/home/u/.config/pkg/scripts", "foo"),
        "/home/u/.config/pkg/scripts/foo.json"
    );
}

#[test]
fn load_full_document() {
    let doc = r#"{"install":{"cloning":["echo A"],"building":["echo B"]}}"#;
    let expected = PackageScript {
        install: Some(InstallSteps {
            cloning: Some(vec!["echo A".to_string()]),
            building: Some(vec!["echo B".to_string()]),
        }),
        uninstall: None,
    };
    assert_eq!(load_script(doc), Ok(expected));
}

#[test]
fn load_uninstall_document() {
    let doc = r#"{"uninstall":["echo C"]}"#;
    let expected =
        PackageScript { install: None, uninstall: Some(vec!["echo C".to_string()]) };
    assert_eq!(load_script(doc), Ok(expected));
}

#[test]
fn load_empty_document_skips_everything() {
    assert_eq!(
        load_script("{}"),
        Ok(PackageScript { install: None, uninstall: None })
    );
}

#[test]
fn load_rejects_invalid_json() {
    assert_eq!(load_script("{not json"), Err(ScriptError::ParseError));
    assert_eq!(load_script(""), Err(ScriptError::ParseError));
}

#[test]
fn load_rejects_malformed_shapes() {
    assert_eq!(load_script("[1,2,3]"), Err(ScriptError::InvalidShape));
    assert_eq!(load_script(r#"{"install":[]}"#), Err(ScriptError::InvalidShape));
    assert_eq!(
        load_script(r#"{"install":{"cloning":"echo A"}}"#),
        Err(ScriptError::InvalidShape)
    );
    assert_eq!(
        load_script(r#"{"uninstall":"echo C"}"#),
        Err(ScriptError::InvalidShape)
    );
    assert_eq!(load_script(r#"{"uninstall":[1,2]}"#), Err(ScriptError::InvalidShape));
}

#[test]
fn install_plan_runs_cloning_before_building() {
    let doc = r#"{"install":{"cloning":["echo A"],"building":["echo B"]}}"#;
    let steps = run_package(Operation::Install, "foo", doc).unwrap();
    assert_eq!(
        steps,
        vec![
            line(&cloning_banner()),
            run("echo A"),
            line(&building_banner()),
            run("echo B"),
            line("Installed foo successfully!"),
        ]
    );
}

#[test]
fn install_plan_keeps_command_order() {
    let doc = r#"{"install":{"cloning":["first","second","third"]}}"#;
    let steps = run_package(Operation::Install, "foo", doc).unwrap();
    assert_eq!(
        steps,
        vec![
            line(&cloning_banner()),
            run("first"),
            run("second"),
            run("third"),
            line("Installed foo successfully!"),
        ]
    );
}

#[test]
fn install_plan_skips_missing_phase() {
    let doc = r#"{"install":{"building":["echo B"]}}"#;
    let steps = run_package(Operation::Install, "foo", doc).unwrap();
    assert_eq!(
        steps,
        vec![line(&building_banner()), run("echo B"), line("Installed foo successfully!")]
    );
}

#[test]
fn install_plan_with_no_sections_still_succeeds() {
    let steps = run_package(Operation::Install, "foo", "{}").unwrap();
    assert_eq!(steps, vec![line("Installed foo successfully!")]);
    let steps = run_package(Operation::Install, "foo", r#"{"install":{}}"#).unwrap();
    assert_eq!(steps, vec![line("Installed foo successfully!")]);
}

#[test]
fn uninstall_plan_runs_commands_then_reports() {
    let doc = r#"{"uninstall":["echo C"]}"#;
    let steps = run_package(Operation::Uninstall, "foo", doc).unwrap();
    assert_eq!(steps, vec![run("echo C"), line("Uninstalled foo successfully!")]);
}

#[test]
fn uninstall_without_section_is_a_shape_error() {
    assert_eq!(
        run_package(Operation::Uninstall, "foo", "{}"),
        Err(ScriptError::InvalidShape)
    );
    assert_eq!(
        run_package(Operation::Uninstall, "foo", r#"{"install":{}}"#),
        Err(ScriptError::InvalidShape)
    );
}

#[test]
fn operations_fail_alike_on_unreadable_documents() {
    assert_eq!(
        run_package(Operation::Install, "foo", "{not json"),
        Err(ScriptError::ParseError)
    );
    assert_eq!(
        run_package(Operation::Uninstall, "foo", "{not json"),
        Err(ScriptError::ParseError)
    );
}

#[test]
fn one_package_failure_leaves_the_next_untouched() {
    let first = run_package(Operation::Install, "bad", "{not json");
    assert_eq!(first, Err(ScriptError::ParseError));
    let second =
        run_package(Operation::Install, "good", r#"{"install":{"cloning":["echo A"]}}"#);
    assert_eq!(
        second.unwrap(),
        vec![line(&cloning_banner()), run("echo A"), line("Installed good successfully!")]
    );
}

#[test]
fn error_lines_name_each_failure() {
    assert_eq!(
        error_line(Operation::Install, ScriptError::HomeDirUnavailable),
        "Error: Failed to determine user's home directory"
    );
    assert_eq!(
        error_line(Operation::Install, ScriptError::ReadError),
        "Error: Failed to read package script"
    );
    assert_eq!(
        error_line(Operation::Uninstall, ScriptError::ParseError),
        "Error: Failed to parse package script"
    );
    assert_eq!(
        error_line(Operation::Install, ScriptError::InvalidShape),
        "Error: Invalid installation steps"
    );
    assert_eq!(
        error_line(Operation::Uninstall, ScriptError::InvalidShape),
        "Error: Invalid uninstallation steps"
    );
}

#[test]
fn too_few_arguments_ask_for_usage() {
    let args: Vec<String> = vec!["pkg".to_string(), "install".to_string()];
    assert_eq!(parse_args(&args), CliRequest::Usage);
    let args: Vec<String> = vec!["pkg".to_string()];
    assert_eq!(parse_args(&args), CliRequest::Usage);
    let args: Vec<String> = Vec::new();
    assert_eq!(parse_args(&args), CliRequest::Usage);
}

#[test]
fn subcommands_select_the_operation() {
    let args: Vec<String> =
        vec!["pkg".to_string(), "install".to_string(), "foo".to_string()];
    assert_eq!(
        parse_args(&args),
        CliRequest::Packages { op: Operation::Install, names: vec!["foo".to_string()] }
    );
    let args: Vec<String> = vec![
        "pkg".to_string(),
        "uninstall".to_string(),
        "a".to_string(),
        "b".to_string(),
    ];
    assert_eq!(
        parse_args(&args),
        CliRequest::Packages {
            op: Operation::Uninstall,
            names: vec!["a".to_string(), "b".to_string()],
        }
    );
}

#[test]
fn unrecognised_subcommand_is_reported() {
    let args: Vec<String> =
        vec!["pkg".to_string(), "remove".to_string(), "foo".to_string()];
    assert_eq!(parse_args(&args), CliRequest::Unknown);
}

#[test]
fn fixed_cli_lines() {
    assert_eq!(usage_line(), "Usage: pkg <install|uninstall> <package1> [<package2> ...]");
    assert_eq!(unknown_command_line(), "Error: Invalid command");
}

#[test]
fn document_with_unrelated_keys_still_loads() {
    let doc = r#"{"name":"foo","uninstall":["echo C"],"extra":5}"#;
    let expected =
        PackageScript { install: None, uninstall: Some(vec!["echo C".to_string()]) };
    assert_eq!(load_script(doc), Ok(expected));
}

#[test]
fn empty_command_lists_are_valid_noops() {
    let doc = r#"{"install":{"cloning":[],"building":[]},"uninstall":[]}"#;
    let script = load_script(doc).unwrap();
    assert_eq!(
        script,
        PackageScript {
            install: Some(InstallSteps {
                cloning: Some(Vec::new()),
                building: Some(Vec::new()),
            }),
            uninstall: Some(Vec::new()),
        }
    );
    let steps = run_package(Operation::Install, "foo", doc).unwrap();
    assert_eq!(
        steps,
        vec![
            line(&cloning_banner()),
            line(&building_banner()),
            line("Installed foo successfully!"),
        ]
    );
    let steps = run_package(Operation::Uninstall, "foo", doc).unwrap();
    assert_eq!(steps, vec![line("Uninstalled foo successfully!")]);
}
