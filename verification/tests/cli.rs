use create_gh_repo::cli::{
    get_options, parse_mode, Arguments, CommandOptionsBuilder, Environment,
};
use create_gh_repo::error::{Error, ParseError};
use create_gh_repo::git::GitMode;

fn no_environment() -> Environment {
    Environment { git_editor: None, editor: None, username: None, password: None, token: None }
}

fn no_arguments() -> Arguments {
    Arguments {
        mode: None,
        editor: None,
        username: None,
        password: None,
        token: None,
        directory: None,
    }
}

fn text(value: &str) -> Option<String> {
    Some(value.to_string())
}

#[test]
fn load_options_from_env() {
    let environment = Environment {
        username: text("user"),
        password: text("pass"),
        editor: text("vim"),
        ..no_environment()
    };
    let opts = get_options(no_arguments(), environment).unwrap();
    assert_eq!(opts.username, Some("user".to_string()));
    assert_eq!(opts.password, Some("pass".to_string()));
    assert_eq!(opts.auth, "user:pass".to_string());
    assert_eq!(opts.mode, GitMode::Clone);

    let environment = Environment {
        username: text("user"),
        password: text("pass"),
        token: text("token"),
        editor: text("vim"),
        ..no_environment()
    };
    let opts = get_options(no_arguments(), environment).unwrap();
    assert_eq!(opts.username, Some("user".to_string()));
    assert_eq!(opts.password, Some("pass".to_string()));
    assert_eq!(opts.auth, "token".to_string());
    assert_eq!(opts.mode, GitMode::Clone);
}

#[test]
fn set_options() {
    let arguments = Arguments {
        editor: text("vim"),
        password: text("pass"),
        username: text("user"),
        mode: text("create"),
        directory: text("somedir"),
        ..no_arguments()
    };
    let opts = get_options(arguments, no_environment()).unwrap();
    assert_eq!(opts.username, Some("user".to_string()));
    assert_eq!(opts.password, Some("pass".to_string()));
    assert_eq!(opts.auth, "user:pass".to_string());
    assert_eq!(opts.mode, GitMode::Create);
    assert_eq!(opts.editor, "vim".to_string());
    assert_eq!(opts.directory, Some("somedir".to_string()));

    let arguments = Arguments {
        editor: text("vim"),
        token: text("token"),
        mode: text("create"),
        directory: text("somedir"),
        ..no_arguments()
    };
    let opts = get_options(arguments, no_environment()).unwrap();
    assert_eq!(opts.username, None);
    assert_eq!(opts.password, None);
    assert_eq!(opts.auth, "token".to_string());
    assert_eq!(opts.mode, GitMode::Create);
    assert_eq!(opts.editor, "vim".to_string());
    assert_eq!(opts.directory, Some("somedir".to_string()));
}

#[test]
fn mode_names() {
    assert_eq!(parse_mode(Some("create")), GitMode::Create);
    assert_eq!(parse_mode(Some("clone")), GitMode::Clone);
    assert_eq!(parse_mode(Some("remote")), GitMode::Remote);
    assert_eq!(parse_mode(Some("push")), GitMode::Push);
    assert_eq!(parse_mode(Some("rebase")), GitMode::Rebase);
    assert_eq!(parse_mode(Some("Create")), GitMode::Clone);
    assert_eq!(parse_mode(Some("")), GitMode::Clone);
    assert_eq!(parse_mode(None), GitMode::Clone);
}

#[test]
fn git_editor_wins_over_environment_and_argument_over_both() {
    let environment = Environment {
        git_editor: text("emacs"),
        editor: text("vim"),
        token: text("t"),
        ..no_environment()
    };
    let opts = get_options(no_arguments(), environment.clone()).unwrap();
    assert_eq!(opts.editor, "emacs");
    let arguments = Arguments { editor: text("nano"), ..no_arguments() };
    let opts = get_options(arguments, environment).unwrap();
    assert_eq!(opts.editor, "nano");
}

#[test]
fn password_by_hand_wins_over_token_from_environment() {
    let environment = Environment { token: text("token"), editor: text("vim"), ..no_environment() };
    let arguments =
        Arguments { username: text("user"), password: text("pass"), ..no_arguments() };
    let opts = get_options(arguments, environment).unwrap();
    assert_eq!(opts.auth, "user:pass");
}

#[test]
fn password_by_hand_without_username_does_not_fall_back_on_token() {
    let environment = Environment { token: text("token"), editor: text("vim"), ..no_environment() };
    let arguments = Arguments { password: text("pass"), ..no_arguments() };
    assert_eq!(
        get_options(arguments, environment),
        Err(Error::MissingParameter("authentication".to_string()))
    );
}

#[test]
fn token_given_last_wins() {
    let mut builder = CommandOptionsBuilder::new(no_environment());
    builder.editor("vim").username("user").password("pass").token("token").mode(GitMode::Push);
    let opts = builder.build().unwrap();
    assert_eq!(opts.auth, "token");
    assert_eq!(opts.mode, GitMode::Push);

    let mut builder = CommandOptionsBuilder::new(no_environment());
    builder.editor("vim").username("user").token("token").password("pass").mode(GitMode::Push);
    assert_eq!(builder.build().unwrap().auth, "user:pass");
}

#[test]
fn missing_parameters_are_named_in_order() {
    let builder = CommandOptionsBuilder::new(no_environment());
    assert_eq!(builder.build(), Err(Error::MissingParameter("authentication".to_string())));

    let mut builder = CommandOptionsBuilder::new(no_environment());
    builder.token("token");
    assert_eq!(builder.build(), Err(Error::MissingParameter("editor".to_string())));

    let mut builder = CommandOptionsBuilder::new(no_environment());
    builder.token("token").editor("vim");
    assert_eq!(builder.build(), Err(Error::MissingParameter("mode".to_string())));

    let mut builder = CommandOptionsBuilder::new(no_environment());
    builder.username("user").editor("vim").mode(GitMode::Clone);
    assert_eq!(builder.build(), Err(Error::MissingParameter("authentication".to_string())));
}

#[test]
fn builder_keeps_directory_and_credentials() {
    let mut builder = CommandOptionsBuilder::new(no_environment());
    builder.directory("work").username("u").password("p").editor("ed").mode(GitMode::Remote);
    let opts = builder.build().unwrap();
    assert_eq!(opts.directory, Some("work".to_string()));
    assert_eq!(opts.username, Some("u".to_string()));
    assert_eq!(opts.password, Some("p".to_string()));
    assert_eq!(opts.auth, "u:p");
    assert_eq!(opts.editor, "ed");
    assert_eq!(opts.mode, GitMode::Remote);
}

#[test]
fn errors_describe_themselves() {
    let missing = Error::MissingParameter("editor".to_string());
    assert_eq!(missing.description(), "Missing parameter");
    assert_eq!(missing.message(), "Missing parameter: editor");
    assert_eq!(Error::InvalidTargetDir.description(), "Target directory is invalid");
    assert_eq!(Error::InvalidTargetDir.message(), "Target directory is invalid");
    assert_eq!(Error::RepositoryBare.message(), "Git repository is bare");
    assert_eq!(Error::Parse(ParseError::GrammarFailure).message(), "Parse error");
    assert_eq!(Error::Parse(ParseError::Malformed).message(), "Malformed document");
}
