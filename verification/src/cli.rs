//! The options of one run: where they come from, which of them win, and
//! what has to be there before anything is done.

use vstd::prelude::*;
use vstd::string::StringExecFns;
use crate::error::{Error, ErrorView};
use crate::git::GitMode;

verus! {

/// The view of a text that may be missing.
pub open spec fn text_view(text: Option<String>) -> Option<Seq<char>> {
    match text {
        Some(t) => Some(t@),
        None => None,
    }
}

/// The options that a run works with.
#[derive(Debug, Clone, PartialEq, Eq)]
pub struct CommandOptions {
    pub editor: String,
    pub auth: String,
    pub username: Option<String>,
    pub password: Option<String>,
    pub mode: GitMode,
    pub directory: Option<String>,
}

pub struct CommandOptionsView {
    pub editor: Seq<char>,
    pub auth: Seq<char>,
    pub username: Option<Seq<char>>,
    pub password: Option<Seq<char>>,
    pub mode: GitMode,
    pub directory: Option<Seq<char>>,
}

impl View for CommandOptions {
    type V = CommandOptionsView;

    open spec fn view(&self) -> CommandOptionsView {
        CommandOptionsView {
            editor: self.editor@,
            auth: self.auth@,
            username: text_view(self.username),
            password: text_view(self.password),
            mode: self.mode,
            directory: text_view(self.directory),
        }
    }
}

/// What the surroundings of the program offer before any argument is
/// looked at.
#[derive(Debug, Clone, PartialEq, Eq)]
pub struct Environment {
    /// The editor that git is configured with.
    pub git_editor: Option<String>,
    /// The editor that the environment names.
    pub editor: Option<String>,
    pub username: Option<String>,
    pub password: Option<String>,
    pub token: Option<String>,
}

pub struct EnvironmentView {
    pub git_editor: Option<Seq<char>>,
    pub editor: Option<Seq<char>>,
    pub username: Option<Seq<char>>,
    pub password: Option<Seq<char>>,
    pub token: Option<Seq<char>>,
}

impl View for Environment {
    type V = EnvironmentView;

    open spec fn view(&self) -> EnvironmentView {
        EnvironmentView {
            git_editor: text_view(self.git_editor),
            editor: text_view(self.editor),
            username: text_view(self.username),
            password: text_view(self.password),
            token: text_view(self.token),
        }
    }
}

/// The values of the arguments that were given on the command line.
#[derive(Debug, Clone, PartialEq, Eq)]
pub struct Arguments {
    pub mode: Option<String>,
    pub editor: Option<String>,
    pub username: Option<String>,
    pub password: Option<String>,
    pub token: Option<String>,
    pub directory: Option<String>,
}

pub struct ArgumentsView {
    pub mode: Option<Seq<char>>,
    pub editor: Option<Seq<char>>,
    pub username: Option<Seq<char>>,
    pub password: Option<Seq<char>>,
    pub token: Option<Seq<char>>,
    pub directory: Option<Seq<char>>,
}

impl View for Arguments {
    type V = ArgumentsView;

    open spec fn view(&self) -> ArgumentsView {
        ArgumentsView {
            mode: text_view(self.mode),
            editor: text_view(self.editor),
            username: text_view(self.username),
            password: text_view(self.password),
            token: text_view(self.token),
            directory: text_view(self.directory),
        }
    }
}

/// Collects options one by one, and checks at the end that enough were
/// given.
#[derive(Debug, Clone, PartialEq, Eq)]
pub struct CommandOptionsBuilder {
    editor: Option<String>,
    username: Option<String>,
    password: Option<String>,
    token: Option<String>,
    directory: Option<String>,
    mode: Option<GitMode>,
    token_auth: Option<bool>,
}

pub struct CommandOptionsBuilderView {
    pub editor: Option<Seq<char>>,
    pub username: Option<Seq<char>>,
    pub password: Option<Seq<char>>,
    pub token: Option<Seq<char>>,
    pub directory: Option<Seq<char>>,
    pub mode: Option<GitMode>,
    /// Which of token and password was given last, if either was given
    /// by hand: `Some(true)` for the token.
    pub token_auth: Option<bool>,
}

impl View for CommandOptionsBuilder {
    type V = CommandOptionsBuilderView;

    closed spec fn view(&self) -> CommandOptionsBuilderView {
        CommandOptionsBuilderView {
            editor: text_view(self.editor),
            username: text_view(self.username),
            password: text_view(self.password),
            token: text_view(self.token),
            directory: text_view(self.directory),
            mode: self.mode,
            token_auth: self.token_auth,
        }
    }
}

/// The mode that a name on the command line stands for; `Clone` for no
/// name and for any other.
pub open spec fn mode_named(name: Option<Seq<char>>) -> GitMode {
    if name == Some("create"@) {
        GitMode::Create
    } else if name == Some("clone"@) {
        GitMode::Clone
    } else if name == Some("remote"@) {
        GitMode::Remote
    } else if name == Some("push"@) {
        GitMode::Push
    } else if name == Some("rebase"@) {
        GitMode::Rebase
    } else {
        GitMode::Clone
    }
}

impl CommandOptionsBuilderView {
    /// What the surroundings give: git's editor before the environment's,
    /// and no choice yet between token and password.
    pub open spec fn new(environment: EnvironmentView) -> CommandOptionsBuilderView {
        CommandOptionsBuilderView {
            editor: if environment.git_editor is Some {
                environment.git_editor
            } else {
                environment.editor
            },
            username: environment.username,
            password: environment.password,
            token: environment.token,
            directory: None,
            mode: None,
            token_auth: None,
        }
    }

    pub open spec fn editor(self, editor: Seq<char>) -> CommandOptionsBuilderView {
        CommandOptionsBuilderView { editor: Some(editor), ..self }
    }

    pub open spec fn username(self, username: Seq<char>) -> CommandOptionsBuilderView {
        CommandOptionsBuilderView { username: Some(username), ..self }
    }

    /// A password given by hand: username and password are what is asked
    /// for from here on.
    pub open spec fn password(self, password: Seq<char>) -> CommandOptionsBuilderView {
        CommandOptionsBuilderView { password: Some(password), token_auth: Some(false), ..self }
    }

    /// A token given by hand: the token is what is asked for from here on.
    pub open spec fn token(self, token: Seq<char>) -> CommandOptionsBuilderView {
        CommandOptionsBuilderView { token: Some(token), token_auth: Some(true), ..self }
    }

    pub open spec fn directory(self, directory: Seq<char>) -> CommandOptionsBuilderView {
        CommandOptionsBuilderView { directory: Some(directory), ..self }
    }

    pub open spec fn mode(self, mode: GitMode) -> CommandOptionsBuilderView {
        CommandOptionsBuilderView { mode: Some(mode), ..self }
    }

    /// Username and password as one credential, where both are there.
    pub open spec fn basic_auth(self) -> Option<Seq<char>> {
        if self.password is Some && self.username is Some {
            Some(self.username->0 + ":"@ + self.password->0)
        } else {
            None
        }
    }

    /// The credential to send. Where token or password was given by hand,
    /// the one given last decides, and the other is not fallen back on.
    /// Else the token wins over username and password.
    pub open spec fn auth(self) -> Option<Seq<char>> {
        match self.token_auth {
            None => if self.token is Some {
                self.token
            } else {
                self.basic_auth()
            },
            Some(true) => self.token,
            Some(false) => self.basic_auth(),
        }
    }

    /// The options, or the first of credential, editor and mode that is
    /// missing.
    pub open spec fn build(self) -> Result<CommandOptionsView, ErrorView> {
        if self.auth() is None {
            Err(ErrorView::MissingParameter("authentication"@))
        } else if self.editor is None {
            Err(ErrorView::MissingParameter("editor"@))
        } else if self.mode is None {
            Err(ErrorView::MissingParameter("mode"@))
        } else {
            Ok(
                CommandOptionsView {
                    editor: self.editor->0,
                    auth: self.auth()->0,
                    username: self.username,
                    password: self.password,
                    mode: self.mode->0,
                    directory: self.directory,
                },
            )
        }
    }

    /// The builder after the arguments were taken in, in the order editor,
    /// username, password, token, directory, mode.
    pub open spec fn given(self, arguments: ArgumentsView) -> CommandOptionsBuilderView {
        let with_editor = if arguments.editor is Some {
            self.editor(arguments.editor->0)
        } else {
            self
        };
        let with_username = if arguments.username is Some {
            with_editor.username(arguments.username->0)
        } else {
            with_editor
        };
        let with_password = if arguments.password is Some {
            with_username.password(arguments.password->0)
        } else {
            with_username
        };
        let with_token = if arguments.token is Some {
            with_password.token(arguments.token->0)
        } else {
            with_password
        };
        let with_directory = if arguments.directory is Some {
            with_token.directory(arguments.directory->0)
        } else {
            with_token
        };
        with_directory.mode(mode_named(arguments.mode))
    }
}

/// The options that arguments and surroundings add up to.
pub open spec fn options_of(arguments: ArgumentsView, environment: EnvironmentView) -> Result<
    CommandOptionsView,
    ErrorView,
> {
    CommandOptionsBuilderView::new(environment).given(arguments).build()
}

/// Does `outcome` stand for `expected`?
pub open spec fn builds_as(
    outcome: Result<CommandOptions, Error>,
    expected: Result<CommandOptionsView, ErrorView>,
) -> bool {
    match outcome {
        Ok(options) => expected == Ok::<CommandOptionsView, ErrorView>(options@),
        Err(e) => expected == Err::<CommandOptionsView, ErrorView>(e@),
    }
}

/// Are the two texts the same?
fn same_text(a: &str, b: &str) -> (same: bool)
    ensures
        same == (a@ == b@),
{
    a.to_owned() == b.to_owned()
}

/// The mode that `name` stands for.
pub fn parse_mode(name: Option<&str>) -> (mode: GitMode)
    ensures
        mode == mode_named(
            match name {
                Some(n) => Some(n@),
                None => None,
            },
        ),
{
    match name {
        None => GitMode::Clone,
        Some(n) => {
            if same_text(n, "create") {
                GitMode::Create
            } else if same_text(n, "clone") {
                GitMode::Clone
            } else if same_text(n, "remote") {
                GitMode::Remote
            } else if same_text(n, "push") {
                GitMode::Push
            } else if same_text(n, "rebase") {
                GitMode::Rebase
            } else {
                GitMode::Clone
            }
        },
    }
}

impl CommandOptionsBuilder {
    /// A builder that starts from what the surroundings give.
    pub fn new(environment: Environment) -> (builder: CommandOptionsBuilder)
        ensures
            builder@ == CommandOptionsBuilderView::new(environment@),
    {
        let editor = match environment.git_editor {
            Some(editor) => Some(editor),
            None => environment.editor,
        };
        CommandOptionsBuilder {
            editor,
            username: environment.username,
            password: environment.password,
            token: environment.token,
            directory: None,
            mode: None,
            token_auth: None,
        }
    }

    pub fn editor(&mut self, editor: &str) -> (builder: &mut Self)
        ensures
            builder@ == old(self)@.editor(editor@),
            *final(self) == *final(builder),
    {
        self.editor = Some(editor.to_owned());
        self
    }

    pub fn username(&mut self, username: &str) -> (builder: &mut Self)
        ensures
            builder@ == old(self)@.username(username@),
            *final(self) == *final(builder),
    {
        self.username = Some(username.to_owned());
        self
    }

    pub fn password(&mut self, password: &str) -> (builder: &mut Self)
        ensures
            builder@ == old(self)@.password(password@),
            *final(self) == *final(builder),
    {
        self.password = Some(password.to_owned());
        self.token_auth = Some(false);
        self
    }

    pub fn token(&mut self, token: &str) -> (builder: &mut Self)
        ensures
            builder@ == old(self)@.token(token@),
            *final(self) == *final(builder),
    {
        self.token = Some(token.to_owned());
        self.token_auth = Some(true);
        self
    }

    pub fn directory(&mut self, directory: &str) -> (builder: &mut Self)
        ensures
            builder@ == old(self)@.directory(directory@),
            *final(self) == *final(builder),
    {
        self.directory = Some(directory.to_owned());
        self
    }

    pub fn mode(&mut self, mode: GitMode) -> (builder: &mut Self)
        ensures
            builder@ == old(self)@.mode(mode),
            *final(self) == *final(builder),
    {
        self.mode = Some(mode);
        self
    }

    /// Username and password joined by a colon, where both are there.
    fn basic_auth(&self) -> (auth: Option<String>)
        ensures
            text_view(auth) == self@.basic_auth(),
    {
        match (&self.username, &self.password) {
            (Some(username), Some(password)) => {
                let mut auth = username.clone();
                auth.append(":");
                auth.append(password.as_str());
                Some(auth)
            },
            _ => None,
        }
    }

    /// The options, if a credential, an editor and a mode are there; else
    /// `MissingParameter` with the name of the first of them that is not:
    /// `authentication`, `editor` or `mode`.
    pub fn build(self) -> (options: Result<CommandOptions, Error>)
        ensures
            builds_as(options, self@.build()),
    {
        let basic = self.basic_auth();
        let auth = match self.token_auth {
            None => match self.token {
                Some(token) => Some(token),
                None => basic,
            },
            Some(true) => self.token,
            Some(false) => basic,
        };
        let auth = match auth {
            Some(auth) => auth,
            None => {
                return Err(Error::MissingParameter("authentication".to_owned()));
            },
        };
        let editor = match self.editor {
            Some(editor) => editor,
            None => {
                return Err(Error::MissingParameter("editor".to_owned()));
            },
        };
        let mode = match self.mode {
            Some(mode) => mode,
            None => {
                return Err(Error::MissingParameter("mode".to_owned()));
            },
        };
        Ok(
            CommandOptions {
                editor,
                auth,
                username: self.username,
                password: self.password,
                mode,
                directory: self.directory,
            },
        )
    }
}

/// The options of a run, from the arguments that were given and what the
/// surroundings offer. An argument wins over the surroundings.
pub fn get_options(arguments: Arguments, environment: Environment) -> (options: Result<
    CommandOptions,
    Error,
>)
    ensures
        builds_as(options, options_of(arguments@, environment@)),
{
    let mode = match &arguments.mode {
        Some(name) => parse_mode(Some(name.as_str())),
        None => parse_mode(None),
    };
    let mut builder = CommandOptionsBuilder::new(environment);
    if let Some(editor) = &arguments.editor {
        builder.editor(editor.as_str());
    }
    if let Some(username) = &arguments.username {
        builder.username(username.as_str());
    }
    if let Some(password) = &arguments.password {
        builder.password(password.as_str());
    }
    if let Some(token) = &arguments.token {
        builder.token(token.as_str());
    }
    if let Some(directory) = &arguments.directory {
        builder.directory(directory.as_str());
    }
    builder.mode(mode);
    builder.build()
}

} // verus!
