//! What is decided around the local repository: which mode a run is in,
//! where a clone goes, and what a repository is called.

use vstd::prelude::*;
use crate::error::Error;

verus! {

/// What to do with the local repository once the hosted one exists.
#[derive(Debug, Copy, Clone, PartialEq, Eq, Structural)]
pub enum GitMode {
    /// Nothing: the hosted repository is all that is wanted.
    Create,
    /// Clone the hosted repository.
    Clone,
    /// Point the local repository's `origin` at the hosted one.
    Remote,
    /// Point `origin` at the hosted repository and push to it.
    Push,
    /// Rebase the local repository on the hosted one; a name only, for now.
    Rebase,
}

/// One piece of work on the local repository.
#[derive(Debug, Copy, Clone, PartialEq, Eq, Structural)]
pub enum GitStep {
    /// Clone the hosted repository.
    Clone,
    /// Point `origin` at the hosted repository and fetch from it.
    Remotes,
    /// Push the local branch to `origin`.
    Push,
}

impl GitMode {
    /// The work that the mode asks for once the hosted repository exists,
    /// in order; `None` for a mode that nothing is done for.
    pub open spec fn steps_of(self) -> Option<Seq<GitStep>> {
        match self {
            GitMode::Create => Some(seq![]),
            GitMode::Clone => Some(seq![GitStep::Clone]),
            GitMode::Remote => Some(seq![GitStep::Remotes]),
            GitMode::Push => Some(seq![GitStep::Remotes, GitStep::Push]),
            GitMode::Rebase => None,
        }
    }

    pub fn steps(self) -> (steps: Option<Vec<GitStep>>)
        ensures
            match steps {
                Some(list) => self.steps_of() == Some(list@),
                None => self.steps_of() is None,
            },
    {
        let mut list: Vec<GitStep> = Vec::new();
        match self {
            GitMode::Create => {},
            GitMode::Clone => {
                list.push(GitStep::Clone);
            },
            GitMode::Remote => {
                list.push(GitStep::Remotes);
            },
            GitMode::Push => {
                list.push(GitStep::Remotes);
                list.push(GitStep::Push);
            },
            GitMode::Rebase => {
                return None;
            },
        }
        assert(self.steps_of() == Some(list@)) by {
            assert(self.steps_of()->0 =~= list@);
        }
        Some(list)
    }

    /// Is the hosted repository to start with a commit of its own? Not
    /// where the local one is pushed to it.
    pub fn wants_initial_commit(self) -> (wanted: bool)
        ensures
            wanted == (self != GitMode::Push),
    {
        match self {
            GitMode::Push => false,
            _ => true,
        }
    }
}

#[verifier::external_type_specification]
#[verifier::external_body]
pub struct ExUrl(url::Url);

#[verifier::external_type_specification]
#[verifier::external_body]
pub struct ExPathBuf(std::path::PathBuf);

/// A URL as a text: what `url::Url::as_str` shows of it.
pub uninterp spec fn url_text(address: url::Url) -> Seq<char>;

/// The URL that `text` parses to, as a text; `None` where the text is no
/// absolute URL.
pub uninterp spec fn url_parsed(text: Seq<char>) -> Option<Seq<char>>;

/// The URL `address` with `host` for its host, as a text; `None` where the
/// URL cannot have that host.
pub uninterp spec fn url_on_host(address: Seq<char>, host: Seq<char>) -> Option<Seq<char>>;

/// The last component of `path`, as `std::path::Path` takes a path apart;
/// `None` where it has none.
pub uninterp spec fn last_component(path: Seq<char>) -> Option<Seq<char>>;

/// The last component of a path without its extension, as a text; `None`
/// where the path has no last component.
pub uninterp spec fn path_stem(path: std::path::PathBuf) -> Option<Seq<char>>;

/// The stem of the path that the URL `address` holds; `None` where the URL
/// gives no path to read one from.
pub uninterp spec fn address_stem(address: Seq<char>) -> Option<Seq<char>>;

/// The address of a repository with `localhost` for its host; `None` where
/// the address is no URL, or one that has no place for a host.
pub open spec fn local_address(repo_url: Seq<char>) -> Option<Seq<char>> {
    match url_parsed(repo_url) {
        Some(address) => url_on_host(address, "localhost"@),
        None => None,
    }
}

/// Calls `url::Url::parse`. `None` where the text is no absolute URL; why
/// not is dropped. The URL that comes out depends on the text alone.
#[verifier::external_body]
fn parse_url(text: &str) -> (parsed: Option<url::Url>)
    ensures
        match parsed {
            Some(address) => url_parsed(text@) == Some(url_text(address)),
            None => url_parsed(text@) is None,
        },
{
    url::Url::parse(text).ok()
}

/// Calls `url::Url::set_host` and says whether the URL took the host. It
/// does not where the URL cannot have one, as with `mailto:`. Whether it
/// does, and what the URL is afterwards, depends on the URL and the host
/// alone.
#[verifier::external_body]
fn set_host(address: &mut url::Url, host: &str) -> (took: bool)
    ensures
        took ==> url_on_host(url_text(*old(address)), host@) == Some(url_text(*final(address))),
        !took ==> url_on_host(url_text(*old(address)), host@) is None,
{
    address.set_host(Some(host)).is_ok()
}

/// Calls `url::Url::to_file_path`: the path of the URL as a path of this
/// machine, whatever the scheme. `None` where the URL has a host other than
/// `localhost`, or a path that this machine cannot express. The path
/// depends on the URL alone, and so does the stem that is read from it.
#[verifier::external_body]
fn file_path_of(address: &url::Url) -> (found: Option<std::path::PathBuf>)
    ensures
        match found {
            Some(path) => address_stem(url_text(*address)) == path_stem(path),
            None => address_stem(url_text(*address)) is None,
        },
{
    address.to_file_path().ok()
}

/// Calls `std::path::Path::file_stem`: the last component of the path
/// without its extension, if the path has a last component. What is no
/// text in it comes out as the replacement character.
#[verifier::external_body]
fn file_stem_of(path: &std::path::PathBuf) -> (stem: Option<String>)
    ensures
        match stem {
            Some(s) => path_stem(*path) == Some(s@),
            None => path_stem(*path) is None,
        },
{
    match path.file_stem() {
        Some(stem) => Some(stem.to_string_lossy().into_owned()),
        None => None,
    }
}

/// Calls `std::path::Path::file_name`: the last component of the path, if
/// it has one. For a path that is a text, the component is a text too.
#[verifier::external_body]
fn file_name_of(path: &str) -> (name: Option<String>)
    ensures
        match name {
            Some(n) => last_component(path@) == Some(n@),
            None => last_component(path@) is None,
        },
{
    match std::path::Path::new(path).file_name() {
        Some(name) => Some(name.to_string_lossy().into_owned()),
        None => None,
    }
}

/// The directory that a clone goes to: the one that was asked for, else the
/// name that the address ends in, if that is not empty.
pub open spec fn chosen_directory(target_dir: Option<Seq<char>>, stem: Option<Seq<char>>) -> Option<
    Seq<char>,
> {
    if target_dir is Some {
        target_dir
    } else if stem is Some && stem->0.len() > 0 {
        stem
    } else {
        None
    }
}

/// Picks the directory for a clone, from the one that was asked for and the
/// name that the repository's address ends in. `InvalidTargetDir` where
/// neither gives one.
pub fn choose_directory(target_dir: Option<&str>, stem: Option<String>) -> (directory: Result<
    String,
    Error,
>)
    ensures
        match directory {
            Ok(path) => chosen_directory(
                match target_dir {
                    Some(t) => Some(t@),
                    None => None,
                },
                match stem {
                    Some(s) => Some(s@),
                    None => None,
                },
            ) == Some(path@),
            Err(e) => e == Error::InvalidTargetDir && chosen_directory(
                match target_dir {
                    Some(t) => Some(t@),
                    None => None,
                },
                match stem {
                    Some(s) => Some(s@),
                    None => None,
                },
            ) is None,
        },
{
    match target_dir {
        Some(path) => Ok(path.to_owned()),
        None => match stem {
            Some(name) => {
                if name.as_str().is_empty() {
                    Err(Error::InvalidTargetDir)
                } else {
                    Ok(name)
                }
            },
            None => Err(Error::InvalidTargetDir),
        },
    }
}

/// The directory that a clone of `repo_url` goes to; `Url` where the
/// address is no URL that can have a host, even where a directory was asked
/// for, and `InvalidTargetDir` where no directory was asked for and the
/// address gives no name for one.
pub open spec fn directory_for(repo_url: Seq<char>, target_dir: Option<Seq<char>>) -> Result<
    Seq<char>,
    Error,
> {
    match local_address(repo_url) {
        None => Err(Error::Url),
        Some(address) => match chosen_directory(target_dir, address_stem(address)) {
            Some(path) => Ok(path),
            None => Err(Error::InvalidTargetDir),
        },
    }
}

/// The directory into which `repo_url` is to be cloned.
///
/// The address has to be a URL that can have a host, even where a
/// directory was asked for: `Url` where it is not, and only there. With
/// such an address the directory that was asked for is the answer. Without
/// `target_dir` the directory is named after the last part of the address,
/// without its extension; `InvalidTargetDir` where the address has no such
/// part.
pub fn clone_directory(repo_url: &str, target_dir: Option<&str>) -> (directory: Result<
    String,
    Error,
>)
    ensures
        match directory {
            Ok(path) => directory_for(
                repo_url@,
                match target_dir {
                    Some(t) => Some(t@),
                    None => None,
                },
            ) == Ok::<Seq<char>, Error>(path@),
            Err(e) => directory_for(
                repo_url@,
                match target_dir {
                    Some(t) => Some(t@),
                    None => None,
                },
            ) == Err::<Seq<char>, Error>(e),
        },
{
    let mut address = match parse_url(repo_url) {
        Some(address) => address,
        None => {
            return Err(Error::Url);
        },
    };
    if !set_host(&mut address, "localhost") {
        return Err(Error::Url);
    }
    let stem = match target_dir {
        Some(_) => None,
        None => match file_path_of(&address) {
            Some(path) => file_stem_of(&path),
            None => None,
        },
    };
    choose_directory(target_dir, stem)
}

/// What stands where a clone is to go.
#[derive(Debug, Copy, Clone, PartialEq, Eq, Structural)]
pub enum Target {
    /// Nothing.
    Missing,
    /// Something that is no directory.
    File,
    /// A directory, with this many entries.
    Directory { entries: usize },
}

/// A clone needs a place that is free: nothing there, or an empty
/// directory.
pub open spec fn is_free(target: Target) -> bool {
    target == Target::Missing || target == (Target::Directory { entries: 0 })
}

/// Says whether a clone may go to a place; `InvalidTargetDir` where the
/// place is taken.
pub fn check_target(target: Target) -> (checked: Result<(), Error>)
    ensures
        checked is Ok <==> is_free(target),
        checked matches Err(e) ==> e == Error::InvalidTargetDir,
{
    match target {
        Target::Missing => Ok(()),
        Target::Directory { entries } => if entries == 0 {
            Ok(())
        } else {
            Err(Error::InvalidTargetDir)
        },
        Target::File => Err(Error::InvalidTargetDir),
    }
}

/// The working directory of a repository as a text; `RepositoryBare` where
/// it has none.
pub fn get_repo_dir(workdir: Option<&str>) -> (directory: Result<String, Error>)
    ensures
        match directory {
            Ok(path) => workdir matches Some(w) && path@ == w@,
            Err(e) => e == Error::RepositoryBare && workdir is None,
        },
{
    match workdir {
        Some(path) => Ok(path.to_owned()),
        None => Err(Error::RepositoryBare),
    }
}

/// The name of a repository from the last component of its working
/// directory; `RepositoryBare` where there is none.
pub fn name_from(file_name: Option<String>) -> (name: Result<String, Error>)
    ensures
        match name {
            Ok(n) => file_name == Some(n),
            Err(e) => e == Error::RepositoryBare && file_name is None,
        },
{
    match file_name {
        Some(name) => Ok(name),
        None => Err(Error::RepositoryBare),
    }
}

/// The name that a working directory gives its repository: the last
/// component of the path.
pub open spec fn repo_name(workdir: Option<Seq<char>>) -> Option<Seq<char>> {
    match workdir {
        Some(path) => last_component(path),
        None => None,
    }
}

/// The name of the repository whose working directory is `workdir`: the
/// last component of that path.
///
/// `RepositoryBare` where the repository has no working directory, or the
/// path has no last component, as the root has none.
pub fn get_repo_name(workdir: Option<&str>) -> (name: Result<String, Error>)
    ensures
        match name {
            Ok(n) => repo_name(
                match workdir {
                    Some(w) => Some(w@),
                    None => None,
                },
            ) == Some(n@),
            Err(e) => e == Error::RepositoryBare && repo_name(
                match workdir {
                    Some(w) => Some(w@),
                    None => None,
                },
            ) is None,
        },
{
    match workdir {
        Some(path) => name_from(file_name_of(path)),
        None => Err(Error::RepositoryBare),
    }
}

} // verus!
