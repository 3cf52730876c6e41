//! The configuration: the GitHub connection and the look of the interface.
use vstd::prelude::*;
use vstd::string::*;

use crate::error::{AppError, AppErrorView};

verus! {

/// A directory on disk, as the operating system names it.
#[verifier::external_type_specification]
#[verifier::external_body]
pub struct ExPathBuf(std::path::PathBuf);

/// The per-user directories of an application.
#[verifier::external_type_specification]
#[verifier::external_body]
pub struct ExProjectDirs(directories::ProjectDirs);

/// `directories::ProjectDirs::from`: the directories of the application
/// named by the three parts, or none when no home directory can be found.
/// The outcome depends on the environment (the home directory and the XDG
/// variables), so nothing is stated of it.
#[verifier::external_body]
fn project_dirs_from(
    qualifier: &str,
    organization: &str,
    application: &str,
) -> Option<directories::ProjectDirs> {
    directories::ProjectDirs::from(qualifier, organization, application)
}

/// The configuration directory that a set of application directories holds.
pub uninterp spec fn config_dir_of(dirs: directories::ProjectDirs) -> std::path::PathBuf;

/// The path `base` extended by the component `name`.
pub uninterp spec fn joined_path(base: std::path::PathBuf, name: Seq<char>) -> std::path::PathBuf;

/// `directories::ProjectDirs::config_dir`: the application's configuration
/// directory, a field fixed when the directories were found, copied out.
/// The contract names it: the same directories give the same path.
#[verifier::external_body]
fn project_config_dir(dirs: &directories::ProjectDirs) -> (r: std::path::PathBuf)
    ensures
        r == config_dir_of(*dirs),
{
    dirs.config_dir().to_path_buf()
}

/// `std::path::Path::join`: `name` appended to `base` as a further
/// component. The contract names the result: the same base and name give
/// the same path.
#[verifier::external_body]
fn path_join(base: &std::path::PathBuf, name: &str) -> (r: std::path::PathBuf)
    ensures
        r == joined_path(*base, name@),
{
    base.join(name)
}

/// The GitHub connection: the token and the GraphQL endpoint.
#[derive(Debug)]
pub struct GitHubConfig {
    pub token: String,
    pub api_url: String,
}

/// The look of the interface.
#[derive(Debug)]
pub struct UiConfig {
    pub theme: String,
}

/// The whole configuration file.
#[derive(Debug)]
pub struct Settings {
    pub github: GitHubConfig,
    pub ui: UiConfig,
}

/// The endpoint used when the configuration names none.
pub open spec fn default_api_url_text() -> Seq<char> {
    "https://api.github.com/graphql"@
}

/// The theme used when the configuration names none.
pub open spec fn default_theme_text() -> Seq<char> {
    "default"@
}

/// The example configuration printed when none is found.
pub open spec fn example_text() -> Seq<char> {
    "[github]\ntoken = \"ghp_your_token_here\"\napi_url = \"https://api.github.com/graphql\"\n\n[ui]\ntheme = \"default\"\n"@
}

/// GitHub's GraphQL endpoint, used when the configuration names none.
pub fn default_api_url() -> (s: String)
    ensures
        s@ == default_api_url_text(),
{
    String::from_str("https://api.github.com/graphql")
}

/// The theme used when the configuration names none.
pub fn default_theme() -> (s: String)
    ensures
        s@ == default_theme_text(),
{
    String::from_str("default")
}

impl Default for UiConfig {
    fn default() -> (c: UiConfig)
        ensures
            c.theme@ == default_theme_text(),
    {
        UiConfig { theme: default_theme() }
    }
}

/// The qualifier, organization and application names under which the
/// configuration directory is looked up.
pub open spec fn config_dir_names() -> (Seq<char>, Seq<char>, Seq<char>) {
    ("com"@, "project-tui"@, "project-tui"@)
}

/// The name of the configuration file within its directory.
pub open spec fn config_file_text() -> Seq<char> {
    "config.toml"@
}

/// The names under which the configuration directory is looked up:
/// `com`, `project-tui`, `project-tui`.
pub fn config_names() -> (n: (&'static str, &'static str, &'static str))
    ensures
        (n.0@, n.1@, n.2@) == config_dir_names(),
{
    ("com", "project-tui", "project-tui")
}

/// The name of the configuration file: `config.toml`.
pub fn config_file_name() -> (s: &'static str)
    ensures
        s@ == config_file_text(),
{
    "config.toml"
}

/// The error given when no configuration directory can be determined.
pub open spec fn no_config_dir_error() -> AppErrorView {
    AppErrorView::Config("Failed to determine config directory"@)
}

impl Settings {
    /// An example configuration file, for the user to copy.
    pub fn example() -> (s: String)
        ensures
            s@ == example_text(),
    {
        String::from_str(
            "[github]\ntoken = \"ghp_your_token_here\"\napi_url = \"https://api.github.com/graphql\"\n\n[ui]\ntheme = \"default\"\n",
        )
    }

    /// Where the configuration file lives: `config.toml` in the per-user
    /// configuration directory looked up under `config_names`.
    pub fn config_path() -> (r: Result<std::path::PathBuf, AppError>)
        ensures
            r matches Err(e) ==> e@ == no_config_dir_error(),
            r matches Ok(p) ==> exists|d: directories::ProjectDirs|
                p == joined_path(#[trigger] config_dir_of(d), config_file_text()),
    {
        let (qualifier, organization, application) = config_names();
        let dirs = project_dirs_from(qualifier, organization, application);
        Self::config_path_from(dirs)
    }

    /// The configuration file within the given application directories, or
    /// the configuration error when there are none.
    pub fn config_path_from(dirs: Option<directories::ProjectDirs>) -> (r: Result<
        std::path::PathBuf,
        AppError,
    >)
        ensures
            r is Ok <==> dirs is Some,
            dirs matches Some(d) ==> r matches Ok(p) && p == joined_path(
                config_dir_of(d),
                config_file_text(),
            ),
            r matches Err(e) ==> e@ == no_config_dir_error(),
    {
        match dirs {
            Some(d) => {
                let dir = project_config_dir(&d);
                Ok(path_join(&dir, config_file_name()))
            },
            None => Err(AppError::config("Failed to determine config directory")),
        }
    }
}

/// The error when no configuration file exists at `path`.
pub fn load_not_found_error(path: &str) -> (e: AppError)
    ensures
        e@ == AppErrorView::Config(
            "Configuration file not found at: "@ + path@
                + "\nPlease create it with your GitHub token."@,
        ),
{
    let m = String::from_str("Configuration file not found at: ").concat(path).concat(
        "\nPlease create it with your GitHub token.",
    );
    AppError::Config(m)
}

/// The error when the configuration file at `path` cannot be read.
pub fn load_read_error(path: &str, cause: &str) -> (e: AppError)
    ensures
        e@ == AppErrorView::Config(
            "Failed to read config file at "@ + path@ + ": "@ + cause@,
        ),
{
    let m = String::from_str("Failed to read config file at ").concat(path).concat(": ").concat(
        cause,
    );
    AppError::Config(m)
}

/// The error when the configuration text is not a valid configuration.
pub fn load_parse_error(cause: &str) -> (e: AppError)
    ensures
        e@ == AppErrorView::Config("Failed to parse config file: "@ + cause@),
{
    AppError::Config(String::from_str("Failed to parse config file: ").concat(cause))
}

/// The error when the configuration directory `dir` cannot be created.
pub fn save_create_dir_error(dir: &str, cause: &str) -> (e: AppError)
    ensures
        e@ == AppErrorView::Config(
            "Failed to create config directory at "@ + dir@ + ": "@ + cause@,
        ),
{
    let m = String::from_str("Failed to create config directory at ").concat(dir).concat(
        ": ",
    ).concat(cause);
    AppError::Config(m)
}

/// The error when the configuration cannot be written out as text.
pub fn save_serialize_error(cause: &str) -> (e: AppError)
    ensures
        e@ == AppErrorView::Config("Failed to serialize config: "@ + cause@),
{
    AppError::Config(String::from_str("Failed to serialize config: ").concat(cause))
}

/// The error when the configuration file at `path` cannot be written.
pub fn save_write_error(path: &str, cause: &str) -> (e: AppError)
    ensures
        e@ == AppErrorView::Config(
            "Failed to write config file at "@ + path@ + ": "@ + cause@,
        ),
{
    let m = String::from_str("Failed to write config file at ").concat(path).concat(": ").concat(
        cause,
    );
    AppError::Config(m)
}

} // verus!
