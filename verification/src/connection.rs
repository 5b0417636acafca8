//! How to reach the store: the address to connect to, and what to do where
//! a setting is missing.
//!
//! The settings are the user, the password and the host. Each comes from a
//! variable of the environment, which the caller reads. A setting that could
//! not be read is replaced by the word `NULL`, and so is every setting after
//! it: the connection is still attempted, and the store refuses it.

use vstd::prelude::*;

verus! {

/// A setting of the connection.
#[derive(Clone, Copy, Debug, PartialEq, Eq, Structural)]
pub enum Variable {
    User,
    Password,
    Host,
}

impl Variable {
    /// The name of the variable that holds the setting.
    pub open spec fn name(self) -> Seq<char> {
        match self {
            Variable::User => "DB_USER"@,
            Variable::Password => "DB_PASSWORD"@,
            Variable::Host => "DB_HOST"@,
        }
    }
}

/// The name of the variable that holds `variable`.
pub fn variable_name(variable: Variable) -> (name: &'static str)
    ensures
        name@ == variable.name(),
{
    match variable {
        Variable::User => "DB_USER",
        Variable::Password => "DB_PASSWORD",
        Variable::Host => "DB_HOST",
    }
}

/// The names under which the three settings are looked up, in the order
/// user, password, host.
///
/// Where the settings file could not be loaded, the host is looked up
/// under `VAR_HOST`.
pub open spec fn lookup_names(file_loaded: bool) -> (Seq<char>, Seq<char>, Seq<char>) {
    (
        Variable::User.name(),
        Variable::Password.name(),
        if file_loaded {
            Variable::Host.name()
        } else {
            "VAR_HOST"@
        },
    )
}

/// The names under which the three settings are looked up, given whether the
/// settings file was loaded.
pub fn variable_names(file_loaded: bool) -> (names: (&'static str, &'static str, &'static str))
    ensures
        (names.0@, names.1@, names.2@) == lookup_names(file_loaded),
{
    (
        variable_name(Variable::User),
        variable_name(Variable::Password),
        if file_loaded {
            variable_name(Variable::Host)
        } else {
            "VAR_HOST"
        },
    )
}

/// The address of the store for these settings.
pub open spec fn url_text(user: Seq<char>, password: Seq<char>, host: Seq<char>) -> Seq<char> {
    "mysql://"@ + user + ":"@ + password + "@"@ + host
}

/// The address of the store for these settings.
pub fn connection_url(user: &str, password: &str, host: &str) -> (url: String)
    ensures
        url@ == url_text(user@, password@, host@),
{
    let mut url = String::from_str("mysql://");
    url.append(user);
    url.append(":");
    url.append(password);
    url.append("@");
    url.append(host);
    url
}

/// Where to connect, and the first setting that could not be read, with the
/// error that came instead of it.
#[derive(Debug, PartialEq, Eq)]
pub struct ConnectionPlan<E> {
    pub url: String,
    pub missing: Option<(Variable, E)>,
}

/// What stands for a setting that could not be read.
pub open spec fn placeholder() -> Seq<char> {
    "NULL"@
}

/// The address to connect to, given what reading each setting gave.
pub open spec fn planned_url<E>(
    user: Result<Seq<char>, E>,
    password: Result<Seq<char>, E>,
    host: Result<Seq<char>, E>,
) -> Seq<char> {
    match (user, password, host) {
        (Ok(u), Ok(p), Ok(h)) => url_text(u, p, h),
        (Ok(u), Ok(p), Err(_)) => url_text(u, p, placeholder()),
        (Ok(u), Err(_), _) => url_text(u, placeholder(), placeholder()),
        (Err(_), _, _) => url_text(placeholder(), placeholder(), placeholder()),
    }
}

/// The first setting that could not be read, in the order user, password,
/// host, with its error.
pub open spec fn first_missing<E>(
    user: Result<Seq<char>, E>,
    password: Result<Seq<char>, E>,
    host: Result<Seq<char>, E>,
) -> Option<(Variable, E)> {
    match (user, password, host) {
        (Err(e), _, _) => Some((Variable::User, e)),
        (Ok(_), Err(e), _) => Some((Variable::Password, e)),
        (Ok(_), Ok(_), Err(e)) => Some((Variable::Host, e)),
        (Ok(_), Ok(_), Ok(_)) => None,
    }
}

/// What reading a setting gave, with the text as characters.
pub open spec fn read_view<E>(read: Result<String, E>) -> Result<Seq<char>, E> {
    match read {
        Ok(text) => Ok(text@),
        Err(e) => Err(e),
    }
}

/// Decides how to connect, given what reading the user, the password and the
/// host gave.
///
/// The plan names the first setting that could not be read, for the caller to
/// report. That setting and those after it are replaced by `NULL` in the
/// address, also where a later one was read.
pub fn connect<E>(
    data: (Result<String, E>, Result<String, E>, Result<String, E>),
) -> (plan: ConnectionPlan<E>)
    ensures
        plan.url@ == planned_url(read_view(data.0), read_view(data.1), read_view(data.2)),
        plan.missing == first_missing(read_view(data.0), read_view(data.1), read_view(data.2)),
{
    match data.0 {
        Ok(user) => match data.1 {
            Ok(password) => match data.2 {
                Ok(host) => ConnectionPlan {
                    url: connection_url(user.as_str(), password.as_str(), host.as_str()),
                    missing: None,
                },
                Err(e) => ConnectionPlan {
                    url: connection_url(user.as_str(), password.as_str(), "NULL"),
                    missing: Some((Variable::Host, e)),
                },
            },
            Err(e) => ConnectionPlan {
                url: connection_url(user.as_str(), "NULL", "NULL"),
                missing: Some((Variable::Password, e)),
            },
        },
        Err(e) => ConnectionPlan {
            url: connection_url("NULL", "NULL", "NULL"),
            missing: Some((Variable::User, e)),
        },
    }
}

} // verus!
