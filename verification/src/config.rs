//! Application configuration as plain data.
//!
//! Reading environment variables and `.env` files is I/O and stays outside
//! the verified core; what stands here is the shape of the configuration,
//! the environment names, and the message for a missing variable.

use vstd::prelude::*;
use vstd::string::StringExecFns;

verus! {

/// Which environment the application runs in.
#[derive(Clone, Copy, PartialEq, Eq, Structural, Debug)]
pub enum Environment {
    Production,
    Development,
    Test,
}

impl Environment {
    /// Reads an environment from its lower-case name; any other text names
    /// no environment.
    pub fn from_text(text: &str) -> (r: Option<Environment>)
        ensures
            r == Some(Environment::Production) <==> text@ == "prod"@,
            r == Some(Environment::Development) <==> text@ == "dev"@,
            r == Some(Environment::Test) <==> text@ == "test"@,
    {
        proof {
            reveal_strlit("prod");
            reveal_strlit("dev");
            reveal_strlit("test");
            assert("prod"@ != "dev"@) by {
                assert("prod"@.len() == 4);
                assert("dev"@.len() == 3);
            }
            assert("prod"@ != "test"@) by {
                assert("prod"@[0] == 'p');
                assert("test"@[0] == 't');
            }
            assert("dev"@ != "test"@) by {
                assert("dev"@.len() == 3);
                assert("test"@.len() == 4);
            }
        }
        let t = text.to_owned();
        if t == "prod".to_owned() {
            Some(Environment::Production)
        } else if t == "dev".to_owned() {
            Some(Environment::Development)
        } else if t == "test".to_owned() {
            Some(Environment::Test)
        } else {
            None
        }
    }
}

/// The application's own name and version.
#[derive(Debug)]
pub struct Application {
    pub name: String,
    pub version: String,
}

/// Everything the program needs to start: the environment, the port to
/// listen on, how to reach and sign in to the store, and the application
/// identity. Assembled at startup from the process environment.
#[derive(Debug)]
pub struct Config {
    pub env: Environment,
    pub port: u16,
    pub db_url: String,
    pub db_namespace: String,
    pub db_name: String,
    pub db_username: String,
    pub db_password: String,
    pub app: Application,
}

/// Fixed application-wide values.
pub struct Constant {
    pub app_name: String,
}

impl Constant {
    pub fn new() -> (r: Self)
        ensures
            r.app_name@ == "APPLICATION NAME GOES HERE"@,
    {
        Constant { app_name: "APPLICATION NAME GOES HERE".to_owned() }
    }
}

impl Default for Constant {
    fn default() -> (r: Self)
        ensures
            r.app_name@ == "APPLICATION NAME GOES HERE"@,
    {
        Constant::new()
    }
}

/// The report for a configuration variable that must be set but is not.
pub fn error_message(prefix: &str) -> (r: String)
    ensures
        r@ == prefix@ + " is required env variable!"@,
{
    let mut message = prefix.to_owned();
    message.append(" is required env variable!");
    message
}

} // verus!
