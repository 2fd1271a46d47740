use vstd::prelude::*;

verus! {

/// Where the platform's own document store lives.
pub struct Database {
    pub url: String,
    pub name: String,
}

/// Secrets and lifetimes of the signed access tokens.
pub struct JWT {
    pub user_secret: String,
    pub service_secret: String,
    pub user_max_age: i32,
}

/// Password hashing and root-user settings.
pub struct Security {
    pub password_salt: String,
    pub root_user_password: String,
    pub auto_update_root_user: bool,
}

/// Credentials of outbound notification channels.
pub struct Connections {
    pub telegram_token: String,
}

/// The service's configuration file.
pub struct Config {
    pub database: Database,
    pub jwt: JWT,
    pub security: Security,
    pub connections: Connections,
}

/// The configuration file to read: the first command-line argument after the
/// program name, or `config.toml` when there is none.
pub fn config_path(args: &Vec<String>) -> (r: String)
    ensures
        args@.len() <= 1 ==> r@ == "config.toml"@,
        args@.len() > 1 ==> r@ == args@[1]@,
{
    if args.len() <= 1 {
        String::from_str("config.toml")
    } else {
        args[1].clone()
    }
}

} // verus!
