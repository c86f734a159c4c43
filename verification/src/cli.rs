//! What the service is configured with when it starts.

use vstd::prelude::*;
use vstd::string::StringExecFns;

verus! {

/// The capacity of the order buffer where none is given.
pub const DEFAULT_CACHE_SIZE: usize = 500;

/// The address on which the service listens where none is given.
pub fn default_socket_addr() -> (addr: &'static str)
    ensures
        addr@ == "127.0.0.1:3000"@,
{
    "127.0.0.1:3000"
}

/// The settings of one run of the service. They are read once, at the start,
/// and stay as they are.
#[derive(Debug)]
pub struct CLIArgs {
    /// The socket address on which the service listens.
    pub socket_addr: String,
    /// The most orders that wait in memory before they are saved.
    pub cache_size: usize,
    /// The host of the database.
    pub host_name: String,
    /// The user as whom the service connects to the database.
    pub user_name: String,
    /// The name of the database.
    pub db_name: String,
    /// The password of that user.
    pub password: String,
}

/// The parameters of a connection in the form that the database client takes:
/// four settings, each a key, `=` and the value, with a space between them.
pub open spec fn connection_text(
    host: Seq<char>,
    username: Seq<char>,
    dbname: Seq<char>,
    password: Seq<char>,
) -> Seq<char> {
    "host="@ + host + " user="@ + username + " dbname="@ + dbname + " password="@ + password
}

/// Writes the parameters of a connection in the form that the database
/// client takes. The values are written as they are.
pub fn connection_string(host: &str, username: &str, dbname: &str, password: &str) -> (text: String)
    ensures
        text@ == connection_text(host@, username@, dbname@, password@),
{
    let mut text = String::from_str("host=");
    text.append(host);
    text.append(" user=");
    text.append(username);
    text.append(" dbname=");
    text.append(dbname);
    text.append(" password=");
    text.append(password);
    text
}

impl CLIArgs {
    /// The parameters of the connection to the database that these settings
    /// name.
    pub fn connection_string(&self) -> (text: String)
        ensures
            text@ == connection_text(
                self.host_name@,
                self.user_name@,
                self.db_name@,
                self.password@,
            ),
    {
        connection_string(
            self.host_name.as_str(),
            self.user_name.as_str(),
            self.db_name.as_str(),
            self.password.as_str(),
        )
    }
}

} // verus!
