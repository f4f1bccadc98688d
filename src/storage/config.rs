//! The stored form of a connection profile and its conversion into a
//! [`Connection`]. Passwords are kept apart from the row and passed in.

use crate::models::connection::{
    Connection, ConnectionInput, DbType, SshAuthMethod, SshConfig, SslConfig,
};
use crate::text::same_text;
use vstd::prelude::*;

verus! {

/// One row of the profile store, as the store holds it.
#[derive(Debug, Clone)]
pub struct ConnectionRow {
    pub id: String,
    pub name: String,
    pub db_type: String,
    pub host: String,
    pub port: i32,
    pub username: String,
    pub database_name: String,
    pub ssh_enabled: i32,
    pub ssh_host: Option<String>,
    pub ssh_port: Option<i32>,
    pub ssh_username: Option<String>,
    pub ssh_auth_method: Option<String>,
    pub ssh_private_key_path: Option<String>,
    pub ssl_enabled: i32,
    pub ssl_ca_cert_path: Option<String>,
    pub ssl_client_cert_path: Option<String>,
    pub ssl_client_key_path: Option<String>,
    pub ssl_verify_server: i32,
    pub created_at: String,
    pub updated_at: String,
}

/// The database kind a stored name denotes; an unknown name means MySQL.
pub open spec fn db_type_named(s: Seq<char>) -> DbType {
    if s == "postgresql"@ {
        DbType::PostgreSQL
    } else if s == "mariadb"@ {
        DbType::MariaDB
    } else {
        DbType::MySQL
    }
}

/// The text of an optional string, or the empty text.
pub open spec fn text_or_empty(o: Option<String>) -> Seq<char> {
    match o {
        Some(s) => s@,
        None => Seq::empty(),
    }
}

/// Whether `o` holds exactly the text `t`.
pub open spec fn holds_text(o: Option<String>, t: Seq<char>) -> bool {
    match o {
        Some(s) => s@ == t,
        None => false,
    }
}

/// How the SSH login is described: by password, by private key, or (for an
/// unknown or missing method) by an empty password.
pub open spec fn auth_method_matches(
    a: SshAuthMethod,
    method: Option<String>,
    key_path: Option<String>,
    ssh_password: Option<String>,
    ssh_passphrase: Option<String>,
) -> bool {
    if holds_text(method, "password"@) {
        a matches SshAuthMethod::Password { password } && password@ == text_or_empty(ssh_password)
    } else if holds_text(method, "privatekey"@) {
        a matches SshAuthMethod::PrivateKey { private_key_path, passphrase }
            && private_key_path@ == text_or_empty(key_path) && passphrase == ssh_passphrase
    } else {
        a matches SshAuthMethod::Password { password } && password@ == Seq::<char>::empty()
    }
}

fn or_empty(o: Option<String>) -> (r: String)
    ensures
        r@ == text_or_empty(o),
{
    match o {
        Some(s) => s,
        None => String::new(),
    }
}

fn is_text(o: &Option<String>, t: &str) -> (r: bool)
    ensures
        r == holds_text(*o, t@),
{
    match o {
        Some(s) => same_text(s.as_str(), t),
        None => false,
    }
}

impl ConnectionRow {
    /// Builds the profile this row describes. SSH settings exist only when
    /// `ssh_enabled` is 1, SSL settings only when `ssl_enabled` is 1; a
    /// missing SSH port means 22, and SSL verifies the server only when
    /// `ssl_verify_server` is 1.
    pub fn into_connection(
        self,
        password: String,
        ssh_password: Option<String>,
        ssh_passphrase: Option<String>,
    ) -> (r: Connection)
        ensures
            r.id == self.id,
            r.name == self.name,
            r.db_type == db_type_named(self.db_type@),
            r.host == self.host,
            r.port == self.port as u16,
            r.username == self.username,
            r.password == password,
            r.database == self.database_name,
            r.created_at == self.created_at,
            r.updated_at == self.updated_at,
            self.ssh_enabled == 1 <==> r.ssh_config is Some,
            r.ssh_config matches Some(ssh) ==> {
                &&& ssh.enabled
                &&& ssh.host@ == text_or_empty(self.ssh_host)
                &&& ssh.port == (match self.ssh_port {
                    Some(p) => p,
                    None => 22i32,
                }) as u16
                &&& ssh.username@ == text_or_empty(self.ssh_username)
                &&& auth_method_matches(
                    ssh.auth_method,
                    self.ssh_auth_method,
                    self.ssh_private_key_path,
                    ssh_password,
                    ssh_passphrase,
                )
            },
            self.ssl_enabled == 1 <==> r.ssl_config is Some,
            r.ssl_config matches Some(ssl) ==> {
                &&& ssl.enabled
                &&& ssl.ca_cert_path == self.ssl_ca_cert_path
                &&& ssl.client_cert_path == self.ssl_client_cert_path
                &&& ssl.client_key_path == self.ssl_client_key_path
                &&& ssl.verify_server == (self.ssl_verify_server == 1)
            },
    {
        let db_type = if same_text(self.db_type.as_str(), "mysql") {
            DbType::MySQL
        } else if same_text(self.db_type.as_str(), "postgresql") {
            DbType::PostgreSQL
        } else if same_text(self.db_type.as_str(), "mariadb") {
            DbType::MariaDB
        } else {
            DbType::MySQL
        };
        proof {
            if self.db_type@ == "mysql"@ {
                reveal_strlit("mysql");
                reveal_strlit("postgresql");
                reveal_strlit("mariadb");
                assert("mysql"@ != "postgresql"@) by {
                    assert("mysql"@.len() != "postgresql"@.len());
                }
                assert("mysql"@ != "mariadb"@) by {
                    assert("mysql"@[1] != "mariadb"@[1]);
                }
            }
        }

        let ssh_config = if self.ssh_enabled == 1 {
            let auth_method = if is_text(&self.ssh_auth_method, "password") {
                SshAuthMethod::Password { password: or_empty(ssh_password) }
            } else if is_text(&self.ssh_auth_method, "privatekey") {
                SshAuthMethod::PrivateKey {
                    private_key_path: or_empty(self.ssh_private_key_path),
                    passphrase: ssh_passphrase,
                }
            } else {
                SshAuthMethod::Password { password: String::new() }
            };
            let port: i32 = match self.ssh_port {
                Some(p) => p,
                None => 22,
            };
            Some(
                SshConfig {
                    enabled: true,
                    host: or_empty(self.ssh_host),
                    port: port as u16,
                    username: or_empty(self.ssh_username),
                    auth_method,
                },
            )
        } else {
            None
        };

        let ssl_config = if self.ssl_enabled == 1 {
            Some(
                SslConfig {
                    enabled: true,
                    ca_cert_path: self.ssl_ca_cert_path,
                    client_cert_path: self.ssl_client_cert_path,
                    client_key_path: self.ssl_client_key_path,
                    verify_server: self.ssl_verify_server == 1,
                },
            )
        } else {
            None
        };

        Connection {
            id: self.id,
            name: self.name,
            db_type,
            host: self.host,
            port: self.port as u16,
            username: self.username,
            password,
            database: self.database_name,
            ssh_config,
            ssl_config,
            created_at: self.created_at,
            updated_at: self.updated_at,
        }
    }
}

/// The name under which a database kind is stored.
pub open spec fn db_type_text(t: DbType) -> Seq<char> {
    match t {
        DbType::MySQL => "mysql"@,
        DbType::PostgreSQL => "postgresql"@,
        DbType::MariaDB => "mariadb"@,
    }
}

/// The name under which `t` is stored.
pub fn db_type_name(t: DbType) -> (r: String)
    ensures
        r@ == db_type_text(t),
{
    match t {
        DbType::MySQL => String::from_str("mysql"),
        DbType::PostgreSQL => String::from_str("postgresql"),
        DbType::MariaDB => String::from_str("mariadb"),
    }
}

/// Reading back a stored kind name gives the kind that was stored.
pub proof fn lemma_db_type_round_trip(t: DbType)
    ensures
        db_type_named(db_type_text(t)) == t,
{
    reveal_strlit("mysql");
    reveal_strlit("postgresql");
    reveal_strlit("mariadb");
    assert("mysql"@.len() != "postgresql"@.len());
    assert("mariadb"@.len() != "postgresql"@.len());
    assert("mysql"@[1] != "mariadb"@[1]);
}

/// The secret-store key of a connection's SSH password.
pub open spec fn ssh_password_key_text(id: Seq<char>) -> Seq<char> {
    id + "_ssh"@
}

/// The secret-store key of a connection's SSH key passphrase.
pub open spec fn ssh_passphrase_key_text(id: Seq<char>) -> Seq<char> {
    id + "_ssh_passphrase"@
}

pub fn ssh_password_key(id: &str) -> (r: String)
    ensures
        r@ == ssh_password_key_text(id@),
{
    let mut out = String::from_str(id);
    out.append("_ssh");
    out
}

pub fn ssh_passphrase_key(id: &str) -> (r: String)
    ensures
        r@ == ssh_passphrase_key_text(id@),
{
    let mut out = String::from_str(id);
    out.append("_ssh_passphrase");
    out
}

/// The SSH settings in force: those of an enabled SSH configuration.
pub open spec fn enabled_ssh(input: ConnectionInput) -> Option<SshConfig> {
    match input.ssh_config {
        Some(ssh) => if ssh.enabled {
            Some(ssh)
        } else {
            None
        },
        None => None,
    }
}

/// The SSL settings in force: those of an enabled SSL configuration.
pub open spec fn enabled_ssl(input: ConnectionInput) -> Option<SslConfig> {
    match input.ssl_config {
        Some(ssl) => if ssl.enabled {
            Some(ssl)
        } else {
            None
        },
        None => None,
    }
}

/// The SSH secret a profile keeps, with its key: the password of password
/// login, or the passphrase of key login when there is one.
pub open spec fn ssh_secret(input: ConnectionInput, id: Seq<char>) -> Option<(Seq<char>, Seq<char>)> {
    match enabled_ssh(input) {
        Some(ssh) => match ssh.auth_method {
            SshAuthMethod::Password { password } => Some((ssh_password_key_text(id), password@)),
            SshAuthMethod::PrivateKey { passphrase, .. } => match passphrase {
                Some(pp) => Some((ssh_passphrase_key_text(id), pp@)),
                None => None,
            },
        },
        None => None,
    }
}

/// A secret to keep in the secret store, under its key.
#[derive(Debug, Clone)]
pub struct StoredSecret {
    pub key: String,
    pub secret: String,
}

impl ConnectionInput {
    /// The secrets a new profile with this id keeps outside its row: the SSH
    /// password or key passphrase (when SSH is enabled and has one), then the
    /// database password.
    pub fn secrets(&self, id: &str) -> (r: Vec<StoredSecret>)
        ensures
            r@.len() >= 1,
            r@.last().key@ == id@,
            r@.last().secret@ == self.password@,
            r@.len() == (if ssh_secret(*self, id@) is Some {
                2nat
            } else {
                1nat
            }),
            ssh_secret(*self, id@) matches Some((k, v)) ==> r@[0].key@ == k && r@[0].secret@ == v,
    {
        let mut out: Vec<StoredSecret> = Vec::new();
        match &self.ssh_config {
            Some(ssh) => {
                if ssh.enabled {
                    match &ssh.auth_method {
                        SshAuthMethod::Password { password } => {
                            out.push(StoredSecret { key: ssh_password_key(id), secret: password.clone() });
                        },
                        SshAuthMethod::PrivateKey { passphrase, .. } => {
                            match passphrase {
                                Some(pp) => {
                                    out.push(
                                        StoredSecret { key: ssh_passphrase_key(id), secret: pp.clone() },
                                    );
                                },
                                None => {},
                            }
                        },
                    }
                }
            },
            None => {},
        }
        out.push(StoredSecret { key: String::from_str(id), secret: self.password.clone() });
        out
    }
}

/// Whether `o` holds a string with the text `t`.
pub open spec fn opt_is(o: Option<String>, t: Seq<char>) -> bool {
    match o {
        Some(s) => s@ == t,
        None => false,
    }
}

fn clone_opt(o: &Option<String>) -> (r: Option<String>)
    ensures
        r == *o,
{
    match o {
        Some(s) => Some(s.clone()),
        None => None,
    }
}

impl ConnectionRow {
    /// Whether the profile logs in to SSH with a stored password.
    pub fn uses_ssh_password(&self) -> (r: bool)
        ensures
            r == (self.ssh_enabled == 1 && holds_text(self.ssh_auth_method, "password"@)),
    {
        self.ssh_enabled == 1 && is_text(&self.ssh_auth_method, "password")
    }

    /// Whether the profile logs in to SSH with a key whose passphrase is stored.
    pub fn uses_ssh_passphrase(&self) -> (r: bool)
        ensures
            r == (self.ssh_enabled == 1 && holds_text(self.ssh_auth_method, "privatekey"@)),
    {
        self.ssh_enabled == 1 && is_text(&self.ssh_auth_method, "privatekey")
    }

    /// The row that stores `input` as a new profile `id`, created and updated
    /// at `now`. Disabled SSH or SSL settings are stored as absent; secrets
    /// are not part of the row.
    pub fn from_input(input: &ConnectionInput, id: String, now: String) -> (r: ConnectionRow)
        ensures
            r.id == id,
            r.name@ == input.name@,
            r.db_type@ == db_type_text(input.db_type),
            r.host@ == input.host@,
            r.port == input.port as i32,
            r.username@ == input.username@,
            r.database_name@ == input.database@,
            r.created_at == now,
            r.updated_at == now,
            r.ssh_enabled == (if enabled_ssh(*input) is Some {
                1i32
            } else {
                0i32
            }),
            match enabled_ssh(*input) {
                Some(ssh) => {
                    &&& r.ssh_host == Some(ssh.host)
                    &&& r.ssh_port == Some(ssh.port as i32)
                    &&& r.ssh_username == Some(ssh.username)
                    &&& match ssh.auth_method {
                        SshAuthMethod::Password { .. } => opt_is(r.ssh_auth_method, "password"@)
                            && r.ssh_private_key_path is None,
                        SshAuthMethod::PrivateKey { private_key_path, .. } => opt_is(
                            r.ssh_auth_method,
                            "privatekey"@,
                        ) && r.ssh_private_key_path == Some(private_key_path),
                    }
                },
                None => r.ssh_host is None && r.ssh_port is None && r.ssh_username is None
                    && r.ssh_auth_method is None && r.ssh_private_key_path is None,
            },
            r.ssl_enabled == (if enabled_ssl(*input) is Some {
                1i32
            } else {
                0i32
            }),
            match enabled_ssl(*input) {
                Some(ssl) => {
                    &&& r.ssl_ca_cert_path == ssl.ca_cert_path
                    &&& r.ssl_client_cert_path == ssl.client_cert_path
                    &&& r.ssl_client_key_path == ssl.client_key_path
                    &&& r.ssl_verify_server == (if ssl.verify_server {
                        1i32
                    } else {
                        0i32
                    })
                },
                None => r.ssl_ca_cert_path is None && r.ssl_client_cert_path is None
                    && r.ssl_client_key_path is None && r.ssl_verify_server == 1,
            },
    {
        let mut ssh_enabled: i32 = 0;
        let mut ssh_host: Option<String> = None;
        let mut ssh_port: Option<i32> = None;
        let mut ssh_username: Option<String> = None;
        let mut ssh_auth_method: Option<String> = None;
        let mut ssh_private_key_path: Option<String> = None;
        match &input.ssh_config {
            Some(ssh) => {
                if ssh.enabled {
                    ssh_enabled = 1;
                    ssh_host = Some(ssh.host.clone());
                    ssh_port = Some(ssh.port as i32);
                    ssh_username = Some(ssh.username.clone());
                    match &ssh.auth_method {
                        SshAuthMethod::Password { .. } => {
                            ssh_auth_method = Some(String::from_str("password"));
                        },
                        SshAuthMethod::PrivateKey { private_key_path, .. } => {
                            ssh_auth_method = Some(String::from_str("privatekey"));
                            ssh_private_key_path = Some(private_key_path.clone());
                        },
                    }
                }
            },
            None => {},
        }
        let mut ssl_enabled: i32 = 0;
        let mut ssl_ca_cert_path: Option<String> = None;
        let mut ssl_client_cert_path: Option<String> = None;
        let mut ssl_client_key_path: Option<String> = None;
        let mut ssl_verify_server: i32 = 1;
        match &input.ssl_config {
            Some(ssl) => {
                if ssl.enabled {
                    ssl_enabled = 1;
                    ssl_ca_cert_path = clone_opt(&ssl.ca_cert_path);
                    ssl_client_cert_path = clone_opt(&ssl.client_cert_path);
                    ssl_client_key_path = clone_opt(&ssl.client_key_path);
                    ssl_verify_server = if ssl.verify_server {
                        1
                    } else {
                        0
                    };
                }
            },
            None => {},
        }
        ConnectionRow {
            id,
            name: input.name.clone(),
            db_type: db_type_name(input.db_type),
            host: input.host.clone(),
            port: input.port as i32,
            username: input.username.clone(),
            database_name: input.database.clone(),
            ssh_enabled,
            ssh_host,
            ssh_port,
            ssh_username,
            ssh_auth_method,
            ssh_private_key_path,
            ssl_enabled,
            ssl_ca_cert_path,
            ssl_client_cert_path,
            ssl_client_key_path,
            ssl_verify_server,
            created_at: now.clone(),
            updated_at: now,
        }
    }
}

} // verus!
