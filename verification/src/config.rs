//! Configuration values and the command-line overrides applied to them.

use vstd::prelude::*;

verus! {

/// Command-line arguments, already parsed by the surrounding binary.
#[derive(Debug)]
pub struct Args {
    /// Configuration file.
    pub config: Option<String>,
    /// Server address.
    pub server: Option<String>,
    /// Authentication or delete token.
    pub auth: Option<String>,
    /// URL to shorten.
    pub url: Option<String>,
    /// Remote URL to download file.
    pub remote: Option<String>,
    /// Files to upload.
    pub files: Vec<String>,
    /// Whether the file will disappear after being viewed once.
    pub oneshot: bool,
    /// Expiration time for the link.
    pub expire: Option<String>,
    /// Filename override sent to the server.
    pub filename: Option<String>,
    /// Prettify the program output.
    pub prettify: bool,
    /// Whether the server version should be printed.
    pub print_server_version: bool,
    /// List files on the server.
    pub list_files: bool,
    /// Delete files from server.
    pub delete: bool,
}

impl Default for Args {
    /// An `Args` with nothing requested.
    fn default() -> (r: Self)
        ensures
            r.config is None,
            r.server is None,
            r.auth is None,
            r.url is None,
            r.remote is None,
            r.files@.len() == 0,
            !r.oneshot,
            r.expire is None,
            r.filename is None,
            !r.prettify,
            !r.print_server_version,
            !r.list_files,
            !r.delete,
    {
        Args {
            config: None,
            server: None,
            auth: None,
            url: None,
            remote: None,
            files: Vec::new(),
            oneshot: false,
            expire: None,
            filename: None,
            prettify: false,
            print_server_version: false,
            list_files: false,
            delete: false,
        }
    }
}

/// Server configuration.
#[derive(Debug, Clone)]
pub struct ServerConfig {
    /// Server address.
    pub address: String,
    /// Token for authentication.
    pub auth_token: Option<String>,
    /// A file containing the token for authentication.
    ///
    /// Leading and trailing whitespace will be trimmed.
    pub auth_token_file: Option<String>,
    /// Token for deleting files.
    pub delete_token: Option<String>,
    /// A file containing the token for deleting files.
    ///
    /// Leading and trailing whitespace will be trimmed.
    pub delete_token_file: Option<String>,
}

impl Default for ServerConfig {
    /// A server configuration with an empty address and no tokens.
    fn default() -> (r: Self)
        ensures
            r.address@.len() == 0,
            r.auth_token is None,
            r.auth_token_file is None,
            r.delete_token is None,
            r.delete_token_file is None,
    {
        ServerConfig {
            address: String::new(),
            auth_token: None,
            auth_token_file: None,
            delete_token: None,
            delete_token_file: None,
        }
    }
}

/// Paste configuration.
#[derive(Debug, Clone)]
pub struct PasteConfig {
    /// Whether the file will disappear after being viewed once.
    pub oneshot: Option<bool>,
    /// Expiration time for the link.
    pub expire: Option<String>,
    /// Filename override sent to the server.
    pub filename: Option<String>,
}

impl Default for PasteConfig {
    /// A paste configuration with nothing set.
    fn default() -> (r: Self)
        ensures
            r.oneshot is None,
            r.expire is None,
            r.filename is None,
    {
        PasteConfig { oneshot: None, expire: None, filename: None }
    }
}

/// Style configuration.
#[derive(Debug, Clone)]
pub struct StyleConfig {
    /// Whether the output will be prettified.
    pub prettify: bool,
}

impl Default for StyleConfig {
    /// A style configuration with prettifying off.
    fn default() -> (r: Self)
        ensures
            !r.prettify,
    {
        StyleConfig { prettify: false }
    }
}

/// Configuration values.
#[derive(Debug, Clone)]
pub struct Config {
    /// Server configuration.
    pub server: ServerConfig,
    /// Paste configuration.
    pub paste: PasteConfig,
    /// Style configuration.
    pub style: Option<StyleConfig>,
}

impl Default for Config {
    /// A configuration with every part at its default.
    fn default() -> (r: Self)
        ensures
            r.server.address@.len() == 0,
            r.server.auth_token is None,
            r.server.auth_token_file is None,
            r.server.delete_token is None,
            r.server.delete_token_file is None,
            r.paste.oneshot is None,
            r.paste.expire is None,
            r.paste.filename is None,
            r.style is None,
    {
        Config {
            server: ServerConfig::default(),
            paste: PasteConfig::default(),
            style: None,
        }
    }
}

impl Config {
    /// Override the configuration with command-line arguments: an
    /// argument that was given replaces the configured value, one that
    /// was not leaves it untouched.  The authentication token doubles
    /// as the delete token when deletion was requested.
    pub fn update_from_args(&mut self, args: &Args)
        ensures
            (match args.server {
                Some(a) => final(self).server.address == a,
                None => final(self).server.address == old(self).server.address,
            }),
            (match args.auth {
                Some(a) => final(self).server.auth_token == Some(a),
                None => final(self).server.auth_token == old(self).server.auth_token,
            }),
            (match args.auth {
                Some(a) => {
                    if args.delete {
                        final(self).server.delete_token == Some(a)
                    } else {
                        final(self).server.delete_token == old(self).server.delete_token
                    }
                },
                None => final(self).server.delete_token == old(self).server.delete_token,
            }),
            final(self).paste.oneshot == (if args.oneshot {
                Some(true)
            } else {
                old(self).paste.oneshot
            }),
            (match args.expire {
                Some(e) => final(self).paste.expire == Some(e),
                None => final(self).paste.expire == old(self).paste.expire,
            }),
            (match args.filename {
                Some(f) => final(self).paste.filename == Some(f),
                None => final(self).paste.filename == old(self).paste.filename,
            }),
            final(self).server.auth_token_file == old(self).server.auth_token_file,
            final(self).server.delete_token_file == old(self).server.delete_token_file,
            final(self).style == old(self).style,
    {
        if let Some(server_address) = &args.server {
            self.server.address = server_address.clone();
        }
        if let Some(auth) = &args.auth {
            self.server.auth_token = Some(auth.clone());
            if args.delete {
                self.server.delete_token = Some(auth.clone());
            }
        }
        if args.oneshot {
            self.paste.oneshot = Some(true);
        }
        if let Some(expire) = &args.expire {
            self.paste.expire = Some(expire.clone());
        }
        if let Some(filename) = &args.filename {
            self.paste.filename = Some(filename.clone());
        }
    }
}

} // verus!
