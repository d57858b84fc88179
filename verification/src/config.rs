//! The application configuration values and their accessors. Reading
//! and parsing the configuration file is the runtime's work; the values
//! land here as plain fields, with the documented defaults.

use vstd::prelude::*;

verus! {

/// Identity of the application.
pub struct AppSettings {
    pub name: String,
    pub version: String,
}

/// Where the store lives and whether it is seeded.
pub struct DatabaseSettings {
    pub path: String,
    pub create_sample_data: Option<bool>,
}

/// The window of the shell.
pub struct WindowSettings {
    pub title: String,
}

/// How the process logs.
pub struct LoggingSettings {
    pub level: String,
    pub file: String,
    pub append: Option<bool>,
    pub format: Option<String>,
    pub max_file_size: Option<u64>,
    pub max_files: Option<usize>,
}

/// The whole configuration of the shell.
pub struct AppConfig {
    pub app: AppSettings,
    pub database: DatabaseSettings,
    pub window: WindowSettings,
    pub logging: LoggingSettings,
}

impl Default for AppConfig {
    /// The built-in configuration, used when no file is found or parsed.
    fn default() -> (c: Self)
        ensures
            c.app.name@ == "Rust WebUI Application"@,
            c.app.version@ == "1.0.0"@,
            c.database.path@ == "app.db"@,
            c.database.create_sample_data == Some(true),
            c.window.title@ == "Rust WebUI Application"@,
            c.logging.level@ == "info"@,
            c.logging.file@ == "application.log"@,
            c.logging.append == Some(true),
            c.logging.format matches Some(f) && f@ == "text"@,
            c.logging.max_file_size == Some(10485760u64),
            c.logging.max_files == Some(5usize),
    {
        AppConfig {
            app: AppSettings {
                name: String::from_str("Rust WebUI Application"),
                version: String::from_str("1.0.0"),
            },
            database: DatabaseSettings {
                path: String::from_str("app.db"),
                create_sample_data: Some(true),
            },
            window: WindowSettings { title: String::from_str("Rust WebUI Application") },
            logging: LoggingSettings {
                level: String::from_str("info"),
                file: String::from_str("application.log"),
                append: Some(true),
                format: Some(String::from_str("text")),
                max_file_size: Some(10485760),
                max_files: Some(5),
            },
        }
    }
}

impl AppConfig {
    /// The application name.
    pub fn get_app_name(&self) -> (r: &str)
        ensures
            r@ == self.app.name@,
    {
        self.app.name.as_str()
    }

    /// The application version.
    pub fn get_version(&self) -> (r: &str)
        ensures
            r@ == self.app.version@,
    {
        self.app.version.as_str()
    }

    /// The store path.
    pub fn get_db_path(&self) -> (r: &str)
        ensures
            r@ == self.database.path@,
    {
        self.database.path.as_str()
    }

    /// Whether sample rows are seeded; true unless switched off.
    pub fn should_create_sample_data(&self) -> (r: bool)
        ensures
            r == match self.database.create_sample_data {
                Some(b) => b,
                None => true,
            },
    {
        match self.database.create_sample_data {
            Some(b) => b,
            None => true,
        }
    }

    /// The window title.
    pub fn get_window_title(&self) -> (r: &str)
        ensures
            r@ == self.window.title@,
    {
        self.window.title.as_str()
    }

    /// The logging level.
    pub fn get_log_level(&self) -> (r: &str)
        ensures
            r@ == self.logging.level@,
    {
        self.logging.level.as_str()
    }

    /// The log file name.
    pub fn get_log_file(&self) -> (r: &str)
        ensures
            r@ == self.logging.file@,
    {
        self.logging.file.as_str()
    }

    /// Whether the log is appended to; true unless switched off.
    pub fn is_append_log(&self) -> (r: bool)
        ensures
            r == match self.logging.append {
                Some(b) => b,
                None => true,
            },
    {
        match self.logging.append {
            Some(b) => b,
            None => true,
        }
    }

    /// The log format, "text" when none is set.
    pub fn get_log_format(&self) -> (r: &str)
        ensures
            r@ == match self.logging.format {
                Some(f) => f@,
                None => "text"@,
            },
    {
        match &self.logging.format {
            Some(f) => f.as_str(),
            None => "text",
        }
    }

    /// The rotation size bound, 10 MiB when none is set.
    pub fn get_max_file_size(&self) -> (r: u64)
        ensures
            r == match self.logging.max_file_size {
                Some(n) => n,
                None => 10485760u64,
            },
    {
        match self.logging.max_file_size {
            Some(n) => n,
            None => 10485760,
        }
    }

    /// How many rotated files are kept, 5 when none is set.
    pub fn get_max_files(&self) -> (r: usize)
        ensures
            r == match self.logging.max_files {
                Some(n) => n,
                None => 5usize,
            },
    {
        match self.logging.max_files {
            Some(n) => n,
            None => 5,
        }
    }
}

} // verus!
