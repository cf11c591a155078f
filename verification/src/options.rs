//! Configuration options for the engine and probe invocations.

use vstd::prelude::*;

use crate::kvlist::KvList;

verus! {

/// Engine log levels.
#[derive(Debug, Clone, Copy, PartialEq, Eq, Structural)]
pub enum LogLevel {
    /// Show nothing at all.
    Quiet,
    /// Show all messages.
    Verbose,
    /// Show informational messages.
    Info,
    /// Show warning messages.
    Warning,
    /// Show error messages only.
    Error,
    /// Show fatal errors only.
    Fatal,
    /// Show debug information.
    Debug,
}

/// Options for the engine invocation.
#[derive(Debug, Clone, PartialEq, Eq)]
pub struct FFmpegOptions {
    /// Path of the engine binary.
    pub binary_path: String,
    /// Log level handed to the engine.
    pub log_level: LogLevel,
    /// Whether to overwrite output files.
    pub overwrite: bool,
    /// Whether to print the command before running it.
    pub debug: bool,
    /// Whether to only print the command instead of running it.
    pub dry_run: bool,
    /// Additional arguments, in order.
    pub custom_args: Vec<String>,
    /// Environment variables for the engine process.
    pub env_vars: KvList,
}

/// Options for the probe invocation.
#[derive(Debug, Clone, PartialEq, Eq)]
pub struct FFprobeOptions {
    /// Path of the probe binary.
    pub binary_path: String,
    /// Whether to request JSON output.
    pub json_format: bool,
    /// Whether to request stream records.
    pub show_streams: bool,
    /// Whether to request the format record.
    pub show_format: bool,
    /// Additional arguments, in order.
    pub custom_args: Vec<String>,
    /// Environment variables for the probe process.
    pub env_vars: KvList,
}

/// Combined engine and probe options.
#[derive(Debug, Clone, PartialEq, Eq)]
pub struct CluvOptions {
    /// Engine options.
    pub ffmpeg: FFmpegOptions,
    /// Probe options.
    pub ffprobe: FFprobeOptions,
}

impl LogLevel {
    /// The command-line name of a log level.
    pub open spec fn name_view(self) -> Seq<char> {
        match self {
            LogLevel::Quiet => "quiet"@,
            LogLevel::Verbose => "verbose"@,
            LogLevel::Info => "info"@,
            LogLevel::Warning => "warning"@,
            LogLevel::Error => "error"@,
            LogLevel::Fatal => "fatal"@,
            LogLevel::Debug => "debug"@,
        }
    }

    /// The command-line argument for this log level.
    pub fn as_str(&self) -> (r: &'static str)
        ensures
            r@ == self.name_view(),
    {
        match self {
            LogLevel::Quiet => "quiet",
            LogLevel::Verbose => "verbose",
            LogLevel::Info => "info",
            LogLevel::Warning => "warning",
            LogLevel::Error => "error",
            LogLevel::Fatal => "fatal",
            LogLevel::Debug => "debug",
        }
    }
}

impl Default for LogLevel {
    /// The default level reports errors only.
    fn default() -> (r: LogLevel)
        ensures
            r == LogLevel::Error,
    {
        LogLevel::Error
    }
}

impl FFmpegOptions {
    /// Create options with the defaults: the binary on the path, errors
    /// only, overwriting enabled.
    pub fn new() -> (r: FFmpegOptions)
        ensures
            r.binary_path@ == "ffmpeg"@,
            r.log_level == LogLevel::Error,
            r.overwrite,
            !r.debug,
            !r.dry_run,
            r.custom_args@.len() == 0,
            r.env_vars.entries@.len() == 0,
    {
        FFmpegOptions {
            binary_path: String::from_str("ffmpeg"),
            log_level: LogLevel::Error,
            overwrite: true,
            debug: false,
            dry_run: false,
            custom_args: Vec::new(),
            env_vars: KvList::new(),
        }
    }

    /// Set the engine binary path.
    pub fn binary_path(self, path: &str) -> (r: FFmpegOptions)
        ensures
            r == (FFmpegOptions { binary_path: r.binary_path, ..self }),
            r.binary_path@ == path@,
    {
        FFmpegOptions { binary_path: String::from_str(path), ..self }
    }

    /// Set the log level.
    pub fn log_level(self, level: LogLevel) -> (r: FFmpegOptions)
        ensures
            r == (FFmpegOptions { log_level: level, ..self }),
    {
        FFmpegOptions { log_level: level, ..self }
    }

    /// Enable or disable overwriting output files.
    pub fn overwrite(self, overwrite: bool) -> (r: FFmpegOptions)
        ensures
            r == (FFmpegOptions { overwrite, ..self }),
    {
        FFmpegOptions { overwrite, ..self }
    }

    /// Enable or disable printing the command before running it.
    pub fn debug(self, debug: bool) -> (r: FFmpegOptions)
        ensures
            r == (FFmpegOptions { debug, ..self }),
    {
        FFmpegOptions { debug, ..self }
    }

    /// Enable or disable dry-run mode.
    pub fn dry_run(self, dry_run: bool) -> (r: FFmpegOptions)
        ensures
            r == (FFmpegOptions { dry_run, ..self }),
    {
        FFmpegOptions { dry_run, ..self }
    }

    /// Append one custom argument.
    pub fn add_arg(self, arg: &str) -> (r: FFmpegOptions)
        ensures
            r == (FFmpegOptions { custom_args: r.custom_args, ..self }),
            r.custom_args@.len() == self.custom_args@.len() + 1,
            r.custom_args@.drop_last() == self.custom_args@,
            r.custom_args@.last()@ == arg@,
    {
        let mut args = self.custom_args;
        args.push(String::from_str(arg));
        let r = FFmpegOptions { custom_args: args, ..self };
        assert(r.custom_args@.drop_last() =~= self.custom_args@);
        r
    }

    /// Append several custom arguments, in order.
    pub fn add_args(self, args: Vec<String>) -> (r: FFmpegOptions)
        ensures
            r == (FFmpegOptions { custom_args: r.custom_args, ..self }),
            r.custom_args@ == self.custom_args@ + args@,
    {
        let mut all = self.custom_args;
        let mut rest = args;
        all.append(&mut rest);
        FFmpegOptions { custom_args: all, ..self }
    }

    /// Set an environment variable for the engine process.
    pub fn env_var(self, key: &str, value: &str) -> (r: FFmpegOptions)
        ensures
            r == (FFmpegOptions { env_vars: r.env_vars, ..self }),
            r.env_vars.entries@.len() >= 1,
            r.env_vars.entries@.last().0@ == key@ && r.env_vars.entries@.last().1@ == value@,
    {
        let mut env = self.env_vars;
        env.insert(key, value);
        FFmpegOptions { env_vars: env, ..self }
    }
}

impl Default for FFmpegOptions {
    /// The default options: see `new`.
    fn default() -> (r: FFmpegOptions)
        ensures
            r.binary_path@ == "ffmpeg"@,
            r.log_level == LogLevel::Error,
            r.overwrite && !r.debug && !r.dry_run,
            r.custom_args@.len() == 0,
            r.env_vars.entries@.len() == 0,
    {
        FFmpegOptions::new()
    }
}

impl FFprobeOptions {
    /// Create options with the defaults: the binary on the path, JSON
    /// output with streams and format.
    pub fn new() -> (r: FFprobeOptions)
        ensures
            r.binary_path@ == "ffprobe"@,
            r.json_format,
            r.show_streams,
            r.show_format,
            r.custom_args@.len() == 0,
            r.env_vars.entries@.len() == 0,
    {
        FFprobeOptions {
            binary_path: String::from_str("ffprobe"),
            json_format: true,
            show_streams: true,
            show_format: true,
            custom_args: Vec::new(),
            env_vars: KvList::new(),
        }
    }

    /// Set the probe binary path.
    pub fn binary_path(self, path: &str) -> (r: FFprobeOptions)
        ensures
            r == (FFprobeOptions { binary_path: r.binary_path, ..self }),
            r.binary_path@ == path@,
    {
        FFprobeOptions { binary_path: String::from_str(path), ..self }
    }

    /// Enable or disable JSON output.
    pub fn json_format(self, json: bool) -> (r: FFprobeOptions)
        ensures
            r == (FFprobeOptions { json_format: json, ..self }),
    {
        FFprobeOptions { json_format: json, ..self }
    }

    /// Enable or disable stream records.
    pub fn show_streams(self, show: bool) -> (r: FFprobeOptions)
        ensures
            r == (FFprobeOptions { show_streams: show, ..self }),
    {
        FFprobeOptions { show_streams: show, ..self }
    }

    /// Enable or disable the format record.
    pub fn show_format(self, show: bool) -> (r: FFprobeOptions)
        ensures
            r == (FFprobeOptions { show_format: show, ..self }),
    {
        FFprobeOptions { show_format: show, ..self }
    }

    /// Append one custom argument.
    pub fn add_arg(self, arg: &str) -> (r: FFprobeOptions)
        ensures
            r == (FFprobeOptions { custom_args: r.custom_args, ..self }),
            r.custom_args@.len() == self.custom_args@.len() + 1,
            r.custom_args@.drop_last() == self.custom_args@,
            r.custom_args@.last()@ == arg@,
    {
        let mut args = self.custom_args;
        args.push(String::from_str(arg));
        let r = FFprobeOptions { custom_args: args, ..self };
        assert(r.custom_args@.drop_last() =~= self.custom_args@);
        r
    }

    /// Append several custom arguments, in order.
    pub fn add_args(self, args: Vec<String>) -> (r: FFprobeOptions)
        ensures
            r == (FFprobeOptions { custom_args: r.custom_args, ..self }),
            r.custom_args@ == self.custom_args@ + args@,
    {
        let mut all = self.custom_args;
        let mut rest = args;
        all.append(&mut rest);
        FFprobeOptions { custom_args: all, ..self }
    }

    /// Set an environment variable for the probe process.
    pub fn env_var(self, key: &str, value: &str) -> (r: FFprobeOptions)
        ensures
            r == (FFprobeOptions { env_vars: r.env_vars, ..self }),
            r.env_vars.entries@.len() >= 1,
            r.env_vars.entries@.last().0@ == key@ && r.env_vars.entries@.last().1@ == value@,
    {
        let mut env = self.env_vars;
        env.insert(key, value);
        FFprobeOptions { env_vars: env, ..self }
    }
}

impl Default for FFprobeOptions {
    /// The default options: see `new`.
    fn default() -> (r: FFprobeOptions)
        ensures
            r.binary_path@ == "ffprobe"@,
            r.json_format && r.show_streams && r.show_format,
            r.custom_args@.len() == 0,
            r.env_vars.entries@.len() == 0,
    {
        FFprobeOptions::new()
    }
}

impl CluvOptions {
    /// Create combined options with the defaults.
    pub fn new() -> (r: CluvOptions)
        ensures
            r.ffmpeg.binary_path@ == "ffmpeg"@,
            r.ffprobe.binary_path@ == "ffprobe"@,
    {
        CluvOptions { ffmpeg: FFmpegOptions::new(), ffprobe: FFprobeOptions::new() }
    }

    /// Replace the engine options.
    pub fn ffmpeg_options(self, options: FFmpegOptions) -> (r: CluvOptions)
        ensures
            r == (CluvOptions { ffmpeg: options, ..self }),
    {
        CluvOptions { ffmpeg: options, ..self }
    }

    /// Replace the probe options.
    pub fn ffprobe_options(self, options: FFprobeOptions) -> (r: CluvOptions)
        ensures
            r == (CluvOptions { ffprobe: options, ..self }),
    {
        CluvOptions { ffprobe: options, ..self }
    }

    /// Rewrite the engine options through the given function.
    pub fn with_ffmpeg<F: FnOnce(FFmpegOptions) -> FFmpegOptions>(self, f: F) -> (r: CluvOptions)
        requires
            f.requires((self.ffmpeg,)),
        ensures
            f.ensures((self.ffmpeg,), r.ffmpeg),
            r.ffprobe == self.ffprobe,
    {
        let ffprobe = self.ffprobe;
        let ffmpeg = f(self.ffmpeg);
        CluvOptions { ffmpeg, ffprobe }
    }

    /// Rewrite the probe options through the given function.
    pub fn with_ffprobe<F: FnOnce(FFprobeOptions) -> FFprobeOptions>(self, f: F) -> (r:
        CluvOptions)
        requires
            f.requires((self.ffprobe,)),
        ensures
            f.ensures((self.ffprobe,), r.ffprobe),
            r.ffmpeg == self.ffmpeg,
    {
        let ffmpeg = self.ffmpeg;
        let ffprobe = f(self.ffprobe);
        CluvOptions { ffmpeg, ffprobe }
    }
}

impl Default for CluvOptions {
    /// The default options: see `new`.
    fn default() -> (r: CluvOptions)
        ensures
            r.ffmpeg.binary_path@ == "ffmpeg"@,
            r.ffprobe.binary_path@ == "ffprobe"@,
    {
        CluvOptions::new()
    }
}

} // verus!
