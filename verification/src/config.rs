//! The configuration of the daemon.

use crate::data::Data;
use crate::error::{ErrorKind, NipartError, NipartErrorView};
use crate::options::NipartLogLevel;
use vstd::prelude::*;

verus! {

/// An option that the daemon recognizes.
#[derive(Clone, Copy, Debug, PartialEq, Eq, Structural)]
pub enum DaemonOption {
    /// The directory of the sockets of the daemon and its plugins.
    SocketDir,
    /// The verbosity of the log.
    LogLevel,
    /// The directory that is searched for plugins.
    PluginSearchPath,
}

impl DeepView for DaemonOption {
    type V = DaemonOption;

    open spec fn deep_view(&self) -> DaemonOption {
        *self
    }
}

impl Data for DaemonOption {
    fn same(&self, other: &Self) -> (b: bool) {
        *self == *other
    }

    fn dup(&self) -> (r: Self) {
        *self
    }
}

/// The configuration of the daemon.
#[derive(Debug, PartialEq)]
pub struct DaemonConfig {
    pub socket_dir: String,
    pub log_level: NipartLogLevel,
    pub plugin_search_path: String,
}

/// The mathematical value of a [`DaemonConfig`].
#[verifier::ext_equal]
pub struct DaemonConfigView {
    pub socket_dir: Seq<char>,
    pub log_level: NipartLogLevel,
    pub plugin_search_path: Seq<char>,
}

impl DeepView for DaemonConfig {
    type V = DaemonConfigView;

    open spec fn deep_view(&self) -> DaemonConfigView {
        DaemonConfigView {
            socket_dir: self.socket_dir.deep_view(),
            log_level: self.log_level.deep_view(),
            plugin_search_path: self.plugin_search_path.deep_view(),
        }
    }
}

impl View for DaemonConfig {
    type V = DaemonConfigView;

    open spec fn view(&self) -> DaemonConfigView {
        self.deep_view()
    }
}

impl Data for DaemonConfig {
    fn same(&self, other: &Self) -> (b: bool) {
        self.socket_dir.same(&other.socket_dir)
            && self.log_level.same(&other.log_level)
            && self.plugin_search_path.same(&other.plugin_search_path)
    }

    fn dup(&self) -> (r: Self) {
        DaemonConfig {
            socket_dir: self.socket_dir.dup(),
            log_level: self.log_level.dup(),
            plugin_search_path: self.plugin_search_path.dup(),
        }
    }
}

/// Whether two texts are the same.
fn same_text(a: &str, b: &str) -> (r: bool)
    ensures
        r == (a@ == b@),
{
    String::from_str(a).same(&String::from_str(b))
}

impl DaemonOption {
    /// The name an option is written as.
    pub open spec fn name_spec(self) -> Seq<char> {
        match self {
            DaemonOption::SocketDir => "socket_dir"@,
            DaemonOption::LogLevel => "log_level"@,
            DaemonOption::PluginSearchPath => "plugin_search_path"@,
        }
    }

    /// The option that a name stands for, if it stands for one.
    pub open spec fn named(name: Seq<char>) -> Option<DaemonOption> {
        if name == "socket_dir"@ {
            Some(DaemonOption::SocketDir)
        } else if name == "log_level"@ {
            Some(DaemonOption::LogLevel)
        } else if name == "plugin_search_path"@ {
            Some(DaemonOption::PluginSearchPath)
        } else {
            None
        }
    }

    /// The name this option is written as.
    pub fn name(&self) -> (s: &'static str)
        ensures
            s@ == self.name_spec(),
    {
        match self {
            DaemonOption::SocketDir => "socket_dir",
            DaemonOption::LogLevel => "log_level",
            DaemonOption::PluginSearchPath => "plugin_search_path",
        }
    }

    /// Recognizes an option by its name. Fails with `InvalidArgument` for
    /// a name that stands for no option.
    pub fn recognize(name: &str) -> (r: Result<DaemonOption, NipartError>)
        ensures
            match DaemonOption::named(name@) {
                Some(o) => r == Ok::<DaemonOption, NipartError>(o),
                None => r is Err && r->Err_0@ == unknown_option_view(name@),
            },
    {
        if same_text(name, "socket_dir") {
            Ok(DaemonOption::SocketDir)
        } else if same_text(name, "log_level") {
            Ok(DaemonOption::LogLevel)
        } else if same_text(name, "plugin_search_path") {
            Ok(DaemonOption::PluginSearchPath)
        } else {
            let mut msg = String::from_str("Unknown option '");
            msg.append(name);
            msg.append("'");
            Err(NipartError::new(ErrorKind::InvalidArgument, msg))
        }
    }
}

/// The error for a name that stands for no option.
pub open spec fn unknown_option_view(name: Seq<char>) -> NipartErrorView {
    NipartErrorView { kind: ErrorKind::InvalidArgument, msg: "Unknown option '"@ + name + "'"@ }
}

/// The error for a text that names no log level.
pub open spec fn unknown_level_view(text: Seq<char>) -> NipartErrorView {
    NipartErrorView { kind: ErrorKind::InvalidArgument, msg: "Unknown log level '"@ + text + "'"@ }
}

/// The log level that a text names, if it names one.
pub open spec fn level_named(text: Seq<char>) -> Option<NipartLogLevel> {
    if text == "off"@ {
        Some(NipartLogLevel::Off)
    } else if text == "error"@ {
        Some(NipartLogLevel::Error)
    } else if text == "warn"@ {
        Some(NipartLogLevel::Warn)
    } else if text == "info"@ {
        Some(NipartLogLevel::Info)
    } else if text == "debug"@ {
        Some(NipartLogLevel::Debug)
    } else if text == "trace"@ {
        Some(NipartLogLevel::Trace)
    } else {
        None
    }
}

/// Reads a log level. Fails with `InvalidArgument` for a text that names
/// none.
pub fn parse_log_level(text: &str) -> (r: Result<NipartLogLevel, NipartError>)
    ensures
        match level_named(text@) {
            Some(l) => r == Ok::<NipartLogLevel, NipartError>(l),
            None => r is Err && r->Err_0@ == unknown_level_view(text@),
        },
{
    if same_text(text, "off") {
        Ok(NipartLogLevel::Off)
    } else if same_text(text, "error") {
        Ok(NipartLogLevel::Error)
    } else if same_text(text, "warn") {
        Ok(NipartLogLevel::Warn)
    } else if same_text(text, "info") {
        Ok(NipartLogLevel::Info)
    } else if same_text(text, "debug") {
        Ok(NipartLogLevel::Debug)
    } else if same_text(text, "trace") {
        Ok(NipartLogLevel::Trace)
    } else {
        let mut msg = String::from_str("Unknown log level '");
        msg.append(text);
        msg.append("'");
        Err(NipartError::new(ErrorKind::InvalidArgument, msg))
    }
}

impl DaemonConfigView {
    /// The configuration of a daemon that was told nothing.
    pub open spec fn default_config() -> DaemonConfigView {
        DaemonConfigView {
            socket_dir: "/run/nipart"@,
            log_level: NipartLogLevel::Info,
            plugin_search_path: "/usr/lib/nipart/plugins"@,
        }
    }

    /// This configuration after an option was set, or the error for an
    /// option that is not recognized or a value that cannot be read.
    pub open spec fn with(self, name: Seq<char>, value: Seq<char>) -> Result<
        DaemonConfigView,
        NipartErrorView,
    > {
        match DaemonOption::named(name) {
            Some(DaemonOption::SocketDir) => Ok(DaemonConfigView { socket_dir: value, ..self }),
            Some(DaemonOption::LogLevel) => match level_named(value) {
                Some(l) => Ok(DaemonConfigView { log_level: l, ..self }),
                None => Err(unknown_level_view(value)),
            },
            Some(DaemonOption::PluginSearchPath) => Ok(
                DaemonConfigView { plugin_search_path: value, ..self },
            ),
            None => Err(unknown_option_view(name)),
        }
    }

    /// This configuration after the options of a list were set, first to
    /// last, or the error of the first that cannot be set.
    pub open spec fn with_all(self, options: Seq<(Seq<char>, Seq<char>)>) -> Result<
        DaemonConfigView,
        NipartErrorView,
    >
        decreases options.len(),
    {
        if options.len() == 0 {
            Ok(self)
        } else {
            match self.with_all(options.drop_last()) {
                Ok(c) => c.with(options.last().0, options.last().1),
                Err(e) => Err(e),
            }
        }
    }
}

impl DaemonConfig {
    /// The configuration of a daemon that was told nothing.
    pub fn new() -> (r: Self)
        ensures
            r@ == DaemonConfigView::default_config(),
    {
        DaemonConfig {
            socket_dir: String::from_str("/run/nipart"),
            log_level: NipartLogLevel::Info,
            plugin_search_path: String::from_str("/usr/lib/nipart/plugins"),
        }
    }

    /// Sets an option. An option that is not recognized is rejected with
    /// `InvalidArgument`, as is a log level that cannot be read; the
    /// configuration then stays as it is.
    pub fn set(&mut self, name: &str, value: &str) -> (r: Result<(), NipartError>)
        ensures
            match old(self)@.with(name@, value@) {
                Ok(c) => r is Ok && final(self)@ == c,
                Err(e) => r is Err && r->Err_0@ == e && final(self)@ == old(self)@,
            },
    {
        match DaemonOption::recognize(name)? {
            DaemonOption::SocketDir => {
                self.socket_dir = String::from_str(value);
            },
            DaemonOption::LogLevel => {
                self.log_level = parse_log_level(value)?;
            },
            DaemonOption::PluginSearchPath => {
                self.plugin_search_path = String::from_str(value);
            },
        }
        Ok(())
    }

    /// The configuration that a list of options, each a name and a value,
    /// states. The first option that cannot be set is rejected.
    pub fn from_options(options: &Vec<(String, String)>) -> (r: Result<DaemonConfig, NipartError>)
        ensures
            match DaemonConfigView::default_config().with_all(options.deep_view()) {
                Ok(c) => r is Ok && r->Ok_0@ == c,
                Err(e) => r is Err && r->Err_0@ == e,
            },
    {
        let mut config = DaemonConfig::new();
        let mut i: usize = 0;
        assert(options.deep_view().take(0) =~= Seq::empty());
        while i < options.len()
            invariant
                i <= options.len(),
                DaemonConfigView::default_config().with_all(options.deep_view().take(i as int))
                    == Ok::<DaemonConfigView, NipartErrorView>(config@),
            decreases options.len() - i,
        {
            assert(options.deep_view().take(i + 1).drop_last() =~= options.deep_view().take(
                i as int,
            ));
            assert(options.deep_view().take(i + 1).last() == options[i as int].deep_view());
            match config.set(options[i].0.as_str(), options[i].1.as_str()) {
                Ok(()) => {},
                Err(e) => {
                    proof {
                        lemma_with_all_fails(
                            DaemonConfigView::default_config(),
                            options.deep_view(),
                            i as int + 1,
                        );
                    }
                    return Err(e);
                },
            }
            i += 1;
        }
        assert(options.deep_view().take(options.len() as int) =~= options.deep_view());
        Ok(config)
    }
}

/// Once the options of a front part of a list met an error, the whole list
/// meets it.
pub proof fn lemma_with_all_fails(
    c: DaemonConfigView,
    options: Seq<(Seq<char>, Seq<char>)>,
    n: int,
)
    requires
        0 <= n <= options.len(),
        c.with_all(options.take(n)) is Err,
    ensures
        c.with_all(options) == c.with_all(options.take(n)),
    decreases options.len() - n,
{
    if n < options.len() {
        assert(options.take(n + 1).drop_last() =~= options.take(n));
        lemma_with_all_fails(c, options, n + 1);
    } else {
        assert(options.take(n) =~= options);
    }
}

} // verus!
